//! G-SYNC operations over scripted driver replies.

use nvapi::enumerate::EnumFailure;
use nvapi::enums::{
    DelayType, DisplaySyncState, Polarity, SyncSource, TopologyConnector, VideoMode, RJ45_IO,
};
use nvapi::gsync::{GSyncDevice, PhysicalGpu, TopologyRound};
use nvapi::gsync_types::{NV_GSYNC_DISPLAY, NV_GSYNC_GPU};
use nvapi::handles::{NvGSyncDeviceHandle, NvPhysicalGpuHandle};
use nvapi::status::{Status, RAW_NOT_SUPPORTED, RAW_OK};
use nvapi::version::{version_tag, StructKind, NVAPI_MAX_GSYNC_DEVICES};

#[test]
fn test_gsync_device_creation() {
    let device = GSyncDevice::new(NvGSyncDeviceHandle::from_raw(0x1234));
    assert!(!device.handle().is_null());
    assert_eq!(device.handle().addr, 0x1234);
}

#[test]
fn test_gsync_enum_sync_devices() {
    let mut buffer = GSyncDevice::sync_devices_request();
    assert_eq!(buffer.len(), NVAPI_MAX_GSYNC_DEVICES);
    assert!(buffer.iter().all(|h| h.is_null()));
    // The driver found two devices and wrote their handles.
    buffer[0] = NvGSyncDeviceHandle::from_raw(0xA);
    buffer[1] = NvGSyncDeviceHandle::from_raw(0xB);
    let devices = GSyncDevice::enum_sync_devices(RAW_OK, &buffer, 2).unwrap();
    assert_eq!(devices.len(), 2);
    assert_eq!(devices[0].handle().addr, 0xA);
    assert_eq!(devices[1].handle().addr, 0xB);
}

#[test]
fn enum_sync_devices_empty_is_success() {
    let buffer = GSyncDevice::sync_devices_request();
    let devices = GSyncDevice::enum_sync_devices(RAW_OK, &buffer, 0).unwrap();
    assert!(devices.is_empty());
}

#[test]
fn enum_sync_devices_errors() {
    let buffer = GSyncDevice::sync_devices_request();
    assert_eq!(
        GSyncDevice::enum_sync_devices(RAW_NOT_SUPPORTED, &buffer, 0),
        Err(Status::NotSupported)
    );
    // A count beyond the fixed buffer is never read past.
    assert_eq!(
        GSyncDevice::enum_sync_devices(RAW_OK, &buffer, 99),
        Err(Status::InsufficientBuffer)
    );
}

#[test]
fn test_gsync_query_capabilities() {
    let device = GSyncDevice::new(NvGSyncDeviceHandle::from_raw(1));
    let mut caps = GSyncDevice::capabilities_request();
    assert_eq!(caps.version, version_tag(StructKind::GsyncCapabilitiesV2));
    // The driver fills the capability bits.
    caps.boardId = 0x358;
    caps.capFlags = 0x1;
    let got = device.query_capabilities(RAW_OK, &caps).unwrap();
    assert_eq!(got.boardId, 0x358);
    assert_eq!(got.capFlags, 0x1);
    assert_eq!(
        device.query_capabilities(RAW_NOT_SUPPORTED, &caps),
        Err(Status::NotSupported)
    );
}

fn filled_gpu(addr: u64) -> NV_GSYNC_GPU {
    let mut gpu = NV_GSYNC_GPU::zeroed();
    gpu.version = version_tag(StructKind::GsyncGpu);
    gpu.hPhysicalGpu = NvPhysicalGpuHandle::from_raw(addr);
    gpu
}

fn filled_display(id: u32, state: DisplaySyncState) -> NV_GSYNC_DISPLAY {
    let mut d = NV_GSYNC_DISPLAY::zeroed();
    d.version = version_tag(StructKind::GsyncDisplay);
    d.displayId = id;
    d.syncState = state.raw();
    d
}

#[test]
fn test_gsync_get_topology() {
    let device = GSyncDevice::new(NvGSyncDeviceHandle::from_raw(1));
    let (gpu_buf, disp_buf) = GSyncDevice::topology_request(1, 2);
    assert_eq!(gpu_buf.len(), 1);
    assert_eq!(disp_buf.len(), 2);
    assert!(gpu_buf.iter().all(|g| g.version == version_tag(StructKind::GsyncGpu)));
    assert!(disp_buf.iter().all(|d| d.version == version_tag(StructKind::GsyncDisplay)));

    let round = TopologyRound {
        count_status: RAW_OK,
        gpu_count: 1,
        display_count: 2,
        fill_status: RAW_OK,
        gpus: vec![filled_gpu(0x77)],
        displays: vec![
            filled_display(100, DisplaySyncState::Master),
            filled_display(101, DisplaySyncState::Slave),
        ],
        reported_gpu_count: 1,
        reported_display_count: 2,
    };
    let (gpus, displays) = device.get_topology(&vec![round]).unwrap();
    assert_eq!(gpus.len(), 1);
    assert_eq!(displays.len(), 2);
    assert_eq!(displays[0].displayId, 100);
    assert_eq!(displays[1].syncState, DisplaySyncState::Slave.raw());
}

#[test]
fn topology_shrink_truncates_both_buffers() {
    let device = GSyncDevice::new(NvGSyncDeviceHandle::from_raw(1));
    let round = TopologyRound {
        count_status: RAW_OK,
        gpu_count: 2,
        display_count: 3,
        fill_status: RAW_OK,
        gpus: vec![filled_gpu(0x1), filled_gpu(0x2)],
        displays: vec![
            filled_display(1, DisplaySyncState::Unsynced),
            filled_display(2, DisplaySyncState::Unsynced),
            filled_display(3, DisplaySyncState::Unsynced),
        ],
        reported_gpu_count: 1,
        reported_display_count: 1,
    };
    let (gpus, displays) = device.get_topology(&vec![round]).unwrap();
    assert_eq!(gpus.len(), 1);
    assert_eq!(displays.len(), 1);
}

#[test]
fn topology_zero_counts_return_empty() {
    let device = GSyncDevice::new(NvGSyncDeviceHandle::from_raw(1));
    let round = TopologyRound {
        count_status: RAW_OK,
        gpu_count: 0,
        display_count: 0,
        fill_status: RAW_OK,
        gpus: vec![],
        displays: vec![],
        reported_gpu_count: 0,
        reported_display_count: 0,
    };
    let (gpus, displays) = device.get_topology(&vec![round]).unwrap();
    assert!(gpus.is_empty());
    assert!(displays.is_empty());
}

#[test]
fn topology_growth_exhausts_into_changed() {
    let device = GSyncDevice::new(NvGSyncDeviceHandle::from_raw(1));
    let grow = || TopologyRound {
        count_status: RAW_OK,
        gpu_count: 1,
        display_count: 1,
        fill_status: RAW_OK,
        gpus: vec![filled_gpu(0x1)],
        displays: vec![filled_display(1, DisplaySyncState::Unsynced)],
        reported_gpu_count: 5,
        reported_display_count: 1,
    };
    let rounds = vec![grow(), grow(), grow()];
    assert_eq!(
        device.get_topology(&rounds),
        Err(EnumFailure::TopologyChanged)
    );
}

#[test]
fn test_gsync_set_sync_state_settings() {
    let device = GSyncDevice::new(NvGSyncDeviceHandle::from_raw(1));
    let entries = device.set_sync_state_settings(&vec![
        (100, DisplaySyncState::Master),
        (101, DisplaySyncState::Slave),
    ]);
    assert_eq!(entries.len(), 2);
    assert_eq!(entries[0].version, version_tag(StructKind::GsyncDisplay));
    assert_eq!(entries[0].displayId, 100);
    assert_eq!(entries[0].syncState, DisplaySyncState::Master.raw());
    assert_eq!(entries[1].syncState, DisplaySyncState::Slave.raw());

    // The raw fix-up tags unset entries and leaves tagged ones alone.
    let mut raw = vec![NV_GSYNC_DISPLAY::zeroed(), entries[0]];
    GSyncDevice::set_sync_state_settings_raw(&mut raw);
    assert_eq!(raw[0].version, version_tag(StructKind::GsyncDisplay));
    assert_eq!(raw[1], entries[0]);
}

#[test]
fn set_sync_state_settings_from_topology_is_minimal() {
    let device = GSyncDevice::new(NvGSyncDeviceHandle::from_raw(1));
    let mut seen = filled_display(42, DisplaySyncState::Master);
    seen.isMasterable = 1;  // driver-owned capability bit from the snapshot
    let entries = device.set_sync_state_settings_from_topology(&vec![seen]);
    assert_eq!(entries.len(), 1);
    assert_eq!(entries[0].displayId, 42);
    assert_eq!(entries[0].syncState, DisplaySyncState::Master.raw());
    // Driver-owned fields are left untouched at zero, not copied.
    assert_eq!(entries[0].isMasterable, 0);
    assert_eq!(entries[0].version, version_tag(StructKind::GsyncDisplay));
}

#[test]
fn test_gsync_get_control_parameters() {
    let device = GSyncDevice::new(NvGSyncDeviceHandle::from_raw(1));
    let mut params = GSyncDevice::control_parameters_request();
    assert_eq!(params.version, version_tag(StructKind::GsyncControlParams));
    params.polarity = Polarity::RisingEdge.raw();
    params.vmode = VideoMode::NoVideoMode.raw();
    params.interval = 0;
    params.source = SyncSource::VSync.raw();
    let got = device.get_control_parameters(RAW_OK, &params).unwrap();
    assert_eq!(got, params);
}

#[test]
fn test_gsync_set_control_parameters() {
    // A no-op write: set the parameters to the values just read back.
    let device = GSyncDevice::new(NvGSyncDeviceHandle::from_raw(1));
    let mut filled = GSyncDevice::control_parameters_request();
    filled.interval = 1;
    filled.source = SyncSource::HouseSync.raw();
    let read = device.get_control_parameters(RAW_OK, &filled).unwrap();

    // Building the update from the read-back values changes nothing.
    let request = GSyncDevice::set_control_parameters_request(&read);
    assert_eq!(request, read);

    // The driver accepts it and reports the same values applied.
    let applied = device.set_control_parameters(RAW_OK, &request).unwrap();
    assert_eq!(applied, read);
}

#[test]
fn set_control_parameters_request_tags_unset_versions() {
    let mut untagged = GSyncDevice::control_parameters_request();
    untagged.version = 0;
    let request = GSyncDevice::set_control_parameters_request(&untagged);
    assert_eq!(request.version, version_tag(StructKind::GsyncControlParams));
}

#[test]
fn test_gsync_adjust_sync_delay() {
    let device = GSyncDevice::new(NvGSyncDeviceHandle::from_raw(1));
    assert_eq!(device.adjust_sync_delay(RAW_OK, 50), Ok(Some(50)));
    assert_eq!(
        device.adjust_sync_delay(RAW_NOT_SUPPORTED, 0),
        Err(Status::NotSupported)
    );
    assert_eq!(DelayType::SyncSkew.raw(), 1);
    assert_eq!(DelayType::Startup.raw(), 2);
}

#[test]
fn test_gsync_get_sync_status() {
    let device = GSyncDevice::new(NvGSyncDeviceHandle::from_raw(1));
    let gpu = PhysicalGpu::new(NvPhysicalGpuHandle::from_raw(0x99));
    let mut filled = GSyncDevice::sync_status_request();
    assert_eq!(filled.version, version_tag(StructKind::GsyncStatus));
    filled.bIsSynced = 1;
    let got = device.get_sync_status(&gpu, RAW_OK, &filled).unwrap();
    assert_eq!(got.bIsSynced, 1);
    assert_eq!(got.bIsStereoSynced, 0);
}

#[test]
fn test_gsync_get_status_parameters() {
    let device = GSyncDevice::new(NvGSyncDeviceHandle::from_raw(1));
    let mut params = GSyncDevice::status_parameters_request();
    // The default request is V1, for broad hardware compatibility.
    assert_eq!(params.version, version_tag(StructKind::GsyncStatusParamsV1));
    params.refreshRate = 60;
    let got = device.get_status_parameters(RAW_OK, &params).unwrap();
    assert_eq!(got.refreshRate, 60);
    let v2 = GSyncDevice::status_parameters_request_v2();
    assert_eq!(v2.version, version_tag(StructKind::GsyncStatusParamsV2));
}

#[test]
fn test_gsync_get_physical_gpus() {
    let device = GSyncDevice::new(NvGSyncDeviceHandle::from_raw(1));
    let mut proxied = NV_GSYNC_GPU::zeroed();
    proxied.hProxyPhysicalGpu = NvPhysicalGpuHandle::from_raw(0xBEEF);
    let direct = filled_gpu(0x77);
    let gpus = device.get_physical_gpus(&vec![direct, proxied]);
    assert_eq!(gpus.len(), 2);
    // The primary reference is preferred; the proxy stands in only when
    // the primary is the null sentinel.
    assert_eq!(gpus[0].handle().addr, 0x77);
    assert_eq!(gpus[1].handle().addr, 0xBEEF);
}

#[test]
fn test_gsync_enum_creation() {
    assert_eq!(DisplaySyncState::Unsynced.raw(), 0);
    assert_eq!(DisplaySyncState::Slave.raw(), 1);
    assert_eq!(DisplaySyncState::Master.raw(), 2);
    assert_eq!(TopologyConnector::NoConnector.raw(), 0);
    assert_eq!(TopologyConnector::Primary.raw(), 1);
    assert_eq!(TopologyConnector::Secondary.raw(), 2);
    assert_eq!(Polarity::RisingEdge.raw(), 0);
    assert_eq!(Polarity::FallingEdge.raw(), 1);
    assert_eq!(Polarity::BothEdges.raw(), 2);
    assert_eq!(VideoMode::NoVideoMode.raw(), 0);
    assert_eq!(VideoMode::TTL.raw(), 1);
    assert_eq!(VideoMode::NtscPalCam.raw(), 2);
    assert_eq!(SyncSource::VSync.raw(), 0);
    assert_eq!(SyncSource::HouseSync.raw(), 1);
    assert_eq!(DelayType::UnknownDelay.raw(), 0);
    assert_eq!(DelayType::SyncSkew.raw(), 1);
    assert_eq!(DelayType::Startup.raw(), 2);
    assert_eq!(RJ45_IO::Output.raw(), 0);
    assert_eq!(RJ45_IO::Input.raw(), 1);
    assert_eq!(RJ45_IO::Unused.raw(), 2);
}

#[test]
fn enums_round_trip_and_reject_unknown_raws() {
    assert_eq!(DisplaySyncState::from_raw(2), Ok(DisplaySyncState::Master));
    assert!(DisplaySyncState::from_raw(3).is_err());
    assert!(Polarity::from_raw(-1).is_err());
    for v in [RJ45_IO::Output, RJ45_IO::Input, RJ45_IO::Unused] {
        assert_eq!(RJ45_IO::from_raw(v.raw()), Ok(v));
    }
}
