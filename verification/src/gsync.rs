//! G-SYNC device operations.
//!
//! Each driver operation splits into what can be decided before the raw
//! call and what must be decided after it.  The `*_request` functions
//! build the outbound structs — zeroed, with the packed version tag every
//! variant must carry — and the functions bearing the original operation
//! names interpret the driver's raw outputs: they translate the status
//! code, truncate enumeration results to what the driver reported, and
//! never read past a buffer.  The caller makes the raw call between the
//! two halves and is free to hand back any values at all; everything here
//! is verified for every possible reply.

#![allow(non_camel_case_types)]
#![allow(non_snake_case)]

use vstd::prelude::*;

use crate::enums::DisplaySyncState;
use crate::enumerate::EnumFailure;
use crate::gsync_types::{NV_GSYNC_CAPABILITIES, NV_GSYNC_CONTROL_PARAMS, NV_GSYNC_DELAY,
    NV_GSYNC_DISPLAY, NV_GSYNC_GPU, NV_GSYNC_STATUS, NV_GSYNC_STATUS_PARAMS,
    NV_GSYNC_STATUS_PARAMS_V2};
use crate::handles::{NvGSyncDeviceHandle, NvPhysicalGpuHandle};
use crate::status::{spec_translate, translate, Status, RAW_OK};
use crate::version::{spec_tag, version_tag, StructKind, NVAPI_MAX_GSYNC_DEVICES};

verus! {

/// A physical GPU, as the synchronization topology refers to one.
#[derive(Clone, Copy, Debug, PartialEq, Eq, Structural)]
pub struct PhysicalGpu {
    handle: NvPhysicalGpuHandle,
}

impl PhysicalGpu {
    /// The underlying driver handle.
    pub closed spec fn spec_handle(&self) -> NvPhysicalGpuHandle {
        self.handle
    }

    /// Wraps a raw physical-GPU handle.
    pub fn new(handle: NvPhysicalGpuHandle) -> (gpu: Self)
        ensures
            gpu.spec_handle() == handle,
    {
        PhysicalGpu { handle }
    }

    /// Returns the underlying driver handle.
    pub fn handle(&self) -> (h: &NvPhysicalGpuHandle)
        ensures
            *h == self.spec_handle(),
    {
        &self.handle
    }
}

/// A handle to a G-SYNC synchronization device, with the operations the
/// driver offers on it.
#[derive(Clone, Copy, Debug, PartialEq, Eq, Structural)]
pub struct GSyncDevice {
    handle: NvGSyncDeviceHandle,
}

/// The display entry a sync-state update sends when the caller names only
/// the display and the state it wants: tagged, with the driver-owned
/// capability field left untouched at zero.
pub open spec fn spec_sync_state_entry(display_id: u32, state: DisplaySyncState)
    -> NV_GSYNC_DISPLAY {
    NV_GSYNC_DISPLAY {
        version: spec_tag(StructKind::GsyncDisplay) as u32,
        displayId: display_id,
        isMasterable: 0,
        syncState: state.spec_raw(),
    }
}

/// A display entry as the version fix-up leaves it: an unset tag becomes
/// the display tag, a set tag — even a wrong one — is the caller's choice
/// and stays.
pub open spec fn spec_tagged_display(d: NV_GSYNC_DISPLAY) -> NV_GSYNC_DISPLAY {
    if d.version == 0 {
        NV_GSYNC_DISPLAY { version: spec_tag(StructKind::GsyncDisplay) as u32, ..d }
    } else {
        d
    }
}

/// The handle a topology GPU entry is reached by: the primary reference,
/// or the proxy reference where the primary is absent.
pub open spec fn spec_effective_gpu_handle(g: NV_GSYNC_GPU) -> NvPhysicalGpuHandle {
    if !g.hPhysicalGpu.spec_is_null() {
        g.hPhysicalGpu
    } else {
        g.hProxyPhysicalGpu
    }
}

/// One count-then-fill exchange of the topology query, which counts and
/// fills GPUs and displays in the same call.  Where the count phase
/// already settled the exchange, the fill fields go unread.
#[derive(Clone, Debug, PartialEq)]
pub struct TopologyRound {
    /// Raw status of the null-buffer count call.
    pub count_status: i32,
    /// GPU count the driver reported.
    pub gpu_count: u32,
    /// Display count the driver reported.
    pub display_count: u32,
    /// Raw status of the fill call.
    pub fill_status: i32,
    /// The GPU buffer handed to the fill call, as the driver left it.
    pub gpus: Vec<NV_GSYNC_GPU>,
    /// The display buffer handed to the fill call, as the driver left it.
    pub displays: Vec<NV_GSYNC_DISPLAY>,
    /// GPU count the driver wrote back on the fill call.
    pub reported_gpu_count: u32,
    /// Display count the driver wrote back on the fill call.
    pub reported_display_count: u32,
}

/// How one topology exchange settles, at the specification level.
pub enum TopologyVerdict {
    /// The query is complete with these GPU and display entries.
    SettledOk(Seq<NV_GSYNC_GPU>, Seq<NV_GSYNC_DISPLAY>),
    /// The query failed with this driver error.
    SettledErr(Status),
    /// A count grew past its buffer: try a fresh exchange.
    TryAgain,
}

/// The verdict one topology exchange comes to under the two-phase rules.
pub open spec fn spec_topology_verdict(r: TopologyRound) -> TopologyVerdict {
    if r.count_status != RAW_OK {
        TopologyVerdict::SettledErr(spec_translate(r.count_status))
    } else if r.gpu_count == 0 && r.display_count == 0 {
        TopologyVerdict::SettledOk(Seq::empty(), Seq::empty())
    } else if r.fill_status != RAW_OK {
        TopologyVerdict::SettledErr(spec_translate(r.fill_status))
    } else if r.reported_gpu_count <= r.gpus@.len() && r.reported_display_count
        <= r.displays@.len() {
        TopologyVerdict::SettledOk(
            r.gpus@.subrange(0, r.reported_gpu_count as int),
            r.displays@.subrange(0, r.reported_display_count as int),
        )
    } else {
        TopologyVerdict::TryAgain
    }
}

/// What the whole topology query returns, given the planned exchanges,
/// starting from attempt `i`.
pub open spec fn spec_get_topology(rounds: Seq<TopologyRound>, i: int) -> Result<(Seq<
    NV_GSYNC_GPU>, Seq<NV_GSYNC_DISPLAY>), EnumFailure>
    decreases crate::enumerate::MAX_ENUM_ATTEMPTS - i,
{
    if i < 0 || i >= crate::enumerate::MAX_ENUM_ATTEMPTS || i >= rounds.len() {
        Err(EnumFailure::TopologyChanged)
    } else {
        match spec_topology_verdict(rounds[i]) {
            TopologyVerdict::SettledOk(gpus, displays) => Ok((gpus, displays)),
            TopologyVerdict::SettledErr(e) => Err(EnumFailure::Driver(e)),
            TopologyVerdict::TryAgain => spec_get_topology(rounds, i + 1),
        }
    }
}

/// How one executed topology exchange came out.
#[derive(Clone, Debug, PartialEq)]
enum TopologyOutcome {
    Done(Vec<NV_GSYNC_GPU>, Vec<NV_GSYNC_DISPLAY>),
    Changed,
    Fail(Status),
}

impl GSyncDevice {
    /// The underlying driver handle.
    pub closed spec fn spec_handle(&self) -> NvGSyncDeviceHandle {
        self.handle
    }

    /// Wraps a raw G-SYNC device handle.  Most callers obtain valid
    /// handles through [`GSyncDevice::enum_sync_devices`] instead.
    pub fn new(handle: NvGSyncDeviceHandle) -> (d: Self)
        ensures
            d.spec_handle() == handle,
    {
        GSyncDevice { handle }
    }

    /// Returns the underlying driver handle.
    pub fn handle(&self) -> (h: &NvGSyncDeviceHandle)
        ensures
            *h == self.spec_handle(),
    {
        &self.handle
    }

    /// Builds the fixed-capacity handle buffer the device enumeration
    /// call fills: one null handle per possible device.
    pub fn sync_devices_request() -> (buffer: Vec<NvGSyncDeviceHandle>)
        ensures
            buffer@.len() == NVAPI_MAX_GSYNC_DEVICES,
            forall|i: int| 0 <= i < buffer@.len() ==> (#[trigger] buffer@[i]).spec_is_null(),
    {
        let mut buffer: Vec<NvGSyncDeviceHandle> = Vec::new();
        let mut i: usize = 0;
        while i < NVAPI_MAX_GSYNC_DEVICES
            invariant
                i <= NVAPI_MAX_GSYNC_DEVICES,
                buffer@.len() == i,
                forall|j: int| 0 <= j < i ==> (#[trigger] buffer@[j]).spec_is_null(),
            decreases NVAPI_MAX_GSYNC_DEVICES - i,
        {
            buffer.push(NvGSyncDeviceHandle::from_raw(0));
            i = i + 1;
        }
        buffer
    }

    /// Interprets the device enumeration reply: the raw status, the handle
    /// buffer as the driver left it, and the device count it wrote.
    ///
    /// On success the result holds exactly the first `count` handles — an
    /// empty result on a system without matching hardware is a success,
    /// not an error — and a count beyond the buffer is rejected rather
    /// than read past.
    pub fn enum_sync_devices(status: i32, device_handles: &Vec<NvGSyncDeviceHandle>, count: u32)
        -> (r: Result<Vec<GSyncDevice>, Status>)
        ensures
            status != RAW_OK ==> r == Err::<Vec<GSyncDevice>, Status>(spec_translate(status)),
            status == RAW_OK && count <= device_handles@.len() ==> (r matches Ok(devices)
                && devices@.len() == count && (forall|i: int| 0 <= i < count
                ==> (#[trigger] devices@[i]).spec_handle() == device_handles@[i])),
            status == RAW_OK && count > device_handles@.len() ==> r == Err::<Vec<GSyncDevice>,
                Status>(Status::InsufficientBuffer),
            r is Ok <==> status == RAW_OK && count <= device_handles@.len(),
    {
        if status != RAW_OK {
            return Err(translate(status));
        }
        let n = count as usize;
        if n > device_handles.len() {
            return Err(Status::InsufficientBuffer);
        }
        let mut devices: Vec<GSyncDevice> = Vec::new();
        let mut i: usize = 0;
        while i < n
            invariant
                i <= n,
                n <= device_handles@.len(),
                devices@.len() == i,
                forall|j: int| 0 <= j < i ==> (#[trigger] devices@[j]).spec_handle()
                    == device_handles@[j],
            decreases n - i,
        {
            devices.push(GSyncDevice::new(device_handles[i]));
            i = i + 1;
        }
        Ok(devices)
    }

    /// Builds the capabilities request: zeroed, tagged with the V2
    /// capabilities version.
    pub fn capabilities_request() -> (caps: NV_GSYNC_CAPABILITIES)
        ensures
            caps.version == spec_tag(StructKind::GsyncCapabilitiesV2),
            caps.boardId == 0 && caps.revision == 0 && caps.capFlags == 0
                && caps.extendedRevision == 0,
    {
        let mut caps = NV_GSYNC_CAPABILITIES::zeroed();
        caps.version = version_tag(StructKind::GsyncCapabilitiesV2);
        caps
    }

    /// Interprets the capabilities reply: the filled struct on success,
    /// the translated status otherwise.
    pub fn query_capabilities(&self, status: i32, caps: &NV_GSYNC_CAPABILITIES) -> (r: Result<
        NV_GSYNC_CAPABILITIES, Status>)
        ensures
            r == (if status == RAW_OK {
                Ok::<NV_GSYNC_CAPABILITIES, Status>(*caps)
            } else {
                Err::<NV_GSYNC_CAPABILITIES, Status>(spec_translate(status))
            }),
    {
        match crate::status::status_result(status) {
            Ok(()) => Ok(*caps),
            Err(e) => Err(e),
        }
    }

    /// Builds the fill buffers for the topology query: `gpu_count` GPU
    /// entries and `display_count` display entries, zeroed, each carrying
    /// its version tag, as the fill call requires.
    pub fn topology_request(gpu_count: u32, display_count: u32) -> (buffers: (Vec<NV_GSYNC_GPU>,
        Vec<NV_GSYNC_DISPLAY>))
        ensures
            buffers.0@.len() == gpu_count,
            buffers.1@.len() == display_count,
            forall|i: int| 0 <= i < buffers.0@.len() ==> (#[trigger] buffers.0@[i])
                == (NV_GSYNC_GPU {
                    version: spec_tag(StructKind::GsyncGpu) as u32,
                    ..NV_GSYNC_GPU::spec_zeroed()
                }),
            forall|i: int| 0 <= i < buffers.1@.len() ==> (#[trigger] buffers.1@[i])
                == (NV_GSYNC_DISPLAY {
                    version: spec_tag(StructKind::GsyncDisplay) as u32,
                    ..NV_GSYNC_DISPLAY::spec_zeroed()
                }),
    {
        let gpu_tag = version_tag(StructKind::GsyncGpu);
        let display_tag = version_tag(StructKind::GsyncDisplay);
        let mut gpus: Vec<NV_GSYNC_GPU> = Vec::new();
        let mut i: usize = 0;
        while i < gpu_count as usize
            invariant
                i <= gpu_count,
                gpus@.len() == i,
                gpu_tag == spec_tag(StructKind::GsyncGpu),
                forall|j: int| 0 <= j < i ==> (#[trigger] gpus@[j]) == (NV_GSYNC_GPU {
                    version: spec_tag(StructKind::GsyncGpu) as u32,
                    ..NV_GSYNC_GPU::spec_zeroed()
                }),
            decreases gpu_count - i,
        {
            let mut e = NV_GSYNC_GPU::zeroed();
            e.version = gpu_tag;
            gpus.push(e);
            i = i + 1;
        }
        let mut displays: Vec<NV_GSYNC_DISPLAY> = Vec::new();
        let mut j: usize = 0;
        while j < display_count as usize
            invariant
                j <= display_count,
                displays@.len() == j,
                display_tag == spec_tag(StructKind::GsyncDisplay),
                forall|k: int| 0 <= k < j ==> (#[trigger] displays@[k]) == (NV_GSYNC_DISPLAY {
                    version: spec_tag(StructKind::GsyncDisplay) as u32,
                    ..NV_GSYNC_DISPLAY::spec_zeroed()
                }),
            decreases display_count - j,
        {
            let mut e = NV_GSYNC_DISPLAY::zeroed();
            e.version = display_tag;
            displays.push(e);
            j = j + 1;
        }
        (gpus, displays)
    }

    /// Returns the topology — the GPUs and active displays connected to
    /// this device — from the planned count-then-fill exchanges, one per
    /// permitted attempt.
    ///
    /// Results are truncated to the counts the fill call wrote back; a
    /// count that grew past its buffer restarts the protocol, and
    /// exchanges that never settle end in
    /// [`EnumFailure::TopologyChanged`].
    pub fn get_topology(&self, rounds: &Vec<TopologyRound>) -> (r: Result<(Vec<NV_GSYNC_GPU>,
        Vec<NV_GSYNC_DISPLAY>), EnumFailure>)
        ensures
            ({
                let outcome = spec_get_topology(rounds@, 0);
                match r {
                    Ok(found) => outcome matches Ok(s) && found.0@ == s.0 && found.1@ == s.1,
                    Err(e) => outcome == Err::<(Seq<NV_GSYNC_GPU>, Seq<NV_GSYNC_DISPLAY>),
                        EnumFailure>(e),
                }
            }),
    {
        let n = rounds.len();
        let mut i: usize = 0;
        while i < n && i < crate::enumerate::MAX_ENUM_ATTEMPTS
            invariant
                i <= n,
                n == rounds@.len(),
                i <= crate::enumerate::MAX_ENUM_ATTEMPTS,
                spec_get_topology(rounds@, 0) == spec_get_topology(rounds@, i as int),
            decreases n - i,
        {
            match Self::run_topology_round(&rounds[i]) {
                TopologyOutcome::Done(gpus, displays) => {
                    return Ok((gpus, displays));
                },
                TopologyOutcome::Fail(e) => {
                    return Err(EnumFailure::Driver(e));
                },
                TopologyOutcome::Changed => {
                    i = i + 1;
                },
            }
        }
        Err(EnumFailure::TopologyChanged)
    }

    /// Runs one topology exchange.
    fn run_topology_round(round: &TopologyRound) -> (r: TopologyOutcome)
        ensures
            spec_topology_verdict(*round) matches TopologyVerdict::SettledOk(gpus, displays)
                ==> (r matches TopologyOutcome::Done(g, d) && g@ == gpus && d@ == displays),
            spec_topology_verdict(*round) matches TopologyVerdict::SettledErr(e) ==> r
                == TopologyOutcome::Fail(e),
            spec_topology_verdict(*round) is TryAgain ==> r == TopologyOutcome::Changed,
    {
        if round.count_status != RAW_OK {
            return TopologyOutcome::Fail(translate(round.count_status));
        }
        if round.gpu_count == 0 && round.display_count == 0 {
            let no_gpus: Vec<NV_GSYNC_GPU> = Vec::new();
            let no_displays: Vec<NV_GSYNC_DISPLAY> = Vec::new();
            proof {
                assert(no_gpus@ =~= Seq::<NV_GSYNC_GPU>::empty());
                assert(no_displays@ =~= Seq::<NV_GSYNC_DISPLAY>::empty());
            }
            return TopologyOutcome::Done(no_gpus, no_displays);
        }
        if round.fill_status != RAW_OK {
            return TopologyOutcome::Fail(translate(round.fill_status));
        }
        if round.reported_gpu_count as usize <= round.gpus.len()
            && round.reported_display_count as usize <= round.displays.len() {
            let mut gpus = copy_entries(&round.gpus);
            let mut displays = copy_entries(&round.displays);
            gpus.truncate(round.reported_gpu_count as usize);
            displays.truncate(round.reported_display_count as usize);
            TopologyOutcome::Done(gpus, displays)
        } else {
            TopologyOutcome::Changed
        }
    }

    /// Gives every entry with an unset version field the display tag the
    /// sync-state call requires, changing nothing else: the pre-call
    /// fix-up of the raw sync-state update.
    pub fn set_sync_state_settings_raw(displays: &mut Vec<NV_GSYNC_DISPLAY>)
        ensures
            final(displays)@.len() == old(displays)@.len(),
            forall|i: int| 0 <= i < final(displays)@.len() ==> final(displays)@[i]
                == spec_tagged_display(old(displays)@[i]),
    {
        let tag = version_tag(StructKind::GsyncDisplay);
        let n = displays.len();
        let mut i: usize = 0;
        while i < n
            invariant
                i <= n,
                n == displays@.len(),
                tag == spec_tag(StructKind::GsyncDisplay),
                forall|j: int| 0 <= j < i ==> displays@[j]
                    == spec_tagged_display(old(displays)@[j]),
                forall|j: int| i <= j < n ==> displays@[j] == old(displays)@[j],
            decreases n - i,
        {
            let mut entry = displays[i];
            if entry.version == 0 {
                entry.version = tag;
                displays.set(i, entry);
            }
            i = i + 1;
        }
    }

    /// Builds the display entries for a sync-state update from (display
    /// ID, desired state) pairs: each entry tagged, naming its display and
    /// state, with the driver-owned capability field left at zero.
    pub fn set_sync_state_settings(&self, displays: &Vec<(u32, DisplaySyncState)>) -> (entries:
        Vec<NV_GSYNC_DISPLAY>)
        ensures
            entries@.len() == displays@.len(),
            forall|i: int| 0 <= i < entries@.len() ==> entries@[i] == spec_sync_state_entry(
                displays@[i].0, displays@[i].1),
    {
        let tag = version_tag(StructKind::GsyncDisplay);
        let mut entries: Vec<NV_GSYNC_DISPLAY> = Vec::new();
        let n = displays.len();
        let mut i: usize = 0;
        while i < n
            invariant
                i <= n,
                n == displays@.len(),
                entries@.len() == i,
                tag == spec_tag(StructKind::GsyncDisplay),
                forall|j: int| 0 <= j < i ==> entries@[j] == spec_sync_state_entry(
                    displays@[j].0, displays@[j].1),
            decreases n - i,
        {
            let (display_id, state) = displays[i];
            let entry = NV_GSYNC_DISPLAY {
                version: tag,
                displayId: display_id,
                isMasterable: 0,
                syncState: state.raw(),
            };
            entries.push(entry);
            i = i + 1;
        }
        entries
    }

    /// Builds minimal entries that re-apply the sync states found in a
    /// topology snapshot: a no-op update that leaves driver-owned fields
    /// untouched, useful to re-synchronize after a reboot cleared the
    /// saved state.
    pub fn set_sync_state_settings_from_topology(&self, displays: &Vec<NV_GSYNC_DISPLAY>)
        -> (entries: Vec<NV_GSYNC_DISPLAY>)
        ensures
            entries@.len() == displays@.len(),
            forall|i: int| 0 <= i < entries@.len() ==> entries@[i] == (NV_GSYNC_DISPLAY {
                version: spec_tag(StructKind::GsyncDisplay) as u32,
                displayId: displays@[i].displayId,
                isMasterable: 0,
                syncState: displays@[i].syncState,
            }),
    {
        let tag = version_tag(StructKind::GsyncDisplay);
        let mut entries: Vec<NV_GSYNC_DISPLAY> = Vec::new();
        let n = displays.len();
        let mut i: usize = 0;
        while i < n
            invariant
                i <= n,
                n == displays@.len(),
                entries@.len() == i,
                tag == spec_tag(StructKind::GsyncDisplay),
                forall|j: int| 0 <= j < i ==> entries@[j] == (NV_GSYNC_DISPLAY {
                    version: spec_tag(StructKind::GsyncDisplay) as u32,
                    displayId: displays@[j].displayId,
                    isMasterable: 0,
                    syncState: displays@[j].syncState,
                }),
            decreases n - i,
        {
            let source = displays[i];
            let entry = NV_GSYNC_DISPLAY {
                version: tag,
                displayId: source.displayId,
                isMasterable: 0,
                syncState: source.syncState,
            };
            entries.push(entry);
            i = i + 1;
        }
        entries
    }

    /// Builds the control-parameters request: zeroed, tagged.
    pub fn control_parameters_request() -> (params: NV_GSYNC_CONTROL_PARAMS)
        ensures
            params == (NV_GSYNC_CONTROL_PARAMS {
                version: spec_tag(StructKind::GsyncControlParams) as u32,
                ..NV_GSYNC_CONTROL_PARAMS::spec_zeroed()
            }),
    {
        let mut params = NV_GSYNC_CONTROL_PARAMS::zeroed();
        params.version = version_tag(StructKind::GsyncControlParams);
        params
    }

    /// Interprets the control-parameters reply: the filled struct on
    /// success, the translated status otherwise.
    pub fn get_control_parameters(&self, status: i32, params: &NV_GSYNC_CONTROL_PARAMS) -> (r:
        Result<NV_GSYNC_CONTROL_PARAMS, Status>)
        ensures
            r == (if status == RAW_OK {
                Ok::<NV_GSYNC_CONTROL_PARAMS, Status>(*params)
            } else {
                Err::<NV_GSYNC_CONTROL_PARAMS, Status>(spec_translate(status))
            }),
    {
        match crate::status::status_result(status) {
            Ok(()) => Ok(*params),
            Err(e) => Err(e),
        }
    }

    /// Prepares a control-parameters update for sending: an unset version
    /// tag becomes the control-parameters tag, everything else is exactly
    /// the values the caller chose.  Built from parameters just read back,
    /// this is a no-op write: it sends precisely what was read.
    pub fn set_control_parameters_request(params: &NV_GSYNC_CONTROL_PARAMS) -> (r:
        NV_GSYNC_CONTROL_PARAMS)
        ensures
            r == spec_tagged_control_parameters(*params),
    {
        let mut out = *params;
        if out.version == 0 {
            out.version = version_tag(StructKind::GsyncControlParams);
        }
        out
    }

    /// Interprets the reply of a control-parameters update: the driver
    /// writes the values it actually applied (delays adjusted to what the
    /// hardware can do) back into the struct, and those applied values are
    /// the result on success.
    pub fn set_control_parameters(&self, status: i32, applied: &NV_GSYNC_CONTROL_PARAMS) -> (r:
        Result<NV_GSYNC_CONTROL_PARAMS, Status>)
        ensures
            r == (if status == RAW_OK {
                Ok::<NV_GSYNC_CONTROL_PARAMS, Status>(*applied)
            } else {
                Err::<NV_GSYNC_CONTROL_PARAMS, Status>(spec_translate(status))
            }),
    {
        match crate::status::status_result(status) {
            Ok(()) => Ok(*applied),
            Err(e) => Err(e),
        }
    }

    /// Interprets the delay-adjustment reply: the step count the driver
    /// reported on success, the translated status otherwise.
    pub fn adjust_sync_delay(&self, status: i32, steps: u32) -> (r: Result<Option<u32>, Status>)
        ensures
            r == (if status == RAW_OK {
                Ok::<Option<u32>, Status>(Some(steps))
            } else {
                Err::<Option<u32>, Status>(spec_translate(status))
            }),
    {
        match crate::status::status_result(status) {
            Ok(()) => Ok(Some(steps)),
            Err(e) => Err(e),
        }
    }

    /// Builds the sync-status request: zeroed, tagged.
    pub fn sync_status_request() -> (status: NV_GSYNC_STATUS)
        ensures
            status == (NV_GSYNC_STATUS {
                version: spec_tag(StructKind::GsyncStatus) as u32,
                ..NV_GSYNC_STATUS::spec_zeroed()
            }),
    {
        let mut out = NV_GSYNC_STATUS::zeroed();
        out.version = version_tag(StructKind::GsyncStatus);
        out
    }

    /// Interprets the sync-status reply for one GPU: the filled struct on
    /// success, the translated status otherwise.
    pub fn get_sync_status(&self, gpu: &PhysicalGpu, status: i32, filled: &NV_GSYNC_STATUS) -> (r:
        Result<NV_GSYNC_STATUS, Status>)
        ensures
            r == (if status == RAW_OK {
                Ok::<NV_GSYNC_STATUS, Status>(*filled)
            } else {
                Err::<NV_GSYNC_STATUS, Status>(spec_translate(status))
            }),
    {
        match crate::status::status_result(status) {
            Ok(()) => Ok(*filled),
            Err(e) => Err(e),
        }
    }

    /// Builds the status-parameters request: zeroed, tagged with the V1
    /// version, the conservative default that older boards and firmware
    /// accept.
    pub fn status_parameters_request() -> (params: NV_GSYNC_STATUS_PARAMS)
        ensures
            params == (NV_GSYNC_STATUS_PARAMS {
                version: spec_tag(StructKind::GsyncStatusParamsV1) as u32,
                ..NV_GSYNC_STATUS_PARAMS::spec_zeroed()
            }),
    {
        let mut out = NV_GSYNC_STATUS_PARAMS::zeroed();
        out.version = version_tag(StructKind::GsyncStatusParamsV1);
        out
    }

    /// Builds the V2 status-parameters request, for callers that opt into
    /// the larger struct and fall back to V1 on a version mismatch.
    pub fn status_parameters_request_v2() -> (params: NV_GSYNC_STATUS_PARAMS_V2)
        ensures
            params == (NV_GSYNC_STATUS_PARAMS_V2 {
                version: spec_tag(StructKind::GsyncStatusParamsV2) as u32,
                ..NV_GSYNC_STATUS_PARAMS_V2::spec_zeroed()
            }),
    {
        let mut out = NV_GSYNC_STATUS_PARAMS_V2::zeroed();
        out.version = version_tag(StructKind::GsyncStatusParamsV2);
        out
    }

    /// Interprets the status-parameters reply: the filled struct on
    /// success, the translated status otherwise.
    pub fn get_status_parameters(&self, status: i32, params: &NV_GSYNC_STATUS_PARAMS) -> (r:
        Result<NV_GSYNC_STATUS_PARAMS, Status>)
        ensures
            r == (if status == RAW_OK {
                Ok::<NV_GSYNC_STATUS_PARAMS, Status>(*params)
            } else {
                Err::<NV_GSYNC_STATUS_PARAMS, Status>(spec_translate(status))
            }),
    {
        match crate::status::status_result(status) {
            Ok(()) => Ok(*params),
            Err(e) => Err(e),
        }
    }

    /// Derives the physical GPUs connected to this device from a topology
    /// snapshot, reaching each by its primary reference and falling back
    /// to the proxy reference where the primary is absent.
    pub fn get_physical_gpus(&self, gpus: &Vec<NV_GSYNC_GPU>) -> (found: Vec<PhysicalGpu>)
        ensures
            found@.len() == gpus@.len(),
            forall|i: int| 0 <= i < found@.len() ==> (#[trigger] found@[i]).spec_handle()
                == spec_effective_gpu_handle(gpus@[i]),
    {
        let mut found: Vec<PhysicalGpu> = Vec::new();
        let n = gpus.len();
        let mut i: usize = 0;
        while i < n
            invariant
                i <= n,
                n == gpus@.len(),
                found@.len() == i,
                forall|j: int| 0 <= j < i ==> (#[trigger] found@[j]).spec_handle()
                    == spec_effective_gpu_handle(gpus@[j]),
            decreases n - i,
        {
            let entry = gpus[i];
            let handle = if !entry.hPhysicalGpu.is_null() {
                entry.hPhysicalGpu
            } else {
                entry.hProxyPhysicalGpu
            };
            found.push(PhysicalGpu::new(handle));
            i = i + 1;
        }
        found
    }
}

/// Control parameters as the pre-send fix-up leaves them: an unset tag
/// becomes the control-parameters tag, everything else stays.
pub open spec fn spec_tagged_control_parameters(p: NV_GSYNC_CONTROL_PARAMS)
    -> NV_GSYNC_CONTROL_PARAMS {
    if p.version == 0 {
        NV_GSYNC_CONTROL_PARAMS {
            version: spec_tag(StructKind::GsyncControlParams) as u32,
            ..p
        }
    } else {
        p
    }
}

/// A no-op write round trip at the request level: an update built from
/// parameters just read back — whose tag the read set — sends exactly the
/// values that were read.
pub proof fn lemma_readback_request_is_identity(p: NV_GSYNC_CONTROL_PARAMS)
    requires
        p.version != 0,
    ensures
        spec_tagged_control_parameters(p) == p,
{
}

/// Copies a borrowed reply buffer into an owned one.
fn copy_entries<T: Copy>(v: &Vec<T>) -> (r: Vec<T>)
    ensures
        r@ == v@,
{
    let mut out: Vec<T> = Vec::new();
    let n = v.len();
    let mut i: usize = 0;
    while i < n
        invariant
            i <= n,
            n == v@.len(),
            out@ == v@.subrange(0, i as int),
        decreases n - i,
    {
        out.push(v[i]);
        proof {
            assert(out@ =~= v@.subrange(0, i + 1));
        }
        i = i + 1;
    }
    proof {
        assert(v@.subrange(0, n as int) =~= v@);
    }
    out
}

} // verus!
