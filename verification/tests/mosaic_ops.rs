//! Mosaic operations over scripted driver replies.

use nvapi::enumerate::{EnumFailure, EnumRound};
use nvapi::enums::{MosaicTopo, MosaicTopoType, PixelShiftType, Rotate};
use nvapi::mosaic::Mosaic;
use nvapi::mosaic_types::{
    NV_MOSAIC_GRID_TOPO_V1, NV_MOSAIC_GRID_TOPO_V2,
    NV_MOSAIC_GRID_TOPO_FLAG_APPLY_WITH_BEZEL_CORRECT, NV_MOSAIC_GRID_TOPO_FLAG_BASE_MOSAIC,
    NV_MOSAIC_GRID_TOPO_FLAG_IMMERSIVE_GAMING,
};
use nvapi::session::SessionState;
use nvapi::status::{Status, RAW_INCOMPATIBLE_STRUCT_VERSION, RAW_NOT_SUPPORTED, RAW_OK};
use nvapi::version::{version_tag, StructKind, NV_MOSAIC_MAX_DISPLAYS};

#[test]
fn test_mosaic_get_supported_topologies() {
    let mut info = Mosaic::supported_topologies_request();
    assert_eq!(
        info.version,
        version_tag(StructKind::MosaicSupportedTopoInfoV2)
    );
    assert_eq!(MosaicTopoType::Basic.raw(), 1);
    // The driver filled two briefs and one display setting.
    info.topoBriefsCount = 2;
    info.topoBriefs[0].topo = MosaicTopo::T2x2_Basic.raw();
    info.topoBriefs[0].isPossible = 1;
    info.topoBriefs[1].topo = MosaicTopo::T1x2_Basic.raw();
    info.displaySettingsCount = 1;
    info.displaySettings[0].width = 1920;
    info.displaySettings[0].height = 1080;
    let got = Mosaic::get_supported_topologies(RAW_OK, info).unwrap();
    assert_eq!(got.topoBriefsCount, 2);
    assert_eq!(got.topoBriefs[0].topo, MosaicTopo::T2x2_Basic.raw());
    assert_eq!(got.displaySettings[0].width, 1920);
}

#[test]
fn supported_topologies_counts_are_clamped() {
    let mut info = Mosaic::supported_topologies_request();
    info.topoBriefsCount = 999;
    info.displaySettingsCount = 999;
    let got = Mosaic::get_supported_topologies(RAW_OK, info).unwrap();
    assert_eq!(got.topoBriefsCount as usize, got.topoBriefs.len());
    assert_eq!(got.displaySettingsCount as usize, got.displaySettings.len());
}

#[test]
fn test_mosaic_get_topology_details() {
    let mut group = Mosaic::topo_group_request();
    assert_eq!(group.version, version_tag(StructKind::MosaicTopoGroup));
    group.count = 1;
    group.brief.topo = MosaicTopo::T2x1_Basic.raw();
    group.topos[0].rowCount = 2;
    group.topos[0].colCount = 1;
    let got = Mosaic::get_topology_details(RAW_OK, group).unwrap();
    assert_eq!(got.count, 1);
    assert_eq!(got.topos[0].rowCount, 2);
    assert_eq!(
        Mosaic::get_topology_details(RAW_NOT_SUPPORTED, Mosaic::topo_group_request()),
        Err(Status::NotSupported)
    );
}

#[test]
fn test_mosaic_get_current_topology() {
    let (mut brief, mut setting) = Mosaic::current_topology_request();
    assert_eq!(brief.version, version_tag(StructKind::MosaicTopoBrief));
    assert_eq!(
        setting.version,
        version_tag(StructKind::MosaicDisplaySettingV2)
    );
    brief.topo = MosaicTopo::T2x2_Basic.raw();
    setting.width = 3840;
    setting.height = 2160;
    let (got_brief, got_setting, (ox, oy)) =
        Mosaic::get_current_topology(RAW_OK, brief, setting, 10, -5).unwrap();
    assert_eq!(got_brief.topo, MosaicTopo::T2x2_Basic.raw());
    assert_eq!(got_setting.width, 3840);
    assert_eq!((ox, oy), (10, -5));
    // A brief reporting the none topology is still a success: no Mosaic
    // is active.
    let (none_brief, _, _) = Mosaic::get_current_topology(
        RAW_OK,
        Mosaic::current_topology_request().0,
        Mosaic::current_topology_request().1,
        0,
        0,
    )
    .unwrap();
    assert_eq!(none_brief.topo, MosaicTopo::NoTopo.raw());
}

#[test]
fn set_and_enable_advance_the_session() {
    assert_eq!(Mosaic::enable_argument(true), 1);
    assert_eq!(Mosaic::enable_argument(false), 0);
    let state = SessionState::Queried;
    let (r, state) = Mosaic::set_current_topology(state, false, RAW_OK);
    assert_eq!(r, Ok(()));
    assert_eq!(state, SessionState::ConfiguredButDisabled);
    let (r, state) = Mosaic::enable_current_topology(state, true, RAW_OK);
    assert_eq!(r, Ok(()));
    assert_eq!(state, SessionState::Enabled);
    // A failed call leaves the session where it was.
    let (r, state) = Mosaic::enable_current_topology(state, false, RAW_NOT_SUPPORTED);
    assert_eq!(r, Err(Status::NotSupported));
    assert_eq!(state, SessionState::Enabled);
}

#[test]
fn test_mosaic_get_overlap_limits() {
    assert_eq!(
        Mosaic::get_overlap_limits(RAW_OK, -50, 50, -30, 30),
        Ok((-50, 50, -30, 30))
    );
    assert_eq!(
        Mosaic::get_overlap_limits(RAW_INCOMPATIBLE_STRUCT_VERSION, 0, 0, 0, 0),
        Err(Status::IncompatibleStructVersion)
    );
}

fn one_v2_grid(rows: u32, columns: u32) -> NV_MOSAIC_GRID_TOPO_V2 {
    let mut grid = Mosaic::display_grids_request(1).pop().unwrap();
    grid.rows = rows;
    grid.columns = columns;
    grid.displayCount = rows * columns;
    grid.displaySettings.width = 1920;
    grid.displaySettings.height = 1080;
    grid
}

#[test]
fn test_mosaic_enum_display_grids() {
    let filled = vec![one_v2_grid(1, 2)];
    let v2_rounds = vec![EnumRound {
        count_status: RAW_OK,
        count: 1,
        fill_status: RAW_OK,
        filled,
        reported: 1,
    }];
    let grids = Mosaic::enum_display_grids(v2_rounds, vec![]).unwrap();
    assert_eq!(grids.len(), 1);
    assert_eq!(grids[0].rows, 1);
    assert_eq!(grids[0].columns, 2);
    assert_eq!(grids[0].displaySettings.width, 1920);
}

#[test]
fn grid_version_fallback_retries_with_v1() {
    // The installed driver supports only V1: the V2 attempt comes back
    // with a version mismatch, and the V1 attempt succeeds.
    let v2_rounds = vec![EnumRound::<NV_MOSAIC_GRID_TOPO_V2> {
        count_status: RAW_INCOMPATIBLE_STRUCT_VERSION,
        count: 0,
        fill_status: RAW_OK,
        filled: vec![],
        reported: 0,
    }];
    let mut v1_grid = Mosaic::display_grids_request_v1(1).pop().unwrap();
    v1_grid.rows = 2;
    v1_grid.columns = 2;
    v1_grid.displayCount = 4;
    v1_grid.displays[0].displayId = 7;
    v1_grid.displays[0].rotation = Rotate::R90.raw();
    let v1_rounds = vec![EnumRound {
        count_status: RAW_OK,
        count: 1,
        fill_status: RAW_OK,
        filled: vec![v1_grid],
        reported: 1,
    }];
    let grids = Mosaic::enum_display_grids(v2_rounds, v1_rounds).unwrap();
    assert_eq!(grids.len(), 1);
    let grid = &grids[0];
    // Raised to the V2 shape: tagged V2, placement kept, no pixel shift.
    assert_eq!(grid.version, version_tag(StructKind::MosaicGridTopoV2));
    assert_eq!(grid.rows, 2);
    assert_eq!(grid.displayCount, 4);
    assert_eq!(grid.displays[0].displayId, 7);
    assert_eq!(grid.displays[0].rotation, Rotate::R90.raw());
    assert_eq!(
        grid.displays[0].pixelShiftType,
        PixelShiftType::NoPixelShift.raw()
    );
}

#[test]
fn grid_fallback_happens_only_on_version_mismatch() {
    let v2_rounds = vec![EnumRound::<NV_MOSAIC_GRID_TOPO_V2> {
        count_status: RAW_NOT_SUPPORTED,
        count: 0,
        fill_status: RAW_OK,
        filled: vec![],
        reported: 0,
    }];
    let v1_rounds = vec![EnumRound::<NV_MOSAIC_GRID_TOPO_V1> {
        count_status: RAW_OK,
        count: 0,
        fill_status: RAW_OK,
        filled: vec![],
        reported: 0,
    }];
    assert_eq!(
        Mosaic::enum_display_grids(v2_rounds, v1_rounds),
        Err(EnumFailure::Driver(Status::NotSupported))
    );
}

#[test]
fn enum_display_grids_empty_is_success() {
    let v2_rounds = vec![EnumRound::<NV_MOSAIC_GRID_TOPO_V2> {
        count_status: RAW_OK,
        count: 0,
        fill_status: RAW_OK,
        filled: vec![],
        reported: 0,
    }];
    let grids = Mosaic::enum_display_grids(v2_rounds, vec![]).unwrap();
    assert!(grids.is_empty());
}

#[test]
fn test_mosaic_set_display_grids_fixes_versions() {
    let mut tagged = one_v2_grid(1, 1);
    tagged.version = 0xDEAD;
    let mut untagged = one_v2_grid(1, 1);
    untagged.version = 0;
    let mut grids = vec![tagged.clone(), untagged];
    Mosaic::set_display_grids(&mut grids);
    // A caller-chosen tag stays; an unset one becomes the V2 grid tag.
    assert_eq!(grids[0].version, 0xDEAD);
    assert_eq!(grids[1].version, version_tag(StructKind::MosaicGridTopoV2));
    assert_eq!(grids[0].rows, tagged.rows);
}

#[test]
fn test_mosaic_validate_display_grids() {
    // A synthetic minimal grid with zero displays validates without a
    // crash: the driver answers success and a status with a zero display
    // count.
    let grids = Mosaic::display_grids_request(1);
    assert_eq!(grids[0].displayCount, 0);
    assert_eq!(grids[0].displays.len(), NV_MOSAIC_MAX_DISPLAYS);
    let statuses = Mosaic::validate_display_grids_request(grids.len());
    assert_eq!(statuses.len(), 1);
    assert_eq!(
        statuses[0].version,
        version_tag(StructKind::MosaicDisplayTopoStatus)
    );
    let got = Mosaic::validate_display_grids(RAW_OK, statuses).unwrap();
    assert_eq!(got.len(), 1);
    assert_eq!(got[0].displayCount, 0);
    assert_eq!(got[0].errorFlags, 0);
    assert_eq!(got[0].warningFlags, 0);
}

#[test]
fn validate_display_grids_propagates_errors() {
    let statuses = Mosaic::validate_display_grids_request(1);
    assert_eq!(
        Mosaic::validate_display_grids(RAW_NOT_SUPPORTED, statuses),
        Err(Status::NotSupported)
    );
}

#[test]
fn test_mosaic_get_display_viewports() {
    let viewport = nvapi::mosaic_types::NV_RECT {
        left: 0,
        top: 0,
        right: 1920,
        bottom: 1080,
    };
    let (rect, bezel) =
        Mosaic::get_display_viewports_by_resolution(RAW_OK, viewport, 1).unwrap();
    assert_eq!(rect.right, 1920);
    assert!(bezel);
    let (_, bezel) =
        Mosaic::get_display_viewports_by_resolution(RAW_OK, viewport, 0).unwrap();
    assert!(!bezel);
}

#[test]
fn grid_flags_set_and_read_back() {
    let mut grid = NV_MOSAIC_GRID_TOPO_V2::zeroed();
    assert!(!grid.has_flag(NV_MOSAIC_GRID_TOPO_FLAG_BASE_MOSAIC));
    grid.set_flag(NV_MOSAIC_GRID_TOPO_FLAG_BASE_MOSAIC, true);
    grid.set_flag(NV_MOSAIC_GRID_TOPO_FLAG_IMMERSIVE_GAMING, true);
    assert!(grid.has_flag(NV_MOSAIC_GRID_TOPO_FLAG_BASE_MOSAIC));
    assert!(grid.has_flag(NV_MOSAIC_GRID_TOPO_FLAG_IMMERSIVE_GAMING));
    assert!(!grid.has_flag(NV_MOSAIC_GRID_TOPO_FLAG_APPLY_WITH_BEZEL_CORRECT));
    grid.set_flag(NV_MOSAIC_GRID_TOPO_FLAG_BASE_MOSAIC, false);
    assert!(!grid.has_flag(NV_MOSAIC_GRID_TOPO_FLAG_BASE_MOSAIC));
    // Clearing one flag left the other alone.
    assert!(grid.has_flag(NV_MOSAIC_GRID_TOPO_FLAG_IMMERSIVE_GAMING));

    let mut v1 = NV_MOSAIC_GRID_TOPO_V1::zeroed();
    v1.set_flag(NV_MOSAIC_GRID_TOPO_FLAG_APPLY_WITH_BEZEL_CORRECT, true);
    assert!(v1.has_flag(NV_MOSAIC_GRID_TOPO_FLAG_APPLY_WITH_BEZEL_CORRECT));
    v1.set_flag(NV_MOSAIC_GRID_TOPO_FLAG_APPLY_WITH_BEZEL_CORRECT, false);
    assert!(!v1.has_flag(NV_MOSAIC_GRID_TOPO_FLAG_APPLY_WITH_BEZEL_CORRECT));
}

#[test]
fn grid_v1_to_v2_keeps_every_display() {
    let mut v1 = Mosaic::display_grids_request_v1(1).pop().unwrap();
    v1.rows = 1;
    v1.columns = 2;
    v1.displayCount = 2;
    v1.displays[0].displayId = 11;
    v1.displays[0].overlapX = -8;
    v1.displays[1].displayId = 12;
    v1.displays[1].cloneGroup = 3;
    let v2 = Mosaic::grid_v1_to_v2(&v1);
    assert_eq!(v2.version, version_tag(StructKind::MosaicGridTopoV2));
    assert_eq!(v2.displays.len(), v1.displays.len());
    assert_eq!(v2.displays[0].displayId, 11);
    assert_eq!(v2.displays[0].overlapX, -8);
    assert_eq!(v2.displays[1].displayId, 12);
    assert_eq!(v2.displays[1].cloneGroup, 3);
    assert!(v2
        .displays
        .iter()
        .all(|d| d.pixelShiftType == PixelShiftType::NoPixelShift.raw()));
}
