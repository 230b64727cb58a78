//! Mosaic multi-display topology operations.
//!
//! As in [`crate::gsync`], each driver operation splits into a request
//! half — structs built zeroed and carrying their packed version tags —
//! and a reply half bearing the original operation name, which translates
//! the status, truncates counts to the capacities actually allocated, and
//! converts between the V1 and V2 grid shapes.  Grid enumeration follows
//! the two-phase protocol of [`crate::enumerate`] and falls back from the
//! V2 struct shape to V1 when the installed driver rejects the V2 version
//! tag.

#![allow(non_camel_case_types)]
#![allow(non_snake_case)]

use vstd::prelude::*;

use crate::enumerate::{spec_enumerate, EnumFailure, EnumRound};
use crate::enums::PixelShiftType;
use crate::mosaic_types::{GridTopoView, NV_MOSAIC_DISPLAY_SETTING, NV_MOSAIC_DISPLAY_SETTING_V1,
    NV_MOSAIC_DISPLAY_TOPO_STATUS, NV_MOSAIC_DISPLAY_TOPO_STATUS_DISPLAY, NV_MOSAIC_GRID_TOPO,
    NV_MOSAIC_GRID_TOPO_DISPLAY_V1, NV_MOSAIC_GRID_TOPO_DISPLAY_V2, NV_MOSAIC_GRID_TOPO_V1,
    NV_MOSAIC_GRID_TOPO_V2, NV_MOSAIC_SUPPORTED_TOPO_INFO, NV_MOSAIC_TOPO_BRIEF,
    NV_MOSAIC_TOPO_GROUP, NV_RECT};
use crate::session::{spec_session_step, session_step, SessionEvent, SessionState};
use crate::status::{spec_status_result, spec_translate, status_result, Status, RAW_OK};
use crate::version::{spec_tag, version_tag, StructKind, NVAPI_MAX_DISPLAYS,
    NV_MOSAIC_DISPLAY_SETTINGS_MAX, NV_MOSAIC_MAX_TOPO_PER_TOPO_GROUP, NV_MOSAIC_TOPO_BRIEFS_MAX};

verus! {

/// A supported-topologies struct with its counts clamped to the array
/// capacities, so that nothing is ever read past what was allocated.
pub open spec fn spec_clamped_topo_info(info: NV_MOSAIC_SUPPORTED_TOPO_INFO)
    -> NV_MOSAIC_SUPPORTED_TOPO_INFO {
    NV_MOSAIC_SUPPORTED_TOPO_INFO {
        topoBriefsCount: if info.topoBriefsCount <= NV_MOSAIC_TOPO_BRIEFS_MAX as u32 {
            info.topoBriefsCount
        } else {
            NV_MOSAIC_TOPO_BRIEFS_MAX as u32
        },
        displaySettingsCount: if info.displaySettingsCount
            <= NV_MOSAIC_DISPLAY_SETTINGS_MAX as u32 {
            info.displaySettingsCount
        } else {
            NV_MOSAIC_DISPLAY_SETTINGS_MAX as u32
        },
        ..info
    }
}

/// A topology group with its count clamped to the array capacity.
pub open spec fn spec_clamped_topo_group(group: NV_MOSAIC_TOPO_GROUP) -> NV_MOSAIC_TOPO_GROUP {
    NV_MOSAIC_TOPO_GROUP {
        count: if group.count <= NV_MOSAIC_MAX_TOPO_PER_TOPO_GROUP as u32 {
            group.count
        } else {
            NV_MOSAIC_MAX_TOPO_PER_TOPO_GROUP as u32
        },
        ..group
    }
}

/// A V1 grid display raised to the V2 shape: same placement, no pixel
/// shift (the capability V1 could not express).
pub open spec fn spec_display_v1_to_v2(d: NV_MOSAIC_GRID_TOPO_DISPLAY_V1)
    -> NV_MOSAIC_GRID_TOPO_DISPLAY_V2 {
    NV_MOSAIC_GRID_TOPO_DISPLAY_V2 {
        version: 2,
        displayId: d.displayId,
        overlapX: d.overlapX,
        overlapY: d.overlapY,
        rotation: d.rotation,
        cloneGroup: d.cloneGroup,
        pixelShiftType: PixelShiftType::NoPixelShift.spec_raw(),
    }
}

/// A V1 grid raised to the V2 shape, display by display, tagged with the
/// V2 grid version.
pub open spec fn spec_grid_v1_to_v2(g: NV_MOSAIC_GRID_TOPO_V1) -> GridTopoView {
    GridTopoView {
        version: spec_tag(StructKind::MosaicGridTopoV2) as u32,
        rows: g.rows,
        columns: g.columns,
        displayCount: g.displayCount,
        gridFlags: g.gridFlags,
        displays: g.displays@.map(|i: int, d: NV_MOSAIC_GRID_TOPO_DISPLAY_V1|
            spec_display_v1_to_v2(d)),
        displaySettings: g.displaySettings,
    }
}

/// The views of a sequence of V2 grids.
pub open spec fn spec_grids_view(s: Seq<NV_MOSAIC_GRID_TOPO_V2>) -> Seq<GridTopoView> {
    s.map(|i: int, g: NV_MOSAIC_GRID_TOPO_V2| g@)
}

/// A V2 grid as the pre-send fix-up leaves it: an unset tag becomes the
/// V2 grid tag, everything else stays.
pub open spec fn spec_tagged_grid(g: NV_MOSAIC_GRID_TOPO_V2) -> NV_MOSAIC_GRID_TOPO_V2 {
    if g.version == 0 {
        NV_MOSAIC_GRID_TOPO_V2 { version: spec_tag(StructKind::MosaicGridTopoV2) as u32, ..g }
    } else {
        g
    }
}

/// What the V2-then-V1 grid enumeration returns: the V2 attempt decides,
/// unless the driver rejected the V2 struct version, in which case the V1
/// attempt decides, its grids raised to the V2 shape.
pub open spec fn spec_enum_display_grids(v2: Seq<EnumRound<NV_MOSAIC_GRID_TOPO_V2>>, v1: Seq<
    EnumRound<NV_MOSAIC_GRID_TOPO_V1>>) -> Result<Seq<GridTopoView>, EnumFailure> {
    match spec_enumerate(v2, 0) {
        Ok(grids) => Ok(spec_grids_view(grids)),
        Err(e) => {
            if e == EnumFailure::Driver(Status::IncompatibleStructVersion) {
                match spec_enumerate(v1, 0) {
                    Ok(grids) => Ok(
                        grids.map(|i: int, g: NV_MOSAIC_GRID_TOPO_V1| spec_grid_v1_to_v2(g)),
                    ),
                    Err(e1) => Err(e1),
                }
            } else {
                Err(e)
            }
        },
    }
}

/// Mosaic topology management: supported and current topologies, overlap
/// limits, display grids and their validation.
pub struct Mosaic;

impl Mosaic {
    /// Builds the supported-topologies request: zeroed arrays at full
    /// capacity, tagged with the V2 info version.
    pub fn supported_topologies_request() -> (info: NV_MOSAIC_SUPPORTED_TOPO_INFO)
        ensures
            info.wf(),
            info.version == spec_tag(StructKind::MosaicSupportedTopoInfoV2),
            info.topoBriefsCount == 0,
            info.displaySettingsCount == 0,
            forall|i: int| 0 <= i < info.topoBriefs@.len() ==> info.topoBriefs@[i]
                == NV_MOSAIC_TOPO_BRIEF::spec_zeroed(),
            forall|i: int| 0 <= i < info.displaySettings@.len() ==> info.displaySettings@[i]
                == NV_MOSAIC_DISPLAY_SETTING::spec_zeroed(),
    {
        let mut info = NV_MOSAIC_SUPPORTED_TOPO_INFO::zeroed();
        info.version = version_tag(StructKind::MosaicSupportedTopoInfoV2);
        info
    }

    /// Interprets the supported-topologies reply: on success, the filled
    /// struct with its counts clamped to the array capacities.
    pub fn get_supported_topologies(status: i32, info: NV_MOSAIC_SUPPORTED_TOPO_INFO) -> (r:
        Result<NV_MOSAIC_SUPPORTED_TOPO_INFO, Status>)
        requires
            info.topoBriefs@.len() == NV_MOSAIC_TOPO_BRIEFS_MAX,
            info.displaySettings@.len() == NV_MOSAIC_DISPLAY_SETTINGS_MAX,
        ensures
            status != RAW_OK ==> r == Err::<NV_MOSAIC_SUPPORTED_TOPO_INFO, Status>(
                spec_translate(status)),
            status == RAW_OK ==> (r matches Ok(out) && out == spec_clamped_topo_info(info)
                && out.wf()),
    {
        match status_result(status) {
            Ok(()) => {
                let mut out = info;
                if out.topoBriefsCount > NV_MOSAIC_TOPO_BRIEFS_MAX as u32 {
                    out.topoBriefsCount = NV_MOSAIC_TOPO_BRIEFS_MAX as u32;
                }
                if out.displaySettingsCount > NV_MOSAIC_DISPLAY_SETTINGS_MAX as u32 {
                    out.displaySettingsCount = NV_MOSAIC_DISPLAY_SETTINGS_MAX as u32;
                }
                Ok(out)
            },
            Err(e) => Err(e),
        }
    }

    /// Builds the topology-details request: zeroed, tagged.
    pub fn topo_group_request() -> (group: NV_MOSAIC_TOPO_GROUP)
        ensures
            group.wf(),
            group.version == spec_tag(StructKind::MosaicTopoGroup),
            group.count == 0,
            group.brief == NV_MOSAIC_TOPO_BRIEF::spec_zeroed(),
            forall|i: int| 0 <= i < group.topos@.len() ==> (#[trigger] group.topos@[i])
                .spec_is_zeroed(),
    {
        let mut group = NV_MOSAIC_TOPO_GROUP::zeroed();
        group.version = version_tag(StructKind::MosaicTopoGroup);
        group
    }

    /// Interprets the topology-details reply for one brief: on success,
    /// the filled group with its count clamped to the array capacity.
    pub fn get_topology_details(status: i32, group: NV_MOSAIC_TOPO_GROUP) -> (r: Result<
        NV_MOSAIC_TOPO_GROUP, Status>)
        ensures
            status != RAW_OK ==> r == Err::<NV_MOSAIC_TOPO_GROUP, Status>(spec_translate(status)),
            status == RAW_OK ==> (r matches Ok(out) && out == spec_clamped_topo_group(group)),
    {
        match status_result(status) {
            Ok(()) => {
                let mut out = group;
                if out.count > NV_MOSAIC_MAX_TOPO_PER_TOPO_GROUP as u32 {
                    out.count = NV_MOSAIC_MAX_TOPO_PER_TOPO_GROUP as u32;
                }
                Ok(out)
            },
            Err(e) => Err(e),
        }
    }

    /// Builds the current-topology request: a zeroed, tagged brief and
    /// display setting for the driver to fill.
    pub fn current_topology_request() -> (request: (NV_MOSAIC_TOPO_BRIEF,
        NV_MOSAIC_DISPLAY_SETTING))
        ensures
            request.0 == (NV_MOSAIC_TOPO_BRIEF {
                version: spec_tag(StructKind::MosaicTopoBrief) as u32,
                ..NV_MOSAIC_TOPO_BRIEF::spec_zeroed()
            }),
            request.1 == (NV_MOSAIC_DISPLAY_SETTING {
                version: spec_tag(StructKind::MosaicDisplaySettingV2) as u32,
                ..NV_MOSAIC_DISPLAY_SETTING::spec_zeroed()
            }),
    {
        let mut brief = NV_MOSAIC_TOPO_BRIEF::zeroed();
        brief.version = version_tag(StructKind::MosaicTopoBrief);
        let mut setting = NV_MOSAIC_DISPLAY_SETTING::zeroed();
        setting.version = version_tag(StructKind::MosaicDisplaySettingV2);
        (brief, setting)
    }

    /// Interprets the current-topology reply: the brief, the per-display
    /// settings and the X and Y overlaps, as the driver filled them.  A
    /// brief whose topology is the none value means no Mosaic topology is
    /// active — that is a successful answer, not an error.
    pub fn get_current_topology(status: i32, brief: NV_MOSAIC_TOPO_BRIEF, setting:
        NV_MOSAIC_DISPLAY_SETTING, overlap_x: i32, overlap_y: i32) -> (r: Result<(
        NV_MOSAIC_TOPO_BRIEF, NV_MOSAIC_DISPLAY_SETTING, (i32, i32)), Status>)
        ensures
            r == (if status == RAW_OK {
                Ok::<(NV_MOSAIC_TOPO_BRIEF, NV_MOSAIC_DISPLAY_SETTING, (i32, i32)), Status>((
                    brief,
                    setting,
                    (overlap_x, overlap_y),
                ))
            } else {
                Err::<(NV_MOSAIC_TOPO_BRIEF, NV_MOSAIC_DISPLAY_SETTING, (i32, i32)), Status>(
                    spec_translate(status))
            }),
    {
        match status_result(status) {
            Ok(()) => Ok((brief, setting, (overlap_x, overlap_y))),
            Err(e) => Err(e),
        }
    }

    /// The raw flag value the enable argument of the set and enable calls
    /// takes: one for enabling, zero for leaving disabled.
    pub fn enable_argument(enable: bool) -> (r: u32)
        ensures
            r == (if enable {
                1u32
            } else {
                0u32
            }),
    {
        if enable {
            1
        } else {
            0
        }
    }

    /// Settles a set-current-topology call: translates the status and, on
    /// success, advances the session — enabled at once, or configured but
    /// disabled, by the enable argument.
    pub fn set_current_topology(state: SessionState, enable: bool, status: i32) -> (r: (Result<
        (), Status>, SessionState))
        ensures
            r.0 == spec_status_result(status),
            r.1 == (if status == RAW_OK {
                spec_session_step(state, SessionEvent::TopologySet { enable })
            } else {
                state
            }),
    {
        match status_result(status) {
            Ok(()) => (Ok(()), session_step(state, SessionEvent::TopologySet { enable })),
            Err(e) => (Err(e), state),
        }
    }

    /// Settles an enable-or-disable call on the current topology: the
    /// configuration persists across a disable and can be re-enabled
    /// without being set again.
    pub fn enable_current_topology(state: SessionState, enable: bool, status: i32) -> (r: (
        Result<(), Status>, SessionState))
        ensures
            r.0 == spec_status_result(status),
            r.1 == (if status == RAW_OK {
                if enable {
                    spec_session_step(state, SessionEvent::TopologyEnabled)
                } else {
                    spec_session_step(state, SessionEvent::TopologyDisabled)
                }
            } else {
                state
            }),
    {
        match status_result(status) {
            Ok(()) => {
                if enable {
                    (Ok(()), session_step(state, SessionEvent::TopologyEnabled))
                } else {
                    (Ok(()), session_step(state, SessionEvent::TopologyDisabled))
                }
            },
            Err(e) => (Err(e), state),
        }
    }

    /// Interprets the overlap-limits reply: the minimum and maximum X and
    /// Y overlaps the given topology and settings allow.
    pub fn get_overlap_limits(status: i32, min_x: i32, max_x: i32, min_y: i32, max_y: i32) -> (r:
        Result<(i32, i32, i32, i32), Status>)
        ensures
            r == (if status == RAW_OK {
                Ok::<(i32, i32, i32, i32), Status>((min_x, max_x, min_y, max_y))
            } else {
                Err::<(i32, i32, i32, i32), Status>(spec_translate(status))
            }),
    {
        match status_result(status) {
            Ok(()) => Ok((min_x, max_x, min_y, max_y)),
            Err(e) => Err(e),
        }
    }

    /// Builds the fill buffer for a V2 grid enumeration: `count` zeroed
    /// grids, each tagged with the V2 grid version, as the fill call
    /// requires of every array element.
    pub fn display_grids_request(count: u32) -> (buffer: Vec<NV_MOSAIC_GRID_TOPO>)
        ensures
            buffer@.len() == count,
            forall|i: int| 0 <= i < buffer@.len() ==> (#[trigger] buffer@[i]).version == spec_tag(
                StructKind::MosaicGridTopoV2),
            forall|i: int| 0 <= i < buffer@.len() ==> (#[trigger] buffer@[i]).wf(),
            forall|i: int| 0 <= i < buffer@.len() ==> (#[trigger] buffer@[i]).displayCount == 0
                && buffer@[i].rows == 0 && buffer@[i].columns == 0 && buffer@[i].gridFlags == 0
                && buffer@[i].displaySettings == NV_MOSAIC_DISPLAY_SETTING_V1::spec_zeroed(),
            forall|i: int, j: int| 0 <= i < buffer@.len() && 0 <= j
                < buffer@[i].displays@.len() ==> #[trigger] buffer@[i].displays@[j]
                == NV_MOSAIC_GRID_TOPO_DISPLAY_V2::spec_zeroed(),
    {
        let tag = version_tag(StructKind::MosaicGridTopoV2);
        let mut buffer: Vec<NV_MOSAIC_GRID_TOPO> = Vec::new();
        let mut i: usize = 0;
        while i < count as usize
            invariant
                i <= count,
                buffer@.len() == i,
                tag == spec_tag(StructKind::MosaicGridTopoV2),
                forall|j: int| 0 <= j < i ==> (#[trigger] buffer@[j]).version == spec_tag(
                    StructKind::MosaicGridTopoV2),
                forall|j: int| 0 <= j < i ==> (#[trigger] buffer@[j]).wf(),
                forall|j: int| 0 <= j < i ==> (#[trigger] buffer@[j]).displayCount == 0
                    && buffer@[j].rows == 0 && buffer@[j].columns == 0 && buffer@[j].gridFlags
                    == 0 && buffer@[j].displaySettings
                    == NV_MOSAIC_DISPLAY_SETTING_V1::spec_zeroed(),
                forall|j: int, k: int| 0 <= j < i && 0 <= k
                    < buffer@[j].displays@.len() ==> #[trigger] buffer@[j].displays@[k]
                    == NV_MOSAIC_GRID_TOPO_DISPLAY_V2::spec_zeroed(),
            decreases count - i,
        {
            let mut grid = NV_MOSAIC_GRID_TOPO_V2::zeroed();
            grid.version = tag;
            buffer.push(grid);
            i = i + 1;
        }
        buffer
    }

    /// Builds the fill buffer for a V1 grid enumeration, for the fallback
    /// path: `count` zeroed grids, each tagged with the V1 grid version.
    pub fn display_grids_request_v1(count: u32) -> (buffer: Vec<NV_MOSAIC_GRID_TOPO_V1>)
        ensures
            buffer@.len() == count,
            forall|i: int| 0 <= i < buffer@.len() ==> (#[trigger] buffer@[i]).version == spec_tag(
                StructKind::MosaicGridTopoV1),
            forall|i: int| 0 <= i < buffer@.len() ==> (#[trigger] buffer@[i]).wf(),
            forall|i: int| 0 <= i < buffer@.len() ==> (#[trigger] buffer@[i]).displayCount == 0
                && buffer@[i].rows == 0 && buffer@[i].columns == 0 && buffer@[i].gridFlags == 0
                && buffer@[i].displaySettings == NV_MOSAIC_DISPLAY_SETTING_V1::spec_zeroed(),
            forall|i: int, j: int| 0 <= i < buffer@.len() && 0 <= j
                < buffer@[i].displays@.len() ==> #[trigger] buffer@[i].displays@[j]
                == NV_MOSAIC_GRID_TOPO_DISPLAY_V1::spec_zeroed(),
    {
        let tag = version_tag(StructKind::MosaicGridTopoV1);
        let mut buffer: Vec<NV_MOSAIC_GRID_TOPO_V1> = Vec::new();
        let mut i: usize = 0;
        while i < count as usize
            invariant
                i <= count,
                buffer@.len() == i,
                tag == spec_tag(StructKind::MosaicGridTopoV1),
                forall|j: int| 0 <= j < i ==> (#[trigger] buffer@[j]).version == spec_tag(
                    StructKind::MosaicGridTopoV1),
                forall|j: int| 0 <= j < i ==> (#[trigger] buffer@[j]).wf(),
                forall|j: int| 0 <= j < i ==> (#[trigger] buffer@[j]).displayCount == 0
                    && buffer@[j].rows == 0 && buffer@[j].columns == 0 && buffer@[j].gridFlags
                    == 0 && buffer@[j].displaySettings
                    == NV_MOSAIC_DISPLAY_SETTING_V1::spec_zeroed(),
                forall|j: int, k: int| 0 <= j < i && 0 <= k
                    < buffer@[j].displays@.len() ==> #[trigger] buffer@[j].displays@[k]
                    == NV_MOSAIC_GRID_TOPO_DISPLAY_V1::spec_zeroed(),
            decreases count - i,
        {
            let mut grid = NV_MOSAIC_GRID_TOPO_V1::zeroed();
            grid.version = tag;
            buffer.push(grid);
            i = i + 1;
        }
        buffer
    }

    /// Raises one V1 grid to the V2 shape, display by display.
    pub fn grid_v1_to_v2(grid: &NV_MOSAIC_GRID_TOPO_V1) -> (r: NV_MOSAIC_GRID_TOPO_V2)
        ensures
            r.version == spec_tag(StructKind::MosaicGridTopoV2),
            r.rows == grid.rows,
            r.columns == grid.columns,
            r.displayCount == grid.displayCount,
            r.gridFlags == grid.gridFlags,
            r.displaySettings == grid.displaySettings,
            r@ == spec_grid_v1_to_v2(*grid),
            grid.wf() ==> r.wf(),
    {
        let mut displays: Vec<NV_MOSAIC_GRID_TOPO_DISPLAY_V2> = Vec::new();
        let n = grid.displays.len();
        let mut i: usize = 0;
        while i < n
            invariant
                i <= n,
                n == grid.displays@.len(),
                displays@.len() == i,
                forall|j: int| 0 <= j < i ==> displays@[j] == spec_display_v1_to_v2(
                    grid.displays@[j]),
            decreases n - i,
        {
            let d = grid.displays[i];
            displays.push(NV_MOSAIC_GRID_TOPO_DISPLAY_V2 {
                version: 2,
                displayId: d.displayId,
                overlapX: d.overlapX,
                overlapY: d.overlapY,
                rotation: d.rotation,
                cloneGroup: d.cloneGroup,
                pixelShiftType: PixelShiftType::NoPixelShift.raw(),
            });
            i = i + 1;
        }
        proof {
            assert(displays@ =~= grid.displays@.map(
                |i: int, d: NV_MOSAIC_GRID_TOPO_DISPLAY_V1| spec_display_v1_to_v2(d),
            ));
        }
        NV_MOSAIC_GRID_TOPO_V2 {
            version: version_tag(StructKind::MosaicGridTopoV2),
            rows: grid.rows,
            columns: grid.columns,
            displayCount: grid.displayCount,
            gridFlags: grid.gridFlags,
            displays,
            displaySettings: grid.displaySettings,
        }
    }

    /// Enumerates the active display grids with V2 structs, over the
    /// planned count-then-fill exchanges.
    pub fn enum_display_grids_v2(rounds: Vec<EnumRound<NV_MOSAIC_GRID_TOPO_V2>>) -> (r: Result<
        Vec<NV_MOSAIC_GRID_TOPO>, EnumFailure>)
        ensures
            ({
                let outcome = spec_enumerate(rounds@, 0);
                match r {
                    Ok(grids) => outcome matches Ok(s) && grids@ == s,
                    Err(e) => outcome == Err::<Seq<NV_MOSAIC_GRID_TOPO_V2>, EnumFailure>(e),
                }
            }),
    {
        crate::enumerate::enumerate_rounds(rounds)
    }

    /// Enumerates the active display grids with V1 structs — the fallback
    /// for drivers that reject the V2 version tag — and raises the result
    /// to the V2 shape for a uniform return type.
    pub fn enum_display_grids_v1(rounds: Vec<EnumRound<NV_MOSAIC_GRID_TOPO_V1>>) -> (r: Result<
        Vec<NV_MOSAIC_GRID_TOPO>, EnumFailure>)
        ensures
            ({
                let outcome = spec_enumerate(rounds@, 0);
                match r {
                    Ok(grids) => outcome matches Ok(s) && spec_grids_view(grids@) == s.map(
                        |i: int, g: NV_MOSAIC_GRID_TOPO_V1| spec_grid_v1_to_v2(g),
                    ),
                    Err(e) => outcome == Err::<Seq<NV_MOSAIC_GRID_TOPO_V1>, EnumFailure>(e),
                }
            }),
    {
        match crate::enumerate::enumerate_rounds(rounds) {
            Ok(found) => {
                let mut raised: Vec<NV_MOSAIC_GRID_TOPO_V2> = Vec::new();
                let n = found.len();
                let mut i: usize = 0;
                while i < n
                    invariant
                        i <= n,
                        n == found@.len(),
                        raised@.len() == i,
                        forall|j: int| 0 <= j < i ==> (#[trigger] raised@[j])@
                            == spec_grid_v1_to_v2(found@[j]),
                    decreases n - i,
                {
                    let v2 = Self::grid_v1_to_v2(&found[i]);
                    raised.push(v2);
                    i = i + 1;
                }
                proof {
                    assert(spec_grids_view(raised@) =~= found@.map(
                        |i: int, g: NV_MOSAIC_GRID_TOPO_V1| spec_grid_v1_to_v2(g),
                    ));
                }
                Ok(raised)
            },
            Err(e) => Err(e),
        }
    }

    /// Enumerates the active display grids: the V2 shape first, falling
    /// back to V1 exactly when the installed driver rejects the V2 struct
    /// version, so that older drivers still answer.
    pub fn enum_display_grids(v2_rounds: Vec<EnumRound<NV_MOSAIC_GRID_TOPO_V2>>, v1_rounds: Vec<
        EnumRound<NV_MOSAIC_GRID_TOPO_V1>>) -> (r: Result<Vec<NV_MOSAIC_GRID_TOPO>, EnumFailure>)
        ensures
            ({
                let outcome = spec_enum_display_grids(v2_rounds@, v1_rounds@);
                match r {
                    Ok(grids) => outcome matches Ok(s) && spec_grids_view(grids@) == s,
                    Err(e) => outcome == Err::<Seq<GridTopoView>, EnumFailure>(e),
                }
            }),
    {
        match Self::enum_display_grids_v2(v2_rounds) {
            Ok(grids) => Ok(grids),
            Err(e) => {
                if e == EnumFailure::Driver(Status::IncompatibleStructVersion) {
                    Self::enum_display_grids_v1(v1_rounds)
                } else {
                    Err(e)
                }
            },
        }
    }

    /// Gives every grid with an unset version field the V2 grid tag the
    /// apply and validate calls require, changing nothing else: the
    /// pre-call fix-up of both calls.
    pub fn set_display_grids(grids: &mut Vec<NV_MOSAIC_GRID_TOPO>)
        ensures
            final(grids)@.len() == old(grids)@.len(),
            forall|i: int| 0 <= i < final(grids)@.len() ==> final(grids)@[i] == spec_tagged_grid(
                old(grids)@[i]),
    {
        let tag = version_tag(StructKind::MosaicGridTopoV2);
        let n = grids.len();
        let mut i: usize = 0;
        while i < n
            invariant
                i <= n,
                n == grids@.len(),
                tag == spec_tag(StructKind::MosaicGridTopoV2),
                forall|j: int| 0 <= j < i ==> grids@[j] == spec_tagged_grid(old(grids)@[j]),
                forall|j: int| i <= j < n ==> grids@[j] == old(grids)@[j],
            decreases n - i,
        {
            if grids[i].version == 0 {
                let ghost before = grids@;
                let mut grid = grids.remove(i);
                grid.version = tag;
                grids.insert(i, grid);
                proof {
                    assert(grids@ =~= before.update(i as int, grid));
                }
            }
            i = i + 1;
        }
    }

    /// Builds the status buffer a grid validation call fills: one zeroed,
    /// tagged status struct per grid to validate.
    pub fn validate_display_grids_request(grid_count: usize) -> (buffer: Vec<
        NV_MOSAIC_DISPLAY_TOPO_STATUS>)
        ensures
            buffer@.len() == grid_count,
            forall|i: int| 0 <= i < buffer@.len() ==> (#[trigger] buffer@[i]).version == spec_tag(
                StructKind::MosaicDisplayTopoStatus),
            forall|i: int| 0 <= i < buffer@.len() ==> (#[trigger] buffer@[i]).wf(),
            forall|i: int| 0 <= i < buffer@.len() ==> (#[trigger] buffer@[i]).displayCount == 0
                && buffer@[i].errorFlags == 0 && buffer@[i].warningFlags == 0,
            forall|i: int, j: int| 0 <= i < buffer@.len() && 0 <= j
                < buffer@[i].displays@.len() ==> #[trigger] buffer@[i].displays@[j]
                == NV_MOSAIC_DISPLAY_TOPO_STATUS_DISPLAY::spec_zeroed(),
    {
        let tag = version_tag(StructKind::MosaicDisplayTopoStatus);
        let mut buffer: Vec<NV_MOSAIC_DISPLAY_TOPO_STATUS> = Vec::new();
        let mut i: usize = 0;
        while i < grid_count
            invariant
                i <= grid_count,
                buffer@.len() == i,
                tag == spec_tag(StructKind::MosaicDisplayTopoStatus),
                forall|j: int| 0 <= j < i ==> (#[trigger] buffer@[j]).version == spec_tag(
                    StructKind::MosaicDisplayTopoStatus),
                forall|j: int| 0 <= j < i ==> (#[trigger] buffer@[j]).wf(),
                forall|j: int| 0 <= j < i ==> (#[trigger] buffer@[j]).displayCount == 0
                    && buffer@[j].errorFlags == 0 && buffer@[j].warningFlags == 0,
                forall|j: int, k: int| 0 <= j < i && 0 <= k
                    < buffer@[j].displays@.len() ==> #[trigger] buffer@[j].displays@[k]
                    == NV_MOSAIC_DISPLAY_TOPO_STATUS_DISPLAY::spec_zeroed(),
            decreases grid_count - i,
        {
            let mut status = NV_MOSAIC_DISPLAY_TOPO_STATUS::zeroed();
            status.version = tag;
            buffer.push(status);
            i = i + 1;
        }
        buffer
    }

    /// Interprets a grid validation reply: on success, the per-grid
    /// status structs as the driver filled them, each count clamped to
    /// its array capacity.  Validating a grid with zero displays is a
    /// well-defined, successful call: its status simply reports a zero
    /// display count.
    pub fn validate_display_grids(status: i32, statuses: Vec<NV_MOSAIC_DISPLAY_TOPO_STATUS>)
        -> (r: Result<Vec<NV_MOSAIC_DISPLAY_TOPO_STATUS>, Status>)
        ensures
            status != RAW_OK ==> r == Err::<Vec<NV_MOSAIC_DISPLAY_TOPO_STATUS>, Status>(
                spec_translate(status)),
            status == RAW_OK ==> (r matches Ok(out) && out@.len() == statuses@.len()
                && (forall|i: int| 0 <= i < out@.len() ==> out@[i] == spec_clamped_status(
                statuses@[i]))),
    {
        match status_result(status) {
            Ok(()) => {
                let ghost orig = statuses@;
                let mut out = statuses;
                let n = out.len();
                let mut i: usize = 0;
                while i < n
                    invariant
                        i <= n,
                        n == out@.len(),
                        out@.len() == orig.len(),
                        forall|j: int| 0 <= j < i ==> out@[j] == spec_clamped_status(orig[j]),
                        forall|j: int| i <= j < n ==> out@[j] == orig[j],
                    decreases n - i,
                {
                    if out[i].displayCount > NVAPI_MAX_DISPLAYS as u32 {
                        let ghost before = out@;
                        let mut entry = out.remove(i);
                        entry.displayCount = NVAPI_MAX_DISPLAYS as u32;
                        out.insert(i, entry);
                        proof {
                            assert(out@ =~= before.update(i as int, entry));
                        }
                    }
                    i = i + 1;
                }
                Ok(out)
            },
            Err(e) => Err(e),
        }
    }

    /// Interprets the viewport reply for one display at one source
    /// resolution: the viewport rectangle and whether the resolution is
    /// bezel-corrected.
    pub fn get_display_viewports_by_resolution(status: i32, viewport: NV_RECT, bezel_corrected:
        u8) -> (r: Result<(NV_RECT, bool), Status>)
        ensures
            r == (if status == RAW_OK {
                Ok::<(NV_RECT, bool), Status>((viewport, bezel_corrected != 0))
            } else {
                Err::<(NV_RECT, bool), Status>(spec_translate(status))
            }),
    {
        match status_result(status) {
            Ok(()) => Ok((viewport, bezel_corrected != 0)),
            Err(e) => Err(e),
        }
    }
}

/// A validation status as the capacity clamp leaves it.
pub open spec fn spec_clamped_status(s: NV_MOSAIC_DISPLAY_TOPO_STATUS)
    -> NV_MOSAIC_DISPLAY_TOPO_STATUS {
    NV_MOSAIC_DISPLAY_TOPO_STATUS {
        displayCount: if s.displayCount <= NVAPI_MAX_DISPLAYS as u32 {
            s.displayCount
        } else {
            NVAPI_MAX_DISPLAYS as u32
        },
        ..s
    }
}

} // verus!
