//! Fixed-layout Mosaic structs, modeled as plain values.
//!
//! As in [`crate::gsync_types`], each struct mirrors one versioned record
//! of the driver's C ABI: the packed version tag first, raw driver integers
//! for enum-valued fields, and fixed-capacity arrays carried as vectors
//! whose length the well-formedness predicates pin to the C array bounds.

#![allow(non_camel_case_types)]
#![allow(non_snake_case)]

use vstd::prelude::*;

use crate::handles::{NvLogicalGpuHandle, NvPhysicalGpuHandle};
use crate::version::{NVAPI_MAX_DISPLAYS, NVAPI_MAX_MOSAIC_DISPLAY_COLUMNS,
    NVAPI_MAX_MOSAIC_DISPLAY_ROWS, NV_MOSAIC_DISPLAY_SETTINGS_MAX, NV_MOSAIC_MAX_DISPLAYS,
    NV_MOSAIC_MAX_TOPO_PER_TOPO_GROUP, NV_MOSAIC_TOPO_BRIEFS_MAX};

verus! {

/// Validity mask value of a topology that can be enabled as it stands.
pub const NV_MOSAIC_TOPO_VALIDITY_VALID: u32 = 0x0000_0000;
/// Validity bit: a GPU the topology needs is missing.
pub const NV_MOSAIC_TOPO_VALIDITY_MISSING_GPU: u32 = 0x0000_0001;
/// Validity bit: a display the topology needs is missing.
pub const NV_MOSAIC_TOPO_VALIDITY_MISSING_DISPLAY: u32 = 0x0000_0002;
/// Validity bit: the topology mixes display types.
pub const NV_MOSAIC_TOPO_VALIDITY_MIXED_DISPLAY_TYPES: u32 = 0x0000_0004;

/// Grid flag: apply with bezel correction.
pub const NV_MOSAIC_GRID_TOPO_FLAG_APPLY_WITH_BEZEL_CORRECT: u32 = 1 << 0;
/// Grid flag: immersive gaming mode.
pub const NV_MOSAIC_GRID_TOPO_FLAG_IMMERSIVE_GAMING: u32 = 1 << 1;
/// Grid flag: base Mosaic.
pub const NV_MOSAIC_GRID_TOPO_FLAG_BASE_MOSAIC: u32 = 1 << 2;
/// Grid flag: a driver reload is acceptable while applying.
pub const NV_MOSAIC_GRID_TOPO_FLAG_DRIVER_RELOAD_ALLOWED: u32 = 1 << 3;
/// Grid flag: accelerate the primary display.
pub const NV_MOSAIC_GRID_TOPO_FLAG_ACCELERATE_PRIMARY_DISPLAY: u32 = 1 << 4;
/// Grid flag (V2 only): per-display pixel shift is in use.
pub const NV_MOSAIC_GRID_TOPO_FLAG_PIXEL_SHIFT: u32 = 1 << 5;

/// Per-display warning bit: the display position raised a warning.
pub const NV_MOSAIC_DISPLAYTOPO_WARNING_DISPLAY_POSITION: u32 = 1 << 0;
/// Per-display warning bit: applying will require a driver reload.
pub const NV_MOSAIC_DISPLAYTOPO_WARNING_DRIVER_RELOAD_REQUIRED: u32 = 1 << 1;

/// Apply flag: keep the current GPU topology.
pub const NV_MOSAIC_SETDISPLAYTOPO_FLAG_CURRENT_GPU_TOPOLOGY: u32 = 1 << 0;
/// Apply flag: avoid a driver reload if possible.
pub const NV_MOSAIC_SETDISPLAYTOPO_FLAG_NO_DRIVER_RELOAD: u32 = 1 << 1;
/// Apply flag: optimize for performance.
pub const NV_MOSAIC_SETDISPLAYTOPO_FLAG_MAXIMIZE_PERFORMANCE: u32 = 1 << 2;
/// Apply flag: accept configurations the driver deems invalid.
pub const NV_MOSAIC_SETDISPLAYTOPO_FLAG_ALLOW_INVALID: u32 = 1 << 3;

/// A rectangle in desktop coordinates.
#[derive(Clone, Copy, Debug, PartialEq, Eq, Structural)]
pub struct NV_RECT {
    pub left: i32,
    pub top: i32,
    pub right: i32,
    pub bottom: i32,
}

impl NV_RECT {
    /// The all-zero rectangle.
    pub open spec fn spec_zeroed() -> Self {
        NV_RECT { left: 0, top: 0, right: 0, bottom: 0 }
    }

    /// Returns the all-zero rectangle.
    pub fn zeroed() -> (r: Self)
        ensures
            r == Self::spec_zeroed(),
    {
        NV_RECT { left: 0, top: 0, right: 0, bottom: 0 }
    }
}

/// High-level description of one Mosaic topology.
#[derive(Clone, Copy, Debug, PartialEq, Eq, Structural)]
#[allow(non_snake_case)]
pub struct NV_MOSAIC_TOPO_BRIEF {
    pub version: u32,
    /// Raw [`crate::enums::MosaicTopo`] value.
    pub topo: i32,
    pub enabled: u32,
    pub isPossible: u32,
}

impl NV_MOSAIC_TOPO_BRIEF {
    /// The all-zero value, before any tagging or filling.
    pub open spec fn spec_zeroed() -> Self {
        NV_MOSAIC_TOPO_BRIEF { version: 0, topo: 0, enabled: 0, isPossible: 0 }
    }

    /// Returns the all-zero value.
    pub fn zeroed() -> (r: Self)
        ensures
            r == Self::spec_zeroed(),
    {
        NV_MOSAIC_TOPO_BRIEF { version: 0, topo: 0, enabled: 0, isPossible: 0 }
    }
}

/// One GPU/display cell within a Mosaic layout.
#[derive(Clone, Copy, Debug, PartialEq, Eq, Structural)]
#[allow(non_snake_case)]
pub struct NV_MOSAIC_GPU_LAYOUT_ELEM {
    pub hPhysicalGPU: NvPhysicalGpuHandle,
    pub displayOutputId: u32,
    pub overlapX: i32,
    pub overlapY: i32,
}

impl NV_MOSAIC_GPU_LAYOUT_ELEM {
    /// The all-zero cell.
    pub open spec fn spec_zeroed() -> Self {
        NV_MOSAIC_GPU_LAYOUT_ELEM {
            hPhysicalGPU: NvPhysicalGpuHandle { addr: 0 },
            displayOutputId: 0,
            overlapX: 0,
            overlapY: 0,
        }
    }
}

/// Detailed description of one Mosaic topology.  The 8 x 8 GPU layout is
/// carried row-major.
#[derive(Clone, Debug, PartialEq)]
#[allow(non_snake_case)]
pub struct NV_MOSAIC_TOPO_DETAILS {
    pub version: u32,
    pub hLogicalGPU: NvLogicalGpuHandle,
    pub validityMask: u32,
    pub rowCount: u32,
    pub colCount: u32,
    /// Row-major cells of the 8 x 8 layout grid.
    pub gpuLayout: Vec<NV_MOSAIC_GPU_LAYOUT_ELEM>,
}

impl NV_MOSAIC_TOPO_DETAILS {
    /// The layout vector holds exactly the 8 x 8 C array.
    pub open spec fn wf(&self) -> bool {
        self.gpuLayout@.len() == NVAPI_MAX_MOSAIC_DISPLAY_ROWS * NVAPI_MAX_MOSAIC_DISPLAY_COLUMNS
    }

    /// Every field is zero, cell by cell.
    pub open spec fn spec_is_zeroed(&self) -> bool {
        &&& self.version == 0
        &&& self.hLogicalGPU.addr == 0
        &&& self.validityMask == 0
        &&& self.rowCount == 0
        &&& self.colCount == 0
        &&& forall|i: int| 0 <= i < self.gpuLayout@.len() ==> self.gpuLayout@[i]
            == NV_MOSAIC_GPU_LAYOUT_ELEM::spec_zeroed()
    }

    /// Returns the all-zero value.
    pub fn zeroed() -> (r: Self)
        ensures
            r.wf(),
            r.spec_is_zeroed(),
    {
        let cells = NVAPI_MAX_MOSAIC_DISPLAY_ROWS * NVAPI_MAX_MOSAIC_DISPLAY_COLUMNS;
        let mut layout: Vec<NV_MOSAIC_GPU_LAYOUT_ELEM> = Vec::new();
        let mut i: usize = 0;
        while i < cells
            invariant
                i <= cells,
                cells == 64,
                layout@.len() == i,
                forall|j: int| 0 <= j < i ==> layout@[j]
                    == NV_MOSAIC_GPU_LAYOUT_ELEM::spec_zeroed(),
            decreases cells - i,
        {
            layout.push(NV_MOSAIC_GPU_LAYOUT_ELEM {
                hPhysicalGPU: NvPhysicalGpuHandle { addr: 0 },
                displayOutputId: 0,
                overlapX: 0,
                overlapY: 0,
            });
            i = i + 1;
        }
        NV_MOSAIC_TOPO_DETAILS {
            version: 0,
            hLogicalGPU: NvLogicalGpuHandle { addr: 0 },
            validityMask: 0,
            rowCount: 0,
            colCount: 0,
            gpuLayout: layout,
        }
    }
}

/// Per-display Mosaic settings (V1).
#[derive(Clone, Copy, Debug, PartialEq, Eq, Structural)]
pub struct NV_MOSAIC_DISPLAY_SETTING_V1 {
    pub version: u32,
    pub width: u32,
    pub height: u32,
    pub bpp: u32,
    pub freq: u32,
}

impl NV_MOSAIC_DISPLAY_SETTING_V1 {
    /// The all-zero value, before any tagging or filling.
    pub open spec fn spec_zeroed() -> Self {
        NV_MOSAIC_DISPLAY_SETTING_V1 { version: 0, width: 0, height: 0, bpp: 0, freq: 0 }
    }

    /// Returns the all-zero value.
    pub fn zeroed() -> (r: Self)
        ensures
            r == Self::spec_zeroed(),
    {
        NV_MOSAIC_DISPLAY_SETTING_V1 { version: 0, width: 0, height: 0, bpp: 0, freq: 0 }
    }
}

/// Per-display Mosaic settings (V2): V1 plus the refresh rate in
/// millihertz.
#[derive(Clone, Copy, Debug, PartialEq, Eq, Structural)]
pub struct NV_MOSAIC_DISPLAY_SETTING_V2 {
    pub version: u32,
    pub width: u32,
    pub height: u32,
    pub bpp: u32,
    pub freq: u32,
    pub rrx1k: u32,
}

/// The display-setting variant requested by default: the most capable one.
pub type NV_MOSAIC_DISPLAY_SETTING = NV_MOSAIC_DISPLAY_SETTING_V2;

impl NV_MOSAIC_DISPLAY_SETTING_V2 {
    /// The all-zero value, before any tagging or filling.
    pub open spec fn spec_zeroed() -> Self {
        NV_MOSAIC_DISPLAY_SETTING_V2 { version: 0, width: 0, height: 0, bpp: 0, freq: 0, rrx1k: 0 }
    }

    /// Returns the all-zero value.
    pub fn zeroed() -> (r: Self)
        ensures
            r == Self::spec_zeroed(),
    {
        NV_MOSAIC_DISPLAY_SETTING_V2 { version: 0, width: 0, height: 0, bpp: 0, freq: 0, rrx1k: 0 }
    }

    /// Downgrades to the V1 shape, dropping the V2-only field.  The version
    /// tag is not carried over: the caller tags the result for the variant
    /// it will send.
    pub fn to_v1(&self) -> (r: NV_MOSAIC_DISPLAY_SETTING_V1)
        ensures
            r.version == 0,
            r.width == self.width,
            r.height == self.height,
            r.bpp == self.bpp,
            r.freq == self.freq,
    {
        NV_MOSAIC_DISPLAY_SETTING_V1 {
            version: 0,
            width: self.width,
            height: self.height,
            bpp: self.bpp,
            freq: self.freq,
        }
    }
}

/// Supported topologies and the display settings usable with them, as one
/// driver query returns them.
#[derive(Clone, Debug, PartialEq)]
#[allow(non_snake_case)]
pub struct NV_MOSAIC_SUPPORTED_TOPO_INFO {
    pub version: u32,
    pub topoBriefsCount: u32,
    /// The fixed-capacity brief array; only the first `topoBriefsCount`
    /// entries are meaningful.
    pub topoBriefs: Vec<NV_MOSAIC_TOPO_BRIEF>,
    pub displaySettingsCount: u32,
    /// The fixed-capacity settings array; only the first
    /// `displaySettingsCount` entries are meaningful.
    pub displaySettings: Vec<NV_MOSAIC_DISPLAY_SETTING_V2>,
}

impl NV_MOSAIC_SUPPORTED_TOPO_INFO {
    /// The arrays hold exactly their C capacities and the counts stay
    /// within them.
    pub open spec fn wf(&self) -> bool {
        &&& self.topoBriefs@.len() == NV_MOSAIC_TOPO_BRIEFS_MAX
        &&& self.displaySettings@.len() == NV_MOSAIC_DISPLAY_SETTINGS_MAX
        &&& self.topoBriefsCount <= NV_MOSAIC_TOPO_BRIEFS_MAX
        &&& self.displaySettingsCount <= NV_MOSAIC_DISPLAY_SETTINGS_MAX
    }

    /// Returns the all-zero value.
    pub fn zeroed() -> (r: Self)
        ensures
            r.wf(),
            r.version == 0,
            r.topoBriefsCount == 0,
            r.displaySettingsCount == 0,
            forall|i: int| 0 <= i < r.topoBriefs@.len() ==> r.topoBriefs@[i]
                == NV_MOSAIC_TOPO_BRIEF::spec_zeroed(),
            forall|i: int| 0 <= i < r.displaySettings@.len() ==> r.displaySettings@[i]
                == NV_MOSAIC_DISPLAY_SETTING_V2::spec_zeroed(),
    {
        let mut briefs: Vec<NV_MOSAIC_TOPO_BRIEF> = Vec::new();
        let mut i: usize = 0;
        while i < NV_MOSAIC_TOPO_BRIEFS_MAX
            invariant
                i <= NV_MOSAIC_TOPO_BRIEFS_MAX,
                briefs@.len() == i,
                forall|j: int| 0 <= j < i ==> briefs@[j] == NV_MOSAIC_TOPO_BRIEF::spec_zeroed(),
            decreases NV_MOSAIC_TOPO_BRIEFS_MAX - i,
        {
            briefs.push(NV_MOSAIC_TOPO_BRIEF::zeroed());
            i = i + 1;
        }
        let mut settings: Vec<NV_MOSAIC_DISPLAY_SETTING_V2> = Vec::new();
        let mut j: usize = 0;
        while j < NV_MOSAIC_DISPLAY_SETTINGS_MAX
            invariant
                j <= NV_MOSAIC_DISPLAY_SETTINGS_MAX,
                settings@.len() == j,
                forall|k: int| 0 <= k < j ==> settings@[k]
                    == NV_MOSAIC_DISPLAY_SETTING_V2::spec_zeroed(),
            decreases NV_MOSAIC_DISPLAY_SETTINGS_MAX - j,
        {
            settings.push(NV_MOSAIC_DISPLAY_SETTING_V2::zeroed());
            j = j + 1;
        }
        NV_MOSAIC_SUPPORTED_TOPO_INFO {
            version: 0,
            topoBriefsCount: 0,
            topoBriefs: briefs,
            displaySettingsCount: 0,
            displaySettings: settings,
        }
    }
}

/// The topologies that combine into one overall layout: one entry for a
/// basic topology, two (one per eye) for passive stereo.
#[derive(Clone, Debug, PartialEq)]
pub struct NV_MOSAIC_TOPO_GROUP {
    pub version: u32,
    pub brief: NV_MOSAIC_TOPO_BRIEF,
    pub count: u32,
    /// The fixed-capacity details array; only the first `count` entries
    /// are meaningful.
    pub topos: Vec<NV_MOSAIC_TOPO_DETAILS>,
}

impl NV_MOSAIC_TOPO_GROUP {
    /// The details array holds exactly its C capacity, each entry well
    /// formed, and the count stays within it.
    pub open spec fn wf(&self) -> bool {
        &&& self.topos@.len() == NV_MOSAIC_MAX_TOPO_PER_TOPO_GROUP
        &&& self.count <= NV_MOSAIC_MAX_TOPO_PER_TOPO_GROUP
        &&& forall|i: int| 0 <= i < self.topos@.len() ==> (#[trigger] self.topos@[i]).wf()
    }

    /// Returns the all-zero value.
    pub fn zeroed() -> (r: Self)
        ensures
            r.wf(),
            r.version == 0,
            r.brief == NV_MOSAIC_TOPO_BRIEF::spec_zeroed(),
            r.count == 0,
            forall|i: int| 0 <= i < r.topos@.len() ==> (#[trigger] r.topos@[i]).spec_is_zeroed(),
    {
        let mut topos: Vec<NV_MOSAIC_TOPO_DETAILS> = Vec::new();
        let mut i: usize = 0;
        while i < NV_MOSAIC_MAX_TOPO_PER_TOPO_GROUP
            invariant
                i <= NV_MOSAIC_MAX_TOPO_PER_TOPO_GROUP,
                topos@.len() == i,
                forall|j: int| 0 <= j < i ==> (#[trigger] topos@[j]).wf(),
                forall|j: int| 0 <= j < i ==> (#[trigger] topos@[j]).spec_is_zeroed(),
            decreases NV_MOSAIC_MAX_TOPO_PER_TOPO_GROUP - i,
        {
            topos.push(NV_MOSAIC_TOPO_DETAILS::zeroed());
            i = i + 1;
        }
        NV_MOSAIC_TOPO_GROUP {
            version: 0,
            brief: NV_MOSAIC_TOPO_BRIEF::zeroed(),
            count: 0,
            topos,
        }
    }
}

/// One display within a grid topology (V1).
#[derive(Clone, Copy, Debug, PartialEq, Eq, Structural)]
#[allow(non_snake_case)]
pub struct NV_MOSAIC_GRID_TOPO_DISPLAY_V1 {
    pub displayId: u32,
    pub overlapX: i32,
    pub overlapY: i32,
    /// Raw [`crate::enums::Rotate`] value.
    pub rotation: i32,
    pub cloneGroup: u32,
}

impl NV_MOSAIC_GRID_TOPO_DISPLAY_V1 {
    /// The all-zero value.
    pub open spec fn spec_zeroed() -> Self {
        NV_MOSAIC_GRID_TOPO_DISPLAY_V1 {
            displayId: 0,
            overlapX: 0,
            overlapY: 0,
            rotation: 0,
            cloneGroup: 0,
        }
    }

    /// Returns the all-zero value.
    pub fn zeroed() -> (r: Self)
        ensures
            r == Self::spec_zeroed(),
    {
        NV_MOSAIC_GRID_TOPO_DISPLAY_V1 {
            displayId: 0,
            overlapX: 0,
            overlapY: 0,
            rotation: 0,
            cloneGroup: 0,
        }
    }
}

/// One display within a grid topology (V2): V1 plus a version tag and the
/// pixel-shift mode.
#[derive(Clone, Copy, Debug, PartialEq, Eq, Structural)]
#[allow(non_snake_case)]
pub struct NV_MOSAIC_GRID_TOPO_DISPLAY_V2 {
    pub version: u32,
    pub displayId: u32,
    pub overlapX: i32,
    pub overlapY: i32,
    /// Raw [`crate::enums::Rotate`] value.
    pub rotation: i32,
    pub cloneGroup: u32,
    /// Raw [`crate::enums::PixelShiftType`] value.
    pub pixelShiftType: i32,
}

impl NV_MOSAIC_GRID_TOPO_DISPLAY_V2 {
    /// The all-zero value.
    pub open spec fn spec_zeroed() -> Self {
        NV_MOSAIC_GRID_TOPO_DISPLAY_V2 {
            version: 0,
            displayId: 0,
            overlapX: 0,
            overlapY: 0,
            rotation: 0,
            cloneGroup: 0,
            pixelShiftType: 0,
        }
    }

    /// Returns the all-zero value.
    pub fn zeroed() -> (r: Self)
        ensures
            r == Self::spec_zeroed(),
    {
        NV_MOSAIC_GRID_TOPO_DISPLAY_V2 {
            version: 0,
            displayId: 0,
            overlapX: 0,
            overlapY: 0,
            rotation: 0,
            cloneGroup: 0,
            pixelShiftType: 0,
        }
    }
}

/// A display grid (V1): the active layout of rows x columns displays with
/// their shared settings.
#[derive(Clone, Debug, PartialEq)]
#[allow(non_snake_case)]
pub struct NV_MOSAIC_GRID_TOPO_V1 {
    pub version: u32,
    pub rows: u32,
    pub columns: u32,
    pub displayCount: u32,
    /// Bit-field of the `NV_MOSAIC_GRID_TOPO_FLAG_*` bits below
    /// `NV_MOSAIC_GRID_TOPO_FLAG_PIXEL_SHIFT`.
    pub gridFlags: u32,
    /// The fixed-capacity display array; only the first `displayCount`
    /// entries are meaningful.
    pub displays: Vec<NV_MOSAIC_GRID_TOPO_DISPLAY_V1>,
    pub displaySettings: NV_MOSAIC_DISPLAY_SETTING_V1,
}

impl NV_MOSAIC_GRID_TOPO_V1 {
    /// The display array holds exactly its C capacity and the count stays
    /// within it.
    pub open spec fn wf(&self) -> bool {
        &&& self.displays@.len() == NV_MOSAIC_MAX_DISPLAYS
        &&& self.displayCount <= NV_MOSAIC_MAX_DISPLAYS
    }

    /// Returns the all-zero value.
    pub fn zeroed() -> (r: Self)
        ensures
            r.wf(),
            r.version == 0,
            r.rows == 0,
            r.columns == 0,
            r.displayCount == 0,
            r.gridFlags == 0,
            r.displaySettings == NV_MOSAIC_DISPLAY_SETTING_V1::spec_zeroed(),
            forall|i: int| 0 <= i < r.displays@.len() ==> r.displays@[i]
                == NV_MOSAIC_GRID_TOPO_DISPLAY_V1::spec_zeroed(),
    {
        let mut displays: Vec<NV_MOSAIC_GRID_TOPO_DISPLAY_V1> = Vec::new();
        let mut i: usize = 0;
        while i < NV_MOSAIC_MAX_DISPLAYS
            invariant
                i <= NV_MOSAIC_MAX_DISPLAYS,
                displays@.len() == i,
                forall|j: int| 0 <= j < i ==> displays@[j]
                    == NV_MOSAIC_GRID_TOPO_DISPLAY_V1::spec_zeroed(),
            decreases NV_MOSAIC_MAX_DISPLAYS - i,
        {
            displays.push(NV_MOSAIC_GRID_TOPO_DISPLAY_V1::zeroed());
            i = i + 1;
        }
        NV_MOSAIC_GRID_TOPO_V1 {
            version: 0,
            rows: 0,
            columns: 0,
            displayCount: 0,
            gridFlags: 0,
            displays,
            displaySettings: NV_MOSAIC_DISPLAY_SETTING_V1::zeroed(),
        }
    }

    /// Returns whether any bit of `flag` is set in the grid flags, as a
    /// test of the single `NV_MOSAIC_GRID_TOPO_FLAG_*` bits.
    pub fn has_flag(&self, flag: u32) -> (r: bool)
        ensures
            r == ((self.gridFlags & flag) != 0),
    {
        (self.gridFlags & flag) != 0
    }

    /// Sets or clears the given flag bits, leaving every other field and
    /// every other bit alone.
    pub fn set_flag(&mut self, flag: u32, enabled: bool)
        ensures
            final(self).gridFlags == if enabled {
                old(self).gridFlags | flag
            } else {
                old(self).gridFlags & !flag
            },
            *final(self) == (NV_MOSAIC_GRID_TOPO_V1 {
                gridFlags: final(self).gridFlags,
                ..*old(self)
            }),
    {
        if enabled {
            self.gridFlags = self.gridFlags | flag;
        } else {
            self.gridFlags = self.gridFlags & !flag;
        }
    }
}

/// A display grid (V2): V1 with pixel-shift-capable display entries.
#[derive(Clone, Debug, PartialEq)]
#[allow(non_snake_case)]
pub struct NV_MOSAIC_GRID_TOPO_V2 {
    pub version: u32,
    pub rows: u32,
    pub columns: u32,
    pub displayCount: u32,
    /// Bit-field of the `NV_MOSAIC_GRID_TOPO_FLAG_*` bits.
    pub gridFlags: u32,
    /// The fixed-capacity display array; only the first `displayCount`
    /// entries are meaningful.
    pub displays: Vec<NV_MOSAIC_GRID_TOPO_DISPLAY_V2>,
    pub displaySettings: NV_MOSAIC_DISPLAY_SETTING_V1,
}

/// The grid variant requested by default: the most capable one.
pub type NV_MOSAIC_GRID_TOPO = NV_MOSAIC_GRID_TOPO_V2;

impl NV_MOSAIC_GRID_TOPO_V2 {
    /// The display array holds exactly its C capacity and the count stays
    /// within it.
    pub open spec fn wf(&self) -> bool {
        &&& self.displays@.len() == NV_MOSAIC_MAX_DISPLAYS
        &&& self.displayCount <= NV_MOSAIC_MAX_DISPLAYS
    }

    /// Returns the all-zero value.
    pub fn zeroed() -> (r: Self)
        ensures
            r.wf(),
            r.version == 0,
            r.rows == 0,
            r.columns == 0,
            r.displayCount == 0,
            r.gridFlags == 0,
            r.displaySettings == NV_MOSAIC_DISPLAY_SETTING_V1::spec_zeroed(),
            forall|i: int| 0 <= i < r.displays@.len() ==> r.displays@[i]
                == NV_MOSAIC_GRID_TOPO_DISPLAY_V2::spec_zeroed(),
    {
        let mut displays: Vec<NV_MOSAIC_GRID_TOPO_DISPLAY_V2> = Vec::new();
        let mut i: usize = 0;
        while i < NV_MOSAIC_MAX_DISPLAYS
            invariant
                i <= NV_MOSAIC_MAX_DISPLAYS,
                displays@.len() == i,
                forall|j: int| 0 <= j < i ==> displays@[j]
                    == NV_MOSAIC_GRID_TOPO_DISPLAY_V2::spec_zeroed(),
            decreases NV_MOSAIC_MAX_DISPLAYS - i,
        {
            displays.push(NV_MOSAIC_GRID_TOPO_DISPLAY_V2::zeroed());
            i = i + 1;
        }
        NV_MOSAIC_GRID_TOPO_V2 {
            version: 0,
            rows: 0,
            columns: 0,
            displayCount: 0,
            gridFlags: 0,
            displays,
            displaySettings: NV_MOSAIC_DISPLAY_SETTING_V1::zeroed(),
        }
    }

    /// Returns whether any bit of `flag` is set in the grid flags, as a
    /// test of the single `NV_MOSAIC_GRID_TOPO_FLAG_*` bits.
    pub fn has_flag(&self, flag: u32) -> (r: bool)
        ensures
            r == ((self.gridFlags & flag) != 0),
    {
        (self.gridFlags & flag) != 0
    }

    /// Sets or clears the given flag bits, leaving every other field and
    /// every other bit alone.
    pub fn set_flag(&mut self, flag: u32, enabled: bool)
        ensures
            final(self).gridFlags == if enabled {
                old(self).gridFlags | flag
            } else {
                old(self).gridFlags & !flag
            },
            *final(self) == (NV_MOSAIC_GRID_TOPO_V2 {
                gridFlags: final(self).gridFlags,
                ..*old(self)
            }),
    {
        if enabled {
            self.gridFlags = self.gridFlags | flag;
        } else {
            self.gridFlags = self.gridFlags & !flag;
        }
    }
}

/// The mathematical view of a V2 grid: the same fields, with the display
/// array as a sequence.
pub struct GridTopoView {
    pub version: u32,
    pub rows: u32,
    pub columns: u32,
    pub displayCount: u32,
    pub gridFlags: u32,
    pub displays: Seq<NV_MOSAIC_GRID_TOPO_DISPLAY_V2>,
    pub displaySettings: NV_MOSAIC_DISPLAY_SETTING_V1,
}

impl View for NV_MOSAIC_GRID_TOPO_V2 {
    type V = GridTopoView;

    open spec fn view(&self) -> GridTopoView {
        GridTopoView {
            version: self.version,
            rows: self.rows,
            columns: self.columns,
            displayCount: self.displayCount,
            gridFlags: self.gridFlags,
            displays: self.displays@,
            displaySettings: self.displaySettings,
        }
    }
}

/// A set flag reads back as present, a cleared flag as absent, and in both
/// directions the other bits keep their values.
pub proof fn lemma_flag_operations(flags: u32, flag: u32, other: u32)
    ensures
        flag != 0 ==> ((flags | flag) & flag) != 0,
        ((flags & !flag) & flag) == 0,
        (other & flag) == 0 ==> ((flags | flag) & other) == (flags & other),
        (other & flag) == 0 ==> ((flags & !flag) & other) == (flags & other),
{
    assert(flag != 0 ==> ((flags | flag) & flag) != 0) by (bit_vector);
    assert(((flags & !flag) & flag) == 0) by (bit_vector);
    assert((other & flag) == 0 ==> ((flags | flag) & other) == (flags & other)) by (bit_vector);
    assert((other & flag) == 0 ==> ((flags & !flag) & other) == (flags & other)) by (bit_vector);
}

/// Status of one display in a proposed or applied topology.
#[derive(Clone, Copy, Debug, PartialEq, Eq, Structural)]
#[allow(non_snake_case)]
pub struct NV_MOSAIC_DISPLAY_TOPO_STATUS_DISPLAY {
    pub displayId: u32,
    pub errorFlags: u32,
    pub warningFlags: u32,
    /// Bit-field; bit zero says the display supports rotation.
    pub supportsRotation: u32,
}

impl NV_MOSAIC_DISPLAY_TOPO_STATUS_DISPLAY {
    /// The all-zero value.
    pub open spec fn spec_zeroed() -> Self {
        NV_MOSAIC_DISPLAY_TOPO_STATUS_DISPLAY {
            displayId: 0,
            errorFlags: 0,
            warningFlags: 0,
            supportsRotation: 0,
        }
    }

    /// Returns the all-zero value.
    pub fn zeroed() -> (r: Self)
        ensures
            r == Self::spec_zeroed(),
    {
        NV_MOSAIC_DISPLAY_TOPO_STATUS_DISPLAY {
            displayId: 0,
            errorFlags: 0,
            warningFlags: 0,
            supportsRotation: 0,
        }
    }
}

/// Validation status for one proposed grid: error and warning bits overall
/// and per display.
#[derive(Clone, Debug, PartialEq)]
#[allow(non_snake_case)]
pub struct NV_MOSAIC_DISPLAY_TOPO_STATUS {
    pub version: u32,
    pub errorFlags: u32,
    pub warningFlags: u32,
    pub displayCount: u32,
    /// The fixed-capacity display array; only the first `displayCount`
    /// entries are meaningful.
    pub displays: Vec<NV_MOSAIC_DISPLAY_TOPO_STATUS_DISPLAY>,
}

impl NV_MOSAIC_DISPLAY_TOPO_STATUS {
    /// The display array holds exactly its C capacity and the count stays
    /// within it.
    pub open spec fn wf(&self) -> bool {
        &&& self.displays@.len() == NVAPI_MAX_DISPLAYS
        &&& self.displayCount <= NVAPI_MAX_DISPLAYS
    }

    /// Returns the all-zero value.
    pub fn zeroed() -> (r: Self)
        ensures
            r.wf(),
            r.version == 0,
            r.errorFlags == 0,
            r.warningFlags == 0,
            r.displayCount == 0,
            forall|i: int| 0 <= i < r.displays@.len() ==> r.displays@[i]
                == NV_MOSAIC_DISPLAY_TOPO_STATUS_DISPLAY::spec_zeroed(),
    {
        let mut displays: Vec<NV_MOSAIC_DISPLAY_TOPO_STATUS_DISPLAY> = Vec::new();
        let mut i: usize = 0;
        while i < NVAPI_MAX_DISPLAYS
            invariant
                i <= NVAPI_MAX_DISPLAYS,
                displays@.len() == i,
                forall|j: int| 0 <= j < i ==> displays@[j]
                    == NV_MOSAIC_DISPLAY_TOPO_STATUS_DISPLAY::spec_zeroed(),
            decreases NVAPI_MAX_DISPLAYS - i,
        {
            displays.push(NV_MOSAIC_DISPLAY_TOPO_STATUS_DISPLAY::zeroed());
            i = i + 1;
        }
        NV_MOSAIC_DISPLAY_TOPO_STATUS {
            version: 0,
            errorFlags: 0,
            warningFlags: 0,
            displayCount: 0,
            displays,
        }
    }
}

} // verus!
