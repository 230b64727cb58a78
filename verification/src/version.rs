//! The versioned-struct protocol.
//!
//! Every struct passed across the driver boundary carries, as its first
//! 32-bit field, a packed version tag: the struct's byte size in the low 16
//! bits and a small version number in the high 16 bits.  The driver rejects
//! any call whose tag does not match one of the (size, version) pairs it
//! knows for that struct kind, so getting these tags exactly right — for
//! every kind, and for every element of an array of structs — is the heart
//! of calling the interface safely.
//!
//! This module holds the tag codec ([`pack_version`], [`tag_size`],
//! [`tag_version`]), the table of known struct kinds with their C byte
//! layouts ([`StructKind`], [`struct_size`]), and the proof that each kind's
//! tag encodes exactly that layout's size ([`lemma_tag_encodes_layout`]).
//!
//! The byte counts in [`struct_size`] spell out the foreign C layout field
//! by field, padding included, for the 64-bit ABI the driver uses (opaque
//! handles are pointer-sized, [`HANDLE_BYTES`]).

use vstd::prelude::*;

verus! {

/// Bytes of an opaque driver handle (a pointer on the 64-bit ABI).
pub const HANDLE_BYTES: u32 = 8;

/// Most devices of one synchronization board chain the driver reports.
pub const NVAPI_MAX_GSYNC_DEVICES: usize = 4;
/// RJ45 ports per synchronization device.
pub const NVAPI_MAX_RJ45_PER_GSYNC: usize = 2;
/// Displays per grid topology struct.
pub const NV_MOSAIC_MAX_DISPLAYS: usize = 64;
/// Displays per topology-status struct.
pub const NVAPI_MAX_DISPLAYS: usize = 64;
/// Topology briefs per supported-topologies struct.
pub const NV_MOSAIC_TOPO_BRIEFS_MAX: usize = 35;
/// Display settings per supported-topologies struct.
pub const NV_MOSAIC_DISPLAY_SETTINGS_MAX: usize = 40;
/// Rows of the legacy topology grid.
pub const NVAPI_MAX_MOSAIC_DISPLAY_ROWS: usize = 8;
/// Columns of the legacy topology grid.
pub const NVAPI_MAX_MOSAIC_DISPLAY_COLUMNS: usize = 8;
/// Topologies per legacy supported-topologies struct.
pub const NVAPI_MAX_MOSAIC_TOPOS: usize = 16;
/// Topology details per topology group.
pub const NV_MOSAIC_MAX_TOPO_PER_TOPO_GROUP: usize = 2;
/// Thermal sensors per GPU in a thermal-settings struct.
pub const NVAPI_MAX_THERMAL_SENSORS_PER_GPU: usize = 3;

/// What a packed tag means: size in the low 16 bits, version above them.
pub open spec fn spec_pack_version(size: u32, ver: u32) -> int {
    size + ver * 0x10000
}

/// Packs a struct's byte size and version number into its 32-bit tag.
pub fn pack_version(size: u32, ver: u32) -> (tag: u32)
    requires
        size < 0x10000,
        ver < 0x10000,
    ensures
        tag == spec_pack_version(size, ver),
{
    proof {
        assert(size < 0x10000 && ver < 0x10000 ==> (size | (ver << 16)) == size + ver * 0x10000
            < 0x100000000) by (bit_vector);
    }
    size | (ver << 16)
}

/// Reads the byte size a packed tag encodes.
pub fn tag_size(tag: u32) -> (size: u32)
    ensures
        size == tag % 0x10000,
{
    proof {
        assert((tag & 0xFFFF) == tag % 0x10000) by (bit_vector);
    }
    tag & 0xFFFF
}

/// Reads the version number a packed tag encodes.
pub fn tag_version(tag: u32) -> (ver: u32)
    ensures
        ver == tag / 0x10000,
{
    proof {
        assert((tag >> 16) == tag / 0x10000) by (bit_vector);
    }
    tag >> 16
}

/// Packing is injective and decoding inverts it: the size and version put
/// into a tag are exactly what comes back out.
pub proof fn lemma_pack_round_trip(size: u32, ver: u32)
    requires
        size < 0x10000,
        ver < 0x10000,
    ensures
        spec_pack_version(size, ver) % 0x10000 == size,
        spec_pack_version(size, ver) / 0x10000 == ver,
        spec_pack_version(size, ver) <= u32::MAX,
{
    assert((size + ver * 0x10000) % 0x10000 == size && (size + ver * 0x10000) / 0x10000 == ver
        && size + ver * 0x10000 < 0x100000000) by (nonlinear_arith)
        requires
            size < 0x10000,
            ver < 0x10000,
    ;
}

/// Every struct kind and version pair the library knows how to tag.
///
/// V1 and V2 of one logical struct are distinct kinds here, because the
/// driver distinguishes them by size: the caller picks the variant, tags it,
/// and falls back to the other variant on a version mismatch.
#[derive(Clone, Copy, Debug, PartialEq, Eq, Structural)]
pub enum StructKind {
    GsyncCapabilitiesV1,
    GsyncCapabilitiesV2,
    GsyncDisplay,
    GsyncGpu,
    GsyncDelay,
    GsyncControlParams,
    GsyncStatus,
    GsyncStatusParamsV1,
    GsyncStatusParamsV2,
    MosaicTopoBrief,
    MosaicTopoDetails,
    MosaicDisplaySettingV1,
    MosaicDisplaySettingV2,
    MosaicSupportedTopoInfoV1,
    MosaicSupportedTopoInfoV2,
    MosaicTopoGroup,
    MosaicGridTopoV1,
    MosaicGridTopoV2,
    MosaicDisplayTopoStatus,
    MosaicTopologyLegacy,
    MosaicSupportedTopologiesLegacy,
    ThermalSettingsV1,
    ThermalSettingsV2,
}

/// The C byte size of one struct variant, written out field by field with
/// the alignment padding the 64-bit C layout inserts.
pub open spec fn struct_size(k: StructKind) -> int {
    match k {
        // version, board id, revision, capability flags
        StructKind::GsyncCapabilitiesV1 => 4int + 4 + 4 + 4,
        // V1 fields, extended revision
        StructKind::GsyncCapabilitiesV2 => (4int + 4 + 4 + 4) + 4,
        // version, display id, masterable bit-field, sync state
        StructKind::GsyncDisplay => 4int + 4 + 4 + 4,
        // version, pad, GPU handle, connector, pad, proxy GPU handle,
        // synced bit-field, tail pad
        StructKind::GsyncGpu => 4int + 4 + HANDLE_BYTES + 4 + 4 + HANDLE_BYTES + 4 + 4,
        // version, lines, pixels, max lines, min pixels
        StructKind::GsyncDelay => 4int + 4 + 4 + 4 + 4,
        // version, polarity, video mode, interval, source, interlace mode,
        // source-is-output, reserved, then the two embedded delay structs
        StructKind::GsyncControlParams => 8int * 4 + 2 * (4 + 4 + 4 + 4 + 4),
        // version, synced, stereo synced, sync signal available
        StructKind::GsyncStatus => 4int + 4 + 4 + 4,
        // version, refresh rate, port directions, port ethernet states,
        // house sync incoming, house sync flag
        StructKind::GsyncStatusParamsV1 => 4int + 4 + (NVAPI_MAX_RJ45_PER_GSYNC * 4)
            + (NVAPI_MAX_RJ45_PER_GSYNC * 4) + 4 + 4,
        // V1 fields, internal slave flag, reserved
        StructKind::GsyncStatusParamsV2 => (4int + 4 + (NVAPI_MAX_RJ45_PER_GSYNC * 4)
            + (NVAPI_MAX_RJ45_PER_GSYNC * 4) + 4 + 4) + 4 + 4,
        // version, topology, enabled, possible
        StructKind::MosaicTopoBrief => 4int + 4 + 4 + 4,
        // version, pad, logical GPU handle, validity mask, rows, columns,
        // pad, then the 8 x 8 GPU layout (each cell: handle, output id,
        // two overlaps, tail pad)
        StructKind::MosaicTopoDetails => 4int + 4 + HANDLE_BYTES + 4 + 4 + 4 + 4
            + (NVAPI_MAX_MOSAIC_DISPLAY_ROWS * NVAPI_MAX_MOSAIC_DISPLAY_COLUMNS) * (HANDLE_BYTES
            + 4 + 4 + 4 + 4),
        // version, width, height, bits per pixel, frequency
        StructKind::MosaicDisplaySettingV1 => 4int + 4 + 4 + 4 + 4,
        // V1 fields, refresh rate in millihertz
        StructKind::MosaicDisplaySettingV2 => (4int + 4 + 4 + 4 + 4) + 4,
        // version, brief count, briefs, setting count, V1 settings
        StructKind::MosaicSupportedTopoInfoV1 => 4int + 4 + NV_MOSAIC_TOPO_BRIEFS_MAX * (4 + 4 + 4
            + 4) + 4 + NV_MOSAIC_DISPLAY_SETTINGS_MAX * (4 + 4 + 4 + 4 + 4),
        // as V1, with V2 settings
        StructKind::MosaicSupportedTopoInfoV2 => 4int + 4 + NV_MOSAIC_TOPO_BRIEFS_MAX * (4 + 4 + 4
            + 4) + 4 + NV_MOSAIC_DISPLAY_SETTINGS_MAX * (4 + 4 + 4 + 4 + 4 + 4),
        // version, brief, count (the head is 8-aligned already), one
        // details struct per eye
        StructKind::MosaicTopoGroup => 4int + (4 + 4 + 4 + 4) + 4
            + NV_MOSAIC_MAX_TOPO_PER_TOPO_GROUP * (4 + 4 + HANDLE_BYTES + 4 + 4 + 4 + 4
            + (NVAPI_MAX_MOSAIC_DISPLAY_ROWS * NVAPI_MAX_MOSAIC_DISPLAY_COLUMNS) * (HANDLE_BYTES
            + 4 + 4 + 4 + 4)),
        // version, rows, columns, display count, grid flags, displays
        // (each: display id, two overlaps, rotation, clone group), settings
        StructKind::MosaicGridTopoV1 => 5int * 4 + NV_MOSAIC_MAX_DISPLAYS * (4 + 4 + 4 + 4 + 4)
            + (4 + 4 + 4 + 4 + 4),
        // as V1, with per-display version and pixel-shift fields added
        StructKind::MosaicGridTopoV2 => 5int * 4 + NV_MOSAIC_MAX_DISPLAYS * (4 + 4 + 4 + 4 + 4 + 4
            + 4) + (4 + 4 + 4 + 4 + 4),
        // version, error flags, warning flags, display count, displays
        // (each: display id, error flags, warning flags, rotation bit-field)
        StructKind::MosaicDisplayTopoStatus => 4int + 4 + 4 + 4 + NVAPI_MAX_DISPLAYS * (4 + 4 + 4
            + 4),
        // version, rows, columns, pad, then the 8 x 8 GPU layout
        StructKind::MosaicTopologyLegacy => 4int + 4 + 4 + 4 + (NVAPI_MAX_MOSAIC_DISPLAY_ROWS
            * NVAPI_MAX_MOSAIC_DISPLAY_COLUMNS) * (HANDLE_BYTES + 4 + 4 + 4 + 4),
        // version, total count, legacy topologies
        StructKind::MosaicSupportedTopologiesLegacy => 4int + 4 + NVAPI_MAX_MOSAIC_TOPOS * (4 + 4
            + 4 + 4 + (NVAPI_MAX_MOSAIC_DISPLAY_ROWS * NVAPI_MAX_MOSAIC_DISPLAY_COLUMNS)
            * (HANDLE_BYTES + 4 + 4 + 4 + 4)),
        // version, sensor count, sensors (each: controller, default min and
        // max, current temperature, target)
        StructKind::ThermalSettingsV1 => 4int + 4 + NVAPI_MAX_THERMAL_SENSORS_PER_GPU * (5 * 4),
        // same layout as V1; only the version number differs
        StructKind::ThermalSettingsV2 => 4int + 4 + NVAPI_MAX_THERMAL_SENSORS_PER_GPU * (5 * 4),
    }
}

/// The version number of one struct variant.
pub open spec fn struct_version(k: StructKind) -> int {
    match k {
        StructKind::GsyncCapabilitiesV1 => 1int,
        StructKind::GsyncCapabilitiesV2 => 2int,
        StructKind::GsyncDisplay => 1int,
        StructKind::GsyncGpu => 1int,
        StructKind::GsyncDelay => 1int,
        StructKind::GsyncControlParams => 1int,
        StructKind::GsyncStatus => 1int,
        StructKind::GsyncStatusParamsV1 => 1int,
        StructKind::GsyncStatusParamsV2 => 2int,
        StructKind::MosaicTopoBrief => 1int,
        StructKind::MosaicTopoDetails => 1int,
        StructKind::MosaicDisplaySettingV1 => 1int,
        StructKind::MosaicDisplaySettingV2 => 2int,
        StructKind::MosaicSupportedTopoInfoV1 => 1int,
        StructKind::MosaicSupportedTopoInfoV2 => 2int,
        StructKind::MosaicTopoGroup => 1int,
        StructKind::MosaicGridTopoV1 => 1int,
        StructKind::MosaicGridTopoV2 => 2int,
        StructKind::MosaicDisplayTopoStatus => 1int,
        StructKind::MosaicTopologyLegacy => 1int,
        StructKind::MosaicSupportedTopologiesLegacy => 1int,
        StructKind::ThermalSettingsV1 => 1int,
        StructKind::ThermalSettingsV2 => 2int,
    }
}

/// The packed tag of one struct variant.
pub open spec fn spec_tag(k: StructKind) -> int {
    struct_size(k) + struct_version(k) * 0x10000
}

/// Every known layout fits a 16-bit size field, and every version number a
/// 16-bit version field.
pub proof fn lemma_layout_bounded(k: StructKind)
    ensures
        0 < struct_size(k) < 0x10000,
        0 < struct_version(k) < 0x10000,
{
}

/// The packed tag of every known struct kind encodes exactly the byte size
/// of that kind's C layout, and exactly its version number.
pub proof fn lemma_tag_encodes_layout(k: StructKind)
    ensures
        spec_tag(k) % 0x10000 == struct_size(k),
        spec_tag(k) / 0x10000 == struct_version(k),
        0 <= spec_tag(k) <= u32::MAX,
{
    lemma_layout_bounded(k);
    let s = struct_size(k);
    let v = struct_version(k);
    assert((s + v * 0x10000) % 0x10000 == s && (s + v * 0x10000) / 0x10000 == v && s + v
        * 0x10000 < 0x100000000) by (nonlinear_arith)
        requires
            0 < s < 0x10000,
            0 < v < 0x10000,
    ;
}

/// The layout table evaluated: one ground equality per struct kind, so
/// that callers need not re-expand the field-by-field sums.
proof fn lemma_size_table()
    ensures
        struct_size(StructKind::GsyncCapabilitiesV1) == 16,
        struct_size(StructKind::GsyncCapabilitiesV2) == 20,
        struct_size(StructKind::GsyncDisplay) == 16,
        struct_size(StructKind::GsyncGpu) == 40,
        struct_size(StructKind::GsyncDelay) == 20,
        struct_size(StructKind::GsyncControlParams) == 72,
        struct_size(StructKind::GsyncStatus) == 16,
        struct_size(StructKind::GsyncStatusParamsV1) == 32,
        struct_size(StructKind::GsyncStatusParamsV2) == 40,
        struct_size(StructKind::MosaicTopoBrief) == 16,
        struct_size(StructKind::MosaicTopoDetails) == 1568,
        struct_size(StructKind::MosaicDisplaySettingV1) == 20,
        struct_size(StructKind::MosaicDisplaySettingV2) == 24,
        struct_size(StructKind::MosaicSupportedTopoInfoV1) == 1372,
        struct_size(StructKind::MosaicSupportedTopoInfoV2) == 1532,
        struct_size(StructKind::MosaicTopoGroup) == 3160,
        struct_size(StructKind::MosaicGridTopoV1) == 1320,
        struct_size(StructKind::MosaicGridTopoV2) == 1832,
        struct_size(StructKind::MosaicDisplayTopoStatus) == 1040,
        struct_size(StructKind::MosaicTopologyLegacy) == 1552,
        struct_size(StructKind::MosaicSupportedTopologiesLegacy) == 24840,
        struct_size(StructKind::ThermalSettingsV1) == 68,
        struct_size(StructKind::ThermalSettingsV2) == 68,
{
}

/// The byte size of one struct variant's C layout.
pub fn size_of_kind(k: StructKind) -> (size: u32)
    ensures
        size == struct_size(k),
{
    proof {
        lemma_size_table();
    }
    let size: u32 = match k {
        StructKind::GsyncCapabilitiesV1 => 16,
        StructKind::GsyncCapabilitiesV2 => 20,
        StructKind::GsyncDisplay => 16,
        StructKind::GsyncGpu => 40,
        StructKind::GsyncDelay => 20,
        StructKind::GsyncControlParams => 72,
        StructKind::GsyncStatus => 16,
        StructKind::GsyncStatusParamsV1 => 32,
        StructKind::GsyncStatusParamsV2 => 40,
        StructKind::MosaicTopoBrief => 16,
        StructKind::MosaicTopoDetails => 1568,
        StructKind::MosaicDisplaySettingV1 => 20,
        StructKind::MosaicDisplaySettingV2 => 24,
        StructKind::MosaicSupportedTopoInfoV1 => 1372,
        StructKind::MosaicSupportedTopoInfoV2 => 1532,
        StructKind::MosaicTopoGroup => 3160,
        StructKind::MosaicGridTopoV1 => 1320,
        StructKind::MosaicGridTopoV2 => 1832,
        StructKind::MosaicDisplayTopoStatus => 1040,
        StructKind::MosaicTopologyLegacy => 1552,
        StructKind::MosaicSupportedTopologiesLegacy => 24840,
        StructKind::ThermalSettingsV1 => 68,
        StructKind::ThermalSettingsV2 => 68,
    };
    size
}

/// The version number of one struct variant.
pub fn version_of_kind(k: StructKind) -> (ver: u32)
    ensures
        ver == struct_version(k),
{
    match k {
        StructKind::GsyncCapabilitiesV2 => 2,
        StructKind::GsyncStatusParamsV2 => 2,
        StructKind::MosaicDisplaySettingV2 => 2,
        StructKind::MosaicSupportedTopoInfoV2 => 2,
        StructKind::MosaicGridTopoV2 => 2,
        StructKind::ThermalSettingsV2 => 2,
        _ => 1,
    }
}

/// The packed version tag of one struct variant, as every request of that
/// variant must carry it.
pub fn version_tag(k: StructKind) -> (tag: u32)
    ensures
        tag == spec_tag(k),
        tag % 0x10000 == struct_size(k),
        tag / 0x10000 == struct_version(k),
{
    proof {
        lemma_layout_bounded(k);
        lemma_tag_encodes_layout(k);
    }
    pack_version(size_of_kind(k), version_of_kind(k))
}

} // verus!
