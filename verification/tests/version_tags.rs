//! The packed version tags: codec round trips and the full kind table.

use nvapi::version::{
    pack_version, size_of_kind, tag_size, tag_version, version_tag, StructKind,
    NVAPI_MAX_GSYNC_DEVICES, NVAPI_MAX_RJ45_PER_GSYNC,
};

#[test]
fn pack_and_decode_round_trip() {
    let tag = pack_version(1320, 1);
    assert_eq!(tag_size(tag), 1320);
    assert_eq!(tag_version(tag), 1);
    let tag = pack_version(0xFFFF, 0xFFFF);
    assert_eq!(tag_size(tag), 0xFFFF);
    assert_eq!(tag_version(tag), 0xFFFF);
    let tag = pack_version(16, 2);
    assert_eq!(tag, 16 | (2 << 16));
}

#[test]
fn every_kind_tag_encodes_its_layout_size() {
    let kinds = [
        StructKind::GsyncCapabilitiesV1,
        StructKind::GsyncCapabilitiesV2,
        StructKind::GsyncDisplay,
        StructKind::GsyncGpu,
        StructKind::GsyncDelay,
        StructKind::GsyncControlParams,
        StructKind::GsyncStatus,
        StructKind::GsyncStatusParamsV1,
        StructKind::GsyncStatusParamsV2,
        StructKind::MosaicTopoBrief,
        StructKind::MosaicTopoDetails,
        StructKind::MosaicDisplaySettingV1,
        StructKind::MosaicDisplaySettingV2,
        StructKind::MosaicSupportedTopoInfoV1,
        StructKind::MosaicSupportedTopoInfoV2,
        StructKind::MosaicTopoGroup,
        StructKind::MosaicGridTopoV1,
        StructKind::MosaicGridTopoV2,
        StructKind::MosaicDisplayTopoStatus,
        StructKind::MosaicTopologyLegacy,
        StructKind::MosaicSupportedTopologiesLegacy,
        StructKind::ThermalSettingsV1,
        StructKind::ThermalSettingsV2,
    ];
    for kind in kinds {
        let tag = version_tag(kind);
        assert_eq!(tag_size(tag), size_of_kind(kind));
        assert!(tag_version(tag) == 1 || tag_version(tag) == 2);
        assert!(size_of_kind(kind) > 0);
        assert!(size_of_kind(kind) < 0x10000);
    }
}

#[test]
fn test_gsync_struct_sizes_and_versions() {
    assert_eq!(size_of_kind(StructKind::GsyncCapabilitiesV1), 16);
    assert_eq!(size_of_kind(StructKind::GsyncCapabilitiesV2), 20);
    assert_eq!(version_tag(StructKind::GsyncCapabilitiesV1), 16 | (1 << 16));
    assert_eq!(version_tag(StructKind::GsyncCapabilitiesV2), 20 | (2 << 16));
    assert_eq!(size_of_kind(StructKind::GsyncDisplay), 16);
    assert_eq!(size_of_kind(StructKind::GsyncGpu), 40);
    assert_eq!(version_tag(StructKind::GsyncDisplay), 16 | (1 << 16));
    assert_eq!(version_tag(StructKind::GsyncGpu), 40 | (1 << 16));
    assert_eq!(size_of_kind(StructKind::GsyncControlParams), 72);
    assert_eq!(version_tag(StructKind::GsyncControlParams), 72 | (1 << 16));
    assert_eq!(size_of_kind(StructKind::GsyncStatus), 16);
    assert_eq!(size_of_kind(StructKind::GsyncStatusParamsV1), 32);
    assert_eq!(size_of_kind(StructKind::GsyncStatusParamsV2), 40);
    assert_eq!(version_tag(StructKind::GsyncStatus), 16 | (1 << 16));
    assert_eq!(version_tag(StructKind::GsyncStatusParamsV1), 32 | (1 << 16));
    assert_eq!(version_tag(StructKind::GsyncStatusParamsV2), 40 | (2 << 16));
    assert_eq!(size_of_kind(StructKind::GsyncDelay), 20);
    assert_eq!(version_tag(StructKind::GsyncDelay), 20 | (1 << 16));
    assert_eq!(NVAPI_MAX_GSYNC_DEVICES, 4);
    assert_eq!(NVAPI_MAX_RJ45_PER_GSYNC, 2);
}

#[test]
fn test_mosaic_struct_sizes() {
    assert_eq!(size_of_kind(StructKind::MosaicGridTopoV1), 1320);
    assert_eq!(size_of_kind(StructKind::MosaicGridTopoV2), 1832);
    assert_eq!(size_of_kind(StructKind::MosaicDisplaySettingV1), 20);
    assert_eq!(size_of_kind(StructKind::MosaicDisplaySettingV2), 24);
    assert_eq!(version_tag(StructKind::MosaicGridTopoV1), 1320 | (1 << 16));
    assert_eq!(version_tag(StructKind::MosaicGridTopoV2), 1832 | (2 << 16));
    assert_eq!(size_of_kind(StructKind::MosaicTopoBrief), 16);
    assert_eq!(size_of_kind(StructKind::MosaicTopoDetails), 1568);
    assert_eq!(size_of_kind(StructKind::MosaicSupportedTopoInfoV1), 1372);
    assert_eq!(size_of_kind(StructKind::MosaicSupportedTopoInfoV2), 1532);
    assert_eq!(size_of_kind(StructKind::MosaicTopoGroup), 3160);
    assert_eq!(size_of_kind(StructKind::MosaicDisplayTopoStatus), 1040);
}
