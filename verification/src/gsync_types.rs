//! Fixed-layout G-SYNC structs, modeled as plain values.
//!
//! Each struct here mirrors one versioned record of the driver's C ABI
//! field by field.  The first field is always the packed version tag
//! (see [`crate::version`]); enum-valued fields carry the raw driver
//! integer, with the typed views in [`crate::enums`].  Where the C ABI
//! inherits V1 inside V2, the V2 struct here carries the fields flattened,
//! with explicit conversions in both directions instead of layout aliasing.

#![allow(non_camel_case_types)]
#![allow(non_snake_case)]

use vstd::prelude::*;

use crate::handles::NvPhysicalGpuHandle;

verus! {

/// Static capabilities of a synchronization device (V1).
#[derive(Clone, Copy, Debug, PartialEq, Eq, Structural)]
#[allow(non_snake_case)]
pub struct NV_GSYNC_CAPABILITIES_V1 {
    pub version: u32,
    pub boardId: u32,
    pub revision: u32,
    pub capFlags: u32,
}

/// Static capabilities of a synchronization device (V2): V1 plus the
/// extended revision.
#[derive(Clone, Copy, Debug, PartialEq, Eq, Structural)]
#[allow(non_snake_case)]
pub struct NV_GSYNC_CAPABILITIES_V2 {
    pub version: u32,
    pub boardId: u32,
    pub revision: u32,
    pub capFlags: u32,
    pub extendedRevision: u32,
}

/// The capabilities variant requested by default: the most capable one.
pub type NV_GSYNC_CAPABILITIES = NV_GSYNC_CAPABILITIES_V2;

impl NV_GSYNC_CAPABILITIES_V1 {
    /// The all-zero value, before any tagging or filling.
    pub open spec fn spec_zeroed() -> Self {
        NV_GSYNC_CAPABILITIES_V1 { version: 0, boardId: 0, revision: 0, capFlags: 0 }
    }

    /// Returns the all-zero value.
    pub fn zeroed() -> (r: Self)
        ensures
            r == Self::spec_zeroed(),
    {
        NV_GSYNC_CAPABILITIES_V1 { version: 0, boardId: 0, revision: 0, capFlags: 0 }
    }
}

impl NV_GSYNC_CAPABILITIES_V2 {
    /// The all-zero value, before any tagging or filling.
    pub open spec fn spec_zeroed() -> Self {
        NV_GSYNC_CAPABILITIES_V2 {
            version: 0,
            boardId: 0,
            revision: 0,
            capFlags: 0,
            extendedRevision: 0,
        }
    }

    /// Returns the all-zero value.
    pub fn zeroed() -> (r: Self)
        ensures
            r == Self::spec_zeroed(),
    {
        NV_GSYNC_CAPABILITIES_V2 {
            version: 0,
            boardId: 0,
            revision: 0,
            capFlags: 0,
            extendedRevision: 0,
        }
    }

    /// Downgrades to the V1 shape, dropping the V2-only field.  The version
    /// tag is not carried over: the caller tags the result for the variant
    /// it will send.
    pub fn to_v1(&self) -> (r: NV_GSYNC_CAPABILITIES_V1)
        ensures
            r.version == 0,
            r.boardId == self.boardId,
            r.revision == self.revision,
            r.capFlags == self.capFlags,
    {
        NV_GSYNC_CAPABILITIES_V1 {
            version: 0,
            boardId: self.boardId,
            revision: self.revision,
            capFlags: self.capFlags,
        }
    }

    /// Upgrades from the V1 shape; the V2-only field starts at zero and the
    /// version tag is left for the caller to set.
    pub fn from_v1(v1: &NV_GSYNC_CAPABILITIES_V1) -> (r: Self)
        ensures
            r.version == 0,
            r.boardId == v1.boardId,
            r.revision == v1.revision,
            r.capFlags == v1.capFlags,
            r.extendedRevision == 0,
    {
        NV_GSYNC_CAPABILITIES_V2 {
            version: 0,
            boardId: v1.boardId,
            revision: v1.revision,
            capFlags: v1.capFlags,
            extendedRevision: 0,
        }
    }
}

/// One display in a synchronization topology, and the record sent back to
/// change its sync state.
#[derive(Clone, Copy, Debug, PartialEq, Eq, Structural)]
#[allow(non_snake_case)]
pub struct NV_GSYNC_DISPLAY {
    pub version: u32,
    pub displayId: u32,
    /// Driver-owned capability bit-field; bit zero says the display can be
    /// the master.
    pub isMasterable: u32,
    /// Raw [`crate::enums::DisplaySyncState`] value.
    pub syncState: i32,
}

impl NV_GSYNC_DISPLAY {
    /// The all-zero value, before any tagging or filling.
    pub open spec fn spec_zeroed() -> Self {
        NV_GSYNC_DISPLAY { version: 0, displayId: 0, isMasterable: 0, syncState: 0 }
    }

    /// Returns the all-zero value.
    pub fn zeroed() -> (r: Self)
        ensures
            r == Self::spec_zeroed(),
    {
        NV_GSYNC_DISPLAY { version: 0, displayId: 0, isMasterable: 0, syncState: 0 }
    }
}

/// One GPU in a synchronization topology.
#[derive(Clone, Copy, Debug, PartialEq, Eq, Structural)]
#[allow(non_snake_case)]
pub struct NV_GSYNC_GPU {
    pub version: u32,
    pub hPhysicalGpu: NvPhysicalGpuHandle,
    /// Raw [`crate::enums::TopologyConnector`] value.
    pub connector: i32,
    /// Stands in for the GPU when `hPhysicalGpu` is the null sentinel.
    pub hProxyPhysicalGpu: NvPhysicalGpuHandle,
    /// Bit-field; bit zero says the GPU is synchronized.
    pub isSynced: u32,
}

impl NV_GSYNC_GPU {
    /// The all-zero value, before any tagging or filling.
    pub open spec fn spec_zeroed() -> Self {
        NV_GSYNC_GPU {
            version: 0,
            hPhysicalGpu: NvPhysicalGpuHandle { addr: 0 },
            connector: 0,
            hProxyPhysicalGpu: NvPhysicalGpuHandle { addr: 0 },
            isSynced: 0,
        }
    }

    /// Returns the all-zero value.
    pub fn zeroed() -> (r: Self)
        ensures
            r == Self::spec_zeroed(),
    {
        NV_GSYNC_GPU {
            version: 0,
            hPhysicalGpu: NvPhysicalGpuHandle { addr: 0 },
            connector: 0,
            hProxyPhysicalGpu: NvPhysicalGpuHandle { addr: 0 },
            isSynced: 0,
        }
    }
}

/// A sync delay in lines and pixels, with the device's limits.
#[derive(Clone, Copy, Debug, PartialEq, Eq, Structural)]
#[allow(non_snake_case)]
pub struct NV_GSYNC_DELAY {
    pub version: u32,
    pub numLines: u32,
    pub numPixels: u32,
    pub maxLines: u32,
    pub minPixels: u32,
}

impl NV_GSYNC_DELAY {
    /// The all-zero value, before any tagging or filling.
    pub open spec fn spec_zeroed() -> Self {
        NV_GSYNC_DELAY { version: 0, numLines: 0, numPixels: 0, maxLines: 0, minPixels: 0 }
    }

    /// Returns the all-zero value.
    pub fn zeroed() -> (r: Self)
        ensures
            r == Self::spec_zeroed(),
    {
        NV_GSYNC_DELAY { version: 0, numLines: 0, numPixels: 0, maxLines: 0, minPixels: 0 }
    }
}

/// Control parameters of a synchronization device.
#[derive(Clone, Copy, Debug, PartialEq, Eq, Structural)]
#[allow(non_snake_case)]
pub struct NV_GSYNC_CONTROL_PARAMS {
    pub version: u32,
    /// Raw [`crate::enums::Polarity`] value.
    pub polarity: i32,
    /// Raw [`crate::enums::VideoMode`] value.
    pub vmode: i32,
    pub interval: u32,
    /// Raw [`crate::enums::SyncSource`] value.
    pub source: i32,
    pub interlaceMode: u32,
    pub syncSourceIsOutput: u32,
    pub reserved: u32,
    pub syncSkew: NV_GSYNC_DELAY,
    pub startupDelay: NV_GSYNC_DELAY,
}

impl NV_GSYNC_CONTROL_PARAMS {
    /// The all-zero value, before any tagging or filling.
    pub open spec fn spec_zeroed() -> Self {
        NV_GSYNC_CONTROL_PARAMS {
            version: 0,
            polarity: 0,
            vmode: 0,
            interval: 0,
            source: 0,
            interlaceMode: 0,
            syncSourceIsOutput: 0,
            reserved: 0,
            syncSkew: NV_GSYNC_DELAY::spec_zeroed(),
            startupDelay: NV_GSYNC_DELAY::spec_zeroed(),
        }
    }

    /// Returns the all-zero value.
    pub fn zeroed() -> (r: Self)
        ensures
            r == Self::spec_zeroed(),
    {
        NV_GSYNC_CONTROL_PARAMS {
            version: 0,
            polarity: 0,
            vmode: 0,
            interval: 0,
            source: 0,
            interlaceMode: 0,
            syncSourceIsOutput: 0,
            reserved: 0,
            syncSkew: NV_GSYNC_DELAY::zeroed(),
            startupDelay: NV_GSYNC_DELAY::zeroed(),
        }
    }
}

/// Synchronization status of one GPU on one device.
#[derive(Clone, Copy, Debug, PartialEq, Eq, Structural)]
#[allow(non_snake_case)]
pub struct NV_GSYNC_STATUS {
    pub version: u32,
    pub bIsSynced: u32,
    pub bIsStereoSynced: u32,
    pub bIsSyncSignalAvailable: u32,
}

impl NV_GSYNC_STATUS {
    /// The all-zero value, before any tagging or filling.
    pub open spec fn spec_zeroed() -> Self {
        NV_GSYNC_STATUS { version: 0, bIsSynced: 0, bIsStereoSynced: 0, bIsSyncSignalAvailable: 0 }
    }

    /// Returns the all-zero value.
    pub fn zeroed() -> (r: Self)
        ensures
            r == Self::spec_zeroed(),
    {
        NV_GSYNC_STATUS { version: 0, bIsSynced: 0, bIsStereoSynced: 0, bIsSyncSignalAvailable: 0 }
    }
}

/// Extended status parameters (V1).
///
/// Some boards and drivers only accept this variant; the V2 shape below is
/// tried only where the caller opts in.
#[derive(Clone, Copy, Debug, PartialEq, Eq, Structural)]
#[allow(non_snake_case)]
pub struct NV_GSYNC_STATUS_PARAMS_V1 {
    pub version: u32,
    pub refreshRate: u32,
    /// Raw [`crate::enums::RJ45_IO`] value of the first port.
    pub RJ45_IO_0: i32,
    /// Raw [`crate::enums::RJ45_IO`] value of the second port.
    pub RJ45_IO_1: i32,
    /// Ethernet detection state of the first port.
    pub RJ45_Ethernet_0: u32,
    /// Ethernet detection state of the second port.
    pub RJ45_Ethernet_1: u32,
    pub houseSyncIncoming: u32,
    pub bHouseSync: u32,
}

impl NV_GSYNC_STATUS_PARAMS_V1 {
    /// The all-zero value, before any tagging or filling.
    pub open spec fn spec_zeroed() -> Self {
        NV_GSYNC_STATUS_PARAMS_V1 {
            version: 0,
            refreshRate: 0,
            RJ45_IO_0: 0,
            RJ45_IO_1: 0,
            RJ45_Ethernet_0: 0,
            RJ45_Ethernet_1: 0,
            houseSyncIncoming: 0,
            bHouseSync: 0,
        }
    }

    /// Returns the all-zero value.
    pub fn zeroed() -> (r: Self)
        ensures
            r == Self::spec_zeroed(),
    {
        NV_GSYNC_STATUS_PARAMS_V1 {
            version: 0,
            refreshRate: 0,
            RJ45_IO_0: 0,
            RJ45_IO_1: 0,
            RJ45_Ethernet_0: 0,
            RJ45_Ethernet_1: 0,
            houseSyncIncoming: 0,
            bHouseSync: 0,
        }
    }
}

/// Extended status parameters (V2): V1 plus the internal-slave flag.
#[derive(Clone, Copy, Debug, PartialEq, Eq, Structural)]
#[allow(non_snake_case)]
pub struct NV_GSYNC_STATUS_PARAMS_V2 {
    pub version: u32,
    pub refreshRate: u32,
    /// Raw [`crate::enums::RJ45_IO`] value of the first port.
    pub RJ45_IO_0: i32,
    /// Raw [`crate::enums::RJ45_IO`] value of the second port.
    pub RJ45_IO_1: i32,
    /// Ethernet detection state of the first port.
    pub RJ45_Ethernet_0: u32,
    /// Ethernet detection state of the second port.
    pub RJ45_Ethernet_1: u32,
    pub houseSyncIncoming: u32,
    pub bHouseSync: u32,
    pub bInternalSlave: u32,
    pub reserved: u32,
}

impl NV_GSYNC_STATUS_PARAMS_V2 {
    /// The all-zero value, before any tagging or filling.
    pub open spec fn spec_zeroed() -> Self {
        NV_GSYNC_STATUS_PARAMS_V2 {
            version: 0,
            refreshRate: 0,
            RJ45_IO_0: 0,
            RJ45_IO_1: 0,
            RJ45_Ethernet_0: 0,
            RJ45_Ethernet_1: 0,
            houseSyncIncoming: 0,
            bHouseSync: 0,
            bInternalSlave: 0,
            reserved: 0,
        }
    }

    /// Returns the all-zero value.
    pub fn zeroed() -> (r: Self)
        ensures
            r == Self::spec_zeroed(),
    {
        NV_GSYNC_STATUS_PARAMS_V2 {
            version: 0,
            refreshRate: 0,
            RJ45_IO_0: 0,
            RJ45_IO_1: 0,
            RJ45_Ethernet_0: 0,
            RJ45_Ethernet_1: 0,
            houseSyncIncoming: 0,
            bHouseSync: 0,
            bInternalSlave: 0,
            reserved: 0,
        }
    }
}

/// The status-parameters variant requested by default: V1, for the broad
/// compatibility that older boards and firmware need.
pub type NV_GSYNC_STATUS_PARAMS = NV_GSYNC_STATUS_PARAMS_V1;

} // verus!
