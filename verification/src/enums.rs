//! Typed views of the driver's C enums.
//!
//! The driver hands raw integers back and forth; each type here is the
//! closed set of values one such integer may legally take.  `from_raw` maps
//! a raw integer to the typed value and reports — never panics on — a value
//! outside the closed set, since a newer driver release may add variants;
//! `raw` maps the typed value back to the exact integer the driver uses.

#![allow(non_camel_case_types)]
#![allow(non_snake_case)]

use vstd::prelude::*;

verus! {

/// A raw driver integer that falls outside the closed set of values the
/// library knows for the enum in question.
#[derive(Clone, Copy, Debug, PartialEq, Eq, Structural, Default)]
pub struct ArgumentRangeError;


/// How one display takes part in hardware synchronization.
#[derive(Clone, Copy, Debug, PartialEq, Eq, Structural)]
pub enum DisplaySyncState {
    Unsynced,
    Slave,
    Master,
}

impl DisplaySyncState {
    /// The raw integer the driver uses for this value.
    pub open spec fn spec_raw(self) -> i32 {
        match self {
            DisplaySyncState::Unsynced => 0,
            DisplaySyncState::Slave => 1,
            DisplaySyncState::Master => 2,
        }
    }

    /// The typed value a raw driver integer stands for, if it is in
    /// the closed set.
    pub open spec fn spec_from_raw(raw: i32) -> Result<DisplaySyncState, ArgumentRangeError> {
        if raw == 0 {
            Ok(DisplaySyncState::Unsynced)
        } else if raw == 1 {
            Ok(DisplaySyncState::Slave)
        } else if raw == 2 {
            Ok(DisplaySyncState::Master)
        } else {
            Err(ArgumentRangeError)
        }
    }

    /// Returns the raw integer the driver uses for this value.
    pub fn raw(&self) -> (r: i32)
        ensures
            r == self.spec_raw(),
            Self::spec_from_raw(r) == Ok::<DisplaySyncState, ArgumentRangeError>(*self),
    {
        match self {
            DisplaySyncState::Unsynced => 0,
            DisplaySyncState::Slave => 1,
            DisplaySyncState::Master => 2,
        }
    }

    /// Maps a raw driver integer to its typed value, or reports one
    /// outside the closed set.
    pub fn from_raw(raw: i32) -> (r: Result<DisplaySyncState, ArgumentRangeError>)
        ensures
            r == Self::spec_from_raw(raw),
            r matches Ok(v) ==> v.spec_raw() == raw,
    {
        if raw == 0 {
            Ok(DisplaySyncState::Unsynced)
        } else if raw == 1 {
            Ok(DisplaySyncState::Slave)
        } else if raw == 2 {
            Ok(DisplaySyncState::Master)
        } else {
            Err(ArgumentRangeError)
        }
    }
}

/// Which connector of the synchronization device a GPU hangs off.
#[derive(Clone, Copy, Debug, PartialEq, Eq, Structural)]
pub enum TopologyConnector {
    NoConnector,
    Primary,
    Secondary,
    Tertiary,
    Quarternary,
}

impl TopologyConnector {
    /// The raw integer the driver uses for this value.
    pub open spec fn spec_raw(self) -> i32 {
        match self {
            TopologyConnector::NoConnector => 0,
            TopologyConnector::Primary => 1,
            TopologyConnector::Secondary => 2,
            TopologyConnector::Tertiary => 3,
            TopologyConnector::Quarternary => 4,
        }
    }

    /// The typed value a raw driver integer stands for, if it is in
    /// the closed set.
    pub open spec fn spec_from_raw(raw: i32) -> Result<TopologyConnector, ArgumentRangeError> {
        if raw == 0 {
            Ok(TopologyConnector::NoConnector)
        } else if raw == 1 {
            Ok(TopologyConnector::Primary)
        } else if raw == 2 {
            Ok(TopologyConnector::Secondary)
        } else if raw == 3 {
            Ok(TopologyConnector::Tertiary)
        } else if raw == 4 {
            Ok(TopologyConnector::Quarternary)
        } else {
            Err(ArgumentRangeError)
        }
    }

    /// Returns the raw integer the driver uses for this value.
    pub fn raw(&self) -> (r: i32)
        ensures
            r == self.spec_raw(),
            Self::spec_from_raw(r) == Ok::<TopologyConnector, ArgumentRangeError>(*self),
    {
        match self {
            TopologyConnector::NoConnector => 0,
            TopologyConnector::Primary => 1,
            TopologyConnector::Secondary => 2,
            TopologyConnector::Tertiary => 3,
            TopologyConnector::Quarternary => 4,
        }
    }

    /// Maps a raw driver integer to its typed value, or reports one
    /// outside the closed set.
    pub fn from_raw(raw: i32) -> (r: Result<TopologyConnector, ArgumentRangeError>)
        ensures
            r == Self::spec_from_raw(raw),
            r matches Ok(v) ==> v.spec_raw() == raw,
    {
        if raw == 0 {
            Ok(TopologyConnector::NoConnector)
        } else if raw == 1 {
            Ok(TopologyConnector::Primary)
        } else if raw == 2 {
            Ok(TopologyConnector::Secondary)
        } else if raw == 3 {
            Ok(TopologyConnector::Tertiary)
        } else if raw == 4 {
            Ok(TopologyConnector::Quarternary)
        } else {
            Err(ArgumentRangeError)
        }
    }
}

/// Which signal edge the synchronization pulse follows.
#[derive(Clone, Copy, Debug, PartialEq, Eq, Structural)]
pub enum Polarity {
    RisingEdge,
    FallingEdge,
    BothEdges,
}

impl Polarity {
    /// The raw integer the driver uses for this value.
    pub open spec fn spec_raw(self) -> i32 {
        match self {
            Polarity::RisingEdge => 0,
            Polarity::FallingEdge => 1,
            Polarity::BothEdges => 2,
        }
    }

    /// The typed value a raw driver integer stands for, if it is in
    /// the closed set.
    pub open spec fn spec_from_raw(raw: i32) -> Result<Polarity, ArgumentRangeError> {
        if raw == 0 {
            Ok(Polarity::RisingEdge)
        } else if raw == 1 {
            Ok(Polarity::FallingEdge)
        } else if raw == 2 {
            Ok(Polarity::BothEdges)
        } else {
            Err(ArgumentRangeError)
        }
    }

    /// Returns the raw integer the driver uses for this value.
    pub fn raw(&self) -> (r: i32)
        ensures
            r == self.spec_raw(),
            Self::spec_from_raw(r) == Ok::<Polarity, ArgumentRangeError>(*self),
    {
        match self {
            Polarity::RisingEdge => 0,
            Polarity::FallingEdge => 1,
            Polarity::BothEdges => 2,
        }
    }

    /// Maps a raw driver integer to its typed value, or reports one
    /// outside the closed set.
    pub fn from_raw(raw: i32) -> (r: Result<Polarity, ArgumentRangeError>)
        ensures
            r == Self::spec_from_raw(raw),
            r matches Ok(v) ==> v.spec_raw() == raw,
    {
        if raw == 0 {
            Ok(Polarity::RisingEdge)
        } else if raw == 1 {
            Ok(Polarity::FallingEdge)
        } else if raw == 2 {
            Ok(Polarity::BothEdges)
        } else {
            Err(ArgumentRangeError)
        }
    }
}

/// The house-sync video mode of the synchronization source.
#[derive(Clone, Copy, Debug, PartialEq, Eq, Structural)]
pub enum VideoMode {
    NoVideoMode,
    TTL,
    NtscPalCam,
    Hdtv,
    Composite,
}

impl VideoMode {
    /// The raw integer the driver uses for this value.
    pub open spec fn spec_raw(self) -> i32 {
        match self {
            VideoMode::NoVideoMode => 0,
            VideoMode::TTL => 1,
            VideoMode::NtscPalCam => 2,
            VideoMode::Hdtv => 3,
            VideoMode::Composite => 4,
        }
    }

    /// The typed value a raw driver integer stands for, if it is in
    /// the closed set.
    pub open spec fn spec_from_raw(raw: i32) -> Result<VideoMode, ArgumentRangeError> {
        if raw == 0 {
            Ok(VideoMode::NoVideoMode)
        } else if raw == 1 {
            Ok(VideoMode::TTL)
        } else if raw == 2 {
            Ok(VideoMode::NtscPalCam)
        } else if raw == 3 {
            Ok(VideoMode::Hdtv)
        } else if raw == 4 {
            Ok(VideoMode::Composite)
        } else {
            Err(ArgumentRangeError)
        }
    }

    /// Returns the raw integer the driver uses for this value.
    pub fn raw(&self) -> (r: i32)
        ensures
            r == self.spec_raw(),
            Self::spec_from_raw(r) == Ok::<VideoMode, ArgumentRangeError>(*self),
    {
        match self {
            VideoMode::NoVideoMode => 0,
            VideoMode::TTL => 1,
            VideoMode::NtscPalCam => 2,
            VideoMode::Hdtv => 3,
            VideoMode::Composite => 4,
        }
    }

    /// Maps a raw driver integer to its typed value, or reports one
    /// outside the closed set.
    pub fn from_raw(raw: i32) -> (r: Result<VideoMode, ArgumentRangeError>)
        ensures
            r == Self::spec_from_raw(raw),
            r matches Ok(v) ==> v.spec_raw() == raw,
    {
        if raw == 0 {
            Ok(VideoMode::NoVideoMode)
        } else if raw == 1 {
            Ok(VideoMode::TTL)
        } else if raw == 2 {
            Ok(VideoMode::NtscPalCam)
        } else if raw == 3 {
            Ok(VideoMode::Hdtv)
        } else if raw == 4 {
            Ok(VideoMode::Composite)
        } else {
            Err(ArgumentRangeError)
        }
    }
}

/// Whether the device follows vertical sync or a house-sync signal.
#[derive(Clone, Copy, Debug, PartialEq, Eq, Structural)]
pub enum SyncSource {
    VSync,
    HouseSync,
}

impl SyncSource {
    /// The raw integer the driver uses for this value.
    pub open spec fn spec_raw(self) -> i32 {
        match self {
            SyncSource::VSync => 0,
            SyncSource::HouseSync => 1,
        }
    }

    /// The typed value a raw driver integer stands for, if it is in
    /// the closed set.
    pub open spec fn spec_from_raw(raw: i32) -> Result<SyncSource, ArgumentRangeError> {
        if raw == 0 {
            Ok(SyncSource::VSync)
        } else if raw == 1 {
            Ok(SyncSource::HouseSync)
        } else {
            Err(ArgumentRangeError)
        }
    }

    /// Returns the raw integer the driver uses for this value.
    pub fn raw(&self) -> (r: i32)
        ensures
            r == self.spec_raw(),
            Self::spec_from_raw(r) == Ok::<SyncSource, ArgumentRangeError>(*self),
    {
        match self {
            SyncSource::VSync => 0,
            SyncSource::HouseSync => 1,
        }
    }

    /// Maps a raw driver integer to its typed value, or reports one
    /// outside the closed set.
    pub fn from_raw(raw: i32) -> (r: Result<SyncSource, ArgumentRangeError>)
        ensures
            r == Self::spec_from_raw(raw),
            r matches Ok(v) ==> v.spec_raw() == raw,
    {
        if raw == 0 {
            Ok(SyncSource::VSync)
        } else if raw == 1 {
            Ok(SyncSource::HouseSync)
        } else {
            Err(ArgumentRangeError)
        }
    }
}

/// Which delay an adjustment call targets.
#[derive(Clone, Copy, Debug, PartialEq, Eq, Structural)]
pub enum DelayType {
    UnknownDelay,
    SyncSkew,
    Startup,
}

impl DelayType {
    /// The raw integer the driver uses for this value.
    pub open spec fn spec_raw(self) -> i32 {
        match self {
            DelayType::UnknownDelay => 0,
            DelayType::SyncSkew => 1,
            DelayType::Startup => 2,
        }
    }

    /// The typed value a raw driver integer stands for, if it is in
    /// the closed set.
    pub open spec fn spec_from_raw(raw: i32) -> Result<DelayType, ArgumentRangeError> {
        if raw == 0 {
            Ok(DelayType::UnknownDelay)
        } else if raw == 1 {
            Ok(DelayType::SyncSkew)
        } else if raw == 2 {
            Ok(DelayType::Startup)
        } else {
            Err(ArgumentRangeError)
        }
    }

    /// Returns the raw integer the driver uses for this value.
    pub fn raw(&self) -> (r: i32)
        ensures
            r == self.spec_raw(),
            Self::spec_from_raw(r) == Ok::<DelayType, ArgumentRangeError>(*self),
    {
        match self {
            DelayType::UnknownDelay => 0,
            DelayType::SyncSkew => 1,
            DelayType::Startup => 2,
        }
    }

    /// Maps a raw driver integer to its typed value, or reports one
    /// outside the closed set.
    pub fn from_raw(raw: i32) -> (r: Result<DelayType, ArgumentRangeError>)
        ensures
            r == Self::spec_from_raw(raw),
            r matches Ok(v) ==> v.spec_raw() == raw,
    {
        if raw == 0 {
            Ok(DelayType::UnknownDelay)
        } else if raw == 1 {
            Ok(DelayType::SyncSkew)
        } else if raw == 2 {
            Ok(DelayType::Startup)
        } else {
            Err(ArgumentRangeError)
        }
    }
}

/// The direction an RJ45 port of the synchronization device runs in.
#[derive(Clone, Copy, Debug, PartialEq, Eq, Structural)]
pub enum RJ45_IO {
    Output,
    Input,
    Unused,
}

impl RJ45_IO {
    /// The raw integer the driver uses for this value.
    pub open spec fn spec_raw(self) -> i32 {
        match self {
            RJ45_IO::Output => 0,
            RJ45_IO::Input => 1,
            RJ45_IO::Unused => 2,
        }
    }

    /// The typed value a raw driver integer stands for, if it is in
    /// the closed set.
    pub open spec fn spec_from_raw(raw: i32) -> Result<RJ45_IO, ArgumentRangeError> {
        if raw == 0 {
            Ok(RJ45_IO::Output)
        } else if raw == 1 {
            Ok(RJ45_IO::Input)
        } else if raw == 2 {
            Ok(RJ45_IO::Unused)
        } else {
            Err(ArgumentRangeError)
        }
    }

    /// Returns the raw integer the driver uses for this value.
    pub fn raw(&self) -> (r: i32)
        ensures
            r == self.spec_raw(),
            Self::spec_from_raw(r) == Ok::<RJ45_IO, ArgumentRangeError>(*self),
    {
        match self {
            RJ45_IO::Output => 0,
            RJ45_IO::Input => 1,
            RJ45_IO::Unused => 2,
        }
    }

    /// Maps a raw driver integer to its typed value, or reports one
    /// outside the closed set.
    pub fn from_raw(raw: i32) -> (r: Result<RJ45_IO, ArgumentRangeError>)
        ensures
            r == Self::spec_from_raw(raw),
            r matches Ok(v) ==> v.spec_raw() == raw,
    {
        if raw == 0 {
            Ok(RJ45_IO::Output)
        } else if raw == 1 {
            Ok(RJ45_IO::Input)
        } else if raw == 2 {
            Ok(RJ45_IO::Unused)
        } else {
            Err(ArgumentRangeError)
        }
    }
}

/// The family of multi-display topologies a query asks about.
#[derive(Clone, Copy, Debug, PartialEq, Eq, Structural)]
pub enum MosaicTopoType {
    All,
    Basic,
    PassiveStereo,
    ScaledClone,
    PassiveStereoScaledClone,
    MaxTopoType,
}

impl MosaicTopoType {
    /// The raw integer the driver uses for this value.
    pub open spec fn spec_raw(self) -> i32 {
        match self {
            MosaicTopoType::All => 0,
            MosaicTopoType::Basic => 1,
            MosaicTopoType::PassiveStereo => 2,
            MosaicTopoType::ScaledClone => 3,
            MosaicTopoType::PassiveStereoScaledClone => 4,
            MosaicTopoType::MaxTopoType => 5,
        }
    }

    /// The typed value a raw driver integer stands for, if it is in
    /// the closed set.
    pub open spec fn spec_from_raw(raw: i32) -> Result<MosaicTopoType, ArgumentRangeError> {
        if raw == 0 {
            Ok(MosaicTopoType::All)
        } else if raw == 1 {
            Ok(MosaicTopoType::Basic)
        } else if raw == 2 {
            Ok(MosaicTopoType::PassiveStereo)
        } else if raw == 3 {
            Ok(MosaicTopoType::ScaledClone)
        } else if raw == 4 {
            Ok(MosaicTopoType::PassiveStereoScaledClone)
        } else if raw == 5 {
            Ok(MosaicTopoType::MaxTopoType)
        } else {
            Err(ArgumentRangeError)
        }
    }

    /// Returns the raw integer the driver uses for this value.
    pub fn raw(&self) -> (r: i32)
        ensures
            r == self.spec_raw(),
            Self::spec_from_raw(r) == Ok::<MosaicTopoType, ArgumentRangeError>(*self),
    {
        match self {
            MosaicTopoType::All => 0,
            MosaicTopoType::Basic => 1,
            MosaicTopoType::PassiveStereo => 2,
            MosaicTopoType::ScaledClone => 3,
            MosaicTopoType::PassiveStereoScaledClone => 4,
            MosaicTopoType::MaxTopoType => 5,
        }
    }

    /// Maps a raw driver integer to its typed value, or reports one
    /// outside the closed set.
    pub fn from_raw(raw: i32) -> (r: Result<MosaicTopoType, ArgumentRangeError>)
        ensures
            r == Self::spec_from_raw(raw),
            r matches Ok(v) ==> v.spec_raw() == raw,
    {
        if raw == 0 {
            Ok(MosaicTopoType::All)
        } else if raw == 1 {
            Ok(MosaicTopoType::Basic)
        } else if raw == 2 {
            Ok(MosaicTopoType::PassiveStereo)
        } else if raw == 3 {
            Ok(MosaicTopoType::ScaledClone)
        } else if raw == 4 {
            Ok(MosaicTopoType::PassiveStereoScaledClone)
        } else if raw == 5 {
            Ok(MosaicTopoType::MaxTopoType)
        } else {
            Err(ArgumentRangeError)
        }
    }
}

/// One concrete multi-display topology layout.
#[derive(Clone, Copy, Debug, PartialEq, Eq, Structural)]
#[allow(non_camel_case_types)]
pub enum MosaicTopo {
    NoTopo,
    T1x2_Basic,
    T2x1_Basic,
    T1x3_Basic,
    T3x1_Basic,
    T1x4_Basic,
    T4x1_Basic,
    T2x2_Basic,
    T2x3_Basic,
    T2x4_Basic,
    T3x2_Basic,
    T4x2_Basic,
    T1x5_Basic,
    T1x6_Basic,
    T7x1_Basic,
    T1x2_PassiveStereo,
    T2x1_PassiveStereo,
    T1x3_PassiveStereo,
    T3x1_PassiveStereo,
    T1x4_PassiveStereo,
    T4x1_PassiveStereo,
    T2x2_PassiveStereo,
    MaxTopo,
}

impl MosaicTopo {
    /// The raw integer the driver uses for this value.
    pub open spec fn spec_raw(self) -> i32 {
        match self {
            MosaicTopo::NoTopo => 0,
            MosaicTopo::T1x2_Basic => 1,
            MosaicTopo::T2x1_Basic => 2,
            MosaicTopo::T1x3_Basic => 3,
            MosaicTopo::T3x1_Basic => 4,
            MosaicTopo::T1x4_Basic => 5,
            MosaicTopo::T4x1_Basic => 6,
            MosaicTopo::T2x2_Basic => 7,
            MosaicTopo::T2x3_Basic => 8,
            MosaicTopo::T2x4_Basic => 9,
            MosaicTopo::T3x2_Basic => 10,
            MosaicTopo::T4x2_Basic => 11,
            MosaicTopo::T1x5_Basic => 12,
            MosaicTopo::T1x6_Basic => 13,
            MosaicTopo::T7x1_Basic => 14,
            MosaicTopo::T1x2_PassiveStereo => 24,
            MosaicTopo::T2x1_PassiveStereo => 25,
            MosaicTopo::T1x3_PassiveStereo => 26,
            MosaicTopo::T3x1_PassiveStereo => 27,
            MosaicTopo::T1x4_PassiveStereo => 28,
            MosaicTopo::T4x1_PassiveStereo => 29,
            MosaicTopo::T2x2_PassiveStereo => 30,
            MosaicTopo::MaxTopo => 35,
        }
    }

    /// The typed value a raw driver integer stands for, if it is in
    /// the closed set.
    pub open spec fn spec_from_raw(raw: i32) -> Result<MosaicTopo, ArgumentRangeError> {
        if raw == 0 {
            Ok(MosaicTopo::NoTopo)
        } else if raw == 1 {
            Ok(MosaicTopo::T1x2_Basic)
        } else if raw == 2 {
            Ok(MosaicTopo::T2x1_Basic)
        } else if raw == 3 {
            Ok(MosaicTopo::T1x3_Basic)
        } else if raw == 4 {
            Ok(MosaicTopo::T3x1_Basic)
        } else if raw == 5 {
            Ok(MosaicTopo::T1x4_Basic)
        } else if raw == 6 {
            Ok(MosaicTopo::T4x1_Basic)
        } else if raw == 7 {
            Ok(MosaicTopo::T2x2_Basic)
        } else if raw == 8 {
            Ok(MosaicTopo::T2x3_Basic)
        } else if raw == 9 {
            Ok(MosaicTopo::T2x4_Basic)
        } else if raw == 10 {
            Ok(MosaicTopo::T3x2_Basic)
        } else if raw == 11 {
            Ok(MosaicTopo::T4x2_Basic)
        } else if raw == 12 {
            Ok(MosaicTopo::T1x5_Basic)
        } else if raw == 13 {
            Ok(MosaicTopo::T1x6_Basic)
        } else if raw == 14 {
            Ok(MosaicTopo::T7x1_Basic)
        } else if raw == 24 {
            Ok(MosaicTopo::T1x2_PassiveStereo)
        } else if raw == 25 {
            Ok(MosaicTopo::T2x1_PassiveStereo)
        } else if raw == 26 {
            Ok(MosaicTopo::T1x3_PassiveStereo)
        } else if raw == 27 {
            Ok(MosaicTopo::T3x1_PassiveStereo)
        } else if raw == 28 {
            Ok(MosaicTopo::T1x4_PassiveStereo)
        } else if raw == 29 {
            Ok(MosaicTopo::T4x1_PassiveStereo)
        } else if raw == 30 {
            Ok(MosaicTopo::T2x2_PassiveStereo)
        } else if raw == 35 {
            Ok(MosaicTopo::MaxTopo)
        } else {
            Err(ArgumentRangeError)
        }
    }

    /// Returns the raw integer the driver uses for this value.
    pub fn raw(&self) -> (r: i32)
        ensures
            r == self.spec_raw(),
            Self::spec_from_raw(r) == Ok::<MosaicTopo, ArgumentRangeError>(*self),
    {
        match self {
            MosaicTopo::NoTopo => 0,
            MosaicTopo::T1x2_Basic => 1,
            MosaicTopo::T2x1_Basic => 2,
            MosaicTopo::T1x3_Basic => 3,
            MosaicTopo::T3x1_Basic => 4,
            MosaicTopo::T1x4_Basic => 5,
            MosaicTopo::T4x1_Basic => 6,
            MosaicTopo::T2x2_Basic => 7,
            MosaicTopo::T2x3_Basic => 8,
            MosaicTopo::T2x4_Basic => 9,
            MosaicTopo::T3x2_Basic => 10,
            MosaicTopo::T4x2_Basic => 11,
            MosaicTopo::T1x5_Basic => 12,
            MosaicTopo::T1x6_Basic => 13,
            MosaicTopo::T7x1_Basic => 14,
            MosaicTopo::T1x2_PassiveStereo => 24,
            MosaicTopo::T2x1_PassiveStereo => 25,
            MosaicTopo::T1x3_PassiveStereo => 26,
            MosaicTopo::T3x1_PassiveStereo => 27,
            MosaicTopo::T1x4_PassiveStereo => 28,
            MosaicTopo::T4x1_PassiveStereo => 29,
            MosaicTopo::T2x2_PassiveStereo => 30,
            MosaicTopo::MaxTopo => 35,
        }
    }

    /// Maps a raw driver integer to its typed value, or reports one
    /// outside the closed set.
    pub fn from_raw(raw: i32) -> (r: Result<MosaicTopo, ArgumentRangeError>)
        ensures
            r == Self::spec_from_raw(raw),
            r matches Ok(v) ==> v.spec_raw() == raw,
    {
        if raw == 0 {
            Ok(MosaicTopo::NoTopo)
        } else if raw == 1 {
            Ok(MosaicTopo::T1x2_Basic)
        } else if raw == 2 {
            Ok(MosaicTopo::T2x1_Basic)
        } else if raw == 3 {
            Ok(MosaicTopo::T1x3_Basic)
        } else if raw == 4 {
            Ok(MosaicTopo::T3x1_Basic)
        } else if raw == 5 {
            Ok(MosaicTopo::T1x4_Basic)
        } else if raw == 6 {
            Ok(MosaicTopo::T4x1_Basic)
        } else if raw == 7 {
            Ok(MosaicTopo::T2x2_Basic)
        } else if raw == 8 {
            Ok(MosaicTopo::T2x3_Basic)
        } else if raw == 9 {
            Ok(MosaicTopo::T2x4_Basic)
        } else if raw == 10 {
            Ok(MosaicTopo::T3x2_Basic)
        } else if raw == 11 {
            Ok(MosaicTopo::T4x2_Basic)
        } else if raw == 12 {
            Ok(MosaicTopo::T1x5_Basic)
        } else if raw == 13 {
            Ok(MosaicTopo::T1x6_Basic)
        } else if raw == 14 {
            Ok(MosaicTopo::T7x1_Basic)
        } else if raw == 24 {
            Ok(MosaicTopo::T1x2_PassiveStereo)
        } else if raw == 25 {
            Ok(MosaicTopo::T2x1_PassiveStereo)
        } else if raw == 26 {
            Ok(MosaicTopo::T1x3_PassiveStereo)
        } else if raw == 27 {
            Ok(MosaicTopo::T3x1_PassiveStereo)
        } else if raw == 28 {
            Ok(MosaicTopo::T1x4_PassiveStereo)
        } else if raw == 29 {
            Ok(MosaicTopo::T4x1_PassiveStereo)
        } else if raw == 30 {
            Ok(MosaicTopo::T2x2_PassiveStereo)
        } else if raw == 35 {
            Ok(MosaicTopo::MaxTopo)
        } else {
            Err(ArgumentRangeError)
        }
    }
}

/// The sub-pixel shift a grid display applies.
#[derive(Clone, Copy, Debug, PartialEq, Eq, Structural)]
pub enum PixelShiftType {
    NoPixelShift,
    TwoByTwoTopLeft,
    TwoByTwoBottomRight,
    TwoByTwoTopRight,
    TwoByTwoBottomLeft,
}

impl PixelShiftType {
    /// The raw integer the driver uses for this value.
    pub open spec fn spec_raw(self) -> i32 {
        match self {
            PixelShiftType::NoPixelShift => 0,
            PixelShiftType::TwoByTwoTopLeft => 1,
            PixelShiftType::TwoByTwoBottomRight => 2,
            PixelShiftType::TwoByTwoTopRight => 4,
            PixelShiftType::TwoByTwoBottomLeft => 8,
        }
    }

    /// The typed value a raw driver integer stands for, if it is in
    /// the closed set.
    pub open spec fn spec_from_raw(raw: i32) -> Result<PixelShiftType, ArgumentRangeError> {
        if raw == 0 {
            Ok(PixelShiftType::NoPixelShift)
        } else if raw == 1 {
            Ok(PixelShiftType::TwoByTwoTopLeft)
        } else if raw == 2 {
            Ok(PixelShiftType::TwoByTwoBottomRight)
        } else if raw == 4 {
            Ok(PixelShiftType::TwoByTwoTopRight)
        } else if raw == 8 {
            Ok(PixelShiftType::TwoByTwoBottomLeft)
        } else {
            Err(ArgumentRangeError)
        }
    }

    /// Returns the raw integer the driver uses for this value.
    pub fn raw(&self) -> (r: i32)
        ensures
            r == self.spec_raw(),
            Self::spec_from_raw(r) == Ok::<PixelShiftType, ArgumentRangeError>(*self),
    {
        match self {
            PixelShiftType::NoPixelShift => 0,
            PixelShiftType::TwoByTwoTopLeft => 1,
            PixelShiftType::TwoByTwoBottomRight => 2,
            PixelShiftType::TwoByTwoTopRight => 4,
            PixelShiftType::TwoByTwoBottomLeft => 8,
        }
    }

    /// Maps a raw driver integer to its typed value, or reports one
    /// outside the closed set.
    pub fn from_raw(raw: i32) -> (r: Result<PixelShiftType, ArgumentRangeError>)
        ensures
            r == Self::spec_from_raw(raw),
            r matches Ok(v) ==> v.spec_raw() == raw,
    {
        if raw == 0 {
            Ok(PixelShiftType::NoPixelShift)
        } else if raw == 1 {
            Ok(PixelShiftType::TwoByTwoTopLeft)
        } else if raw == 2 {
            Ok(PixelShiftType::TwoByTwoBottomRight)
        } else if raw == 4 {
            Ok(PixelShiftType::TwoByTwoTopRight)
        } else if raw == 8 {
            Ok(PixelShiftType::TwoByTwoBottomLeft)
        } else {
            Err(ArgumentRangeError)
        }
    }
}

/// The rotation of one display within a grid.
#[derive(Clone, Copy, Debug, PartialEq, Eq, Structural)]
pub enum Rotate {
    R0,
    R90,
    R180,
    R270,
    Ignored,
}

impl Rotate {
    /// The raw integer the driver uses for this value.
    pub open spec fn spec_raw(self) -> i32 {
        match self {
            Rotate::R0 => 0,
            Rotate::R90 => 1,
            Rotate::R180 => 2,
            Rotate::R270 => 3,
            Rotate::Ignored => 4,
        }
    }

    /// The typed value a raw driver integer stands for, if it is in
    /// the closed set.
    pub open spec fn spec_from_raw(raw: i32) -> Result<Rotate, ArgumentRangeError> {
        if raw == 0 {
            Ok(Rotate::R0)
        } else if raw == 1 {
            Ok(Rotate::R90)
        } else if raw == 2 {
            Ok(Rotate::R180)
        } else if raw == 3 {
            Ok(Rotate::R270)
        } else if raw == 4 {
            Ok(Rotate::Ignored)
        } else {
            Err(ArgumentRangeError)
        }
    }

    /// Returns the raw integer the driver uses for this value.
    pub fn raw(&self) -> (r: i32)
        ensures
            r == self.spec_raw(),
            Self::spec_from_raw(r) == Ok::<Rotate, ArgumentRangeError>(*self),
    {
        match self {
            Rotate::R0 => 0,
            Rotate::R90 => 1,
            Rotate::R180 => 2,
            Rotate::R270 => 3,
            Rotate::Ignored => 4,
        }
    }

    /// Maps a raw driver integer to its typed value, or reports one
    /// outside the closed set.
    pub fn from_raw(raw: i32) -> (r: Result<Rotate, ArgumentRangeError>)
        ensures
            r == Self::spec_from_raw(raw),
            r matches Ok(v) ==> v.spec_raw() == raw,
    {
        if raw == 0 {
            Ok(Rotate::R0)
        } else if raw == 1 {
            Ok(Rotate::R90)
        } else if raw == 2 {
            Ok(Rotate::R180)
        } else if raw == 3 {
            Ok(Rotate::R270)
        } else if raw == 4 {
            Ok(Rotate::Ignored)
        } else {
            Err(ArgumentRangeError)
        }
    }
}

/// Which sensor a thermal reading comes from.
#[derive(Clone, Copy, Debug, PartialEq, Eq, Structural)]
pub enum ThermalTarget {
    NoTarget,
    Gpu,
    Memory,
    PowerSupply,
    Board,
    VcdBoard,
    VcdInlet,
    VcdOutlet,
    AllTargets,
    UnknownTarget,
}

impl ThermalTarget {
    /// The raw integer the driver uses for this value.
    pub open spec fn spec_raw(self) -> i32 {
        match self {
            ThermalTarget::NoTarget => 0,
            ThermalTarget::Gpu => 1,
            ThermalTarget::Memory => 2,
            ThermalTarget::PowerSupply => 4,
            ThermalTarget::Board => 8,
            ThermalTarget::VcdBoard => 9,
            ThermalTarget::VcdInlet => 10,
            ThermalTarget::VcdOutlet => 11,
            ThermalTarget::AllTargets => 15,
            ThermalTarget::UnknownTarget => -1i32,
        }
    }

    /// The typed value a raw driver integer stands for, if it is in
    /// the closed set.
    pub open spec fn spec_from_raw(raw: i32) -> Result<ThermalTarget, ArgumentRangeError> {
        if raw == 0 {
            Ok(ThermalTarget::NoTarget)
        } else if raw == 1 {
            Ok(ThermalTarget::Gpu)
        } else if raw == 2 {
            Ok(ThermalTarget::Memory)
        } else if raw == 4 {
            Ok(ThermalTarget::PowerSupply)
        } else if raw == 8 {
            Ok(ThermalTarget::Board)
        } else if raw == 9 {
            Ok(ThermalTarget::VcdBoard)
        } else if raw == 10 {
            Ok(ThermalTarget::VcdInlet)
        } else if raw == 11 {
            Ok(ThermalTarget::VcdOutlet)
        } else if raw == 15 {
            Ok(ThermalTarget::AllTargets)
        } else if raw == -1 {
            Ok(ThermalTarget::UnknownTarget)
        } else {
            Err(ArgumentRangeError)
        }
    }

    /// Returns the raw integer the driver uses for this value.
    pub fn raw(&self) -> (r: i32)
        ensures
            r == self.spec_raw(),
            Self::spec_from_raw(r) == Ok::<ThermalTarget, ArgumentRangeError>(*self),
    {
        match self {
            ThermalTarget::NoTarget => 0,
            ThermalTarget::Gpu => 1,
            ThermalTarget::Memory => 2,
            ThermalTarget::PowerSupply => 4,
            ThermalTarget::Board => 8,
            ThermalTarget::VcdBoard => 9,
            ThermalTarget::VcdInlet => 10,
            ThermalTarget::VcdOutlet => 11,
            ThermalTarget::AllTargets => 15,
            ThermalTarget::UnknownTarget => -1i32,
        }
    }

    /// Maps a raw driver integer to its typed value, or reports one
    /// outside the closed set.
    pub fn from_raw(raw: i32) -> (r: Result<ThermalTarget, ArgumentRangeError>)
        ensures
            r == Self::spec_from_raw(raw),
            r matches Ok(v) ==> v.spec_raw() == raw,
    {
        if raw == 0 {
            Ok(ThermalTarget::NoTarget)
        } else if raw == 1 {
            Ok(ThermalTarget::Gpu)
        } else if raw == 2 {
            Ok(ThermalTarget::Memory)
        } else if raw == 4 {
            Ok(ThermalTarget::PowerSupply)
        } else if raw == 8 {
            Ok(ThermalTarget::Board)
        } else if raw == 9 {
            Ok(ThermalTarget::VcdBoard)
        } else if raw == 10 {
            Ok(ThermalTarget::VcdInlet)
        } else if raw == 11 {
            Ok(ThermalTarget::VcdOutlet)
        } else if raw == 15 {
            Ok(ThermalTarget::AllTargets)
        } else if raw == -1 {
            Ok(ThermalTarget::UnknownTarget)
        } else {
            Err(ArgumentRangeError)
        }
    }
}

/// The controller chip behind a thermal sensor.
#[derive(Clone, Copy, Debug, PartialEq, Eq, Structural)]
pub enum ThermalController {
    NoController,
    GpuInternal,
    ADM1032,
    MAX6649,
    MAX1617,
    LM99,
    LM89,
    LM64,
    ADT7473,
    SBMAX6649,
    VBIOSEVT,
    OS,
    UnknownController,
}

impl ThermalController {
    /// The raw integer the driver uses for this value.
    pub open spec fn spec_raw(self) -> i32 {
        match self {
            ThermalController::NoController => 0,
            ThermalController::GpuInternal => 1,
            ThermalController::ADM1032 => 2,
            ThermalController::MAX6649 => 3,
            ThermalController::MAX1617 => 4,
            ThermalController::LM99 => 5,
            ThermalController::LM89 => 6,
            ThermalController::LM64 => 7,
            ThermalController::ADT7473 => 8,
            ThermalController::SBMAX6649 => 9,
            ThermalController::VBIOSEVT => 10,
            ThermalController::OS => 11,
            ThermalController::UnknownController => -1i32,
        }
    }

    /// The typed value a raw driver integer stands for, if it is in
    /// the closed set.
    pub open spec fn spec_from_raw(raw: i32) -> Result<ThermalController, ArgumentRangeError> {
        if raw == 0 {
            Ok(ThermalController::NoController)
        } else if raw == 1 {
            Ok(ThermalController::GpuInternal)
        } else if raw == 2 {
            Ok(ThermalController::ADM1032)
        } else if raw == 3 {
            Ok(ThermalController::MAX6649)
        } else if raw == 4 {
            Ok(ThermalController::MAX1617)
        } else if raw == 5 {
            Ok(ThermalController::LM99)
        } else if raw == 6 {
            Ok(ThermalController::LM89)
        } else if raw == 7 {
            Ok(ThermalController::LM64)
        } else if raw == 8 {
            Ok(ThermalController::ADT7473)
        } else if raw == 9 {
            Ok(ThermalController::SBMAX6649)
        } else if raw == 10 {
            Ok(ThermalController::VBIOSEVT)
        } else if raw == 11 {
            Ok(ThermalController::OS)
        } else if raw == -1 {
            Ok(ThermalController::UnknownController)
        } else {
            Err(ArgumentRangeError)
        }
    }

    /// Returns the raw integer the driver uses for this value.
    pub fn raw(&self) -> (r: i32)
        ensures
            r == self.spec_raw(),
            Self::spec_from_raw(r) == Ok::<ThermalController, ArgumentRangeError>(*self),
    {
        match self {
            ThermalController::NoController => 0,
            ThermalController::GpuInternal => 1,
            ThermalController::ADM1032 => 2,
            ThermalController::MAX6649 => 3,
            ThermalController::MAX1617 => 4,
            ThermalController::LM99 => 5,
            ThermalController::LM89 => 6,
            ThermalController::LM64 => 7,
            ThermalController::ADT7473 => 8,
            ThermalController::SBMAX6649 => 9,
            ThermalController::VBIOSEVT => 10,
            ThermalController::OS => 11,
            ThermalController::UnknownController => -1i32,
        }
    }

    /// Maps a raw driver integer to its typed value, or reports one
    /// outside the closed set.
    pub fn from_raw(raw: i32) -> (r: Result<ThermalController, ArgumentRangeError>)
        ensures
            r == Self::spec_from_raw(raw),
            r matches Ok(v) ==> v.spec_raw() == raw,
    {
        if raw == 0 {
            Ok(ThermalController::NoController)
        } else if raw == 1 {
            Ok(ThermalController::GpuInternal)
        } else if raw == 2 {
            Ok(ThermalController::ADM1032)
        } else if raw == 3 {
            Ok(ThermalController::MAX6649)
        } else if raw == 4 {
            Ok(ThermalController::MAX1617)
        } else if raw == 5 {
            Ok(ThermalController::LM99)
        } else if raw == 6 {
            Ok(ThermalController::LM89)
        } else if raw == 7 {
            Ok(ThermalController::LM64)
        } else if raw == 8 {
            Ok(ThermalController::ADT7473)
        } else if raw == 9 {
            Ok(ThermalController::SBMAX6649)
        } else if raw == 10 {
            Ok(ThermalController::VBIOSEVT)
        } else if raw == 11 {
            Ok(ThermalController::OS)
        } else if raw == -1 {
            Ok(ThermalController::UnknownController)
        } else {
            Err(ArgumentRangeError)
        }
    }
}

} // verus!
