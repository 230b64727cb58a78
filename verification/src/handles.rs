//! Opaque driver handles.
//!
//! A handle is a pointer-sized token identifying a driver-side object: a
//! physical GPU, a logical GPU, or a synchronization device.  The driver
//! owns the object; the token is immutable once obtained, equality is
//! identity, and the all-zero token is the valid "absent" sentinel.  A
//! display mode-set invalidates handles, so they are re-enumerated rather
//! than cached indefinitely.

use vstd::prelude::*;

verus! {

/// A handle to a G-SYNC synchronization device.
#[derive(Clone, Copy, Debug, PartialEq, Eq, Structural)]
pub struct NvGSyncDeviceHandle {
    /// The raw pointer-sized token the driver handed out; zero is null.
    pub addr: u64,
}

impl NvGSyncDeviceHandle {
    /// Whether this is the null "absent" sentinel.
    pub open spec fn spec_is_null(self) -> bool {
        self.addr == 0
    }

    /// Wraps a raw token.
    pub fn from_raw(addr: u64) -> (h: Self)
        ensures
            h.addr == addr,
    {
        NvGSyncDeviceHandle { addr }
    }

    /// Returns whether this is the null sentinel.
    pub fn is_null(&self) -> (r: bool)
        ensures
            r == self.spec_is_null(),
    {
        self.addr == 0
    }
}

impl Default for NvGSyncDeviceHandle {
    /// The null sentinel, as a fresh enumeration buffer holds it.
    fn default() -> (h: Self)
        ensures
            h.spec_is_null(),
    {
        NvGSyncDeviceHandle { addr: 0 }
    }
}

/// A handle to a physical GPU.
#[derive(Clone, Copy, Debug, PartialEq, Eq, Structural)]
pub struct NvPhysicalGpuHandle {
    /// The raw pointer-sized token the driver handed out; zero is null.
    pub addr: u64,
}

impl NvPhysicalGpuHandle {
    /// Whether this is the null "absent" sentinel.
    pub open spec fn spec_is_null(self) -> bool {
        self.addr == 0
    }

    /// Wraps a raw token.
    pub fn from_raw(addr: u64) -> (h: Self)
        ensures
            h.addr == addr,
    {
        NvPhysicalGpuHandle { addr }
    }

    /// Returns whether this is the null sentinel.
    pub fn is_null(&self) -> (r: bool)
        ensures
            r == self.spec_is_null(),
    {
        self.addr == 0
    }
}

impl Default for NvPhysicalGpuHandle {
    /// The null sentinel, as a zeroed topology entry holds it.
    fn default() -> (h: Self)
        ensures
            h.spec_is_null(),
    {
        NvPhysicalGpuHandle { addr: 0 }
    }
}

/// A handle to a logical GPU.
#[derive(Clone, Copy, Debug, PartialEq, Eq, Structural)]
pub struct NvLogicalGpuHandle {
    /// The raw pointer-sized token the driver handed out; zero is null.
    pub addr: u64,
}

impl NvLogicalGpuHandle {
    /// Whether this is the null "absent" sentinel.
    pub open spec fn spec_is_null(self) -> bool {
        self.addr == 0
    }

    /// Wraps a raw token.
    pub fn from_raw(addr: u64) -> (h: Self)
        ensures
            h.addr == addr,
    {
        NvLogicalGpuHandle { addr }
    }

    /// Returns whether this is the null sentinel.
    pub fn is_null(&self) -> (r: bool)
        ensures
            r == self.spec_is_null(),
    {
        self.addr == 0
    }
}

impl Default for NvLogicalGpuHandle {
    /// The null sentinel, as a zeroed topology-details struct holds it.
    fn default() -> (h: Self)
        ensures
            h.spec_is_null(),
    {
        NvLogicalGpuHandle { addr: 0 }
    }
}

} // verus!
