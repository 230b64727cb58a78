//! Status-code translation.
//!
//! The driver reports the outcome of every call as a signed 32-bit integer:
//! zero means success and negative values enumerate a closed, vendor-defined
//! error taxonomy.  This module maps each known code to one named [`Status`]
//! variant; codes outside the table are kept verbatim in
//! [`Status::Unknown`], because the vendor may add codes between driver
//! releases and an unrecognized value must never be dropped or panic.

use vstd::prelude::*;

verus! {

/// Raw code the driver returns on success.
pub const RAW_OK: i32 = 0;
/// Raw code for a caller-supplied value the driver rejected.
pub const RAW_INVALID_ARGUMENT: i32 = -5;
/// Raw code for "no matching device, GPU or handle".
pub const RAW_DEVICE_NOT_FOUND: i32 = -6;
/// Raw code for a struct whose packed version tag the driver did not accept.
pub const RAW_INCOMPATIBLE_STRUCT_VERSION: i32 = -9;
/// Raw code for a handle invalidated by a display mode-set.
pub const RAW_HANDLE_INVALIDATED: i32 = -10;
/// Raw code for an entry point the installed driver does not provide.
pub const RAW_NOT_SUPPORTED: i32 = -104;
/// Raw code for an enumeration buffer smaller than the driver needs.
pub const RAW_INSUFFICIENT_BUFFER: i32 = -163;

/// A driver-reported failure, translated into the library's typed taxonomy.
///
/// Every named variant stands for exactly one raw code; any other nonzero
/// code is carried through as [`Status::Unknown`] so that diagnostics keep
/// the raw value.
#[derive(Clone, Copy, Debug, PartialEq, Eq, Structural)]
pub enum Status {
    /// The function is not present in the installed driver.
    NotSupported,
    /// No matching device, GPU or handle exists.
    DeviceNotFound,
    /// The struct's packed version tag was not accepted.
    IncompatibleStructVersion,
    /// An enumeration buffer was too small for the driver's answer.
    InsufficientBuffer,
    /// A caller-supplied value was rejected.
    InvalidArgument,
    /// A handle was invalidated by a display mode-set.
    HandleInvalidated,
    /// A nonzero code outside the closed table, kept for diagnostics.
    Unknown(i32),
}

/// What a nonzero raw code translates to.
pub open spec fn spec_translate(code: i32) -> Status {
    if code == RAW_NOT_SUPPORTED {
        Status::NotSupported
    } else if code == RAW_DEVICE_NOT_FOUND {
        Status::DeviceNotFound
    } else if code == RAW_INCOMPATIBLE_STRUCT_VERSION {
        Status::IncompatibleStructVersion
    } else if code == RAW_INSUFFICIENT_BUFFER {
        Status::InsufficientBuffer
    } else if code == RAW_INVALID_ARGUMENT {
        Status::InvalidArgument
    } else if code == RAW_HANDLE_INVALIDATED {
        Status::HandleInvalidated
    } else {
        Status::Unknown(code)
    }
}

/// A [`Status`] as translation leaves it: `Unknown` never shadows a named
/// variant and never stands for success.
pub open spec fn wf_status(s: Status) -> bool {
    s matches Status::Unknown(code) ==> {
        &&& code != RAW_OK
        &&& code != RAW_NOT_SUPPORTED
        &&& code != RAW_DEVICE_NOT_FOUND
        &&& code != RAW_INCOMPATIBLE_STRUCT_VERSION
        &&& code != RAW_INSUFFICIENT_BUFFER
        &&& code != RAW_INVALID_ARGUMENT
        &&& code != RAW_HANDLE_INVALIDATED
    }
}

impl Status {
    /// The raw driver code this variant stands for.
    pub open spec fn spec_raw(self) -> i32 {
        match self {
            Status::NotSupported => RAW_NOT_SUPPORTED,
            Status::DeviceNotFound => RAW_DEVICE_NOT_FOUND,
            Status::IncompatibleStructVersion => RAW_INCOMPATIBLE_STRUCT_VERSION,
            Status::InsufficientBuffer => RAW_INSUFFICIENT_BUFFER,
            Status::InvalidArgument => RAW_INVALID_ARGUMENT,
            Status::HandleInvalidated => RAW_HANDLE_INVALIDATED,
            Status::Unknown(code) => code,
        }
    }

    /// Returns the raw driver code this variant stands for.
    pub fn raw(&self) -> (code: i32)
        ensures
            code == self.spec_raw(),
    {
        match self {
            Status::NotSupported => RAW_NOT_SUPPORTED,
            Status::DeviceNotFound => RAW_DEVICE_NOT_FOUND,
            Status::IncompatibleStructVersion => RAW_INCOMPATIBLE_STRUCT_VERSION,
            Status::InsufficientBuffer => RAW_INSUFFICIENT_BUFFER,
            Status::InvalidArgument => RAW_INVALID_ARGUMENT,
            Status::HandleInvalidated => RAW_HANDLE_INVALIDATED,
            Status::Unknown(code) => *code,
        }
    }
}

/// Translates a nonzero raw code to its [`Status`] variant.
pub fn translate(code: i32) -> (s: Status)
    ensures
        s == spec_translate(code),
{
    if code == RAW_NOT_SUPPORTED {
        Status::NotSupported
    } else if code == RAW_DEVICE_NOT_FOUND {
        Status::DeviceNotFound
    } else if code == RAW_INCOMPATIBLE_STRUCT_VERSION {
        Status::IncompatibleStructVersion
    } else if code == RAW_INSUFFICIENT_BUFFER {
        Status::InsufficientBuffer
    } else if code == RAW_INVALID_ARGUMENT {
        Status::InvalidArgument
    } else if code == RAW_HANDLE_INVALIDATED {
        Status::HandleInvalidated
    } else {
        Status::Unknown(code)
    }
}

/// What [`status_result`] returns for a raw code.
pub open spec fn spec_status_result(code: i32) -> Result<(), Status> {
    if code == RAW_OK {
        Ok(())
    } else {
        Err(spec_translate(code))
    }
}

/// Maps a raw driver code to `Ok(())` exactly when it is zero, and to the
/// translated error otherwise.
pub fn status_result(code: i32) -> (r: Result<(), Status>)
    ensures
        r == spec_status_result(code),
        r is Ok <==> code == RAW_OK,
        r matches Err(s) ==> wf_status(s),
{
    if code == RAW_OK {
        Ok(())
    } else {
        Err(translate(code))
    }
}

/// Translation and `raw` are mutually inverse: a translated code reads back
/// as itself, and a well-formed status survives the round trip.
pub proof fn lemma_status_round_trip(code: i32, s: Status)
    ensures
        code != RAW_OK ==> spec_translate(code).spec_raw() == code,
        wf_status(s) && s.spec_raw() != RAW_OK ==> spec_translate(s.spec_raw()) == s,
{
}

} // verus!
