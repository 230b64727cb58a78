//! Status-code translation: the closed table, the unknown escape hatch,
//! and the raw-code round trip.

use nvapi::status::{
    status_result, translate, Status, RAW_DEVICE_NOT_FOUND, RAW_HANDLE_INVALIDATED,
    RAW_INCOMPATIBLE_STRUCT_VERSION, RAW_INSUFFICIENT_BUFFER, RAW_INVALID_ARGUMENT,
    RAW_NOT_SUPPORTED, RAW_OK,
};

#[test]
fn zero_is_success_and_only_zero() {
    assert_eq!(status_result(RAW_OK), Ok(()));
    assert!(status_result(-1).is_err());
    assert!(status_result(1).is_err());
}

#[test]
fn known_codes_map_to_their_variants() {
    assert_eq!(translate(RAW_NOT_SUPPORTED), Status::NotSupported);
    assert_eq!(translate(RAW_DEVICE_NOT_FOUND), Status::DeviceNotFound);
    assert_eq!(
        translate(RAW_INCOMPATIBLE_STRUCT_VERSION),
        Status::IncompatibleStructVersion
    );
    assert_eq!(translate(RAW_INSUFFICIENT_BUFFER), Status::InsufficientBuffer);
    assert_eq!(translate(RAW_INVALID_ARGUMENT), Status::InvalidArgument);
    assert_eq!(translate(RAW_HANDLE_INVALIDATED), Status::HandleInvalidated);
}

#[test]
fn unknown_codes_keep_the_raw_value() {
    assert_eq!(translate(-7777), Status::Unknown(-7777));
    assert_eq!(status_result(-7777), Err(Status::Unknown(-7777)));
    assert_eq!(Status::Unknown(-7777).raw(), -7777);
}

#[test]
fn raw_round_trips_through_translation() {
    let errors = [
        Status::NotSupported,
        Status::DeviceNotFound,
        Status::IncompatibleStructVersion,
        Status::InsufficientBuffer,
        Status::InvalidArgument,
        Status::HandleInvalidated,
        Status::Unknown(-42),
    ];
    for e in errors {
        assert_eq!(translate(e.raw()), e);
        assert_ne!(e.raw(), RAW_OK);
    }
}
