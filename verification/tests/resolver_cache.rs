//! The interface-pointer cache: write-once, idempotent, fails closed.

use nvapi::resolver::InterfaceCache;
use nvapi::status::Status;

#[test]
fn resolves_and_caches_a_pointer() {
    let mut cache = InterfaceCache::new();
    assert_eq!(cache.lookup(0x2060936A), None);
    assert_eq!(cache.resolve(0x2060936A, 0x7000), Ok(0x7000));
    assert_eq!(cache.lookup(0x2060936A), Some(0x7000));
}

#[test]
fn resolving_twice_yields_the_same_pointer() {
    // The second resolution returns the recorded pointer even when the
    // driver's entry point would now answer differently — the race between
    // two first-time resolutions converges on whichever answer landed.
    let mut cache = InterfaceCache::new();
    let first = cache.resolve(0xD9F9B323, 0x1111).unwrap();
    let second = cache.resolve(0xD9F9B323, 0x2222).unwrap();
    assert_eq!(first, second);
    assert_eq!(cache.lookup(0xD9F9B323), Some(0x1111));
}

#[test]
fn null_answers_fail_closed_and_record_nothing() {
    let mut cache = InterfaceCache::new();
    assert_eq!(cache.resolve(0x4B708B54, 0), Err(Status::NotSupported));
    assert_eq!(cache.lookup(0x4B708B54), None);
    // A later driver (after an upgrade mid-process would be a new
    // process, but the cache must not wedge on a transient null).
    assert_eq!(cache.resolve(0x4B708B54, 0x9000), Ok(0x9000));
}

#[test]
fn distinct_ids_are_independent() {
    let mut cache = InterfaceCache::new();
    assert_eq!(cache.resolve(1, 0x10), Ok(0x10));
    assert_eq!(cache.resolve(2, 0x20), Ok(0x20));
    assert_eq!(cache.lookup(1), Some(0x10));
    assert_eq!(cache.lookup(2), Some(0x20));
    assert_eq!(cache.lookup(3), None);
}
