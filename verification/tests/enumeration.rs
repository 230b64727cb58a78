//! The two-phase enumeration protocol, driven by scripted driver replies.

use nvapi::enumerate::{
    after_count, after_fill, enumerate_rounds, CountOutcome, EnumFailure, EnumRound, FillOutcome,
    MAX_ENUM_ATTEMPTS,
};
use nvapi::status::{Status, RAW_INCOMPATIBLE_STRUCT_VERSION, RAW_NOT_SUPPORTED, RAW_OK};

fn settled_round(count: u32, filled: Vec<u32>, reported: u32) -> EnumRound<u32> {
    EnumRound {
        count_status: RAW_OK,
        count,
        fill_status: RAW_OK,
        filled,
        reported,
    }
}

#[test]
fn count_phase_decisions() {
    assert_eq!(after_count(RAW_OK, 0), CountOutcome::Empty);
    assert_eq!(after_count(RAW_OK, 5), CountOutcome::Fill(5));
    assert_eq!(
        after_count(RAW_NOT_SUPPORTED, 5),
        CountOutcome::Fail(Status::NotSupported)
    );
}

#[test]
fn fill_phase_truncates_to_the_reported_count() {
    // The driver reported 3 entries at count time but only 2 at fill
    // time: the result is the 2 it wrote, nothing past them.
    match after_fill(vec![10u32, 20, 30], 2, RAW_OK) {
        FillOutcome::Done(v) => assert_eq!(v, vec![10, 20]),
        other => panic!("expected Done, got {:?}", other),
    }
}

#[test]
fn fill_phase_never_overflows_the_buffer() {
    // A reported count beyond the capacity settles nothing: the protocol
    // goes back to the count phase instead of reading out of bounds.
    assert_eq!(after_fill(vec![10u32, 20], 7, RAW_OK), FillOutcome::Changed);
}

#[test]
fn zero_matching_hardware_is_an_empty_success() {
    let rounds = vec![settled_round(0, vec![], 0)];
    assert_eq!(enumerate_rounds(rounds), Ok(vec![]));
}

#[test]
fn shrink_between_calls_returns_the_second_count() {
    let rounds = vec![settled_round(3, vec![7u32, 8, 9], 2)];
    assert_eq!(enumerate_rounds(rounds), Ok(vec![7, 8]));
}

#[test]
fn growth_retries_and_then_settles() {
    let rounds = vec![
        // First attempt: the count said 1, but by fill time 4 exist.
        settled_round(1, vec![7u32], 4),
        // Second attempt settles.
        settled_round(4, vec![1u32, 2, 3, 4], 4),
    ];
    assert_eq!(enumerate_rounds(rounds), Ok(vec![1, 2, 3, 4]));
}

#[test]
fn endless_growth_is_a_topology_change() {
    let mut rounds = Vec::new();
    for _ in 0..MAX_ENUM_ATTEMPTS {
        rounds.push(settled_round(1, vec![7u32], 9));
    }
    assert_eq!(enumerate_rounds(rounds), Err(EnumFailure::TopologyChanged));
}

#[test]
fn driver_errors_propagate_untouched() {
    let rounds = vec![EnumRound::<u32> {
        count_status: RAW_INCOMPATIBLE_STRUCT_VERSION,
        count: 0,
        fill_status: RAW_OK,
        filled: vec![],
        reported: 0,
    }];
    assert_eq!(
        enumerate_rounds(rounds),
        Err(EnumFailure::Driver(Status::IncompatibleStructVersion))
    );
}
