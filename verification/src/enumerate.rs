//! The two-phase enumeration protocol.
//!
//! Every variable-length driver query follows the same calling convention:
//! ask with a null buffer and get the required entry count back; allocate a
//! buffer of exactly that count, pre-tag every element, and ask again to
//! have it filled.  The count query touches no caller memory at all, and
//! its count, being unsigned, is never negative.  The driver may fill fewer
//! entries than it first reported — the result is truncated to what the
//! second call returned, never reading past it — and if hardware changed
//! between the two calls it may need more entries than the buffer holds, in
//! which case the protocol starts over from the count, at most
//! [`MAX_ENUM_ATTEMPTS`] times before giving up with
//! [`EnumFailure::TopologyChanged`].
//!
//! The driver's raw replies arrive here as plain values (an [`EnumRound`]
//! per count-then-fill exchange); the caller performs the raw calls.

use vstd::prelude::*;

use crate::status::{spec_translate, translate, Status, RAW_OK};

verus! {

/// How many times an enumeration restarts from the count query before it
/// reports that the topology kept changing.
pub const MAX_ENUM_ATTEMPTS: usize = 3;

/// Why an enumeration ended without a result.
#[derive(Clone, Copy, Debug, PartialEq, Eq, Structural)]
pub enum EnumFailure {
    /// The driver reported an error on the count or the fill call.
    Driver(Status),
    /// The entry count kept growing between the count and the fill call,
    /// attempt after attempt: the topology changed during enumeration.
    TopologyChanged,
}

/// What the count phase decided.
#[derive(Clone, Copy, Debug, PartialEq, Eq, Structural)]
pub enum CountOutcome {
    /// Zero entries exist: the enumeration is complete and empty, with no
    /// fill call at all.
    Empty,
    /// This many entries exist: allocate that many pre-tagged elements and
    /// call again.
    Fill(u32),
    /// The driver failed the count call.
    Fail(Status),
}

/// What [`after_count`] decides for a raw count reply.
pub open spec fn spec_after_count(status: i32, count: u32) -> CountOutcome {
    if status != RAW_OK {
        CountOutcome::Fail(spec_translate(status))
    } else if count == 0 {
        CountOutcome::Empty
    } else {
        CountOutcome::Fill(count)
    }
}

/// Decides the enumeration's first phase from the driver's reply to the
/// null-buffer count call.
///
/// The count call mutates no caller state — this function borrows nothing
/// mutably and only inspects the two plain values the driver wrote — and a
/// zero count is a complete, empty, successful enumeration, not an error.
pub fn after_count(status: i32, count: u32) -> (r: CountOutcome)
    ensures
        r == spec_after_count(status, count),
        r matches CountOutcome::Fill(n) ==> n == count && n > 0,
{
    if status != RAW_OK {
        CountOutcome::Fail(translate(status))
    } else if count == 0 {
        CountOutcome::Empty
    } else {
        CountOutcome::Fill(count)
    }
}

/// What the fill phase decided.
#[derive(Clone, Debug, PartialEq)]
pub enum FillOutcome<T> {
    /// The driver filled this many entries; the buffer is truncated to
    /// exactly what it reported.
    Done(Vec<T>),
    /// The driver now needs more entries than the buffer holds: hardware
    /// changed between the calls, so the protocol restarts from the count.
    Changed,
    /// The driver failed the fill call.
    Fail(Status),
}

/// Settles the enumeration's second phase: `buffer` as the driver left it,
/// `reported` the count it wrote back, `status` the raw status of the fill
/// call.
///
/// On success the result holds exactly the first `reported` entries — the
/// post-call count never exceeds the buffer's capacity and nothing past it
/// is ever read.  A reported count above the capacity settles nothing and
/// sends the protocol back to the count phase.
pub fn after_fill<T>(buffer: Vec<T>, reported: u32, status: i32) -> (r: FillOutcome<T>)
    ensures
        status != RAW_OK ==> r == FillOutcome::<T>::Fail(spec_translate(status)),
        status == RAW_OK && reported <= buffer@.len() ==> (r matches FillOutcome::Done(v)
            && v@ == buffer@.subrange(0, reported as int)),
        status == RAW_OK && reported > buffer@.len() ==> r == FillOutcome::<T>::Changed,
        r matches FillOutcome::Done(v) ==> v@.len() == reported && v@.len() <= buffer@.len(),
{
    if status != RAW_OK {
        FillOutcome::Fail(translate(status))
    } else if reported as usize <= buffer.len() {
        let mut kept = buffer;
        kept.truncate(reported as usize);
        FillOutcome::Done(kept)
    } else {
        FillOutcome::Changed
    }
}

/// The two-phase bound: whatever entries an exchange settles with fit
/// the buffer that was allocated for it — the post-call count never
/// exceeds the pre-allocated capacity, and an empty settlement needs no
/// buffer at all.
pub proof fn lemma_two_phase_capacity<T>(r: EnumRound<T>)
    ensures
        spec_round_verdict(r) matches RoundVerdict::SettledOk(entries) ==> entries.len()
            <= r.filled@.len(),
{
}

/// One count-then-fill exchange, as the driver answered it: the raw status
/// and count of the count call, then the buffer as the fill call left it
/// with its raw status and written-back count.  Where the count phase
/// already settled the exchange, the fill fields go unread.
#[derive(Clone, Debug, PartialEq)]
pub struct EnumRound<T> {
    /// Raw status of the null-buffer count call.
    pub count_status: i32,
    /// Entry count the driver reported for the count call.
    pub count: u32,
    /// Raw status of the fill call.
    pub fill_status: i32,
    /// The buffer handed to the fill call, as the driver left it.
    pub filled: Vec<T>,
    /// Entry count the driver wrote back on the fill call.
    pub reported: u32,
}

/// How one exchange settles, at the specification level.
pub enum RoundVerdict<T> {
    /// The enumeration is complete with these entries.
    SettledOk(Seq<T>),
    /// The enumeration failed with this driver error.
    SettledErr(Status),
    /// The count grew past the buffer: try a fresh exchange.
    TryAgain,
}

/// The verdict one exchange comes to under the two-phase rules.
pub open spec fn spec_round_verdict<T>(r: EnumRound<T>) -> RoundVerdict<T> {
    if r.count_status != RAW_OK {
        RoundVerdict::SettledErr(spec_translate(r.count_status))
    } else if r.count == 0 {
        RoundVerdict::SettledOk(Seq::empty())
    } else if r.fill_status != RAW_OK {
        RoundVerdict::SettledErr(spec_translate(r.fill_status))
    } else if r.reported <= r.filled@.len() {
        RoundVerdict::SettledOk(r.filled@.subrange(0, r.reported as int))
    } else {
        RoundVerdict::TryAgain
    }
}

/// What a whole enumeration returns, given the planned exchanges, starting
/// from attempt `i`: the first settled exchange decides, and a run of
/// try-agains through the last permitted attempt is a topology change.
pub open spec fn spec_enumerate<T>(rounds: Seq<EnumRound<T>>, i: int) -> Result<Seq<T>,
    EnumFailure>
    decreases MAX_ENUM_ATTEMPTS - i,
{
    if i < 0 || i >= MAX_ENUM_ATTEMPTS || i >= rounds.len() {
        Err(EnumFailure::TopologyChanged)
    } else {
        match spec_round_verdict(rounds[i]) {
            RoundVerdict::SettledOk(entries) => Ok(entries),
            RoundVerdict::SettledErr(e) => Err(EnumFailure::Driver(e)),
            RoundVerdict::TryAgain => spec_enumerate(rounds, i + 1),
        }
    }
}

/// Runs one exchange of the protocol.
pub fn run_round<T>(round: EnumRound<T>) -> (r: FillOutcome<T>)
    ensures
        spec_round_verdict(round) matches RoundVerdict::SettledOk(entries) ==> (r matches
            FillOutcome::Done(v) && v@ == entries),
        spec_round_verdict(round) matches RoundVerdict::SettledErr(e) ==> r
            == FillOutcome::<T>::Fail(e),
        spec_round_verdict(round) is TryAgain ==> r == FillOutcome::<T>::Changed,
{
    match after_count(round.count_status, round.count) {
        CountOutcome::Fail(e) => FillOutcome::Fail(e),
        CountOutcome::Empty => {
            let none: Vec<T> = Vec::new();
            proof {
                assert(none@ =~= Seq::<T>::empty());
            }
            FillOutcome::Done(none)
        },
        CountOutcome::Fill(_) => after_fill(round.filled, round.reported, round.fill_status),
    }
}

/// Runs a whole enumeration over the planned exchanges: one per permitted
/// attempt, in order, restarting on a topology change until an exchange
/// settles or the attempts are spent.  Planning fewer exchanges than
/// [`MAX_ENUM_ATTEMPTS`] only exhausts the attempts sooner.
pub fn enumerate_rounds<T>(rounds: Vec<EnumRound<T>>) -> (r: Result<Vec<T>, EnumFailure>)
    ensures
        ({
            let outcome = spec_enumerate(rounds@, 0);
            match r {
                Ok(entries) => outcome matches Ok(s) && entries@ == s,
                Err(e) => outcome == Err::<Seq<T>, EnumFailure>(e),
            }
        }),
{
    let ghost orig = rounds@;
    drain_rounds(rounds, Ghost(orig))
}

/// Consumes the planned exchanges one by one; `orig` remembers the whole
/// plan, which the loop eats from the front.
fn drain_rounds<T>(rounds: Vec<EnumRound<T>>, Ghost(orig): Ghost<Seq<EnumRound<T>>>) -> (r:
    Result<Vec<T>, EnumFailure>)
    requires
        rounds@ == orig,
    ensures
        ({
            let outcome = spec_enumerate(orig, 0);
            match r {
                Ok(entries) => outcome matches Ok(s) && entries@ == s,
                Err(e) => outcome == Err::<Seq<T>, EnumFailure>(e),
            }
        }),
{
    let mut pending = rounds;
    let mut i: usize = 0;
    while pending.len() > 0 && i < MAX_ENUM_ATTEMPTS
        invariant
            i + pending@.len() == orig.len(),
            pending@ == orig.subrange(i as int, orig.len() as int),
            i <= MAX_ENUM_ATTEMPTS,
            spec_enumerate(orig, 0) == spec_enumerate(orig, i as int),
        decreases orig.len() - i,
    {
        let round = pending.remove(0);
        proof {
            assert(round == orig[i as int]);
        }
        match run_round(round) {
            FillOutcome::Done(v) => {
                return Ok(v);
            },
            FillOutcome::Fail(e) => {
                return Err(EnumFailure::Driver(e));
            },
            FillOutcome::Changed => {
                i = i + 1;
                proof {
                    assert(pending@ =~= orig.subrange(i as int, orig.len() as int));
                }
            },
        }
    }
    Err(EnumFailure::TopologyChanged)
}

} // verus!
