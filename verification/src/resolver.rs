//! The query-interface resolver.
//!
//! The driver exports one generic entry point that maps a stable numeric
//! interface ID to a raw function pointer.  Resolved pointers are cached for
//! the life of the process, keyed by ID, with a write-once discipline: the
//! first successful resolution of an ID fixes its value, and every later
//! resolution returns that same value untouched.  Because the driver is
//! consulted with the same stable ID every time, racing first-time
//! resolutions converge: whichever answer is recorded first is the one every
//! caller reads from then on ([`lemma_resolution_idempotent`]).
//!
//! Resolution fails closed: a null answer from the driver means the
//! installed driver does not provide the function, and the resolver reports
//! [`Status::NotSupported`] instead of ever handing out a null pointer.

use vstd::prelude::*;

use crate::status::Status;

verus! {

/// The first value recorded under `id`, scanning from the front.
pub open spec fn spec_find(s: Seq<(u32, usize)>, id: u32) -> Option<usize>
    decreases s.len(),
{
    if s.len() == 0 {
        None
    } else if s[0].0 == id {
        Some(s[0].1)
    } else {
        spec_find(s.drop_first(), id)
    }
}

/// What resolving `id` does to a cache when the driver's answer would be
/// `answer`: a hit leaves the cache alone and returns the recorded pointer;
/// a miss records a non-null answer, and fails closed on a null one.
pub open spec fn spec_resolve(s: Seq<(u32, usize)>, id: u32, answer: usize) -> (Seq<(u32, usize)>,
    Result<usize, Status>) {
    match spec_find(s, id) {
        Some(p) => (s, Ok(p)),
        None => {
            if answer == 0 {
                (s, Err(Status::NotSupported))
            } else {
                (s.push((id, answer)), Ok(answer))
            }
        },
    }
}

/// Appending an entry never disturbs an ID that is already recorded, and
/// records exactly the new ID otherwise.
pub proof fn lemma_find_after_push(s: Seq<(u32, usize)>, e: (u32, usize), id: u32)
    ensures
        spec_find(s.push(e), id) == if spec_find(s, id) is Some {
            spec_find(s, id)
        } else if e.0 == id {
            Some(e.1)
        } else {
            None
        },
    decreases s.len(),
{
    assert(s.push(e).len() == s.len() + 1);
    if s.len() == 0 {
        assert(s.push(e)[0] == e);
        assert(s.push(e).drop_first() =~= Seq::<(u32, usize)>::empty());
        assert(spec_find(Seq::<(u32, usize)>::empty(), id) is None);
    } else {
        assert(s.push(e)[0] == s[0]);
        assert(s.push(e).drop_first() =~= s.drop_first().push(e));
        lemma_find_after_push(s.drop_first(), e, id);
    }
}

/// The process-wide map from stable interface IDs to resolved pointers.
///
/// Pointers are held as plain address tokens; zero stands for null and is
/// never recorded.
pub struct InterfaceCache {
    entries: Vec<(u32, usize)>,
}

impl InterfaceCache {
    /// The recorded (ID, address) pairs, oldest first.
    pub closed spec fn view_seq(&self) -> Seq<(u32, usize)> {
        self.entries@
    }

    /// The cache's invariant: nothing recorded is null.
    pub open spec fn wf(&self) -> bool {
        all_nonnull(self.view_seq())
    }

    /// Creates an empty cache: no interface has been resolved yet.
    pub fn new() -> (cache: Self)
        ensures
            cache.view_seq() == Seq::<(u32, usize)>::empty(),
            cache.wf(),
    {
        InterfaceCache { entries: Vec::new() }
    }

    /// Returns the pointer recorded for `id`, if any.  Reading never
    /// changes the cache: this is the lock-free steady-state path.
    pub fn lookup(&self, id: u32) -> (r: Option<usize>)
        ensures
            r == spec_find(self.view_seq(), id),
    {
        let n = self.entries.len();
        proof {
            assert(self.view_seq().subrange(0, n as int) =~= self.view_seq());
        }
        let mut i: usize = 0;
        while i < n
            invariant
                i <= n,
                n == self.entries.len(),
                spec_find(self.view_seq(), id) == spec_find(
                    self.view_seq().subrange(i as int, n as int), id),
            decreases n - i,
        {
            let (key, value) = self.entries[i];
            if key == id {
                return Some(value);
            }
            proof {
                assert(self.view_seq().subrange(i as int, n as int).drop_first()
                    =~= self.view_seq().subrange(i + 1, n as int));
            }
            i = i + 1;
        }
        None
    }

    /// Resolves `id`, given the answer the driver's generic query entry
    /// point returned (or would return) for it.
    ///
    /// A cached ID is answered from the cache, whatever the driver said
    /// this time; an uncached ID records a non-null answer and fails closed
    /// with [`Status::NotSupported`] on a null one.
    pub fn resolve(&mut self, id: u32, answer: usize) -> (r: Result<usize, Status>)
        requires
            old(self).wf(),
        ensures
            final(self).wf(),
            (final(self).view_seq(), r) == spec_resolve(old(self).view_seq(), id, answer),
            r matches Ok(p) ==> p != 0 && spec_find(final(self).view_seq(), id) == Some(p),
            r is Err ==> final(self).view_seq() == old(self).view_seq(),
    {
        match self.lookup(id) {
            Some(p) => {
                proof {
                    lemma_nonnull_recorded(old(self).view_seq(), id);
                }
                Ok(p)
            },
            None => {
                if answer == 0 {
                    Err(Status::NotSupported)
                } else {
                    self.entries.push((id, answer));
                    proof {
                        lemma_find_after_push(old(self).view_seq(), (id, answer), id);
                        assert(self.wf()) by {
                            assert(forall|i: int| 0 <= i < old(self).view_seq().len()
                                ==> #[trigger] self.view_seq()[i] == old(self).view_seq()[i]);
                        }
                    }
                    Ok(answer)
                }
            },
        }
    }
}

/// Nothing recorded is null.  This holds of every cache built through
/// [`InterfaceCache::resolve`]; stated here over the entry sequence so that
/// [`InterfaceCache::resolve`] can promise a non-null result on a hit.
pub open spec fn all_nonnull(s: Seq<(u32, usize)>) -> bool {
    forall|i: int| 0 <= i < s.len() ==> (#[trigger] s[i]).1 != 0
}

/// A find in an all-non-null cache never returns null.
pub proof fn lemma_nonnull_recorded(s: Seq<(u32, usize)>, id: u32)
    requires
        all_nonnull(s),
    ensures
        spec_find(s, id) matches Some(p) ==> p != 0,
    decreases s.len(),
{
    if s.len() > 0 && s[0].0 != id {
        lemma_nonnull_recorded(s.drop_first(), id);
    }
}

/// Resolving the same interface ID twice yields the same pointer both
/// times, whatever answer the driver's entry point would give the second
/// time — including the interleaving where another thread resolved the ID
/// first: once a resolution has succeeded, its value is fixed.
pub proof fn lemma_resolution_idempotent(s: Seq<(u32, usize)>, id: u32, a1: usize, a2: usize)
    ensures
        ({
            let (c1, r1) = spec_resolve(s, id, a1);
            let (c2, r2) = spec_resolve(c1, id, a2);
            r1 is Ok ==> r2 == r1 && c2 == c1
        }),
{
    let (c1, r1) = spec_resolve(s, id, a1);
    if spec_find(s, id) is None && a1 != 0 {
        lemma_find_after_push(s, (id, a1), id);
    }
}

} // verus!
