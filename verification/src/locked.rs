//! A shared counter behind a verified reader-writer lock: every clone of the
//! generator reaches the same counter, and the lock serializes the
//! increments, so no two concurrent callers ever observe the same
//! identifier. The lock implementation is vstd's, verified itself, so no
//! mutual-exclusion claim here rests on trust; and it cannot be poisoned, so
//! the one fatal failure of a poisonable lock is impossible by construction.
//!
//! Alongside the counter, the lock stores a ghost trace of every identifier
//! handed out so far. Its invariant — re-established by every call, under
//! any interleaving of handles — is that the trace is exactly
//! `1, 2, ..., count`: contiguous, in order, with no duplicates.

use std::sync::Arc;
use vstd::prelude::*;
use vstd::rwlock::RwLock;
use vstd::rwlock::RwLockPredicate;

use crate::counter::next_counter_id;
use crate::Generator;
use crate::NoMoreIds;

verus! {

/// The state a locked generator guards: the counter, and the ghost record of
/// every identifier handed out so far.
pub struct SharedCounter {
    pub count: u32,
    pub trace: Ghost<Seq<u32>>,
}

/// The lock invariant: the identifiers handed out so far are exactly
/// `1, 2, ..., count`.
pub struct CounterTrace;

impl RwLockPredicate<SharedCounter> for CounterTrace {
    open spec fn inv(self, v: SharedCounter) -> bool {
        &&& v.trace@.len() == v.count
        &&& forall|i: int| 0 <= i < v.count ==> v.trace@[i] == i + 1
    }
}

/// A counter owned jointly by every clone of the handle, guarded by a
/// verified lock. Each call acquires the lock, advances the counter by one
/// and hands the new value out; the lock's invariant ([`CounterTrace`])
/// keeps the record of handed-out identifiers gapless and duplicate-free in
/// every reachable state, whatever the interleaving of handles.
pub struct LockedIdGenerator {
    pub counter: Arc<RwLock<SharedCounter, CounterTrace>>,
}

impl Clone for LockedIdGenerator {
    /// A clone is a handle to the very same lock and counter.
    fn clone(&self) -> (res: Self)
        ensures
            res == *self,
    {
        LockedIdGenerator { counter: self.counter.clone() }
    }
}

impl Generator for LockedIdGenerator {
    /// No single handle's state determines the outcome: the counter is
    /// shared with every other clone.
    open spec fn next_step(&self) -> Option<(u32, LockedIdGenerator)> {
        None
    }

    open spec fn next_fails(&self) -> bool {
        false
    }

    /// Whatever the interleaving: a successful call hands out an identifier
    /// of at least 1 — the counter is advanced before it is read back — and
    /// leaves the handle on the same lock.
    open spec fn ok_rel(pre: Self, post: Self, id: u32) -> bool {
        id >= 1 && post == pre
    }

    fn get_unique_id(&mut self) -> (r: Result<u32, NoMoreIds>)
        ensures
            *final(self) == *old(self),
    {
        let (mut shared, handle) = self.counter.acquire_write();
        let r = next_counter_id(&mut shared.count);
        if let Ok(id) = r {
            shared.trace = Ghost(shared.trace@.push(id));
        }
        handle.release_write(shared);
        r
    }
}

/// A fresh shared counter, seeded at 0 with an empty trace: the first
/// identifier handed out among all clones of the returned handle is 1.
pub fn create_locked_id_generator() -> (g: LockedIdGenerator)
    ensures
        g.counter.pred() == CounterTrace,
{
    let shared = SharedCounter { count: 0, trace: Ghost(Seq::empty()) };
    LockedIdGenerator { counter: Arc::new(RwLock::new(shared, Ghost(CounterTrace))) }
}

/// What the lock invariant buys: at any moment between calls, however many
/// handles have been racing, the identifiers handed out so far form the
/// contiguous range `1..=count`, with no duplicates and no gaps.
pub proof fn lemma_locked_trace_distinct(v: SharedCounter)
    requires
        CounterTrace.inv(v),
    ensures
        v.trace@.len() == v.count,
        forall|i: int| 0 <= i < v.count ==> v.trace@[i] == i + 1,
        forall|i: int, j: int| 0 <= i < j < v.count ==> v.trace@[i] != v.trace@[j],
{
}

} // verus!
