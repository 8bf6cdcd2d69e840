//! Checked-counter identifier generation.
//!
//! One step — advance the counter, refuse to wrap — is everything a
//! counter-backed strategy does per request. The exclusive generator runs it
//! on a counter the caller owns, the locked generator runs it inside its
//! critical section, and the actor task runs it once per message received.
//! The serialized-trace lemmas at the bottom state what that buys: served one
//! at a time from 0, `n` requests receive exactly the identifiers `1..=n`.

use vstd::prelude::*;

use crate::Generator;
use crate::NoMoreIds;

verus! {

/// The outcome of one step of a checked counter holding `c`: the identifier
/// handed out together with the new counter value, or `None` once the
/// counter is spent.
pub open spec fn counter_next(c: u32) -> Option<(u32, u32)> {
    if c < u32::MAX {
        Some((((c + 1) as u32), ((c + 1) as u32)))
    } else {
        None
    }
}

/// Advance a counter by one, refusing to wrap around: the next identifier is
/// handed out and the counter keeps it, or the counter is spent and stays
/// where it is.
pub fn next_counter_id(counter: &mut u32) -> (r: Result<u32, NoMoreIds>)
    ensures
        (counter_next(*old(counter)) matches Some(step) ==>
            r == Ok::<u32, NoMoreIds>(step.0) && *final(counter) == step.1),
        counter_next(*old(counter)) is None ==>
            r == Err::<u32, NoMoreIds>(NoMoreIds) && *final(counter) == *old(counter),
{
    match counter.checked_add(1) {
        Some(n) => {
            *counter = n;
            Ok(n)
        },
        None => Err(NoMoreIds),
    }
}

/// An exclusively owned counter is itself a generator: every call advances
/// it and hands the new value out, and it refuses to wrap once it reaches
/// `u32::MAX`.
impl Generator for u32 {
    open spec fn next_step(&self) -> Option<(u32, u32)> {
        counter_next(*self)
    }

    open spec fn next_fails(&self) -> bool {
        *self == u32::MAX
    }

    open spec fn ok_rel(pre: u32, post: u32, id: u32) -> bool {
        id == pre + 1 && post == id
    }

    fn get_unique_id(&mut self) -> (r: Result<u32, NoMoreIds>) {
        next_counter_id(self)
    }
}

/// A ready-to-use exclusive counter, seeded at 42; the first call hands
/// out 43.
pub fn create_u32_id_generator() -> (g: u32)
    ensures
        g == 42u32,
{
    42
}

/// A generator that is no counter at all: it hands out the same fixed
/// identifier on every call and never fails.
#[derive(Clone, Copy, Debug, PartialEq, Eq, Structural)]
pub struct ConstantGenerator {
    pub value: u32,
}

impl Generator for ConstantGenerator {
    open spec fn next_step(&self) -> Option<(u32, ConstantGenerator)> {
        Some((self.value, *self))
    }

    open spec fn next_fails(&self) -> bool {
        false
    }

    open spec fn ok_rel(pre: Self, post: Self, id: u32) -> bool {
        id == pre.value && post == pre
    }

    fn get_unique_id(&mut self) -> (r: Result<u32, NoMoreIds>) {
        Ok(self.value)
    }
}

/// A generator fixed at `value`: every call returns `value`, forever.
pub fn create_constant_id_generator(value: u32) -> (g: ConstantGenerator)
    ensures
        g.value == value,
{
    ConstantGenerator { value }
}

/// Two back-to-back successful calls on an exclusive counter hand out
/// strictly increasing identifiers.
pub proof fn lemma_counter_ids_increase(g: u32, id1: u32, g1: u32, id2: u32, g2: u32)
    requires
        g.next_step() == Some((id1, g1)),
        g1.next_step() == Some((id2, g2)),
    ensures
        id2 > id1,
{
}

/// A counter refuses exactly at the top: the next call fails if and only if
/// the counter has reached the largest representable identifier, and a
/// failing call leaves the counter unchanged rather than wrapping it to a
/// small value.
pub proof fn lemma_counter_overflow(g: u32)
    ensures
        g.next_fails() <==> g == u32::MAX,
        g.next_fails() <==> g.next_step() is None,
{
}

/// The constant generator never fails and never moves: however many calls
/// have gone before, the next one hands out the seeded value again.
pub proof fn lemma_constant_fixed(g: ConstantGenerator)
    ensures
        g.next_step() == Some((g.value, g)),
        !g.next_fails(),
{
}

/// The identifiers handed out by `n` successive counter steps starting from
/// `c`, or `None` if the counter is spent before the last step.
pub open spec fn ids_from(c: u32, n: nat) -> Option<Seq<u32>>
    decreases n,
{
    if n == 0 {
        Some(Seq::empty())
    } else {
        match counter_next(c) {
            Some(step) => match ids_from(step.1, (n - 1) as nat) {
                Some(rest) => Some(seq![step.0] + rest),
                None => None,
            },
            None => None,
        }
    }
}

/// A counter holding `c` serves `n` more requests whenever `c + n` still
/// fits, and the identifiers handed out are `c+1, c+2, ..., c+n`.
pub proof fn lemma_ids_from_contiguous(c: u32, n: nat)
    requires
        c + n <= u32::MAX,
    ensures
        (ids_from(c, n) matches Some(ids) && ids.len() == n
            && (forall|i: int| 0 <= i < n ==> ids[i] == c + i + 1)),
    decreases n,
{
    if n > 0 {
        lemma_ids_from_contiguous((c + 1) as u32, (n - 1) as nat);
        let rest = ids_from((c + 1) as u32, (n - 1) as nat)->Some_0;
        let ids = ids_from(c, n)->Some_0;
        assert forall|i: int| 0 <= i < n implies ids[i] == c + i + 1 by {
            if i > 0 {
                assert(ids[i] == rest[i - 1]);
            }
        }
    }
}

/// Serialized allocation is gapless: a counter-backed generator seeded at 0
/// that serves `n` requests one at a time — as the locked generator's
/// critical section and the actor task's message loop both do — hands out
/// exactly the identifiers `1, 2, ..., n`: contiguous, in increasing order,
/// with no duplicates.
pub proof fn lemma_serialized_ids_contiguous(n: nat)
    requires
        n <= u32::MAX,
    ensures
        (ids_from(0, n) matches Some(ids) && ids.len() == n
            && (forall|i: int| 0 <= i < n ==> ids[i] == i + 1)
            && (forall|i: int, j: int| 0 <= i < j < n ==> ids[i] != ids[j])),
{
    lemma_ids_from_contiguous(0, n);
}

} // verus!
