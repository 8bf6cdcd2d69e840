//! The actor strategy's decision logic.
//!
//! The actor is a single long-lived task that owns its counter exclusively —
//! callers never touch it — and is reached only through a bounded request
//! channel; each request carries a single-use reply slot. Correctness comes
//! from serialization through the channel, not from locking. The channel
//! plumbing (the awaits on the queue and on the reply slot) belongs to the
//! embedding runtime; the decision the actor takes per message is here,
//! verified: advance the counter and reply with the new identifier, or, if
//! the counter is spent, stop replying and terminate rather than wrap.
//!
//! The actor's state carries a ghost trace of every identifier it has
//! replied with; [`actor_inv`], established at construction and re-established
//! by every [`serve_request`], keeps that record gapless and duplicate-free.

use vstd::prelude::*;

use crate::counter::next_counter_id;

verus! {

/// The actor task's private state: its counter, and the ghost record of
/// every identifier it has replied with so far.
pub struct ActorState {
    pub count: u32,
    pub trace: Ghost<Seq<u32>>,
}

/// The actor's invariant: the identifiers replied with so far are exactly
/// `1, 2, ..., count` — contiguous, in order, with no duplicates.
pub open spec fn actor_inv(s: ActorState) -> bool {
    &&& s.trace@.len() == s.count
    &&& forall|i: int| 0 <= i < s.count ==> s.trace@[i] == i + 1
}

/// A fresh actor state: counter seeded at 0, nothing replied with yet. The
/// first identifier the actor hands out is 1.
pub fn new_actor_state() -> (s: ActorState)
    ensures
        s.count == 0,
        s.trace@ == Seq::<u32>::empty(),
        actor_inv(s),
{
    ActorState { count: 0, trace: Ghost(Seq::empty()) }
}

/// Serve one request: the identifier to reply with, or `None` once the
/// counter is spent — the signal for the actor to terminate instead of
/// wrapping around.
pub fn serve_request(state: &mut ActorState) -> (reply: Option<u32>)
    requires
        actor_inv(*old(state)),
    ensures
        actor_inv(*final(state)),
        (reply matches Some(id) ==> id == old(state).count + 1 && final(state).count == id
            && final(state).trace@ == old(state).trace@.push(id)),
        reply is None ==> *final(state) == *old(state) && old(state).count == u32::MAX,
        reply is Some <==> old(state).count < u32::MAX,
{
    match next_counter_id(&mut state.count) {
        Ok(id) => {
            state.trace = Ghost(state.trace@.push(id));
            Some(id)
        },
        Err(_) => None,
    }
}

/// The actor's record stays distinct: in every state the invariant allows —
/// that is, after any number of served requests, however the concurrent
/// callers were interleaved on the channel — the identifiers replied with
/// form the contiguous range `1..=count`, with no duplicates and no gaps.
pub proof fn lemma_actor_trace_distinct(s: ActorState)
    requires
        actor_inv(s),
    ensures
        s.trace@.len() == s.count,
        forall|i: int| 0 <= i < s.count ==> s.trace@[i] == i + 1,
        forall|i: int, j: int| 0 <= i < j < s.count ==> s.trace@[i] != s.trace@[j],
{
}

} // verus!
