//! Strategies for handing out process-unique, monotonically increasing
//! identifiers under concurrent access.
//!
//! Every strategy implements one capability contract, [`Generator`]: ask for
//! the next identifier and either receive one or learn that the supply is
//! spent. The variants differ in where the state lives:
//!
//! - a plain checked counter owned by the caller ([`counter`]),
//! - a fixed value that never changes ([`counter::ConstantGenerator`]),
//! - a one-shot holder ([`one_shot`]),
//! - a bounded, precomputed sequence ([`sequence`]),
//! - a counter shared through a verified reader-writer lock ([`locked`]),
//! - a counter owned by a single actor task that callers reach only by
//!   message passing ([`actor`]): the per-request decision is verified here,
//!   while the channel plumbing is left to the embedding runtime.

pub mod actor;
pub mod counter;
pub mod locked;
pub mod one_shot;
pub mod sequence;

use vstd::prelude::*;

verus! {

/// The generator cannot hand out another identifier: its supply is spent
/// (one-shot or bounded variants) or its counter would overflow.
#[derive(Clone, Copy, Debug, PartialEq, Eq, Structural)]
pub struct NoMoreIds;

/// The capability every identifier-generation strategy implements.
///
/// Each implementer describes itself with three specification functions:
///
/// - [`Generator::next_step`] gives the outcome of the next call whenever the
///   handle's own state determines it: the identifier handed out and the
///   state left behind. It is `None` for strategies whose outcome depends on
///   state shared with other handles.
/// - [`Generator::next_fails`] says when the next call must fail.
/// - [`Generator::ok_rel`] is what every successful call guarantees, however
///   the shared state was interleaved.
pub trait Generator: Sized {
    /// The outcome of the next call, where the handle's state determines it:
    /// the identifier returned and the successor state.
    spec fn next_step(&self) -> Option<(u32, Self)>;

    /// Whether the next call is bound to fail.
    spec fn next_fails(&self) -> bool;

    /// What holds of any successful call: relates the state before, the
    /// state after, and the identifier handed out.
    spec fn ok_rel(pre: Self, post: Self, id: u32) -> bool;

    /// Hand out the next identifier, or report that none is left.
    fn get_unique_id(&mut self) -> (r: Result<u32, NoMoreIds>)
        ensures
            (old(self).next_step() matches Some(step) ==>
                r == Ok::<u32, NoMoreIds>(step.0) && *final(self) == step.1),
            old(self).next_fails() ==> r == Err::<u32, NoMoreIds>(NoMoreIds) && *final(self)
                == *old(self),
            (r matches Ok(id) ==> Self::ok_rel(*old(self), *final(self), id)),
    ;
}

} // verus!
