//! A one-shot holder: the first call hands out the held identifier, every
//! later call reports exhaustion.

use vstd::prelude::*;

use crate::Generator;
use crate::NoMoreIds;

verus! {

/// An `Option<u32>` is a one-shot generator: `Some(id)` holds exactly one
/// identifier still to be handed out, `None` is spent.
impl Generator for Option<u32> {
    open spec fn next_step(&self) -> Option<(u32, Option<u32>)> {
        match *self {
            Some(id) => Some((id, None)),
            None => None,
        }
    }

    open spec fn next_fails(&self) -> bool {
        *self is None
    }

    open spec fn ok_rel(pre: Self, post: Self, id: u32) -> bool {
        pre == Some(id) && post == None::<u32>
    }

    fn get_unique_id(&mut self) -> (r: Result<u32, NoMoreIds>) {
        let held = *self;
        *self = None;
        match held {
            Some(id) => Ok(id),
            None => Err(NoMoreIds),
        }
    }
}

/// One-shot exhaustion: a successful call hands out exactly the held
/// identifier and leaves the holder spent, so every subsequent call fails —
/// and, failing calls leaving the state unchanged, keeps failing forever.
pub proof fn lemma_one_shot(g: Option<u32>, id: u32, g1: Option<u32>)
    requires
        g.next_step() == Some((id, g1)),
    ensures
        g == Some(id),
        g1.next_fails(),
        g1.next_step() is None,
{
}

} // verus!
