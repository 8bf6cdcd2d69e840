//! A bounded supply: identifiers handed out in order from a precomputed
//! sequence, with exhaustion once the sequence ends.

use vstd::prelude::*;

use crate::Generator;
use crate::NoMoreIds;

verus! {

/// A generator backed by a precomputed, bounded sequence of identifiers.
pub struct IteratorGenerator {
    /// The full supply; `ids[pos..]` is what is still to be handed out.
    pub ids: Vec<u32>,
    /// How many identifiers have been handed out already.
    pub pos: usize,
}

impl Generator for IteratorGenerator {
    open spec fn next_step(&self) -> Option<(u32, IteratorGenerator)> {
        if self.pos < self.ids@.len() {
            Some(
                (
                    self.ids@[self.pos as int],
                    IteratorGenerator { ids: self.ids, pos: (self.pos + 1) as usize },
                ),
            )
        } else {
            None
        }
    }

    open spec fn next_fails(&self) -> bool {
        self.pos >= self.ids@.len()
    }

    open spec fn ok_rel(pre: Self, post: Self, id: u32) -> bool {
        &&& pre.pos < pre.ids@.len()
        &&& id == pre.ids@[pre.pos as int]
        &&& post.ids@ == pre.ids@
        &&& post.pos == pre.pos + 1
    }

    fn get_unique_id(&mut self) -> (r: Result<u32, NoMoreIds>) {
        if self.pos < self.ids.len() {
            let id = self.ids[self.pos];
            self.pos = self.pos + 1;
            Ok(id)
        } else {
            Err(NoMoreIds)
        }
    }
}

/// A generator that hands out the given identifiers in order. The supply is
/// bounded: once all of `ids` are handed out, every further call reports
/// exhaustion.
pub fn create_iterator_id_generator(ids: Vec<u32>) -> (g: IteratorGenerator)
    ensures
        g.ids@ == ids@,
        g.pos == 0,
{
    IteratorGenerator { ids, pos: 0 }
}

/// The identifiers of a strictly increasing supply come out strictly
/// increasing: any two back-to-back successful calls hand out a larger
/// identifier the second time. (A supply that is not strictly increasing
/// hands out whatever it holds, in order, so no such law can hold of it.)
pub open spec fn strictly_increasing(s: Seq<u32>) -> bool {
    forall|i: int, j: int| 0 <= i < j < s.len() ==> s[i] < s[j]
}

/// Two back-to-back successful calls on a strictly increasing supply hand
/// out strictly increasing identifiers.
pub proof fn lemma_sequence_ids_increase(
    g: IteratorGenerator,
    id1: u32,
    g1: IteratorGenerator,
    id2: u32,
    g2: IteratorGenerator,
)
    requires
        g.ids@.len() <= usize::MAX,
        strictly_increasing(g.ids@),
        g.next_step() == Some((id1, g1)),
        g1.next_step() == Some((id2, g2)),
    ensures
        id2 > id1,
{
    assert(g1 == (IteratorGenerator { ids: g.ids, pos: (g.pos + 1) as usize }));
    assert(id1 == g.ids@[g.pos as int]);
    assert(id2 == g.ids@[g.pos + 1]);
    assert(g.ids@[g.pos as int] < g.ids@[g.pos + 1]);
}

} // verus!
