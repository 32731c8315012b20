//! In the finalizer glue function, a drop of a value whose type needs no
//! dropping does nothing, so it is replaced by a plain jump to where the drop
//! would continue.

use vstd::prelude::*;
use crate::keep_alive::{BlockView, Body, Terminator};

verus! {

/// A block after the pass: a drop of a value that needs no dropping becomes a
/// jump to the drop's target; anything else stays as it was.
pub open spec fn drop_removed(b: BlockView) -> BlockView {
    match b.terminator {
        Terminator::Drop { needs_drop, target } => if !needs_drop {
            BlockView { terminator: Terminator::Goto { target }, ..b }
        } else {
            b
        },
        _ => b,
    }
}

/// The pass that removes needless drops from the finalizer glue function.
#[derive(Clone, Copy, Debug, PartialEq, Eq, Structural)]
pub struct RemoveNoFinalizeDrops;

impl RemoveNoFinalizeDrops {
    /// Replaces, in the finalizer glue function, every drop of a value that
    /// needs no dropping by a jump to the drop's target. Any other body is
    /// left as it is.
    pub fn run_pass(&self, body: &mut Body, is_finalizer_glue_fn: bool)
        ensures
            !is_finalizer_glue_fn ==> final(body)@ == old(body)@,
            is_finalizer_glue_fn ==> final(body)@.locals == old(body)@.locals,
            is_finalizer_glue_fn ==> final(body)@.blocks.len() == old(body)@.blocks.len(),
            is_finalizer_glue_fn ==> forall|i: int|
                0 <= i < old(body)@.blocks.len() ==> #[trigger] final(body)@.blocks[i]
                    == drop_removed(old(body)@.blocks[i]),
    {
        if !is_finalizer_glue_fn {
            return;
        }
        let ghost before = body@;
        let mut i: usize = 0;
        while i < body.blocks.len()
            invariant
                body@.locals == before.locals,
                body@.blocks.len() == before.blocks.len(),
                i <= before.blocks.len(),
                forall|b: int| 0 <= b < i ==> #[trigger] body@.blocks[b] == drop_removed(before.blocks[b]),
                forall|b: int| i <= b < before.blocks.len() ==> #[trigger] body@.blocks[b] == before.blocks[b],
            decreases before.blocks.len() - i,
        {
            assert(body@.blocks[i as int] == before.blocks[i as int]);
            let ghost prev = body.blocks@;
            let ghost prev_view = body@;
            match body.blocks[i].terminator {
                Terminator::Drop { needs_drop, target } => {
                    if !needs_drop {
                        body.blocks[i].terminator = Terminator::Goto { target };
                    }
                },
                _ => {},
            }
            assert(body@.blocks[i as int] == drop_removed(before.blocks[i as int]));
            assert forall|b: int| 0 <= b < i implies #[trigger] body@.blocks[b] == drop_removed(
                before.blocks[b],
            ) by {
                assert(body.blocks@[b] == prev[b]);
                assert(prev_view.blocks[b] == drop_removed(before.blocks[b]));
            }
            assert forall|b: int| i < b < before.blocks.len() implies #[trigger] body@.blocks[b]
                == before.blocks[b] by {
                assert(body.blocks@[b] == prev[b]);
                assert(prev_view.blocks[b] == before.blocks[b]);
            }
            i = i + 1;
        }
    }
}

} // verus!
