//! Facts about filtered sequences.

use vstd::prelude::*;

verus! {

/// Filtering a sequence with one more item at its end keeps the item where
/// it passes, and adds nothing where it does not.
pub proof fn lemma_filter_push<A>(items: Seq<A>, item: A, keep: spec_fn(A) -> bool)
    ensures
        items.push(item).filter(keep) == if keep(item) {
            items.filter(keep).push(item)
        } else {
            items.filter(keep)
        },
{
    reveal(Seq::filter);
    assert(items.push(item).drop_last() =~= items);
}

} // verus!
