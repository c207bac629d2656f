//! Batch-level laws of the compositor.

use vstd::prelude::*;
use crate::descriptor::Transform;
use crate::kernel::composed_batch;

verus! {

/// Law: per-element determinism.  What a batch holds at a position depends
/// only on the descriptor at that position — never on the batch's size, on
/// the position, or on the other descriptors.
pub proof fn lemma_per_element_determinism(
    ts1: Seq<Transform>,
    ts2: Seq<Transform>,
    i: int,
    j: int,
)
    requires
        0 <= i < ts1.len(),
        0 <= j < ts2.len(),
        ts1[i] == ts2[j],
    ensures
        composed_batch(ts1)[i] == composed_batch(ts2)[j],
{
}

/// The batch reordered by `perm`: element `k` of the result is element
/// `perm[k]` of `ts`.
pub open spec fn reindexed(ts: Seq<Transform>, perm: Seq<int>) -> Seq<Transform> {
    Seq::new(perm.len(), |k: int| ts[perm[k]])
}

/// Law: independence under permutation.  Permuting the descriptors of a
/// batch permutes the composed matrices the same way and changes nothing
/// else.
pub proof fn lemma_permutation_independence(ts: Seq<Transform>, perm: Seq<int>)
    requires
        perm.len() == ts.len(),
        forall|k: int| 0 <= k < perm.len() ==> 0 <= #[trigger] perm[k] < ts.len(),
        forall|k1: int, k2: int| 0 <= k1 < k2 < perm.len() ==> perm[k1] != perm[k2],
    ensures
        composed_batch(reindexed(ts, perm)).len() == ts.len(),
        forall|k: int| 0 <= k < ts.len()
            ==> #[trigger] composed_batch(reindexed(ts, perm))[k] == composed_batch(ts)[perm[k]],
{
}

} // verus!
