//! The map keys the plugins use are totally ordered by their `Ord` impls.
use vstd::prelude::*;

verus! {

broadcast use vstd::laws_cmp::group_laws_cmp;

/// The `Ord` impls of the key types behave as the integer order.
pub proof fn lemma_keys_ordered()
    ensures
        vstd::laws_cmp::obeys_cmp::<u16>(),
        vstd::laws_cmp::obeys_cmp::<u32>(),
        vstd::laws_cmp::obeys_cmp::<i64>(),
{
}

} // verus!
