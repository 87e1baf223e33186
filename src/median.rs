//! The lower median of a sample: the element at zero-based position
//! `n / 2 - 1` of the sample sorted ascending.
use vstd::prelude::*;
use vstd::relations::sorted_by;
use vstd::seq_lib::lemma_sorted_unique;
use crate::order::{order_key, total_order_key, total_order_leq, lemma_total_order};

verus! {

/// The sample sorted ascending in the total order.
pub open spec fn sorted_copy(s: Seq<u64>) -> Seq<u64> {
    s.sort_by(total_order_leq())
}

/// The lower median of `s`, absent where the position `n / 2 - 1` does not
/// exist (fewer than two values).
pub open spec fn lower_median(s: Seq<u64>) -> Option<u64> {
    if s.len() < 2 {
        None
    } else {
        Some(sorted_copy(s)[s.len() / 2 - 1])
    }
}

/// What vstd proves of its sort, on the total order of bit patterns.
pub proof fn lemma_sorted_copy(s: Seq<u64>)
    ensures
        sorted_copy(s).to_multiset() == s.to_multiset(),
        sorted_by(sorted_copy(s), total_order_leq()),
        sorted_copy(s).len() == s.len(),
{
    lemma_total_order();
    s.lemma_sort_by_ensures(total_order_leq());
    s.to_multiset_ensures();
    sorted_copy(s).to_multiset_ensures();
}

/// The lower median depends on the sample's values alone: two samples equal
/// value by value have the same lower median, bit for bit.
pub proof fn lemma_median_deterministic(s1: Seq<u64>, s2: Seq<u64>)
    requires
        s1 =~= s2,
    ensures
        lower_median(s1) == lower_median(s2),
{
}

/// Reordering a sample leaves its lower median unchanged: it depends only on
/// which values occur, and how often.
pub proof fn lemma_median_permutation_invariant(s1: Seq<u64>, s2: Seq<u64>)
    requires
        s1.to_multiset() == s2.to_multiset(),
    ensures
        lower_median(s1) == lower_median(s2),
{
    lemma_total_order();
    lemma_sorted_copy(s1);
    lemma_sorted_copy(s2);
    lemma_sorted_unique(sorted_copy(s1), sorted_copy(s2), total_order_leq());
}

/// Relies on `slice::sort_by_key` (a stable sort): afterwards the vector holds
/// the same values, ascending by the key that `total_order_key` computes.
#[verifier::external_body]
fn sort_by_total_order(v: &mut Vec<u64>)
    ensures
        final(v)@.to_multiset() == old(v)@.to_multiset(),
        sorted_by(final(v)@, total_order_leq()),
{
    v.sort_by_key(|b| total_order_key(*b));
}

/// The lower median of the bit patterns in `nums`, read in the IEEE 754 total
/// order: the element at zero-based position `n / 2 - 1` of a sorted copy.
/// For an even length that is the lower of the two middle elements; for an
/// odd length it is the element just before the middle one. Fewer than two
/// values have no such element, and give `None`. `nums` is left as it is.
pub fn median(nums: &[u64]) -> (r: Option<u64>)
    ensures
        r == lower_median(nums@),
{
    let n = nums.len();
    if n < 2 {
        return None;
    }
    let mut sorted: Vec<u64> = Vec::with_capacity(n);
    let mut i: usize = 0;
    while i < n
        invariant
            n == nums@.len(),
            i <= n,
            sorted@ == nums@.subrange(0, i as int),
        decreases n - i,
    {
        sorted.push(nums[i]);
        i += 1;
    }
    assert(sorted@ =~= nums@);
    sort_by_total_order(&mut sorted);
    proof {
        lemma_total_order();
        lemma_sorted_copy(nums@);
        lemma_sorted_unique(sorted@, sorted_copy(nums@), total_order_leq());
    }
    Some(sorted[n / 2 - 1])
}

} // verus!
