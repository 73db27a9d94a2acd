//! Sums over sequences of unsigned quantities, used to state conservation
//! of shares and batch totals.

use vstd::prelude::*;

verus! {

/// Sum of a sequence of 64-bit quantities, as an unbounded integer.
pub open spec fn sum_u64(s: Seq<u64>) -> int
    decreases s.len(),
{
    if s.len() == 0 {
        0
    } else {
        sum_u64(s.drop_last()) + s.last()
    }
}

pub proof fn lemma_sum_u64_nonneg(s: Seq<u64>)
    ensures
        0 <= sum_u64(s),
    decreases s.len(),
{
    if s.len() > 0 {
        lemma_sum_u64_nonneg(s.drop_last());
    }
}

/// Every element is at most the sum of the whole sequence.
pub proof fn lemma_sum_u64_element(s: Seq<u64>, i: int)
    requires
        0 <= i < s.len(),
    ensures
        s[i] <= sum_u64(s),
    decreases s.len(),
{
    if i == s.len() - 1 {
        lemma_sum_u64_nonneg(s.drop_last());
    } else {
        lemma_sum_u64_element(s.drop_last(), i);
    }
}

/// Extending a prefix by one element adds that element to its sum.
pub proof fn lemma_sum_u64_extend(s: Seq<u64>, i: int)
    requires
        0 <= i < s.len(),
    ensures
        sum_u64(s.subrange(0, i + 1)) == sum_u64(s.subrange(0, i)) + s[i],
{
    let extended = s.subrange(0, i + 1);
    assert(extended.drop_last() =~= s.subrange(0, i));
}

/// A prefix never sums to more than the whole sequence.
pub proof fn lemma_sum_u64_prefix_le(s: Seq<u64>, i: int)
    requires
        0 <= i <= s.len(),
    ensures
        sum_u64(s.subrange(0, i)) <= sum_u64(s),
    decreases s.len() - i,
{
    if i == s.len() {
        assert(s.subrange(0, i) =~= s);
    } else {
        lemma_sum_u64_extend(s, i);
        lemma_sum_u64_prefix_le(s, i + 1);
    }
}

/// Replacing one element changes the sum by the difference.
pub proof fn lemma_sum_u64_update(s: Seq<u64>, i: int, v: u64)
    requires
        0 <= i < s.len(),
    ensures
        sum_u64(s.update(i, v)) == sum_u64(s) - s[i] + v,
    decreases s.len(),
{
    let updated = s.update(i, v);
    if i == s.len() - 1 {
        assert(updated.drop_last() =~= s.drop_last());
    } else {
        assert(updated.drop_last() =~= s.drop_last().update(i, v));
        lemma_sum_u64_update(s.drop_last(), i, v);
    }
}

/// Two distinct elements together never exceed the sum of the whole
/// sequence.
pub proof fn lemma_sum_u64_two_elements(s: Seq<u64>, i: int, j: int)
    requires
        0 <= i < s.len(),
        0 <= j < s.len(),
        i != j,
    ensures
        s[i] + s[j] <= sum_u64(s),
{
    let without_i = s.update(i, 0u64);
    lemma_sum_u64_update(s, i, 0u64);
    lemma_sum_u64_element(without_i, j);
}

/// Adding sequences pointwise adds their sums.
pub proof fn lemma_sum_u64_pointwise_add(pre: Seq<u64>, post: Seq<u64>, deltas: Seq<u64>)
    requires
        post.len() == pre.len(),
        deltas.len() == pre.len(),
        forall|k: int| 0 <= k < pre.len() ==> #[trigger] post[k] == pre[k] + deltas[k],
    ensures
        sum_u64(post) == sum_u64(pre) + sum_u64(deltas),
    decreases pre.len(),
{
    if pre.len() > 0 {
        lemma_sum_u64_pointwise_add(pre.drop_last(), post.drop_last(), deltas.drop_last());
    }
}

} // verus!
