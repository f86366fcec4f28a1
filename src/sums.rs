//! Sums over sequences of integers, used to state conservation of weight.
use vstd::prelude::*;

verus! {

/// The sum of all elements of `s`.
pub open spec fn sum_of(s: Seq<int>) -> int
    decreases s.len(),
{
    if s.len() == 0 {
        0
    } else {
        sum_of(s.drop_last()) + s.last()
    }
}

/// Appending an element adds it to the sum.
pub proof fn lemma_sum_push(s: Seq<int>, x: int)
    ensures
        sum_of(s.push(x)) == sum_of(s) + x,
{
    assert(s.push(x).drop_last() =~= s);
}

/// Replacing one element changes the sum by the difference.
pub proof fn lemma_sum_update(s: Seq<int>, i: int, x: int)
    requires
        0 <= i < s.len(),
    ensures
        sum_of(s.update(i, x)) == sum_of(s) - s[i] + x,
    decreases s.len(),
{
    let t = s.update(i, x);
    if i == s.len() - 1 {
        assert(t.drop_last() =~= s.drop_last());
    } else {
        assert(t.drop_last() =~= s.drop_last().update(i, x));
        lemma_sum_update(s.drop_last(), i, x);
    }
}

/// With no negative element, the sum bounds each element and each pair of elements.
pub proof fn lemma_sum_bounds(s: Seq<int>, i: int, j: int)
    requires
        forall|k: int| 0 <= k < s.len() ==> s[k] >= 0,
        0 <= i < s.len(),
        0 <= j < s.len(),
    ensures
        sum_of(s) >= 0,
        s[i] <= sum_of(s),
        i != j ==> s[i] + s[j] <= sum_of(s),
    decreases s.len(),
{
    lemma_sum_nonneg(s);
    let n = s.len() - 1;
    lemma_sum_nonneg(s.drop_last());
    if i < n && j < n {
        lemma_sum_bounds(s.drop_last(), i, j);
    } else if i < n {
        lemma_sum_bounds(s.drop_last(), i, i);
    } else if j < n {
        lemma_sum_bounds(s.drop_last(), j, j);
    }
}

/// With no negative element, the sum is not negative.
pub proof fn lemma_sum_nonneg(s: Seq<int>)
    requires
        forall|k: int| 0 <= k < s.len() ==> s[k] >= 0,
    ensures
        sum_of(s) >= 0,
    decreases s.len(),
{
    if s.len() > 0 {
        lemma_sum_nonneg(s.drop_last());
    }
}

} // verus!
