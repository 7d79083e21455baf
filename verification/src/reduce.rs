//! Mathematical models of the horizontal reductions: sum, maximum and
//! minimum of a sequence of lanes, together with the laws that make any
//! internal combination order of a reduction yield the same result.

use vstd::prelude::*;

verus! {

/// The mathematical sum of all lanes of `s`.
pub open spec fn seq_sum(s: Seq<i32>) -> int
    decreases s.len(),
{
    if s.len() == 0 {
        0
    } else {
        seq_sum(s.drop_last()) + s.last()
    }
}

/// The largest lane of a non-empty `s`.
pub open spec fn seq_max(s: Seq<i32>) -> i32
    recommends
        s.len() >= 1,
    decreases s.len(),
{
    if s.len() <= 1 {
        s[0]
    } else {
        let m = seq_max(s.drop_last());
        if s.last() > m {
            s.last()
        } else {
            m
        }
    }
}

/// The smallest lane of a non-empty `s`.
pub open spec fn seq_min(s: Seq<i32>) -> i32
    recommends
        s.len() >= 1,
    decreases s.len(),
{
    if s.len() <= 1 {
        s[0]
    } else {
        let m = seq_min(s.drop_last());
        if s.last() < m {
            s.last()
        } else {
            m
        }
    }
}

/// Law: summing lanes is invariant to the combination order. Splitting the
/// lanes anywhere and summing the two parts separately gives the total, so
/// any binary combination tree over the lanes produces the same sum.
pub proof fn lemma_seq_sum_concat(a: Seq<i32>, b: Seq<i32>)
    ensures
        seq_sum(a + b) == seq_sum(a) + seq_sum(b),
    decreases b.len(),
{
    if b.len() == 0 {
        assert(a + b =~= a);
    } else {
        lemma_seq_sum_concat(a, b.drop_last());
        assert((a + b).drop_last() =~= a + b.drop_last());
        assert((a + b).last() == b.last());
    }
}

/// Law: taking the maximum is invariant to the combination order. The
/// maximum over any two-way split is the larger of the two parts' maxima.
pub proof fn lemma_seq_max_concat(a: Seq<i32>, b: Seq<i32>)
    requires
        a.len() >= 1,
        b.len() >= 1,
    ensures
        seq_max(a + b) == if seq_max(b) > seq_max(a) {
            seq_max(b)
        } else {
            seq_max(a)
        },
    decreases b.len(),
{
    if b.len() == 1 {
        assert((a + b).drop_last() =~= a);
        assert((a + b).last() == b[0]);
    } else {
        lemma_seq_max_concat(a, b.drop_last());
        assert((a + b).drop_last() =~= a + b.drop_last());
        assert((a + b).last() == b.last());
    }
}

/// Law: taking the minimum is invariant to the combination order. The
/// minimum over any two-way split is the smaller of the two parts' minima.
pub proof fn lemma_seq_min_concat(a: Seq<i32>, b: Seq<i32>)
    requires
        a.len() >= 1,
        b.len() >= 1,
    ensures
        seq_min(a + b) == if seq_min(b) < seq_min(a) {
            seq_min(b)
        } else {
            seq_min(a)
        },
    decreases b.len(),
{
    if b.len() == 1 {
        assert((a + b).drop_last() =~= a);
        assert((a + b).last() == b[0]);
    } else {
        lemma_seq_min_concat(a, b.drop_last());
        assert((a + b).drop_last() =~= a + b.drop_last());
        assert((a + b).last() == b.last());
    }
}

/// A sequence whose lanes all lie between `lo` and `hi` has its sum
/// between `len * lo` and `len * hi`.
pub proof fn lemma_seq_sum_bounds(s: Seq<i32>, lo: int, hi: int)
    requires
        forall|i: int| 0 <= i < s.len() ==> lo <= #[trigger] s[i] <= hi,
    ensures
        s.len() * lo <= seq_sum(s) <= s.len() * hi,
    decreases s.len(),
{
    if s.len() == 0 {
        assert(s.len() * lo == 0);
        assert(s.len() * hi == 0);
    } else {
        let d = s.drop_last();
        assert(forall|i: int| 0 <= i < d.len() ==> lo <= #[trigger] d[i] <= hi);
        lemma_seq_sum_bounds(d, lo, hi);
        assert((s.len() - 1) * lo + lo == s.len() * lo) by (nonlinear_arith);
        assert((s.len() - 1) * hi + hi == s.len() * hi) by (nonlinear_arith);
    }
}

/// The maximum of a non-empty sequence is one of its lanes and bounds
/// every lane from above.
pub proof fn lemma_seq_max_is_bound(s: Seq<i32>)
    requires
        s.len() >= 1,
    ensures
        s.contains(seq_max(s)),
        forall|i: int| 0 <= i < s.len() ==> s[i] <= seq_max(s),
    decreases s.len(),
{
    if s.len() > 1 {
        lemma_seq_max_is_bound(s.drop_last());
        assert forall|i: int| 0 <= i < s.len() implies s[i] <= seq_max(s) by {
            if i < s.len() - 1 {
                assert(s.drop_last()[i] == s[i]);
            }
        }
        if seq_max(s) == seq_max(s.drop_last()) {
            let j = choose|j: int|
                0 <= j < s.drop_last().len() && s.drop_last()[j] == seq_max(s.drop_last());
            assert(s[j] == seq_max(s));
        }
    }
}

/// The minimum of a non-empty sequence is one of its lanes and bounds
/// every lane from below.
pub proof fn lemma_seq_min_is_bound(s: Seq<i32>)
    requires
        s.len() >= 1,
    ensures
        s.contains(seq_min(s)),
        forall|i: int| 0 <= i < s.len() ==> seq_min(s) <= s[i],
    decreases s.len(),
{
    if s.len() > 1 {
        lemma_seq_min_is_bound(s.drop_last());
        assert forall|i: int| 0 <= i < s.len() implies seq_min(s) <= s[i] by {
            if i < s.len() - 1 {
                assert(s.drop_last()[i] == s[i]);
            }
        }
        if seq_min(s) == seq_min(s.drop_last()) {
            let j = choose|j: int|
                0 <= j < s.drop_last().len() && s.drop_last()[j] == seq_min(s.drop_last());
            assert(s[j] == seq_min(s));
        }
    }
}

} // verus!
