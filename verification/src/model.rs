//! The mathematical model shared by the scalar and the vector path: the
//! fixed inputs every kernel pair works on, and the formulas their
//! results are specified against.

use vstd::prelude::*;

verus! {

/// First fixed 4-element operand of the elementwise kernels.
pub open spec fn input_a() -> Seq<i32> {
    seq![12i32, 200i32, 54i32, 982i32]
}

/// Second fixed 4-element operand of the elementwise kernels.
pub open spec fn input_b() -> Seq<i32> {
    seq![91i32, 42i32, 65i32, 21i32]
}

/// Fixed 8-element input of the max/min kernels.
pub open spec fn extremes_input() -> Seq<i32> {
    seq![30i32, 291i32, 1i32, 20i32, 40i32, 202i32, 329i32, 0i32]
}

/// Fixed 4x4 matrix multiplied with itself by the matrix kernels.
pub open spec fn matrix_input() -> Seq<Seq<i32>> {
    seq![
        seq![1i32, 2i32, 3i32, 4i32],
        seq![5i32, 6i32, 7i32, 8i32],
        seq![9i32, 10i32, 11i32, 12i32],
        seq![13i32, 14i32, 15i32, 16i32],
    ]
}

/// First fixed 4-dimensional point of the distance kernels.
pub open spec fn point_one() -> Seq<i32> {
    seq![1i32, 2i32, 3i32, 4i32]
}

/// Second fixed 4-dimensional point of the distance kernels.
pub open spec fn point_two() -> Seq<i32> {
    seq![5i32, 6i32, 7i32, 8i32]
}

/// Partial inner product of row `i` of `a` with column `j` of `b`,
/// over the first `k` terms.
pub open spec fn mat_entry_prefix(a: Seq<Seq<i32>>, b: Seq<Seq<i32>>, i: int, j: int, k: int) -> int
    decreases k,
{
    if k <= 0 {
        0
    } else {
        mat_entry_prefix(a, b, i, j, k - 1) + a[i][k - 1] * b[k - 1][j]
    }
}

/// Entry `(i, j)` of the product of two 4x4 matrices:
/// the sum over `k` of `a[i][k] * b[k][j]`.
pub open spec fn mat_entry(a: Seq<Seq<i32>>, b: Seq<Seq<i32>>, i: int, j: int) -> int {
    mat_entry_prefix(a, b, i, j, 4)
}

/// Sum of the squared coordinate differences of `p` and `q` over the
/// first `k` coordinates.
pub open spec fn squared_distance_prefix(p: Seq<i32>, q: Seq<i32>, k: int) -> int
    decreases k,
{
    if k <= 0 {
        0
    } else {
        squared_distance_prefix(p, q, k - 1) + (q[k - 1] - p[k - 1]) * (q[k - 1] - p[k - 1])
    }
}

/// Squared Euclidean distance between two points of equal dimension.
pub open spec fn squared_distance(p: Seq<i32>, q: Seq<i32>) -> int {
    squared_distance_prefix(p, q, p.len() as int)
}

/// A 4-lane sequence holding, lane by lane, the products of row `i` of
/// `a` with column `j` of `b` sums to the matrix-product entry `(i, j)`:
/// the lane-multiply-then-reduce route computes the same number as the
/// scalar accumulation.
pub proof fn lemma_seq_sum_as_mat_entry(
    s: Seq<i32>,
    a: Seq<Seq<i32>>,
    b: Seq<Seq<i32>>,
    i: int,
    j: int,
)
    requires
        s.len() == 4,
        forall|k: int| 0 <= k < 4 ==> s[k] == a[i][k] * b[k][j],
    ensures
        crate::reduce::seq_sum(s) == mat_entry(a, b, i, j),
{
    let s3 = s.drop_last();
    let s2 = s3.drop_last();
    let s1 = s2.drop_last();
    let s0 = s1.drop_last();
    assert(s0.len() == 0);
    assert(crate::reduce::seq_sum(s0) == 0);
    assert(crate::reduce::seq_sum(s1) == s[0]);
    assert(crate::reduce::seq_sum(s2) == s[0] + s[1]);
    assert(crate::reduce::seq_sum(s3) == s[0] + s[1] + s[2]);
    assert(crate::reduce::seq_sum(s) == s[0] + s[1] + s[2] + s[3]);
    assert(mat_entry_prefix(a, b, i, j, 0) == 0);
    assert(mat_entry_prefix(a, b, i, j, 1) == a[i][0] * b[0][j]);
    assert(mat_entry_prefix(a, b, i, j, 2) == mat_entry_prefix(a, b, i, j, 1) + a[i][1] * b[1][j]);
    assert(mat_entry_prefix(a, b, i, j, 3) == mat_entry_prefix(a, b, i, j, 2) + a[i][2] * b[2][j]);
    assert(mat_entry_prefix(a, b, i, j, 4) == mat_entry_prefix(a, b, i, j, 3) + a[i][3] * b[3][j]);
}

/// A 4-lane sequence holding, lane by lane, the squared coordinate
/// differences of two 4-dimensional points sums to their squared
/// distance: the subtract-square-reduce route computes the same number
/// as the scalar accumulation.
pub proof fn lemma_seq_sum_as_squared_distance(s: Seq<i32>, p: Seq<i32>, q: Seq<i32>)
    requires
        p.len() == 4,
        s.len() == 4,
        forall|k: int| 0 <= k < 4 ==> s[k] == (q[k] - p[k]) * (q[k] - p[k]),
    ensures
        crate::reduce::seq_sum(s) == squared_distance(p, q),
{
    let s3 = s.drop_last();
    let s2 = s3.drop_last();
    let s1 = s2.drop_last();
    let s0 = s1.drop_last();
    assert(s0.len() == 0);
    assert(crate::reduce::seq_sum(s0) == 0);
    assert(crate::reduce::seq_sum(s1) == s[0]);
    assert(crate::reduce::seq_sum(s2) == s[0] + s[1]);
    assert(crate::reduce::seq_sum(s3) == s[0] + s[1] + s[2]);
    assert(crate::reduce::seq_sum(s) == s[0] + s[1] + s[2] + s[3]);
    assert(squared_distance_prefix(p, q, 0) == 0);
    assert(squared_distance_prefix(p, q, 1) == (q[0] - p[0]) * (q[0] - p[0]));
    assert(squared_distance_prefix(p, q, 2) == squared_distance_prefix(p, q, 1) + (q[1] - p[1]) * (
    q[1] - p[1]));
    assert(squared_distance_prefix(p, q, 3) == squared_distance_prefix(p, q, 2) + (q[2] - p[2]) * (
    q[2] - p[2]));
    assert(squared_distance_prefix(p, q, 4) == squared_distance_prefix(p, q, 3) + (q[3] - p[3]) * (
    q[3] - p[3]));
}

/// Every partial sum of squared differences is non-negative, each term
/// being a square.
pub proof fn lemma_squared_distance_prefix_nonneg(p: Seq<i32>, q: Seq<i32>, k: int)
    ensures
        squared_distance_prefix(p, q, k) >= 0,
    decreases k,
{
    if k > 0 {
        lemma_squared_distance_prefix_nonneg(p, q, k - 1);
        let d = q[k - 1] - p[k - 1];
        assert(d * d >= 0) by (nonlinear_arith);
    }
}

/// The squared distance between two points is never negative.
pub proof fn lemma_squared_distance_nonneg(p: Seq<i32>, q: Seq<i32>)
    ensures
        squared_distance(p, q) >= 0,
{
    lemma_squared_distance_prefix_nonneg(p, q, p.len() as int);
}

} // verus!
