//! The equivalence laws of the suite: for every kernel pair, any scalar
//! result and any vector result that meet their contracts are
//! numerically equal, up to the documented shape differences.

use vstd::prelude::*;

verus! {

use crate::lanes::LaneVec;
use crate::model::extremes_input;
use crate::model::input_a;
use crate::model::input_b;
use crate::model::mat_entry;
use crate::model::matrix_input;
use crate::model::point_one;
use crate::model::point_two;
use crate::model::squared_distance;
use crate::reduce::seq_max;
use crate::reduce::seq_min;
use crate::roots::lemma_int_sqrt_unique;

/// Law: the sum kernels agree. The vector result carries the scalar sum
/// replicated over its four lanes, the documented shape difference.
pub proof fn lemma_sum_pair_agrees(s: i32, v: Seq<i32>)
    requires
        s == 15 + 40,
        v.len() == 4,
        forall|i: int| 0 <= i < 4 ==> v[i] == 15 + 40,
    ensures
        forall|i: int| 0 <= i < 4 ==> v[i] == s,
{
}

/// Law: the elementwise-addition kernels agree lane for lane.
pub proof fn lemma_dot_vector_pair_agrees(s: Seq<i32>, v: Seq<i32>)
    requires
        s.len() == 4,
        forall|i: int| 0 <= i < 4 ==> s[i] == input_a()[i] + input_b()[i],
        v.len() == 4,
        forall|i: int| 0 <= i < 4 ==> v[i] == input_a()[i] + input_b()[i],
    ensures
        s == v,
{
    assert(s =~= v);
}

/// Law: the elementwise-arithmetic kernels agree, result for result and
/// lane for lane, in the shared order sum, difference, product.
pub proof fn lemma_array_actions_pair_agrees(
    s_add: Seq<i32>,
    s_sub: Seq<i32>,
    s_mul: Seq<i32>,
    v_add: Seq<i32>,
    v_sub: Seq<i32>,
    v_mul: Seq<i32>,
)
    requires
        s_add.len() == 4 && v_add.len() == 4,
        s_sub.len() == 4 && v_sub.len() == 4,
        s_mul.len() == 4 && v_mul.len() == 4,
        forall|i: int| 0 <= i < 4 ==> s_add[i] == input_a()[i] + input_b()[i],
        forall|i: int| 0 <= i < 4 ==> s_sub[i] == input_a()[i] - input_b()[i],
        forall|i: int| 0 <= i < 4 ==> s_mul[i] == input_a()[i] * input_b()[i],
        forall|i: int| 0 <= i < 4 ==> v_add[i] == input_a()[i] + input_b()[i],
        forall|i: int| 0 <= i < 4 ==> v_sub[i] == input_a()[i] - input_b()[i],
        forall|i: int| 0 <= i < 4 ==> v_mul[i] == input_a()[i] * input_b()[i],
    ensures
        s_add == v_add,
        s_sub == v_sub,
        s_mul == v_mul,
{
    assert(s_add =~= v_add);
    assert(s_sub =~= v_sub);
    assert(s_mul =~= v_mul);
}

/// Law: the max/min kernels agree: both return the maximum and the
/// minimum of the fixed input, in that order.
pub proof fn lemma_max_min_pair_agrees(s: Seq<i32>, v: Seq<i32>)
    requires
        s.len() == 2,
        s[0] == seq_max(extremes_input()),
        s[1] == seq_min(extremes_input()),
        v.len() == 2,
        v[0] == seq_max(extremes_input()),
        v[1] == seq_min(extremes_input()),
    ensures
        s == v,
{
    assert(s =~= v);
}

/// Law: the matrix kernels agree entry for entry: both produce the
/// product-matrix entries, the scalar path as rows of integers, the
/// vector path as rows of 4-lane vectors.
pub proof fn lemma_matrix_pair_agrees(s: [[i32; 4]; 4], v: [LaneVec<4>; 4])
    requires
        forall|i: int, j: int|
            0 <= i < 4 && 0 <= j < 4 ==> #[trigger] s@[i]@[j] == mat_entry(
                matrix_input(),
                matrix_input(),
                i,
                j,
            ),
        forall|i: int, j: int|
            0 <= i < 4 && 0 <= j < 4 ==> #[trigger] v@[i]@[j] == mat_entry(
                matrix_input(),
                matrix_input(),
                i,
                j,
            ),
    ensures
        forall|i: int, j: int| 0 <= i < 4 && 0 <= j < 4 ==> #[trigger] s@[i]@[j] == v@[i]@[j],
{
}

/// Law: the Euclidean-distance kernels agree: the floor square root of
/// the fixed squared distance is unique, so both paths return it.
pub proof fn lemma_euclidean_pair_agrees(s: i32, v: i32)
    requires
        0 <= s,
        s * s <= squared_distance(point_one(), point_two()) < (s + 1) * (s + 1),
        0 <= v,
        v * v <= squared_distance(point_one(), point_two()) < (v + 1) * (v + 1),
    ensures
        s == v,
{
    lemma_int_sqrt_unique(squared_distance(point_one(), point_two()), s as int, v as int);
}

} // verus!
