//! Vector path: the same six kernels restated on top of the fixed-width
//! lane-vector abstraction, the way a hardware SIMD implementation
//! would compute them. Each kernel's contract matches its scalar
//! counterpart's, up to the documented shape differences.

use vstd::prelude::*;

verus! {

broadcast use vstd::array::group_array_axioms;

use crate::lanes::LaneVec;
use crate::model::extremes_input;
use crate::model::input_a;
use crate::model::input_b;
use crate::model::lemma_seq_sum_as_mat_entry;
use crate::model::lemma_seq_sum_as_squared_distance;
use crate::model::mat_entry;
use crate::model::matrix_input;
use crate::model::point_one;
use crate::model::point_two;
use crate::model::squared_distance;
use crate::reduce::lemma_seq_sum_bounds;
use crate::reduce::seq_max;
use crate::reduce::seq_min;
use crate::roots::int_sqrt;

/// Vector sum kernel: broadcasts the two fixed scalars over four lanes
/// and adds them lanewise. Every lane of the result carries the scalar
/// sum; the replication is the documented shape difference from the
/// scalar kernel.
pub fn simd_sum() -> (r: LaneVec<4>)
    ensures
        r@.len() == 4,
        forall|i: int| 0 <= i < 4 ==> r@[i] == 15 + 40,
{
    let x: LaneVec<4> = LaneVec::broadcast(15);
    let y: LaneVec<4> = LaneVec::from_elements([40;4]);
    x.add(&y)
}

/// Vector elementwise-addition kernel on the two fixed 4-element
/// operands, the lane-vector counterpart of the scalar kernel of the
/// same inner-product name.
pub fn simd_dot_vector() -> (r: LaneVec<4>)
    ensures
        r@.len() == 4,
        forall|i: int| 0 <= i < 4 ==> r@[i] == input_a()[i] + input_b()[i],
{
    let a: LaneVec<4> = LaneVec::from_elements([12, 200, 54, 982]);
    let b: LaneVec<4> = LaneVec::from_elements([91, 42, 65, 21]);
    proof {
        assert(a@ =~= input_a());
        assert(b@ =~= input_b());
    }
    a.add(&b)
}

/// Vector elementwise-arithmetic kernel: lanewise sum, difference and
/// product of the two fixed 4-element operands, in the same order as
/// the scalar kernel.
pub fn simd_array_actions() -> (r: [LaneVec<4>; 3])
    ensures
        r@.len() == 3,
        forall|i: int| 0 <= i < 4 ==> r@[0]@[i] == input_a()[i] + input_b()[i],
        forall|i: int| 0 <= i < 4 ==> r@[1]@[i] == input_a()[i] - input_b()[i],
        forall|i: int| 0 <= i < 4 ==> r@[2]@[i] == input_a()[i] * input_b()[i],
{
    let a: LaneVec<4> = LaneVec::from_elements([12, 200, 54, 982]);
    let b: LaneVec<4> = LaneVec::from_elements([91, 42, 65, 21]);
    proof {
        assert(a@ =~= input_a());
        assert(b@ =~= input_b());
    }
    let add_arr = a.add(&b);
    let sub_arr = a.subtract(&b);
    proof {
        assert forall|t: int|
            0 <= t < 4 implies i32::MIN <= #[trigger] (a@[t] * b@[t]) <= i32::MAX by {
            if t == 0 {
                assert(a@[0] * b@[0] == 12 * 91);
            } else if t == 1 {
                assert(a@[1] * b@[1] == 200 * 42);
            } else if t == 2 {
                assert(a@[2] * b@[2] == 54 * 65);
            } else {
                assert(a@[3] * b@[3] == 982 * 21);
            }
        }
    }
    let xly_arr = a.multiply(&b);
    [add_arr, sub_arr, xly_arr]
}

/// Vector max/min kernel: reduces the fixed 8-lane input horizontally
/// and packs maximum and minimum, in that order, into a 2-lane vector.
pub fn simd_max_min() -> (r: LaneVec<2>)
    ensures
        r@.len() == 2,
        r@[0] == seq_max(extremes_input()),
        r@[1] == seq_min(extremes_input()),
{
    let array: LaneVec<8> = LaneVec::from_elements([30, 291, 1, 20, 40, 202, 329, 0]);
    proof {
        assert(array@ =~= extremes_input());
    }
    let max: i32 = array.reduce_max();
    let min: i32 = array.reduce_min();
    LaneVec::from_elements([max, min])
}

/// Vector matrix kernel: each row of the fixed 4x4 matrix is a 4-lane
/// vector; entry `(i, j)` of the result is row `i` lane-multiplied with
/// the gathered column `j`, then reduced by a horizontal sum - the same
/// number the scalar triple loop accumulates.
pub fn simd_matrix_multiplication() -> (r: [LaneVec<4>; 4])
    ensures
        r@.len() == 4,
        forall|i: int, j: int|
            0 <= i < 4 && 0 <= j < 4 ==> #[trigger] r@[i]@[j] == mat_entry(
                matrix_input(),
                matrix_input(),
                i,
                j,
            ),
{
    let matrix: [LaneVec<4>; 4] = [
        LaneVec::from_elements([1, 2, 3, 4]),
        LaneVec::from_elements([5, 6, 7, 8]),
        LaneVec::from_elements([9, 10, 11, 12]),
        LaneVec::from_elements([13, 14, 15, 16]),
    ];
    let matrix2: [LaneVec<4>; 4] = [
        LaneVec::from_elements([1, 2, 3, 4]),
        LaneVec::from_elements([5, 6, 7, 8]),
        LaneVec::from_elements([9, 10, 11, 12]),
        LaneVec::from_elements([13, 14, 15, 16]),
    ];
    proof {
        assert(forall|x: int, y: int|
            0 <= x < 4 && 0 <= y < 4 ==> #[trigger] matrix@[x]@[y] == matrix_input()[x][y]);
        assert(forall|x: int, y: int|
            0 <= x < 4 && 0 <= y < 4 ==> #[trigger] matrix2@[x]@[y] == matrix_input()[x][y]);
    }
    let mut result: [LaneVec<4>; 4] = [LaneVec::broadcast(0); 4];
    let mut i: usize = 0;
    while i < 4
        invariant
            i <= 4,
            forall|x: int, y: int|
                0 <= x < 4 && 0 <= y < 4 ==> #[trigger] matrix@[x]@[y] == matrix_input()[x][y],
            forall|x: int, y: int|
                0 <= x < 4 && 0 <= y < 4 ==> #[trigger] matrix2@[x]@[y] == matrix_input()[x][y],
            forall|x: int, y: int|
                0 <= x < i && 0 <= y < 4 ==> #[trigger] result@[x]@[y] == mat_entry(
                    matrix_input(),
                    matrix_input(),
                    x,
                    y,
                ),
        decreases 4 - i,
    {
        let row = matrix[i];
        let mut entries: [i32; 4] = [0; 4];
        let mut j: usize = 0;
        while j < 4
            invariant
                i < 4,
                j <= 4,
                forall|t: int| 0 <= t < 4 ==> #[trigger] row@[t] == matrix_input()[i as int][t],
                forall|x: int, y: int|
                    0 <= x < 4 && 0 <= y < 4 ==> #[trigger] matrix2@[x]@[y] == matrix_input()[x][y],
                entries@.len() == 4,
                forall|y: int|
                    0 <= y < j ==> #[trigger] entries@[y] == mat_entry(
                        matrix_input(),
                        matrix_input(),
                        i as int,
                        y,
                    ),
            decreases 4 - j,
        {
            let col: LaneVec<4> = LaneVec::from_elements(
                [matrix2[0].get(j), matrix2[1].get(j), matrix2[2].get(j), matrix2[3].get(j)],
            );
            proof {
                assert(forall|t: int|
                    0 <= t < 4 ==> #[trigger] col@[t] == matrix_input()[t][j as int]);
                assert forall|t: int|
                    0 <= t < 4 implies i32::MIN <= #[trigger] row@[t] * col@[t] <= i32::MAX by {
                    let av = row@[t] as int;
                    let bv = col@[t] as int;
                    assert(1 <= av <= 16);
                    assert(1 <= bv <= 16);
                    assert(1 <= av * bv <= 256) by (nonlinear_arith)
                        requires
                            1 <= av <= 16,
                            1 <= bv <= 16,
                    ;
                }
            }
            let product = row.multiply(&col);
            proof {
                assert forall|t: int| 0 <= t < 4 implies 1 <= #[trigger] product@[t] <= 256 by {
                    let av = row@[t] as int;
                    let bv = col@[t] as int;
                    assert(1 <= av <= 16);
                    assert(1 <= bv <= 16);
                    assert(1 <= av * bv <= 256) by (nonlinear_arith)
                        requires
                            1 <= av <= 16,
                            1 <= bv <= 16,
                    ;
                }
                lemma_seq_sum_bounds(product@, 1, 256);
                lemma_seq_sum_as_mat_entry(
                    product@,
                    matrix_input(),
                    matrix_input(),
                    i as int,
                    j as int,
                );
            }
            entries[j] = product.reduce_sum();
            j = j + 1;
        }
        result[i] = LaneVec::from_elements(entries);
        i = i + 1;
    }
    result
}

/// Vector Euclidean-distance kernel: subtracts the two fixed 4-lane
/// points, squares the difference lanewise, reduces by a horizontal sum
/// and takes the integer square root - the same number as the scalar
/// accumulation. The result is never negative.
pub fn simd_euclidean_distance() -> (r: i32)
    ensures
        0 <= r,
        r * r <= squared_distance(point_one(), point_two()),
        squared_distance(point_one(), point_two()) < (r + 1) * (r + 1),
{
    let p1: LaneVec<4> = LaneVec::from_elements([1, 2, 3, 4]);
    let p2: LaneVec<4> = LaneVec::from_elements([5, 6, 7, 8]);
    proof {
        assert(p1@ =~= point_one());
        assert(p2@ =~= point_two());
    }
    let temp_diff = p2.subtract(&p1);
    proof {
        assert(forall|t: int| 0 <= t < 4 ==> #[trigger] temp_diff@[t] == 4);
    }
    let distance_sqr = temp_diff.multiply(&temp_diff);
    proof {
        lemma_seq_sum_bounds(distance_sqr@, 16, 16);
        lemma_seq_sum_as_squared_distance(distance_sqr@, point_one(), point_two());
    }
    let sum = distance_sqr.reduce_sum();
    int_sqrt(sum)
}

} // verus!
