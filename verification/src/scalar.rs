//! Scalar path: reference implementations of the six kernels, written
//! with ordinary per-element loops and expressions. They define the
//! ground truth the vector path is held to.

use vstd::prelude::*;

verus! {

use crate::model::extremes_input;
use crate::model::input_a;
use crate::model::input_b;
use crate::model::mat_entry;
use crate::model::mat_entry_prefix;
use crate::model::matrix_input;
use crate::model::point_one;
use crate::model::point_two;
use crate::model::squared_distance;
use crate::model::squared_distance_prefix;
use crate::reduce::seq_max;
use crate::reduce::seq_min;
use crate::roots::int_sqrt;

/// Scalar sum kernel: adds the two fixed scalars 15 and 40.
pub fn normal_sum() -> (r: i32)
    ensures
        r == 15 + 40,
{
    let x: i32 = 15;
    let y: i32 = 40;
    x + y
}

/// Builds the two fixed 4-element operand vectors.
pub fn make_inputs() -> (r: (Vec<i32>, Vec<i32>))
    ensures
        r.0@ == input_a(),
        r.1@ == input_b(),
{
    let mut a: Vec<i32> = Vec::new();
    a.push(12);
    a.push(200);
    a.push(54);
    a.push(982);
    let mut b: Vec<i32> = Vec::new();
    b.push(91);
    b.push(42);
    b.push(65);
    b.push(21);
    proof {
        assert(a@ =~= input_a());
        assert(b@ =~= input_b());
    }
    (a, b)
}

/// Scalar elementwise-addition kernel on the two fixed 4-element
/// operands. Despite its inner-product name, carried over from the
/// suite it belongs to, this kernel adds lanes pairwise and does not
/// reduce to a scalar.
pub fn normal_dot_vector() -> (r: Vec<i32>)
    ensures
        r@.len() == 4,
        forall|i: int| 0 <= i < 4 ==> r@[i] == input_a()[i] + input_b()[i],
{
    let (a, b) = make_inputs();
    let mut c: Vec<i32> = Vec::new();
    let mut i: usize = 0;
    while i < 4
        invariant
            i <= 4,
            a@ == input_a(),
            b@ == input_b(),
            c@.len() == i,
            forall|k: int| 0 <= k < i ==> c@[k] == input_a()[k] + input_b()[k],
        decreases 4 - i,
    {
        c.push(a[i] + b[i]);
        i = i + 1;
    }
    c
}

/// Scalar elementwise-arithmetic kernel: on the two fixed 4-element
/// operands, returns their elementwise sum, difference and product,
/// in that order.
pub fn normal_array_actions() -> (r: Vec<Vec<i32>>)
    ensures
        r@.len() == 3,
        r@[0]@.len() == 4,
        r@[1]@.len() == 4,
        r@[2]@.len() == 4,
        forall|i: int| 0 <= i < 4 ==> r@[0]@[i] == input_a()[i] + input_b()[i],
        forall|i: int| 0 <= i < 4 ==> r@[1]@[i] == input_a()[i] - input_b()[i],
        forall|i: int| 0 <= i < 4 ==> r@[2]@[i] == input_a()[i] * input_b()[i],
{
    let (a, b) = make_inputs();
    let mut add_arr: Vec<i32> = Vec::new();
    let mut sub_arr: Vec<i32> = Vec::new();
    let mut xly_arr: Vec<i32> = Vec::new();
    let mut i: usize = 0;
    while i < 4
        invariant
            i <= 4,
            a@ == input_a(),
            b@ == input_b(),
            add_arr@.len() == i,
            sub_arr@.len() == i,
            xly_arr@.len() == i,
            forall|k: int| 0 <= k < i ==> add_arr@[k] == input_a()[k] + input_b()[k],
            forall|k: int| 0 <= k < i ==> sub_arr@[k] == input_a()[k] - input_b()[k],
            forall|k: int| 0 <= k < i ==> xly_arr@[k] == input_a()[k] * input_b()[k],
        decreases 4 - i,
    {
        add_arr.push(a[i] + b[i]);
        sub_arr.push(a[i] - b[i]);
        xly_arr.push(a[i] * b[i]);
        i = i + 1;
    }
    let mut r: Vec<Vec<i32>> = Vec::new();
    r.push(add_arr);
    r.push(sub_arr);
    r.push(xly_arr);
    r
}

/// Builds the fixed 8-element input of the max/min kernels.
pub fn make_extremes() -> (r: Vec<i32>)
    ensures
        r@ == extremes_input(),
{
    let mut a: Vec<i32> = Vec::new();
    a.push(30);
    a.push(291);
    a.push(1);
    a.push(20);
    a.push(40);
    a.push(202);
    a.push(329);
    a.push(0);
    proof {
        assert(a@ =~= extremes_input());
    }
    a
}

/// Scalar max/min kernel: scans the fixed 8-element input and returns
/// its maximum and its minimum, in that order.
pub fn normal_max_min() -> (r: [i32; 2])
    ensures
        r@.len() == 2,
        r@[0] == seq_max(extremes_input()),
        r@[1] == seq_min(extremes_input()),
{
    let array = make_extremes();
    let mut max: i32 = array[0];
    let mut min: i32 = array[0];
    let mut i: usize = 1;
    while i < 8
        invariant
            1 <= i <= 8,
            array@ == extremes_input(),
            max == seq_max(array@.take(i as int)),
            min == seq_min(array@.take(i as int)),
        decreases 8 - i,
    {
        proof {
            assert(array@.take(i as int + 1).drop_last() =~= array@.take(i as int));
            assert(array@.take(i as int + 1).last() == array@[i as int]);
        }
        if array[i] > max {
            max = array[i];
        }
        if array[i] < min {
            min = array[i];
        }
        i = i + 1;
    }
    proof {
        assert(array@.take(8) =~= array@);
    }
    [max, min]
}

/// Builds the fixed 4x4 matrix the matrix kernels multiply with itself.
pub fn make_matrix() -> (r: [[i32; 4]; 4])
    ensures
        forall|i: int, j: int|
            0 <= i < 4 && 0 <= j < 4 ==> #[trigger] r@[i]@[j] == matrix_input()[i][j],
{
    let m: [[i32; 4]; 4] = [
        [1, 2, 3, 4],
        [5, 6, 7, 8],
        [9, 10, 11, 12],
        [13, 14, 15, 16],
    ];
    m
}

/// Scalar matrix kernel: multiplies the fixed 4x4 matrix with itself by
/// the standard triple loop; entry `(i, j)` of the result is the sum
/// over `k` of `a[i][k] * b[k][j]`.
pub fn normal_matrix_multiplication() -> (r: [[i32; 4]; 4])
    ensures
        forall|i: int, j: int|
            0 <= i < 4 && 0 <= j < 4 ==> #[trigger] r@[i]@[j] == mat_entry(
                matrix_input(),
                matrix_input(),
                i,
                j,
            ),
{
    let matrix = make_matrix();
    let matrix2 = make_matrix();
    let mut dot_product: [[i32; 4]; 4] = [[0; 4]; 4];
    let mut i: usize = 0;
    while i < 4
        invariant
            i <= 4,
            forall|x: int, y: int|
                0 <= x < 4 && 0 <= y < 4 ==> #[trigger] matrix@[x]@[y] == matrix_input()[x][y],
            forall|x: int, y: int|
                0 <= x < 4 && 0 <= y < 4 ==> #[trigger] matrix2@[x]@[y] == matrix_input()[x][y],
            forall|x: int, y: int|
                0 <= x < i && 0 <= y < 4 ==> #[trigger] dot_product@[x]@[y] == mat_entry(
                    matrix_input(),
                    matrix_input(),
                    x,
                    y,
                ),
        decreases 4 - i,
    {
        let mut j: usize = 0;
        while j < 4
            invariant
                i < 4,
                j <= 4,
                forall|x: int, y: int|
                    0 <= x < 4 && 0 <= y < 4 ==> #[trigger] matrix@[x]@[y] == matrix_input()[x][y],
                forall|x: int, y: int|
                    0 <= x < 4 && 0 <= y < 4 ==> #[trigger] matrix2@[x]@[y] == matrix_input()[x][y],
                forall|x: int, y: int|
                    0 <= x < i && 0 <= y < 4 ==> #[trigger] dot_product@[x]@[y] == mat_entry(
                        matrix_input(),
                        matrix_input(),
                        x,
                        y,
                    ),
                forall|y: int|
                    0 <= y < j ==> #[trigger] dot_product@[i as int]@[y] == mat_entry(
                        matrix_input(),
                        matrix_input(),
                        i as int,
                        y,
                    ),
            decreases 4 - j,
        {
            let mut sum: i32 = 0;
            let mut k: usize = 0;
            while k < 4
                invariant
                    i < 4,
                    j < 4,
                    k <= 4,
                    forall|x: int, y: int|
                        0 <= x < 4 && 0 <= y < 4 ==> #[trigger] matrix@[x]@[y] == matrix_input()[x][y],
                    forall|x: int, y: int|
                        0 <= x < 4 && 0 <= y < 4 ==> #[trigger] matrix2@[x]@[y] == matrix_input()[x][y],
                    sum == mat_entry_prefix(matrix_input(), matrix_input(), i as int, j as int, k as int),
                    0 <= sum <= 256 * k,
                decreases 4 - k,
            {
                proof {
                    let av = matrix@[i as int]@[k as int] as int;
                    let bv = matrix2@[k as int]@[j as int] as int;
                    assert(1 <= av <= 16);
                    assert(1 <= bv <= 16);
                    assert(1 <= av * bv <= 256) by (nonlinear_arith)
                        requires
                            1 <= av <= 16,
                            1 <= bv <= 16,
                    ;
                }
                sum = sum + matrix[i][k] * matrix2[k][j];
                k = k + 1;
            }
            let mut row: [i32; 4] = dot_product[i];
            row[j] = sum;
            dot_product[i] = row;
            j = j + 1;
        }
        i = i + 1;
    }
    dot_product
}

/// Builds the two fixed 4-dimensional points of the distance kernels.
pub fn make_points() -> (r: (Vec<i32>, Vec<i32>))
    ensures
        r.0@ == point_one(),
        r.1@ == point_two(),
{
    let mut p1: Vec<i32> = Vec::new();
    p1.push(1);
    p1.push(2);
    p1.push(3);
    p1.push(4);
    let mut p2: Vec<i32> = Vec::new();
    p2.push(5);
    p2.push(6);
    p2.push(7);
    p2.push(8);
    proof {
        assert(p1@ =~= point_one());
        assert(p2@ =~= point_two());
    }
    (p1, p2)
}

/// Scalar Euclidean-distance kernel: sums the squared coordinate
/// differences of the two fixed points and takes the integer square
/// root. The result is never negative.
pub fn normal_euclidean_distance() -> (r: i32)
    ensures
        0 <= r,
        r * r <= squared_distance(point_one(), point_two()),
        squared_distance(point_one(), point_two()) < (r + 1) * (r + 1),
{
    let (p1, p2) = make_points();
    let mut distance_sqr: i32 = 0;
    let mut i: usize = 0;
    while i < 4
        invariant
            i <= 4,
            p1@ == point_one(),
            p2@ == point_two(),
            distance_sqr == squared_distance_prefix(point_one(), point_two(), i as int),
            0 <= distance_sqr <= 16 * i,
        decreases 4 - i,
    {
        let d: i32 = p2[i] - p1[i];
        proof {
            assert(d == 4);
        }
        distance_sqr = distance_sqr + d * d;
        i = i + 1;
    }
    proof {
        assert(point_one().len() == 4);
    }
    int_sqrt(distance_sqr)
}

} // verus!
