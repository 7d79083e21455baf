use simd_check::normal_array_actions;
use simd_check::normal_dot_vector;
use simd_check::normal_euclidean_distance;
use simd_check::normal_matrix_multiplication;
use simd_check::normal_max_min;
use simd_check::normal_sum;
use simd_check::simd_array_actions;
use simd_check::simd_dot_vector;
use simd_check::simd_euclidean_distance;
use simd_check::simd_matrix_multiplication;
use simd_check::simd_max_min;
use simd_check::simd_sum;

const EXPECTED_ADD: [i32; 4] = [103, 242, 119, 1003];
const EXPECTED_SUB: [i32; 4] = [-79, 158, -11, 961];
const EXPECTED_MUL: [i32; 4] = [1092, 8400, 3510, 20622];
const EXPECTED_MATRIX: [[i32; 4]; 4] = [
    [90, 100, 110, 120],
    [202, 228, 254, 280],
    [314, 356, 398, 440],
    [426, 484, 542, 600],
];

#[test]
fn normal_sum_is_55() {
    assert_eq!(normal_sum(), 55);
}

#[test]
fn simd_sum_replicates_55_over_all_lanes() {
    assert_eq!(simd_sum().lanes, [55; 4]);
}

#[test]
fn sum_pair_agrees_lane_by_lane() {
    let s = normal_sum();
    for lane in simd_sum().lanes {
        assert_eq!(lane, s);
    }
}

#[test]
fn normal_dot_vector_scenario() {
    assert_eq!(normal_dot_vector(), EXPECTED_ADD.to_vec());
}

#[test]
fn simd_dot_vector_scenario() {
    assert_eq!(simd_dot_vector().lanes, EXPECTED_ADD);
}

#[test]
fn dot_vector_pair_agrees() {
    let s = normal_dot_vector();
    let v = simd_dot_vector();
    assert_eq!(s, v.lanes.to_vec());
}

#[test]
fn normal_array_actions_scenario() {
    let r = normal_array_actions();
    assert_eq!(r.len(), 3);
    assert_eq!(r[0], EXPECTED_ADD.to_vec());
    assert_eq!(r[1], EXPECTED_SUB.to_vec());
    assert_eq!(r[2], EXPECTED_MUL.to_vec());
}

#[test]
fn simd_array_actions_scenario() {
    let r = simd_array_actions();
    assert_eq!(r[0].lanes, EXPECTED_ADD);
    assert_eq!(r[1].lanes, EXPECTED_SUB);
    assert_eq!(r[2].lanes, EXPECTED_MUL);
}

#[test]
fn array_actions_pair_agrees() {
    let s = normal_array_actions();
    let v = simd_array_actions();
    for k in 0..3 {
        assert_eq!(s[k], v[k].lanes.to_vec());
    }
}

#[test]
fn normal_max_min_scenario() {
    assert_eq!(normal_max_min(), [329, 0]);
}

#[test]
fn simd_max_min_scenario() {
    assert_eq!(simd_max_min().lanes, [329, 0]);
}

#[test]
fn max_min_pair_agrees() {
    assert_eq!(normal_max_min(), simd_max_min().lanes);
}

#[test]
fn normal_matrix_multiplication_scenario() {
    assert_eq!(normal_matrix_multiplication(), EXPECTED_MATRIX);
}

#[test]
fn simd_matrix_multiplication_scenario() {
    let r = simd_matrix_multiplication();
    for i in 0..4 {
        assert_eq!(r[i].lanes, EXPECTED_MATRIX[i]);
    }
}

#[test]
fn matrix_pair_agrees_entry_by_entry() {
    let s = normal_matrix_multiplication();
    let v = simd_matrix_multiplication();
    for i in 0..4 {
        for j in 0..4 {
            assert_eq!(s[i][j], v[i].lanes[j]);
        }
    }
}

#[test]
fn normal_euclidean_distance_scenario() {
    assert_eq!(normal_euclidean_distance(), 8);
}

#[test]
fn simd_euclidean_distance_scenario() {
    assert_eq!(simd_euclidean_distance(), 8);
}

#[test]
fn euclidean_pair_agrees_and_is_nonnegative() {
    let s = normal_euclidean_distance();
    let v = simd_euclidean_distance();
    assert_eq!(s, v);
    assert!(s >= 0);
    assert!(v >= 0);
}
