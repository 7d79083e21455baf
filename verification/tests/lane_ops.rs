use simd_check::int_sqrt;
use simd_check::LaneVec;

#[test]
fn broadcast_fills_every_lane() {
    let v: LaneVec<4> = LaneVec::broadcast(-7);
    assert_eq!(v.lanes, [-7; 4]);
}

#[test]
fn from_elements_keeps_lane_order() {
    let v: LaneVec<4> = LaneVec::from_elements([9, -3, 0, 12]);
    assert_eq!(v.lanes, [9, -3, 0, 12]);
}

#[test]
fn get_reads_single_lanes() {
    let v: LaneVec<4> = LaneVec::from_elements([9, -3, 0, 12]);
    assert_eq!(v.get(0), 9);
    assert_eq!(v.get(1), -3);
    assert_eq!(v.get(3), 12);
}

#[test]
fn elementwise_ops_match_per_lane_arithmetic() {
    let a: LaneVec<4> = LaneVec::from_elements([10, -4, 7, 0]);
    let b: LaneVec<4> = LaneVec::from_elements([3, 5, -2, 8]);
    assert_eq!(a.add(&b).lanes, [13, 1, 5, 8]);
    assert_eq!(a.subtract(&b).lanes, [7, -9, 9, -8]);
    assert_eq!(a.multiply(&b).lanes, [30, -20, -14, 0]);
}

#[test]
fn reduce_sum_adds_all_lanes() {
    let v: LaneVec<4> = LaneVec::from_elements([10, -4, 7, 0]);
    assert_eq!(v.reduce_sum(), 13);
    let w: LaneVec<2> = LaneVec::from_elements([-5, -6]);
    assert_eq!(w.reduce_sum(), -11);
}

#[test]
fn reduce_max_and_min_pick_extremes() {
    let v: LaneVec<8> = LaneVec::from_elements([30, 291, 1, 20, 40, 202, 329, 0]);
    assert_eq!(v.reduce_max(), 329);
    assert_eq!(v.reduce_min(), 0);
    let w: LaneVec<2> = LaneVec::from_elements([-5, -6]);
    assert_eq!(w.reduce_max(), -5);
    assert_eq!(w.reduce_min(), -6);
}

#[test]
fn reductions_are_split_invariant() {
    // Reducing the whole vector equals combining the reductions of its
    // halves, for every split the lane widths allow.
    let whole: LaneVec<8> = LaneVec::from_elements([30, 291, 1, 20, 40, 202, 329, 0]);
    let lo: LaneVec<4> = LaneVec::from_elements([30, 291, 1, 20]);
    let hi: LaneVec<4> = LaneVec::from_elements([40, 202, 329, 0]);
    assert_eq!(whole.reduce_sum(), lo.reduce_sum() + hi.reduce_sum());
    assert_eq!(whole.reduce_max(), lo.reduce_max().max(hi.reduce_max()));
    assert_eq!(whole.reduce_min(), lo.reduce_min().min(hi.reduce_min()));

    let first_two: LaneVec<2> = LaneVec::from_elements([30, 291]);
    let rest: LaneVec<2> = LaneVec::from_elements([1, 20]);
    assert_eq!(
        lo.reduce_sum(),
        first_two.reduce_sum() + rest.reduce_sum()
    );
}

#[test]
fn int_sqrt_takes_the_floor() {
    assert_eq!(int_sqrt(0), 0);
    assert_eq!(int_sqrt(1), 1);
    assert_eq!(int_sqrt(3), 1);
    assert_eq!(int_sqrt(4), 2);
    assert_eq!(int_sqrt(63), 7);
    assert_eq!(int_sqrt(64), 8);
    assert_eq!(int_sqrt(65), 8);
    assert_eq!(int_sqrt(i32::MAX), 46340);
}
