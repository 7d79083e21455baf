//! Fixed-width lane vectors: immutable tuples of `i32` lanes with
//! elementwise arithmetic and horizontal reductions.

use vstd::prelude::*;

verus! {

broadcast use vstd::array::group_array_axioms;

use crate::reduce::seq_max;
use crate::reduce::seq_min;
use crate::reduce::seq_sum;

/// A fixed-width vector of `N` signed 32-bit lanes.
///
/// The width is part of the type, so elementwise operations can only be
/// applied to operands of matching width. Values are plain data: copies
/// are independent and no operation mutates its operands.
#[derive(Clone, Copy, Debug)]
pub struct LaneVec<const N: usize> {
    pub lanes: [i32; N],
}

impl<const N: usize> View for LaneVec<N> {
    type V = Seq<i32>;

    open spec fn view(&self) -> Seq<i32> {
        self.lanes@
    }
}

impl<const N: usize> LaneVec<N> {
    /// Builds a vector whose every lane holds `value`.
    pub fn broadcast(value: i32) -> (r: Self)
        ensures
            r@.len() == N,
            forall|i: int| 0 <= i < N ==> r@[i] == value,
    {
        LaneVec { lanes: [value; N] }
    }

    /// Builds a vector with lane `i` equal to `elements[i]`; the array
    /// type fixes the element count to exactly `N`.
    pub fn from_elements(elements: [i32; N]) -> (r: Self)
        ensures
            r@ == elements@,
    {
        LaneVec { lanes: elements }
    }

    /// Elementwise sum: lane `i` of the result is `self[i] + other[i]`.
    pub fn add(&self, other: &Self) -> (r: Self)
        requires
            forall|i: int| 0 <= i < N ==> i32::MIN <= #[trigger] self@[i] + other@[i] <= i32::MAX,
        ensures
            r@.len() == N,
            forall|i: int| 0 <= i < N ==> r@[i] == self@[i] + other@[i],
    {
        let mut out: [i32; N] = [0; N];
        let mut i: usize = 0;
        while i < N
            invariant
                i <= N,
                out@.len() == N,
                forall|k: int| 0 <= k < N ==> i32::MIN <= #[trigger] self@[k] + other@[k] <= i32::MAX,
                forall|k: int| 0 <= k < i ==> out@[k] == self@[k] + other@[k],
            decreases N - i,
        {
            proof {
                assert(i32::MIN <= self@[i as int] + other@[i as int] <= i32::MAX);
            }
            out[i] = self.lanes[i] + other.lanes[i];
            i = i + 1;
        }
        LaneVec { lanes: out }
    }

    /// Elementwise difference: lane `i` of the result is `self[i] - other[i]`.
    pub fn subtract(&self, other: &Self) -> (r: Self)
        requires
            forall|i: int| 0 <= i < N ==> i32::MIN <= #[trigger] self@[i] - other@[i] <= i32::MAX,
        ensures
            r@.len() == N,
            forall|i: int| 0 <= i < N ==> r@[i] == self@[i] - other@[i],
    {
        let mut out: [i32; N] = [0; N];
        let mut i: usize = 0;
        while i < N
            invariant
                i <= N,
                out@.len() == N,
                forall|k: int| 0 <= k < N ==> i32::MIN <= #[trigger] self@[k] - other@[k] <= i32::MAX,
                forall|k: int| 0 <= k < i ==> out@[k] == self@[k] - other@[k],
            decreases N - i,
        {
            proof {
                assert(i32::MIN <= self@[i as int] - other@[i as int] <= i32::MAX);
            }
            out[i] = self.lanes[i] - other.lanes[i];
            i = i + 1;
        }
        LaneVec { lanes: out }
    }

    /// Elementwise product: lane `i` of the result is `self[i] * other[i]`.
    pub fn multiply(&self, other: &Self) -> (r: Self)
        requires
            forall|i: int| 0 <= i < N ==> i32::MIN <= #[trigger] self@[i] * other@[i] <= i32::MAX,
        ensures
            r@.len() == N,
            forall|i: int| 0 <= i < N ==> r@[i] == self@[i] * other@[i],
    {
        let mut out: [i32; N] = [0; N];
        let mut i: usize = 0;
        while i < N
            invariant
                i <= N,
                out@.len() == N,
                forall|k: int| 0 <= k < N ==> i32::MIN <= #[trigger] self@[k] * other@[k] <= i32::MAX,
                forall|k: int| 0 <= k < i ==> out@[k] == self@[k] * other@[k],
            decreases N - i,
        {
            proof {
                assert(i32::MIN <= self@[i as int] * other@[i as int] <= i32::MAX);
            }
            out[i] = self.lanes[i] * other.lanes[i];
            i = i + 1;
        }
        LaneVec { lanes: out }
    }

    /// Horizontal sum of all lanes, whenever the mathematical sum fits in
    /// an `i32`. The accumulation order does not matter: see
    /// `lemma_seq_sum_concat`.
    pub fn reduce_sum(&self) -> (r: i32)
        requires
            N < 0x1_0000_0000,
            i32::MIN <= seq_sum(self@) <= i32::MAX,
        ensures
            r == seq_sum(self@),
    {
        let mut acc: i64 = 0;
        let mut i: usize = 0;
        while i < N
            invariant
                i <= N,
                N < 0x1_0000_0000,
                acc == seq_sum(self@.take(i as int)),
                -(i as int) * 0x8000_0000 <= acc <= (i as int) * 0x7fff_ffff,
            decreases N - i,
        {
            proof {
                assert(self@.take(i as int + 1).drop_last() =~= self@.take(i as int));
                assert(self@.take(i as int + 1).last() == self@[i as int]);
            }
            acc = acc + self.lanes[i] as i64;
            i = i + 1;
        }
        proof {
            assert(self@.take(N as int) =~= self@);
        }
        acc as i32
    }

    /// Horizontal maximum of all lanes of a non-empty vector. The
    /// combination order does not matter: see `lemma_seq_max_concat`.
    pub fn reduce_max(&self) -> (r: i32)
        requires
            N >= 1,
        ensures
            r == seq_max(self@),
    {
        let mut best: i32 = self.lanes[0];
        let mut i: usize = 1;
        while i < N
            invariant
                1 <= i <= N,
                best == seq_max(self@.take(i as int)),
            decreases N - i,
        {
            proof {
                assert(self@.take(i as int + 1).drop_last() =~= self@.take(i as int));
                assert(self@.take(i as int + 1).last() == self@[i as int]);
            }
            if self.lanes[i] > best {
                best = self.lanes[i];
            }
            i = i + 1;
        }
        proof {
            assert(self@.take(N as int) =~= self@);
        }
        best
    }

    /// Horizontal minimum of all lanes of a non-empty vector. The
    /// combination order does not matter: see `lemma_seq_min_concat`.
    pub fn reduce_min(&self) -> (r: i32)
        requires
            N >= 1,
        ensures
            r == seq_min(self@),
    {
        let mut best: i32 = self.lanes[0];
        let mut i: usize = 1;
        while i < N
            invariant
                1 <= i <= N,
                best == seq_min(self@.take(i as int)),
            decreases N - i,
        {
            proof {
                assert(self@.take(i as int + 1).drop_last() =~= self@.take(i as int));
                assert(self@.take(i as int + 1).last() == self@[i as int]);
            }
            if self.lanes[i] < best {
                best = self.lanes[i];
            }
            i = i + 1;
        }
        proof {
            assert(self@.take(N as int) =~= self@);
        }
        best
    }

    /// Read-only access to lane `i`.
    pub fn get(&self, i: usize) -> (r: i32)
        requires
            i < N,
        ensures
            r == self@[i as int],
    {
        self.lanes[i]
    }
}

} // verus!
