//! Comparative numeric micro-kernel suite.
//!
//! Each of six small numeric operations is implemented twice: once as a
//! straightforward scalar computation and once on top of a fixed-width
//! lane-vector abstraction, the way a hardware SIMD path would compute it.
//! The two paths are proved to agree.

mod lanes;
mod laws;
mod model;
mod reduce;
mod roots;
mod scalar;
mod vector;

pub use lanes::LaneVec;

pub use reduce::lemma_seq_max_concat;
pub use reduce::lemma_seq_max_is_bound;
pub use reduce::lemma_seq_min_concat;
pub use reduce::lemma_seq_min_is_bound;
pub use reduce::lemma_seq_sum_bounds;
pub use reduce::lemma_seq_sum_concat;
pub use reduce::seq_max;
pub use reduce::seq_min;
pub use reduce::seq_sum;

pub use model::extremes_input;
pub use model::input_a;
pub use model::input_b;
pub use model::lemma_seq_sum_as_mat_entry;
pub use model::lemma_seq_sum_as_squared_distance;
pub use model::lemma_squared_distance_nonneg;
pub use model::mat_entry;
pub use model::mat_entry_prefix;
pub use model::matrix_input;
pub use model::point_one;
pub use model::point_two;
pub use model::squared_distance;
pub use model::squared_distance_prefix;

pub use roots::int_sqrt;
pub use roots::lemma_int_sqrt_unique;

pub use scalar::make_extremes;
pub use scalar::make_inputs;
pub use scalar::make_matrix;
pub use scalar::make_points;
pub use scalar::normal_array_actions;
pub use scalar::normal_dot_vector;
pub use scalar::normal_euclidean_distance;
pub use scalar::normal_matrix_multiplication;
pub use scalar::normal_max_min;
pub use scalar::normal_sum;

pub use vector::simd_array_actions;
pub use vector::simd_dot_vector;
pub use vector::simd_euclidean_distance;
pub use vector::simd_matrix_multiplication;
pub use vector::simd_max_min;
pub use vector::simd_sum;

pub use laws::lemma_array_actions_pair_agrees;
pub use laws::lemma_dot_vector_pair_agrees;
pub use laws::lemma_euclidean_pair_agrees;
pub use laws::lemma_matrix_pair_agrees;
pub use laws::lemma_max_min_pair_agrees;
pub use laws::lemma_sum_pair_agrees;
