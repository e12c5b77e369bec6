//! Exact quaternion rotations and Euclidean norms over integers.

pub mod algebra;
pub mod grid;
pub mod laws;
pub mod model;
pub mod norm;
pub mod rotation;
pub mod squares;
pub mod validate;
