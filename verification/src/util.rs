//! Fixed-point helpers, vectors and linear interpolation.

pub mod fixed;
pub mod lerp;
pub mod vector;
