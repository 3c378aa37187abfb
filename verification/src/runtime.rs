//! Model core logic that does not depend on floating-point arithmetic.

pub mod deformers;

pub use deformers::{WarpInterpolation, warp_cell_corners};
