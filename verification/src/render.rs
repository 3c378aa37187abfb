//! Rendering support: index buffer encoding, clipping-mask planning and the
//! per-drawable decisions a GPU renderer makes.

pub mod clipping;
pub mod common;
pub mod renderer;
pub mod wgpu;
