//! Live2D Cubism model data: moc3 section decoding (art meshes, keyforms,
//! deformers, keyform bindings), drawable mesh assembly, motion3 and pose3
//! documents, texture decoding, clipping-context planning, and the buffer
//! encodings and update checks of a wgpu renderer.
//!
//! Floating-point values of the model are carried as their `f32` bit
//! patterns.

pub mod assets;
pub mod runtime;
pub mod error;
pub mod json;
pub mod moc3;
pub mod render;
pub mod text;

pub use crate::error::Error;
