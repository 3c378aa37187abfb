//! Reading the binary moc3 model format.

pub mod art_meshes;
pub mod bindings;
pub mod canvas;
pub mod counts;
pub mod deformers;
pub mod drawable;
pub mod header;
pub mod keyforms;
pub mod sections;

pub use art_meshes::{Moc3ArtMeshInfo, Moc3ArtMeshes};
pub use drawable::{
    Moc3DrawableBlendMode, Moc3DrawableMesh, Moc3DrawableVertex, build_moc3_drawable_mesh,
    build_moc3_drawable_meshes,
};
pub use bindings::Moc3KeyformBindings;
pub use canvas::Moc3CanvasInfo;
pub use counts::Moc3CountInfo;
pub use deformers::{Moc3DeformerKind, Moc3Deformers, Moc3RotationKeyform};
pub use keyforms::{Moc3ArtMeshKeyformInfo, Moc3ArtMeshKeyforms};
pub use header::{Moc3Header, Moc3Version};
pub use sections::{Endianness, Moc3SectionOffsets};
