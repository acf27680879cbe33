//! Contact projective decals: textured quads projected onto nearby geometry.
//!
//! This crate holds the decisions a decal renderer makes on behalf of the host
//! engine: how the render pipeline of a decal material is specialised, and
//! which freshly spawned decals can be turned into projected decals.
pub mod pipeline;
pub mod spawning;

pub use pipeline::{decal_label, DepthCompare, PipelineSettings};
pub use spawning::resolved_decals;
