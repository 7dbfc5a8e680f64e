//! GPU-resident models: what the scene's registry owns after upload.
//!
//! Buffers and textures live on the device; here they appear as the opaque
//! resource handles the upload plan created them under. A model is
//! immutable once registered.

use vstd::prelude::*;

verus! {

/// How indices are encoded in an index buffer.
#[derive(Debug, Clone, Copy, PartialEq, Eq, Structural)]
pub enum IndexType {
    UInt32,
}

/// The uploaded form of a material: a resource handle per present slot.
#[derive(Debug, Clone, Copy, PartialEq, Eq, Structural)]
pub struct Material {
    pub base_color_texture: Option<u64>,
    pub normal_texture: Option<u64>,
    pub metallic_roughness_texture: Option<u64>,
    pub ambient_occlusion_texture: Option<u64>,
    pub emissive_texture: Option<u64>,
}

/// One uploaded draw unit: its buffers, index range and material.
#[derive(Debug, Clone, Copy, PartialEq, Eq, Structural)]
pub struct Submesh {
    pub vertex_buffer: u64,
    pub index_count: u64,
    pub index_type: IndexType,
    pub index_buffer: u64,
    pub index_buffer_offset: u64,
    pub material: Material,
}

/// An uploaded mesh: its submeshes, in draw order.
#[derive(Debug)]
pub struct Mesh {
    pub submeshes: Vec<Submesh>,
}

/// A registered model: a unique identifier, a display name, and the
/// uploaded meshes.
#[derive(Debug)]
pub struct Model {
    pub id: u128,
    pub name: String,
    pub meshes: Vec<Mesh>,
}

} // verus!
