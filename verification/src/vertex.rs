//! Interleaved vertex formats, in Q47.16 fixed point.

use vstd::prelude::*;
use crate::vec3::Vec3Fx;

verus! {

/// A texture coordinate pair.
#[derive(Debug, Clone, Copy, PartialEq, Eq, Structural)]
pub struct TexCoord {
    pub u: i64,
    pub v: i64,
}

/// The full vertex the draw path uses: position, normal, UV, tangent and
/// bitangent, interleaved in one buffer.
#[derive(Debug, Clone, Copy, PartialEq, Eq, Structural)]
pub struct VertexPosNorTexTanBi {
    pub position: Vec3Fx,
    pub normal: Vec3Fx,
    pub tex_coord: TexCoord,
    pub tangent: Vec3Fx,
    pub bitangent: Vec3Fx,
}

/// The vertex with every field zero; importers start from this and fill in
/// what the source supplies.
pub open spec fn spec_zero_vertex() -> VertexPosNorTexTanBi {
    VertexPosNorTexTanBi {
        position: Vec3Fx { x: 0, y: 0, z: 0 },
        normal: Vec3Fx { x: 0, y: 0, z: 0 },
        tex_coord: TexCoord { u: 0, v: 0 },
        tangent: Vec3Fx { x: 0, y: 0, z: 0 },
        bitangent: Vec3Fx { x: 0, y: 0, z: 0 },
    }
}

pub fn zero_vertex() -> (r: VertexPosNorTexTanBi)
    ensures
        r == spec_zero_vertex(),
{
    VertexPosNorTexTanBi {
        position: Vec3Fx { x: 0, y: 0, z: 0 },
        normal: Vec3Fx { x: 0, y: 0, z: 0 },
        tex_coord: TexCoord { u: 0, v: 0 },
        tangent: Vec3Fx { x: 0, y: 0, z: 0 },
        bitangent: Vec3Fx { x: 0, y: 0, z: 0 },
    }
}

/// Vertex without a bitangent.
#[derive(Debug, Clone, Copy, PartialEq, Eq, Structural)]
pub struct VertexPosNorTexTan {
    pub position: Vec3Fx,
    pub normal: Vec3Fx,
    pub tex_coord: TexCoord,
    pub tangent: Vec3Fx,
}

/// Vertex without tangent space.
#[derive(Debug, Clone, Copy, PartialEq, Eq, Structural)]
pub struct VertexPosNorTex {
    pub position: Vec3Fx,
    pub normal: Vec3Fx,
    pub tex_coord: TexCoord,
}

/// Vertex with position and UV only.
#[derive(Debug, Clone, Copy, PartialEq, Eq, Structural)]
pub struct VertexPosTex {
    pub position: Vec3Fx,
    pub tex_coord: TexCoord,
}

/// Vertex with position and an RGBA color.
#[derive(Debug, Clone, Copy, PartialEq, Eq, Structural)]
pub struct VertexPosColor {
    pub position: Vec3Fx,
    pub color_r: i64,
    pub color_g: i64,
    pub color_b: i64,
    pub color_a: i64,
}

} // verus!
