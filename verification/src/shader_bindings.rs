//! The binding-slot contract shared with the shader pair, and the uniform
//! blocks written once per frame and once per draw.

use vstd::prelude::*;
use crate::camera::{spec_view_matrix, FirstPersonCamera};
use crate::mat::{
    mat3_zero, mat4_zero, spec_mat3_zero, spec_mat4_zero, spec_perspective_rh, Mat3Fx, Mat4Fx,
};
use crate::vec3::Vec3Fx;

verus! {

/// Vertex attribute slots.
pub const ATTRIBUTE_POSITION: u64 = 0;
pub const ATTRIBUTE_NORMAL: u64 = 1;
pub const ATTRIBUTE_UV: u64 = 2;
pub const ATTRIBUTE_TANGENT: u64 = 3;
pub const ATTRIBUTE_BITANGENT: u64 = 4;

/// Buffer binding slots.
pub const VERTEX_BUFFER_INDEX: u64 = 0;
pub const UNIFORMS_BUFFER_INDEX: u64 = 11;
pub const PARAMS_BUFFER_INDEX: u64 = 12;
pub const DIRECTIONAL_LIGHT_BUFFER_INDEX: u64 = 13;
pub const POINT_LIGHT_BUFFER_INDEX: u64 = 14;

/// Fragment texture slots.
pub const BASE_COLOR_TEXTURE_INDEX: u64 = 0;
pub const NORMAL_MAP_TEXTURE_INDEX: u64 = 1;
pub const METALLIC_ROUGHNESS_TEXTURE_INDEX: u64 = 2;
pub const OCCLUSION_TEXTURE_INDEX: u64 = 3;
pub const EMISSIVE_TEXTURE_INDEX: u64 = 4;

/// The per-draw uniform block: the draw's model and normal matrices plus
/// the frame's view and projection matrices.
#[derive(Debug, Clone, Copy, PartialEq, Eq, Structural)]
pub struct Uniforms {
    pub model_matrix: Mat4Fx,
    pub view_matrix: Mat4Fx,
    pub projection_matrix: Mat4Fx,
    pub normal_matrix: Mat3Fx,
}

impl Uniforms {
    pub fn new() -> (r: Self)
        ensures
            r == (Uniforms {
                model_matrix: spec_mat4_zero(),
                view_matrix: spec_mat4_zero(),
                projection_matrix: spec_mat4_zero(),
                normal_matrix: spec_mat3_zero(),
            }),
    {
        Uniforms {
            model_matrix: mat4_zero(),
            view_matrix: mat4_zero(),
            projection_matrix: mat4_zero(),
            normal_matrix: mat3_zero(),
        }
    }

    /// Refresh the per-frame matrices from the camera; the per-draw
    /// matrices are untouched.
    pub fn update(&mut self, camera: &FirstPersonCamera)
        ensures
            *final(self) == (Uniforms {
                view_matrix: spec_view_matrix(*camera),
                projection_matrix: spec_perspective_rh(
                    camera.fov_radians as int,
                    camera.aspect_ratio as int,
                    camera.z_near as int,
                    camera.z_far as int,
                ),
                ..*old(self)
            }),
    {
        self.view_matrix = camera.view_matrix();
        self.projection_matrix = camera.projection_matrix();
    }
}

/// The per-frame fragment parameters: how many point lights are bound and
/// where the camera stands.
#[derive(Debug, Clone, Copy, PartialEq, Eq, Structural)]
pub struct Params {
    pub point_light_count: u32,
    pub camera_position: Vec3Fx,
}

impl Params {
    pub fn new() -> (r: Self)
        ensures
            r == (Params {
                point_light_count: 0u32,
                camera_position: (Vec3Fx { x: 0i64, y: 0i64, z: 0i64 }),
            }),
    {
        Params { point_light_count: 0, camera_position: Vec3Fx { x: 0, y: 0, z: 0 } }
    }

    /// Refresh the camera position; the light count is untouched.
    pub fn update(&mut self, camera: &FirstPersonCamera)
        ensures
            *final(self) == (Params { camera_position: camera.position, ..*old(self) }),
    {
        self.camera_position = camera.position;
    }
}

} // verus!
