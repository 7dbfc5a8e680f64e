//! Core of a small real-time 3D engine: asset import with tangent-space
//! reconstruction, GPU resource upload planning, a scene with camera,
//! controller and lights, and per-frame render-pass planning.
//!
//! All geometry runs on deterministic Q47.16 fixed-point scalars; the thin
//! platform layer converts to the GPU's native floating-point formats at the
//! boundary and executes the upload and draw plans this crate produces.

pub mod camera;
pub mod error;
pub mod fixed;
pub mod gltf;
pub mod light;
pub mod mat;
pub mod material;
pub mod mesh;
pub mod model;
pub mod pipeline;
pub mod render_pass;
pub mod renderer;
pub mod scene;
pub mod shader_bindings;
pub mod shape;
pub mod timer;
pub mod transform;
pub mod trig;
pub mod vec3;
pub mod vertex;
