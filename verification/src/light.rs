//! Light sources of the scene.

use vstd::prelude::*;
use crate::vec3::Vec3Fx;

verus! {

/// A directional light, given by a position and a color.
#[derive(Debug, Clone, Copy, PartialEq, Eq, Structural)]
pub struct DirectionalLight {
    pub position: Vec3Fx,
    pub color: Vec3Fx,
}

/// A point light with constant, linear and quadratic attenuation
/// coefficients.
#[derive(Debug, Clone, Copy, PartialEq, Eq, Structural)]
pub struct PointLight {
    pub position: Vec3Fx,
    pub color: Vec3Fx,
    pub attenuation: Vec3Fx,
}

} // verus!
