//! Entity transforms and the model matrix they induce.

use vstd::prelude::*;
use crate::fixed::{abs_int, div_trunc, sat64, spec_fx_mul, FX_ONE};
use crate::mat::{
    mat4_from_rotation_x, mat4_from_rotation_y, mat4_from_rotation_z, mat4_from_scale,
    mat4_from_translation, mat4_mul, spec_from_rotation_x, spec_from_rotation_y,
    spec_from_rotation_z, spec_from_scale, spec_from_translation, spec_mat4_identity,
    spec_mat4_mul, Mat4Fx,
};
use crate::vec3::Vec3Fx;

verus! {

/// Position, Euler rotation in radians, and scale of an entity. Attached to
/// entities by the component framework, not owned by the scene.
#[derive(Debug, Clone, Copy)]
pub struct TransformComponent {
    pub position: Vec3Fx,
    pub rotation: Vec3Fx,
    pub scale: Vec3Fx,
}

/// The model matrix of a transform:
/// `Translation * (RotationX * RotationY * RotationZ) * Scale`, with the
/// rotation order fixed at X, then Y, then Z.
#[verifier::opaque]
pub open spec fn spec_model_matrix(t: TransformComponent) -> Mat4Fx {
    let rot = spec_mat4_mul(
        spec_mat4_mul(
            spec_from_rotation_x(t.rotation.x as int),
            spec_from_rotation_y(t.rotation.y as int),
        ),
        spec_from_rotation_z(t.rotation.z as int),
    );
    spec_mat4_mul(
        spec_mat4_mul(spec_from_translation(t.position), rot),
        spec_from_scale(t.scale),
    )
}

pub fn model_matrix(t: &TransformComponent) -> (r: Mat4Fx)
    ensures
        r == spec_model_matrix(*t),
{
    proof {
        reveal(spec_model_matrix);
    }
    let translate: Mat4Fx = mat4_from_translation(t.position);
    let rx: Mat4Fx = mat4_from_rotation_x(t.rotation.x);
    let ry: Mat4Fx = mat4_from_rotation_y(t.rotation.y);
    let rz: Mat4Fx = mat4_from_rotation_z(t.rotation.z);
    let rotate: Mat4Fx = mat4_mul(&mat4_mul(&rx, &ry), &rz);
    let scale: Mat4Fx = mat4_from_scale(t.scale);
    mat4_mul(&mat4_mul(&translate, &rotate), &scale)
}

/// Multiplying a scalar by one is the identity.
proof fn lemma_fx_mul_one(a: int)
    requires
        i64::MIN as int <= a <= i64::MAX as int,
    ensures
        spec_fx_mul(a, FX_ONE as int) == a,
{
    assert(abs_int(a * 65536) == abs_int(a) * 65536) by (nonlinear_arith);
    vstd::arithmetic::div_mod::lemma_div_by_multiple(abs_int(a), 65536);
    assert(div_trunc(a * 65536, 65536) == a);
    assert(sat64(a) == a);
}

/// Multiplying any matrix by the identity on the right leaves it unchanged.
proof fn lemma_mat4_mul_identity_right(m: Mat4Fx)
    ensures
        spec_mat4_mul(m, spec_mat4_identity()) == m,
{
    assert forall|a: int| i64::MIN as int <= a <= i64::MAX as int implies
        #[trigger] spec_fx_mul(a, FX_ONE as int) == a by {
        lemma_fx_mul_one(a);
    }
    assert(spec_mat4_mul(m, spec_mat4_identity()) == m);
}

/// An identity transform moves nothing: with rotation zero and scale one,
/// the model matrix is exactly the translation matrix of the position.
pub proof fn lemma_model_matrix_translation_only(p: Vec3Fx)
    ensures
        spec_model_matrix(
            TransformComponent {
                position: p,
                rotation: (Vec3Fx { x: 0i64, y: 0i64, z: 0i64 }),
                scale: (Vec3Fx { x: FX_ONE, y: FX_ONE, z: FX_ONE }),
            },
        ) == spec_from_translation(p),
{
    reveal(spec_model_matrix);
    assert(spec_from_rotation_x(0) == spec_mat4_identity());
    assert(spec_from_rotation_y(0) == spec_mat4_identity());
    assert(spec_from_rotation_z(0) == spec_mat4_identity());
    assert(spec_from_scale(Vec3Fx { x: FX_ONE, y: FX_ONE, z: FX_ONE }) == spec_mat4_identity());
    lemma_mat4_mul_identity_right(spec_mat4_identity());
    lemma_mat4_mul_identity_right(spec_from_translation(p));
    lemma_mat4_mul_identity_right(spec_mat4_mul(spec_from_translation(p), spec_mat4_identity()));
}

} // verus!
