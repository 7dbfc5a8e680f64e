//! Matrix constructors, products, and the model matrix.

use daedalus::fixed::FX_ONE;
use daedalus::mat::{
    mat3_identity, mat4_from_rotation_x, mat4_from_scale, mat4_from_translation, mat4_identity,
    mat4_mul, mat4_perspective_rh, normal_matrix,
};
use daedalus::transform::{model_matrix, TransformComponent};
use daedalus::vec3::Vec3Fx;

#[test]
fn identity_times_identity() {
    let i = mat4_identity();
    assert_eq!(mat4_mul(&i, &i), i);
}

#[test]
fn translation_matrix_entries() {
    let t = mat4_from_translation(Vec3Fx { x: 2 * FX_ONE, y: -FX_ONE, z: 3 * FX_ONE });
    assert_eq!(t.m30, 2 * FX_ONE);
    assert_eq!(t.m31, -FX_ONE);
    assert_eq!(t.m32, 3 * FX_ONE);
    assert_eq!(t.m33, FX_ONE);
    assert_eq!(t.m00, FX_ONE);
    assert_eq!(t.m11, FX_ONE);
    assert_eq!(t.m22, FX_ONE);
    assert_eq!(t.m01, 0);
}

#[test]
fn rotation_about_x_by_zero_is_identity() {
    assert_eq!(mat4_from_rotation_x(0), mat4_identity());
}

#[test]
fn scale_by_one_is_identity() {
    assert_eq!(
        mat4_from_scale(Vec3Fx { x: FX_ONE, y: FX_ONE, z: FX_ONE }),
        mat4_identity(),
    );
}

/// With position (2,0,0), rotation zero and scale one, the model matrix
/// is exactly the translation matrix for (2,0,0).
#[test]
fn model_matrix_translation_only() {
    let t = TransformComponent {
        position: Vec3Fx { x: 2 * FX_ONE, y: 0, z: 0 },
        rotation: Vec3Fx { x: 0, y: 0, z: 0 },
        scale: Vec3Fx { x: FX_ONE, y: FX_ONE, z: FX_ONE },
    };
    let m = model_matrix(&t);
    assert_eq!(m, mat4_from_translation(Vec3Fx { x: 2 * FX_ONE, y: 0, z: 0 }));
}

#[test]
fn model_matrix_translation_and_scale() {
    let t = TransformComponent {
        position: Vec3Fx { x: FX_ONE, y: 2 * FX_ONE, z: 3 * FX_ONE },
        rotation: Vec3Fx { x: 0, y: 0, z: 0 },
        scale: Vec3Fx { x: 2 * FX_ONE, y: 2 * FX_ONE, z: 2 * FX_ONE },
    };
    let m = model_matrix(&t);
    // diagonal carries the scale, last column the translation
    assert_eq!(m.m00, 2 * FX_ONE);
    assert_eq!(m.m11, 2 * FX_ONE);
    assert_eq!(m.m22, 2 * FX_ONE);
    assert_eq!(m.m30, FX_ONE);
    assert_eq!(m.m31, 2 * FX_ONE);
    assert_eq!(m.m32, 3 * FX_ONE);
    assert_eq!(m.m33, FX_ONE);
}

#[test]
fn normal_matrix_of_identity_is_identity() {
    let m = mat4_identity();
    assert_eq!(normal_matrix(&m), mat3_identity());
}

#[test]
fn perspective_structure() {
    // 90 degree field of view, square aspect
    let fov = 102944; // about pi / 2
    let p = mat4_perspective_rh(fov, FX_ONE, FX_ONE / 10, 100 * FX_ONE);
    assert_eq!(p.m23, -FX_ONE);
    assert_eq!(p.m33, 0);
    assert_eq!(p.m01, 0);
    // cot(fov / 2) is about 1 for a 90 degree fov
    assert!((p.m11 - FX_ONE).abs() < 2048);
    assert_eq!(p.m00, p.m11); // divided by aspect 1
}

#[test]
fn perspective_degenerate_is_identity() {
    // a zero field of view cannot be projected; the plan pins this case
    // to the identity matrix
    assert_eq!(mat4_perspective_rh(0, FX_ONE, FX_ONE / 10, 100 * FX_ONE), mat4_identity());
    // equal near and far planes likewise
    assert_eq!(mat4_perspective_rh(102944, FX_ONE, FX_ONE, FX_ONE), mat4_identity());
}
