//! Fixed-point 4x4 and 3x3 matrices, stored column-major.
//!
//! Field `mCR` is the entry in column `C`, row `R`, matching the layout the
//! GPU-facing layer serializes. Constructors follow the right-handed
//! conventions of the surrounding engine.

use vstd::prelude::*;
use crate::fixed::{
    fx_add, fx_div, fx_mul, fx_neg, fx_sub, spec_fx_add, spec_fx_div, spec_fx_mul, spec_fx_neg,
    spec_fx_sub, FX_ONE,
};
use crate::trig::{fx_cos, fx_sin, spec_fx_cos, spec_fx_sin};
use crate::vec3::{
    spec_v3_cross, spec_v3_dot, spec_v3_normalize, spec_v3_sub, v3_cross, v3_dot, v3_normalize,
    v3_sub, Vec3Fx,
};

verus! {

/// A 4x4 matrix of Q47.16 scalars, column-major.
#[derive(Debug, Clone, Copy, PartialEq, Eq, Structural)]
pub struct Mat4Fx {
    pub m00: i64,
    pub m01: i64,
    pub m02: i64,
    pub m03: i64,
    pub m10: i64,
    pub m11: i64,
    pub m12: i64,
    pub m13: i64,
    pub m20: i64,
    pub m21: i64,
    pub m22: i64,
    pub m23: i64,
    pub m30: i64,
    pub m31: i64,
    pub m32: i64,
    pub m33: i64,
}

/// A 3x3 matrix of Q47.16 scalars, column-major.
#[derive(Debug, Clone, Copy, PartialEq, Eq, Structural)]
pub struct Mat3Fx {
    pub m00: i64,
    pub m01: i64,
    pub m02: i64,
    pub m10: i64,
    pub m11: i64,
    pub m12: i64,
    pub m20: i64,
    pub m21: i64,
    pub m22: i64,
}

pub open spec fn spec_mat4_identity() -> Mat4Fx {
    Mat4Fx { m00: FX_ONE, m01: 0, m02: 0, m03: 0, m10: 0, m11: FX_ONE, m12: 0, m13: 0, m20: 0, m21: 0, m22: FX_ONE, m23: 0, m30: 0, m31: 0, m32: 0, m33: FX_ONE }
}

pub open spec fn spec_mat3_identity() -> Mat3Fx {
    Mat3Fx { m00: FX_ONE, m01: 0, m02: 0, m10: 0, m11: FX_ONE, m12: 0, m20: 0, m21: 0, m22: FX_ONE }
}

/// One entry of a matrix product: a saturating four-term dot product.
pub open spec fn e4(
    a0: int, b0: int, a1: int, b1: int, a2: int, b2: int, a3: int, b3: int,
) -> int {
    spec_fx_add(
        spec_fx_add(
            spec_fx_add(spec_fx_mul(a0, b0), spec_fx_mul(a1, b1)),
            spec_fx_mul(a2, b2),
        ),
        spec_fx_mul(a3, b3),
    )
}

fn e4_exec(a0: i64, b0: i64, a1: i64, b1: i64, a2: i64, b2: i64, a3: i64, b3: i64) -> (r: i64)
    ensures
        r as int == e4(
            a0 as int, b0 as int, a1 as int, b1 as int,
            a2 as int, b2 as int, a3 as int, b3 as int,
        ),
{
    fx_add(fx_add(fx_add(fx_mul(a0, b0), fx_mul(a1, b1)), fx_mul(a2, b2)), fx_mul(a3, b3))
}

pub open spec fn spec_mat4_mul(a: Mat4Fx, b: Mat4Fx) -> Mat4Fx {
    Mat4Fx {
        m00: e4(a.m00 as int, b.m00 as int, a.m10 as int, b.m01 as int, a.m20 as int, b.m02 as int, a.m30 as int, b.m03 as int) as i64,
        m01: e4(a.m01 as int, b.m00 as int, a.m11 as int, b.m01 as int, a.m21 as int, b.m02 as int, a.m31 as int, b.m03 as int) as i64,
        m02: e4(a.m02 as int, b.m00 as int, a.m12 as int, b.m01 as int, a.m22 as int, b.m02 as int, a.m32 as int, b.m03 as int) as i64,
        m03: e4(a.m03 as int, b.m00 as int, a.m13 as int, b.m01 as int, a.m23 as int, b.m02 as int, a.m33 as int, b.m03 as int) as i64,
        m10: e4(a.m00 as int, b.m10 as int, a.m10 as int, b.m11 as int, a.m20 as int, b.m12 as int, a.m30 as int, b.m13 as int) as i64,
        m11: e4(a.m01 as int, b.m10 as int, a.m11 as int, b.m11 as int, a.m21 as int, b.m12 as int, a.m31 as int, b.m13 as int) as i64,
        m12: e4(a.m02 as int, b.m10 as int, a.m12 as int, b.m11 as int, a.m22 as int, b.m12 as int, a.m32 as int, b.m13 as int) as i64,
        m13: e4(a.m03 as int, b.m10 as int, a.m13 as int, b.m11 as int, a.m23 as int, b.m12 as int, a.m33 as int, b.m13 as int) as i64,
        m20: e4(a.m00 as int, b.m20 as int, a.m10 as int, b.m21 as int, a.m20 as int, b.m22 as int, a.m30 as int, b.m23 as int) as i64,
        m21: e4(a.m01 as int, b.m20 as int, a.m11 as int, b.m21 as int, a.m21 as int, b.m22 as int, a.m31 as int, b.m23 as int) as i64,
        m22: e4(a.m02 as int, b.m20 as int, a.m12 as int, b.m21 as int, a.m22 as int, b.m22 as int, a.m32 as int, b.m23 as int) as i64,
        m23: e4(a.m03 as int, b.m20 as int, a.m13 as int, b.m21 as int, a.m23 as int, b.m22 as int, a.m33 as int, b.m23 as int) as i64,
        m30: e4(a.m00 as int, b.m30 as int, a.m10 as int, b.m31 as int, a.m20 as int, b.m32 as int, a.m30 as int, b.m33 as int) as i64,
        m31: e4(a.m01 as int, b.m30 as int, a.m11 as int, b.m31 as int, a.m21 as int, b.m32 as int, a.m31 as int, b.m33 as int) as i64,
        m32: e4(a.m02 as int, b.m30 as int, a.m12 as int, b.m31 as int, a.m22 as int, b.m32 as int, a.m32 as int, b.m33 as int) as i64,
        m33: e4(a.m03 as int, b.m30 as int, a.m13 as int, b.m31 as int, a.m23 as int, b.m32 as int, a.m33 as int, b.m33 as int) as i64,
    }
}

/// Matrix product `a * b`.
pub fn mat4_mul(a: &Mat4Fx, b: &Mat4Fx) -> (r: Mat4Fx)
    ensures
        r == spec_mat4_mul(*a, *b),
{
    Mat4Fx {
        m00: e4_exec(a.m00, b.m00, a.m10, b.m01, a.m20, b.m02, a.m30, b.m03),
        m01: e4_exec(a.m01, b.m00, a.m11, b.m01, a.m21, b.m02, a.m31, b.m03),
        m02: e4_exec(a.m02, b.m00, a.m12, b.m01, a.m22, b.m02, a.m32, b.m03),
        m03: e4_exec(a.m03, b.m00, a.m13, b.m01, a.m23, b.m02, a.m33, b.m03),
        m10: e4_exec(a.m00, b.m10, a.m10, b.m11, a.m20, b.m12, a.m30, b.m13),
        m11: e4_exec(a.m01, b.m10, a.m11, b.m11, a.m21, b.m12, a.m31, b.m13),
        m12: e4_exec(a.m02, b.m10, a.m12, b.m11, a.m22, b.m12, a.m32, b.m13),
        m13: e4_exec(a.m03, b.m10, a.m13, b.m11, a.m23, b.m12, a.m33, b.m13),
        m20: e4_exec(a.m00, b.m20, a.m10, b.m21, a.m20, b.m22, a.m30, b.m23),
        m21: e4_exec(a.m01, b.m20, a.m11, b.m21, a.m21, b.m22, a.m31, b.m23),
        m22: e4_exec(a.m02, b.m20, a.m12, b.m21, a.m22, b.m22, a.m32, b.m23),
        m23: e4_exec(a.m03, b.m20, a.m13, b.m21, a.m23, b.m22, a.m33, b.m23),
        m30: e4_exec(a.m00, b.m30, a.m10, b.m31, a.m20, b.m32, a.m30, b.m33),
        m31: e4_exec(a.m01, b.m30, a.m11, b.m31, a.m21, b.m32, a.m31, b.m33),
        m32: e4_exec(a.m02, b.m30, a.m12, b.m31, a.m22, b.m32, a.m32, b.m33),
        m33: e4_exec(a.m03, b.m30, a.m13, b.m31, a.m23, b.m32, a.m33, b.m33),
    }
}

pub fn mat4_identity() -> (r: Mat4Fx)
    ensures
        r == spec_mat4_identity(),
{
    Mat4Fx { m00: FX_ONE, m01: 0, m02: 0, m03: 0, m10: 0, m11: FX_ONE, m12: 0, m13: 0, m20: 0, m21: 0, m22: FX_ONE, m23: 0, m30: 0, m31: 0, m32: 0, m33: FX_ONE }
}

pub fn mat3_identity() -> (r: Mat3Fx)
    ensures
        r == spec_mat3_identity(),
{
    Mat3Fx { m00: FX_ONE, m01: 0, m02: 0, m10: 0, m11: FX_ONE, m12: 0, m20: 0, m21: 0, m22: FX_ONE }
}

pub open spec fn spec_from_translation(t: Vec3Fx) -> Mat4Fx {
    Mat4Fx {
        m00: FX_ONE, m01: 0, m02: 0, m03: 0,
        m10: 0, m11: FX_ONE, m12: 0, m13: 0,
        m20: 0, m21: 0, m22: FX_ONE, m23: 0,
        m30: t.x, m31: t.y, m32: t.z, m33: FX_ONE,
    }
}

/// Translation matrix: identity with `t` in the last column.
pub fn mat4_from_translation(t: Vec3Fx) -> (r: Mat4Fx)
    ensures
        r == spec_from_translation(t),
{
    Mat4Fx {
        m00: FX_ONE, m01: 0, m02: 0, m03: 0,
        m10: 0, m11: FX_ONE, m12: 0, m13: 0,
        m20: 0, m21: 0, m22: FX_ONE, m23: 0,
        m30: t.x, m31: t.y, m32: t.z, m33: FX_ONE,
    }
}

pub open spec fn spec_from_scale(s: Vec3Fx) -> Mat4Fx {
    Mat4Fx {
        m00: s.x, m01: 0, m02: 0, m03: 0,
        m10: 0, m11: s.y, m12: 0, m13: 0,
        m20: 0, m21: 0, m22: s.z, m23: 0,
        m30: 0, m31: 0, m32: 0, m33: FX_ONE,
    }
}

/// Scale matrix: `s` on the diagonal.
pub fn mat4_from_scale(s: Vec3Fx) -> (r: Mat4Fx)
    ensures
        r == spec_from_scale(s),
{
    Mat4Fx {
        m00: s.x, m01: 0, m02: 0, m03: 0,
        m10: 0, m11: s.y, m12: 0, m13: 0,
        m20: 0, m21: 0, m22: s.z, m23: 0,
        m30: 0, m31: 0, m32: 0, m33: FX_ONE,
    }
}

pub open spec fn spec_from_rotation_x(a: int) -> Mat4Fx {
    let c = spec_fx_cos(a) as i64;
    let s = spec_fx_sin(a) as i64;
    let ns = spec_fx_neg(spec_fx_sin(a)) as i64;
    Mat4Fx {
        m00: FX_ONE, m01: 0, m02: 0, m03: 0,
        m10: 0, m11: c, m12: s, m13: 0,
        m20: 0, m21: ns, m22: c, m23: 0,
        m30: 0, m31: 0, m32: 0, m33: FX_ONE,
    }
}

/// Rotation about the x axis by `a` radians.
pub fn mat4_from_rotation_x(a: i64) -> (r: Mat4Fx)
    ensures
        r == spec_from_rotation_x(a as int),
{
    let c: i64 = fx_cos(a);
    let s: i64 = fx_sin(a);
    let ns: i64 = fx_neg(s);
    Mat4Fx {
        m00: FX_ONE, m01: 0, m02: 0, m03: 0,
        m10: 0, m11: c, m12: s, m13: 0,
        m20: 0, m21: ns, m22: c, m23: 0,
        m30: 0, m31: 0, m32: 0, m33: FX_ONE,
    }
}

pub open spec fn spec_from_rotation_y(a: int) -> Mat4Fx {
    let c = spec_fx_cos(a) as i64;
    let s = spec_fx_sin(a) as i64;
    let ns = spec_fx_neg(spec_fx_sin(a)) as i64;
    Mat4Fx {
        m00: c, m01: 0, m02: ns, m03: 0,
        m10: 0, m11: FX_ONE, m12: 0, m13: 0,
        m20: s, m21: 0, m22: c, m23: 0,
        m30: 0, m31: 0, m32: 0, m33: FX_ONE,
    }
}

/// Rotation about the y axis by `a` radians.
pub fn mat4_from_rotation_y(a: i64) -> (r: Mat4Fx)
    ensures
        r == spec_from_rotation_y(a as int),
{
    let c: i64 = fx_cos(a);
    let s: i64 = fx_sin(a);
    let ns: i64 = fx_neg(s);
    Mat4Fx {
        m00: c, m01: 0, m02: ns, m03: 0,
        m10: 0, m11: FX_ONE, m12: 0, m13: 0,
        m20: s, m21: 0, m22: c, m23: 0,
        m30: 0, m31: 0, m32: 0, m33: FX_ONE,
    }
}

pub open spec fn spec_from_rotation_z(a: int) -> Mat4Fx {
    let c = spec_fx_cos(a) as i64;
    let s = spec_fx_sin(a) as i64;
    let ns = spec_fx_neg(spec_fx_sin(a)) as i64;
    Mat4Fx {
        m00: c, m01: s, m02: 0, m03: 0,
        m10: ns, m11: c, m12: 0, m13: 0,
        m20: 0, m21: 0, m22: FX_ONE, m23: 0,
        m30: 0, m31: 0, m32: 0, m33: FX_ONE,
    }
}

/// Rotation about the z axis by `a` radians.
pub fn mat4_from_rotation_z(a: i64) -> (r: Mat4Fx)
    ensures
        r == spec_from_rotation_z(a as int),
{
    let c: i64 = fx_cos(a);
    let s: i64 = fx_sin(a);
    let ns: i64 = fx_neg(s);
    Mat4Fx {
        m00: c, m01: s, m02: 0, m03: 0,
        m10: ns, m11: c, m12: 0, m13: 0,
        m20: 0, m21: 0, m22: FX_ONE, m23: 0,
        m30: 0, m31: 0, m32: 0, m33: FX_ONE,
    }
}

/// View matrix looking from `eye` toward `center`, right-handed, with the
/// given up direction.
pub open spec fn spec_look_at_rh(eye: Vec3Fx, center: Vec3Fx, up: Vec3Fx) -> Mat4Fx {
    let f = spec_v3_normalize(spec_v3_sub(center, eye));
    let s = spec_v3_normalize(spec_v3_cross(f, up));
    let u = spec_v3_cross(s, f);
    Mat4Fx {
        m00: s.x, m01: u.x, m02: spec_fx_neg(f.x as int) as i64, m03: 0,
        m10: s.y, m11: u.y, m12: spec_fx_neg(f.y as int) as i64, m13: 0,
        m20: s.z, m21: u.z, m22: spec_fx_neg(f.z as int) as i64, m23: 0,
        m30: spec_fx_neg(spec_v3_dot(s, eye)) as i64,
        m31: spec_fx_neg(spec_v3_dot(u, eye)) as i64,
        m32: spec_v3_dot(f, eye) as i64,
        m33: FX_ONE,
    }
}

pub fn mat4_look_at_rh(eye: Vec3Fx, center: Vec3Fx, up: Vec3Fx) -> (r: Mat4Fx)
    ensures
        r == spec_look_at_rh(eye, center, up),
{
    let f: Vec3Fx = v3_normalize(v3_sub(center, eye));
    let s: Vec3Fx = v3_normalize(v3_cross(f, up));
    let u: Vec3Fx = v3_cross(s, f);
    let ds: i64 = v3_dot(s, eye);
    let du: i64 = v3_dot(u, eye);
    let df: i64 = v3_dot(f, eye);
    Mat4Fx {
        m00: s.x, m01: u.x, m02: fx_neg(f.x), m03: 0,
        m10: s.y, m11: u.y, m12: fx_neg(f.y), m13: 0,
        m20: s.z, m21: u.z, m22: fx_neg(f.z), m23: 0,
        m30: fx_neg(ds), m31: fx_neg(du), m32: df, m33: FX_ONE,
    }
}

/// Right-handed perspective projection. A degenerate configuration (a field
/// of view whose half-angle has sine zero, a zero aspect ratio, or equal
/// near and far planes) yields the identity matrix.
pub open spec fn spec_perspective_rh(fovy: int, aspect: int, znear: int, zfar: int) -> Mat4Fx {
    let half = spec_fx_div(fovy, 2 * FX_ONE as int);
    let sinf = spec_fx_sin(half);
    let cosf = spec_fx_cos(half);
    if sinf == 0 || aspect == 0 || znear == zfar {
        spec_mat4_identity()
    } else {
        let h = spec_fx_div(cosf, sinf);
        let w = spec_fx_div(h, aspect);
        let rr = spec_fx_div(zfar, spec_fx_sub(znear, zfar));
        Mat4Fx {
            m00: w as i64, m01: 0, m02: 0, m03: 0,
            m10: 0, m11: h as i64, m12: 0, m13: 0,
            m20: 0, m21: 0, m22: rr as i64, m23: (-FX_ONE) as i64,
            m30: 0, m31: 0, m32: spec_fx_mul(rr, znear) as i64, m33: 0,
        }
    }
}

pub fn mat4_perspective_rh(fovy: i64, aspect: i64, znear: i64, zfar: i64) -> (r: Mat4Fx)
    ensures
        r == spec_perspective_rh(fovy as int, aspect as int, znear as int, zfar as int),
{
    let half: i64 = fx_div(fovy, 2 * FX_ONE);
    let sinf: i64 = fx_sin(half);
    let cosf: i64 = fx_cos(half);
    if sinf == 0 || aspect == 0 || znear == zfar {
        mat4_identity()
    } else {
        let h: i64 = fx_div(cosf, sinf);
        let w: i64 = fx_div(h, aspect);
        let rr: i64 = fx_div(zfar, fx_sub(znear, zfar));
        Mat4Fx {
            m00: w, m01: 0, m02: 0, m03: 0,
            m10: 0, m11: h, m12: 0, m13: 0,
            m20: 0, m21: 0, m22: rr, m23: -FX_ONE,
            m30: 0, m31: 0, m32: fx_mul(rr, znear), m33: 0,
        }
    }
}

/// The upper-left 3x3 block of a 4x4 matrix.
pub open spec fn spec_upper3(m: Mat4Fx) -> Mat3Fx {
    Mat3Fx {
        m00: m.m00, m01: m.m01, m02: m.m02,
        m10: m.m10, m11: m.m11, m12: m.m12,
        m20: m.m20, m21: m.m21, m22: m.m22,
    }
}

pub open spec fn spec_mat3_col0(m: Mat3Fx) -> Vec3Fx {
    Vec3Fx { x: m.m00, y: m.m01, z: m.m02 }
}

pub open spec fn spec_mat3_col1(m: Mat3Fx) -> Vec3Fx {
    Vec3Fx { x: m.m10, y: m.m11, z: m.m12 }
}

pub open spec fn spec_mat3_col2(m: Mat3Fx) -> Vec3Fx {
    Vec3Fx { x: m.m20, y: m.m21, z: m.m22 }
}

/// Normal matrix of a model matrix: the inverse transpose of its upper-left
/// 3x3 block, computed as the cofactor matrix over the determinant. A
/// singular block yields the identity.
#[verifier::opaque]
pub open spec fn spec_normal_matrix(m: Mat4Fx) -> Mat3Fx {
    let u = spec_upper3(m);
    let a = spec_mat3_col0(u);
    let b = spec_mat3_col1(u);
    let c = spec_mat3_col2(u);
    let bc = spec_v3_cross(b, c);
    let ca = spec_v3_cross(c, a);
    let ab = spec_v3_cross(a, b);
    let det = spec_v3_dot(a, bc);
    if det == 0 {
        spec_mat3_identity()
    } else {
        Mat3Fx {
            m00: spec_fx_div(bc.x as int, det) as i64,
            m01: spec_fx_div(bc.y as int, det) as i64,
            m02: spec_fx_div(bc.z as int, det) as i64,
            m10: spec_fx_div(ca.x as int, det) as i64,
            m11: spec_fx_div(ca.y as int, det) as i64,
            m12: spec_fx_div(ca.z as int, det) as i64,
            m20: spec_fx_div(ab.x as int, det) as i64,
            m21: spec_fx_div(ab.y as int, det) as i64,
            m22: spec_fx_div(ab.z as int, det) as i64,
        }
    }
}

pub fn normal_matrix(m: &Mat4Fx) -> (r: Mat3Fx)
    ensures
        r == spec_normal_matrix(*m),
{
    proof {
        reveal(spec_normal_matrix);
    }
    let a: Vec3Fx = Vec3Fx { x: m.m00, y: m.m01, z: m.m02 };
    let b: Vec3Fx = Vec3Fx { x: m.m10, y: m.m11, z: m.m12 };
    let c: Vec3Fx = Vec3Fx { x: m.m20, y: m.m21, z: m.m22 };
    let bc: Vec3Fx = v3_cross(b, c);
    let ca: Vec3Fx = v3_cross(c, a);
    let ab: Vec3Fx = v3_cross(a, b);
    let det: i64 = v3_dot(a, bc);
    if det == 0 {
        mat3_identity()
    } else {
        Mat3Fx {
            m00: fx_div(bc.x, det), m01: fx_div(bc.y, det), m02: fx_div(bc.z, det),
            m10: fx_div(ca.x, det), m11: fx_div(ca.y, det), m12: fx_div(ca.z, det),
            m20: fx_div(ab.x, det), m21: fx_div(ab.y, det), m22: fx_div(ab.z, det),
        }
    }
}

pub open spec fn spec_mat4_zero() -> Mat4Fx {
    Mat4Fx { m00: 0, m01: 0, m02: 0, m03: 0, m10: 0, m11: 0, m12: 0, m13: 0, m20: 0, m21: 0, m22: 0, m23: 0, m30: 0, m31: 0, m32: 0, m33: 0 }
}

pub open spec fn spec_mat3_zero() -> Mat3Fx {
    Mat3Fx { m00: 0, m01: 0, m02: 0, m10: 0, m11: 0, m12: 0, m20: 0, m21: 0, m22: 0 }
}

pub fn mat4_zero() -> (r: Mat4Fx)
    ensures
        r == spec_mat4_zero(),
{
    Mat4Fx { m00: 0, m01: 0, m02: 0, m03: 0, m10: 0, m11: 0, m12: 0, m13: 0, m20: 0, m21: 0, m22: 0, m23: 0, m30: 0, m31: 0, m32: 0, m33: 0 }
}

pub fn mat3_zero() -> (r: Mat3Fx)
    ensures
        r == spec_mat3_zero(),
{
    Mat3Fx { m00: 0, m01: 0, m02: 0, m10: 0, m11: 0, m12: 0, m20: 0, m21: 0, m22: 0 }
}

} // verus!
