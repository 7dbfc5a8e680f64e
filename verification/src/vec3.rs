//! Fixed-point three-component vectors.

use vstd::prelude::*;
use crate::fixed::{
    fx_add, fx_div, fx_mul, fx_sub, isqrt_u128, sat64, spec_fx_add, spec_fx_div, spec_fx_mul,
    spec_fx_sub,
};

verus! {

/// A vector of three Q47.16 scalars.
#[derive(Debug, Clone, Copy, PartialEq, Eq, Structural)]
pub struct Vec3Fx {
    pub x: i64,
    pub y: i64,
    pub z: i64,
}

pub open spec fn spec_v3(x: int, y: int, z: int) -> Vec3Fx {
    Vec3Fx { x: x as i64, y: y as i64, z: z as i64 }
}

pub open spec fn spec_v3_add(a: Vec3Fx, b: Vec3Fx) -> Vec3Fx {
    spec_v3(
        spec_fx_add(a.x as int, b.x as int),
        spec_fx_add(a.y as int, b.y as int),
        spec_fx_add(a.z as int, b.z as int),
    )
}

pub open spec fn spec_v3_sub(a: Vec3Fx, b: Vec3Fx) -> Vec3Fx {
    spec_v3(
        spec_fx_sub(a.x as int, b.x as int),
        spec_fx_sub(a.y as int, b.y as int),
        spec_fx_sub(a.z as int, b.z as int),
    )
}

pub open spec fn spec_v3_scale(a: Vec3Fx, s: int) -> Vec3Fx {
    spec_v3(
        spec_fx_mul(a.x as int, s),
        spec_fx_mul(a.y as int, s),
        spec_fx_mul(a.z as int, s),
    )
}

pub open spec fn spec_v3_dot(a: Vec3Fx, b: Vec3Fx) -> int {
    spec_fx_add(
        spec_fx_add(
            spec_fx_mul(a.x as int, b.x as int),
            spec_fx_mul(a.y as int, b.y as int),
        ),
        spec_fx_mul(a.z as int, b.z as int),
    )
}

pub open spec fn spec_v3_cross(a: Vec3Fx, b: Vec3Fx) -> Vec3Fx {
    spec_v3(
        spec_fx_sub(spec_fx_mul(a.y as int, b.z as int), spec_fx_mul(a.z as int, b.y as int)),
        spec_fx_sub(spec_fx_mul(a.z as int, b.x as int), spec_fx_mul(a.x as int, b.z as int)),
        spec_fx_sub(spec_fx_mul(a.x as int, b.y as int), spec_fx_mul(a.y as int, b.x as int)),
    )
}

/// Sum of the squared raw components; exact, never saturated.
pub open spec fn spec_v3_norm2(a: Vec3Fx) -> int {
    (a.x as int) * (a.x as int) + (a.y as int) * (a.y as int) + (a.z as int) * (a.z as int)
}

/// `r` is the integer square root of `n`, rounded down.
pub open spec fn is_isqrt(n: int, r: int) -> bool {
    r >= 0 && r * r <= n && n < (r + 1) * (r + 1)
}

/// The integer square root, as a mathematical function: the unique `r` with
/// `is_isqrt(n, r)`.
pub open spec fn spec_isqrt(n: int) -> int
    recommends
        n >= 0,
{
    choose|r: int| is_isqrt(n, r)
}

/// `spec_isqrt` is pinned by any witness of its characterization.
pub proof fn lemma_isqrt_is(n: int, r: int)
    requires
        r >= 0,
        r * r <= n,
        n < (r + 1) * (r + 1),
    ensures
        spec_isqrt(n) == r,
{
    assert(is_isqrt(n, r));
    let c = choose|c: int| is_isqrt(n, c);
    assert(is_isqrt(n, c));
    assert(c == r) by (nonlinear_arith)
        requires
            r >= 0,
            r * r <= n,
            n < (r + 1) * (r + 1),
            c >= 0,
            c * c <= n,
            n < (c + 1) * (c + 1),
    ;
}

/// Length of a vector: the integer square root of the squared norm,
/// saturated to the scalar range.
pub open spec fn spec_v3_len(a: Vec3Fx) -> int {
    sat64(spec_isqrt(spec_v3_norm2(a)))
}

/// A vector scaled to unit length; the zero vector stays zero.
pub open spec fn spec_v3_normalize(a: Vec3Fx) -> Vec3Fx {
    let l = spec_v3_len(a);
    if l == 0 {
        Vec3Fx { x: 0, y: 0, z: 0 }
    } else {
        spec_v3(
            spec_fx_div(a.x as int, l),
            spec_fx_div(a.y as int, l),
            spec_fx_div(a.z as int, l),
        )
    }
}

pub fn v3(x: i64, y: i64, z: i64) -> (r: Vec3Fx)
    ensures
        r == (Vec3Fx { x, y, z }),
{
    Vec3Fx { x, y, z }
}

pub fn v3_zero() -> (r: Vec3Fx)
    ensures
        r == (Vec3Fx { x: 0i64, y: 0i64, z: 0i64 }),
{
    Vec3Fx { x: 0, y: 0, z: 0 }
}

pub fn v3_add(a: Vec3Fx, b: Vec3Fx) -> (r: Vec3Fx)
    ensures
        r == spec_v3_add(a, b),
{
    Vec3Fx { x: fx_add(a.x, b.x), y: fx_add(a.y, b.y), z: fx_add(a.z, b.z) }
}

pub fn v3_sub(a: Vec3Fx, b: Vec3Fx) -> (r: Vec3Fx)
    ensures
        r == spec_v3_sub(a, b),
{
    Vec3Fx { x: fx_sub(a.x, b.x), y: fx_sub(a.y, b.y), z: fx_sub(a.z, b.z) }
}

pub fn v3_scale(a: Vec3Fx, s: i64) -> (r: Vec3Fx)
    ensures
        r == spec_v3_scale(a, s as int),
{
    Vec3Fx { x: fx_mul(a.x, s), y: fx_mul(a.y, s), z: fx_mul(a.z, s) }
}

pub fn v3_dot(a: Vec3Fx, b: Vec3Fx) -> (r: i64)
    ensures
        r as int == spec_v3_dot(a, b),
{
    fx_add(fx_add(fx_mul(a.x, b.x), fx_mul(a.y, b.y)), fx_mul(a.z, b.z))
}

pub fn v3_cross(a: Vec3Fx, b: Vec3Fx) -> (r: Vec3Fx)
    ensures
        r == spec_v3_cross(a, b),
{
    Vec3Fx {
        x: fx_sub(fx_mul(a.y, b.z), fx_mul(a.z, b.y)),
        y: fx_sub(fx_mul(a.z, b.x), fx_mul(a.x, b.z)),
        z: fx_sub(fx_mul(a.x, b.y), fx_mul(a.y, b.x)),
    }
}

/// Length of a vector.
pub fn v3_len(a: Vec3Fx) -> (r: i64)
    ensures
        r as int == spec_v3_len(a),
        r >= 0,
{
    proof {
        assert((a.x as int) * (a.x as int) <= 0x40000000000000000000000000000000int
            && (a.x as int) * (a.x as int) >= 0) by (nonlinear_arith)
            requires
                -0x8000000000000000int <= a.x as int <= 0x7FFFFFFFFFFFFFFFint,
        ;
        assert((a.y as int) * (a.y as int) <= 0x40000000000000000000000000000000int
            && (a.y as int) * (a.y as int) >= 0) by (nonlinear_arith)
            requires
                -0x8000000000000000int <= a.y as int <= 0x7FFFFFFFFFFFFFFFint,
        ;
        assert((a.z as int) * (a.z as int) <= 0x40000000000000000000000000000000int
            && (a.z as int) * (a.z as int) >= 0) by (nonlinear_arith)
            requires
                -0x8000000000000000int <= a.z as int <= 0x7FFFFFFFFFFFFFFFint,
        ;
    }
    let xx: u128 = ((a.x as i128) * (a.x as i128)) as u128;
    let yy: u128 = ((a.y as i128) * (a.y as i128)) as u128;
    let zz: u128 = ((a.z as i128) * (a.z as i128)) as u128;
    let n: u128 = xx + yy + zz;
    let s: u64 = isqrt_u128(n);
    proof {
        lemma_isqrt_is(n as int, s as int);
    }
    if s > 0x7FFFFFFFFFFFFFFFu64 {
        i64::MAX
    } else {
        s as i64
    }
}

/// Scale a vector to unit length; the zero vector stays zero.
pub fn v3_normalize(a: Vec3Fx) -> (r: Vec3Fx)
    ensures
        r == spec_v3_normalize(a),
{
    let l: i64 = v3_len(a);
    if l == 0 {
        Vec3Fx { x: 0, y: 0, z: 0 }
    } else {
        Vec3Fx { x: fx_div(a.x, l), y: fx_div(a.y, l), z: fx_div(a.z, l) }
    }
}

} // verus!
