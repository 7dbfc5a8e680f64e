//! Fixed-point scalar, trig and vector arithmetic.

use daedalus::fixed::{
    fx_add, fx_clamp, fx_div, fx_mul, fx_neg, fx_rem, fx_sub, isqrt_u128, FX_HALF_PI, FX_ONE,
    FX_PI, FX_TWO_PI,
};
use daedalus::trig::{fx_cos, fx_sin};
use daedalus::vec3::{v3_add, v3_cross, v3_dot, v3_len, v3_normalize, v3_scale, v3_sub, Vec3Fx};

#[test]
fn fx_mul_exact_values() {
    // 2.0 * 3.0 == 6.0
    assert_eq!(fx_mul(2 * FX_ONE, 3 * FX_ONE), 6 * FX_ONE);
    // 0.5 * 0.5 == 0.25
    assert_eq!(fx_mul(FX_ONE / 2, FX_ONE / 2), FX_ONE / 4);
    // sign handling, truncation toward zero
    assert_eq!(fx_mul(-3 * FX_ONE, 2 * FX_ONE), -6 * FX_ONE);
    assert_eq!(fx_mul(1, 1), 0); // (1/65536)^2 truncates to zero
    assert_eq!(fx_mul(-1, 1), 0); // toward zero, not toward minus infinity
    assert_eq!(fx_mul(7 * FX_ONE, 0), 0);
    assert_eq!(fx_mul(5 * FX_ONE, FX_ONE), 5 * FX_ONE);
}

#[test]
fn fx_mul_saturates() {
    assert_eq!(fx_mul(i64::MAX, i64::MAX), i64::MAX);
    assert_eq!(fx_mul(i64::MAX, -i64::MAX), i64::MIN);
    assert_eq!(fx_mul(i64::MIN, i64::MIN), i64::MAX);
}

#[test]
fn fx_div_exact_values() {
    assert_eq!(fx_div(6 * FX_ONE, 3 * FX_ONE), 2 * FX_ONE);
    assert_eq!(fx_div(FX_ONE, 2 * FX_ONE), FX_ONE / 2);
    // -1.5 truncated toward zero at finer scales
    assert_eq!(fx_div(-3 * FX_ONE, 2 * FX_ONE), -(3 * FX_ONE) / 2);
    assert_eq!(fx_div(-1, 3 * FX_ONE), 0);
    assert_eq!(fx_div(0, -5 * FX_ONE), 0);
}

#[test]
fn fx_add_sub_neg_saturate() {
    assert_eq!(fx_add(i64::MAX, 1), i64::MAX);
    assert_eq!(fx_sub(i64::MIN, 1), i64::MIN);
    assert_eq!(fx_add(2 * FX_ONE, 3 * FX_ONE), 5 * FX_ONE);
    assert_eq!(fx_neg(i64::MIN), i64::MAX);
    assert_eq!(fx_neg(7), -7);
}

#[test]
fn fx_clamp_and_rem() {
    assert_eq!(fx_clamp(5, -3, 3), 3);
    assert_eq!(fx_clamp(-5, -3, 3), -3);
    assert_eq!(fx_clamp(1, -3, 3), 1);
    assert_eq!(fx_rem(7, 3), 1);
    assert_eq!(fx_rem(-7, 3), -1); // sign of the dividend
    assert_eq!(fx_rem(6, 3), 0);
}

#[test]
fn isqrt_values() {
    assert_eq!(isqrt_u128(0), 0);
    assert_eq!(isqrt_u128(1), 1);
    assert_eq!(isqrt_u128(15), 3);
    assert_eq!(isqrt_u128(16), 4);
    assert_eq!(isqrt_u128(1_000_000), 1000);
    assert_eq!(isqrt_u128((1u128 << 80) - 1), (1u64 << 40) - 1);
    assert_eq!(isqrt_u128(u128::MAX), u64::MAX);
}

#[test]
fn trig_exact_at_zero() {
    assert_eq!(fx_sin(0), 0);
    assert_eq!(fx_cos(0), FX_ONE);
}

#[test]
fn trig_approximations() {
    // sin(pi/2) close to one, cos(pi) close to minus one
    assert!((fx_sin(FX_HALF_PI) - FX_ONE).abs() <= 64);
    assert!((fx_cos(FX_PI) + FX_ONE).abs() <= 64);
    assert!(fx_sin(FX_PI).abs() <= 64);
    // odd / even symmetry
    assert_eq!(fx_sin(-12345), -fx_sin(12345));
    assert_eq!(fx_cos(-12345), fx_cos(12345));
}

#[test]
fn trig_periodic_reduction() {
    // adding a full turn to a non-negative angle leaves the reduced
    // argument unchanged
    assert_eq!(fx_sin(100), fx_sin(100 + FX_TWO_PI));
    assert_eq!(fx_cos(54321), fx_cos(54321 + FX_TWO_PI));
}

#[test]
fn vec3_arithmetic() {
    let a = Vec3Fx { x: FX_ONE, y: 2 * FX_ONE, z: -FX_ONE };
    let b = Vec3Fx { x: 3 * FX_ONE, y: -FX_ONE, z: 2 * FX_ONE };
    assert_eq!(v3_add(a, b), Vec3Fx { x: 4 * FX_ONE, y: FX_ONE, z: FX_ONE });
    assert_eq!(v3_sub(a, b), Vec3Fx { x: -2 * FX_ONE, y: 3 * FX_ONE, z: -3 * FX_ONE });
    assert_eq!(v3_scale(a, 2 * FX_ONE), Vec3Fx { x: 2 * FX_ONE, y: 4 * FX_ONE, z: -2 * FX_ONE });
    // 1*3 + 2*(-1) + (-1)*2 == -1
    assert_eq!(v3_dot(a, b), -FX_ONE);
    // x cross y == z
    let x = Vec3Fx { x: FX_ONE, y: 0, z: 0 };
    let y = Vec3Fx { x: 0, y: FX_ONE, z: 0 };
    assert_eq!(v3_cross(x, y), Vec3Fx { x: 0, y: 0, z: FX_ONE });
}

#[test]
fn vec3_length_and_normalize() {
    let v = Vec3Fx { x: 3 * FX_ONE, y: 4 * FX_ONE, z: 0 };
    assert_eq!(v3_len(v), 5 * FX_ONE);
    let n = v3_normalize(Vec3Fx { x: 3 * FX_ONE, y: 0, z: 0 });
    assert_eq!(n, Vec3Fx { x: FX_ONE, y: 0, z: 0 });
    // the zero vector stays zero instead of dividing by zero
    assert_eq!(v3_normalize(Vec3Fx { x: 0, y: 0, z: 0 }), Vec3Fx { x: 0, y: 0, z: 0 });
}
