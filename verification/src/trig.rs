//! Fixed-point sine and cosine.
//!
//! Angles are Q47.16 radians. The argument is reduced modulo two pi, folded
//! into the quarter period by the usual symmetries, and finished with a
//! truncated Taylor polynomial. At zero both functions are exact:
//! `fx_sin(0) == 0` and `fx_cos(0) == FX_ONE`.

use vstd::prelude::*;
use crate::fixed::{
    fx_add, fx_div, fx_mul, fx_neg, fx_rem, fx_sub, rem_trunc, spec_fx_add, spec_fx_div,
    spec_fx_mul, spec_fx_neg, spec_fx_sub, FX_HALF_PI, FX_ONE, FX_PI, FX_TWO_PI,
};

verus! {

/// The argument reduced into `[-FX_PI, FX_PI]`.
pub open spec fn reduce_pi(a: int) -> int {
    let m = rem_trunc(a, FX_TWO_PI as int);
    if m > FX_PI as int {
        m - FX_TWO_PI as int
    } else if m < -(FX_PI as int) {
        m + FX_TWO_PI as int
    } else {
        m
    }
}

/// Odd fold of a reduced argument into `[-FX_HALF_PI, FX_HALF_PI]`, using
/// `sin(x) == sin(pi - x)`.
pub open spec fn fold_sin(m: int) -> int {
    if m > FX_HALF_PI as int {
        FX_PI as int - m
    } else if m < -(FX_HALF_PI as int) {
        -(FX_PI as int) - m
    } else {
        m
    }
}

/// Taylor polynomial of sine: `x - x^3/6 + x^5/120 - x^7/5040`.
pub open spec fn sin_poly(x: int) -> int {
    let x2 = spec_fx_mul(x, x);
    let x3 = spec_fx_mul(x2, x);
    let x5 = spec_fx_mul(x3, x2);
    let x7 = spec_fx_mul(x5, x2);
    let t3 = spec_fx_div(x3, 6 * FX_ONE as int);
    let t5 = spec_fx_div(x5, 120 * FX_ONE as int);
    let t7 = spec_fx_div(x7, 5040 * FX_ONE as int);
    spec_fx_sub(spec_fx_add(spec_fx_sub(x, t3), t5), t7)
}

/// Taylor polynomial of cosine: `1 - x^2/2 + x^4/24 - x^6/720`.
pub open spec fn cos_poly(x: int) -> int {
    let x2 = spec_fx_mul(x, x);
    let x4 = spec_fx_mul(x2, x2);
    let x6 = spec_fx_mul(x4, x2);
    let t2 = spec_fx_div(x2, 2 * FX_ONE as int);
    let t4 = spec_fx_div(x4, 24 * FX_ONE as int);
    let t6 = spec_fx_div(x6, 720 * FX_ONE as int);
    spec_fx_sub(spec_fx_add(spec_fx_sub(FX_ONE as int, t2), t4), t6)
}

pub open spec fn spec_fx_sin(a: int) -> int {
    sin_poly(fold_sin(reduce_pi(a)))
}

/// Even fold for cosine: `cos(x) == cos(|x|)` and, above the quarter
/// period, `cos(x) == -cos(pi - x)`.
pub open spec fn spec_fx_cos(a: int) -> int {
    let m = reduce_pi(a);
    let x = if m >= 0 { m } else { -m };
    if x > FX_HALF_PI as int {
        spec_fx_neg(cos_poly(FX_PI as int - x))
    } else {
        cos_poly(x)
    }
}

/// Fixed-point sine of an angle in radians.
pub fn fx_sin(a: i64) -> (r: i64)
    ensures
        r as int == spec_fx_sin(a as int),
{
    let m0: i64 = fx_rem(a, FX_TWO_PI);
    let m: i64 = if m0 > FX_PI {
        m0 - FX_TWO_PI
    } else if m0 < -FX_PI {
        m0 + FX_TWO_PI
    } else {
        m0
    };
    let x: i64 = if m > FX_HALF_PI {
        FX_PI - m
    } else if m < -FX_HALF_PI {
        -FX_PI - m
    } else {
        m
    };
    let x2: i64 = fx_mul(x, x);
    let x3: i64 = fx_mul(x2, x);
    let x5: i64 = fx_mul(x3, x2);
    let x7: i64 = fx_mul(x5, x2);
    let t3: i64 = fx_div(x3, 6 * FX_ONE);
    let t5: i64 = fx_div(x5, 120 * FX_ONE);
    let t7: i64 = fx_div(x7, 5040 * FX_ONE);
    fx_sub(fx_add(fx_sub(x, t3), t5), t7)
}

/// Fixed-point cosine of an angle in radians.
pub fn fx_cos(a: i64) -> (r: i64)
    ensures
        r as int == spec_fx_cos(a as int),
{
    let m0: i64 = fx_rem(a, FX_TWO_PI);
    let m: i64 = if m0 > FX_PI {
        m0 - FX_TWO_PI
    } else if m0 < -FX_PI {
        m0 + FX_TWO_PI
    } else {
        m0
    };
    let x: i64 = if m >= 0 {
        m
    } else {
        -m
    };
    if x > FX_HALF_PI {
        let y: i64 = FX_PI - x;
        let c: i64 = cos_poly_exec(y);
        fx_neg(c)
    } else {
        cos_poly_exec(x)
    }
}

fn cos_poly_exec(x: i64) -> (r: i64)
    ensures
        r as int == cos_poly(x as int),
{
    let x2: i64 = fx_mul(x, x);
    let x4: i64 = fx_mul(x2, x2);
    let x6: i64 = fx_mul(x4, x2);
    let t2: i64 = fx_div(x2, 2 * FX_ONE);
    let t4: i64 = fx_div(x4, 24 * FX_ONE);
    let t6: i64 = fx_div(x6, 720 * FX_ONE);
    fx_sub(fx_add(fx_sub(FX_ONE, t2), t4), t6)
}

} // verus!
