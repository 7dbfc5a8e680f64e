//! Q47.16 fixed-point scalars.
//!
//! A raw `i64` value `v` denotes the real number `v / 65536`. All operations
//! saturate at the `i64` range, so every scalar function is total and its
//! result is pinned exactly by the contract. Division and remainder truncate
//! toward zero, like the hardware operations they replace.

use vstd::prelude::*;

verus! {

/// Denominator of the fixed-point representation.
pub const FX_SCALE: i64 = 65536;
/// The scalar 1.0.
pub const FX_ONE: i64 = 65536;
/// The closest representable value to the circle constant pi.
pub const FX_PI: i64 = 205887;
/// Two times `FX_PI`.
pub const FX_TWO_PI: i64 = 411774;
/// The closest representable value to pi / 2 (rounded up, so that
/// `FX_HALF_PI + FX_HALF_PI >= FX_PI`).
pub const FX_HALF_PI: i64 = 102944;
/// The closest representable value to pi / 180, one degree in radians.
pub const FX_DEG_TO_RAD: i64 = 1144;

/// Saturation to the `i64` range.
pub open spec fn sat64(x: int) -> int {
    if x > i64::MAX as int {
        i64::MAX as int
    } else if x < i64::MIN as int {
        i64::MIN as int
    } else {
        x
    }
}

pub open spec fn abs_int(x: int) -> int {
    if x >= 0 {
        x
    } else {
        -x
    }
}

/// Division truncating toward zero (`/` of the hardware on signed values).
pub open spec fn div_trunc(a: int, b: int) -> int
    recommends
        b != 0,
{
    if (a >= 0) == (b >= 0) {
        abs_int(a) / abs_int(b)
    } else {
        -(abs_int(a) / abs_int(b))
    }
}

/// Remainder truncating toward zero, for a positive modulus.
pub open spec fn rem_trunc(a: int, m: int) -> int
    recommends
        m > 0,
{
    if a >= 0 {
        a % m
    } else {
        -((-a) % m)
    }
}

pub open spec fn spec_fx_add(a: int, b: int) -> int {
    sat64(a + b)
}

pub open spec fn spec_fx_sub(a: int, b: int) -> int {
    sat64(a - b)
}

pub open spec fn spec_fx_neg(a: int) -> int {
    sat64(-a)
}

pub open spec fn spec_fx_mul(a: int, b: int) -> int {
    sat64(div_trunc(a * b, FX_SCALE as int))
}

pub open spec fn spec_fx_div(a: int, b: int) -> int
    recommends
        b != 0,
{
    sat64(div_trunc(a * (FX_SCALE as int), b))
}

/// Saturating fixed-point addition.
pub fn fx_add(a: i64, b: i64) -> (r: i64)
    ensures
        r as int == spec_fx_add(a as int, b as int),
{
    let s: i128 = (a as i128) + (b as i128);
    if s > (i64::MAX as i128) {
        i64::MAX
    } else if s < (i64::MIN as i128) {
        i64::MIN
    } else {
        s as i64
    }
}

/// Saturating fixed-point subtraction.
pub fn fx_sub(a: i64, b: i64) -> (r: i64)
    ensures
        r as int == spec_fx_sub(a as int, b as int),
{
    let s: i128 = (a as i128) - (b as i128);
    if s > (i64::MAX as i128) {
        i64::MAX
    } else if s < (i64::MIN as i128) {
        i64::MIN
    } else {
        s as i64
    }
}

/// Saturating negation.
pub fn fx_neg(a: i64) -> (r: i64)
    ensures
        r as int == spec_fx_neg(a as int),
{
    if a == i64::MIN {
        i64::MAX
    } else {
        -a
    }
}

/// Clamp `x` into `[lo, hi]`.
pub fn fx_clamp(x: i64, lo: i64, hi: i64) -> (r: i64)
    requires
        lo <= hi,
    ensures
        r == if x < lo { lo } else if x > hi { hi } else { x },
        lo <= r <= hi,
{
    if x < lo {
        lo
    } else if x > hi {
        hi
    } else {
        x
    }
}

/// Saturating fixed-point multiplication: `(a * b) / 65536`, truncated
/// toward zero.
pub fn fx_mul(a: i64, b: i64) -> (r: i64)
    ensures
        r as int == spec_fx_mul(a as int, b as int),
{
    proof {
        assert((a as int) * (b as int) < 0x80000000000000000000000000000000int
            && (a as int) * (b as int) > -0x80000000000000000000000000000000int)
            by (nonlinear_arith)
            requires
                -0x8000000000000000int <= a as int <= 0x7FFFFFFFFFFFFFFFint,
                -0x8000000000000000int <= b as int <= 0x7FFFFFFFFFFFFFFFint,
        ;
        assert(((a < 0) != (b < 0)) ==> (a as int) * (b as int) <= 0) by (nonlinear_arith);
        assert(((a < 0) == (b < 0)) ==> (a as int) * (b as int) >= 0) by (nonlinear_arith);
    }
    let p: i128 = (a as i128) * (b as i128);
    let neg: bool = (a < 0) != (b < 0);
    let mag: u128 = if p >= 0 {
        p as u128
    } else {
        (-p) as u128
    };
    let q: u128 = mag / 65536u128;
    if neg {
        if q >= 9223372036854775808u128 {
            i64::MIN
        } else {
            -(q as i64)
        }
    } else {
        if q > 9223372036854775807u128 {
            i64::MAX
        } else {
            q as i64
        }
    }
}

/// Saturating fixed-point division: `(a * 65536) / b`, truncated toward
/// zero.
pub fn fx_div(a: i64, b: i64) -> (r: i64)
    requires
        b != 0,
    ensures
        r as int == spec_fx_div(a as int, b as int),
{
    let p: i128 = (a as i128) * 65536i128;
    let neg: bool = (a < 0) != (b < 0);
    let magn: u128 = if p >= 0 {
        p as u128
    } else {
        (-p) as u128
    };
    let magd: u128 = if b >= 0 {
        b as u128
    } else {
        (-(b as i128)) as u128
    };
    let q: u128 = magn / magd;
    if neg {
        if q >= 9223372036854775808u128 {
            i64::MIN
        } else {
            -(q as i64)
        }
    } else {
        if q > 9223372036854775807u128 {
            i64::MAX
        } else {
            q as i64
        }
    }
}

/// Remainder of `a` modulo a positive `m`, truncating toward zero: the
/// result has the sign of `a` and magnitude below `m`.
pub fn fx_rem(a: i64, m: i64) -> (r: i64)
    requires
        m > 0,
    ensures
        r as int == rem_trunc(a as int, m as int),
        -(m as int) < (r as int),
        (r as int) < (m as int),
{
    let am: u128 = if a >= 0 {
        a as u128
    } else {
        (-(a as i128)) as u128
    };
    let rm: u128 = am % (m as u128);
    if a >= 0 {
        rm as i64
    } else {
        -(rm as i64)
    }
}

/// Integer square root, rounded down.
pub fn isqrt_u128(n: u128) -> (r: u64)
    ensures
        (r as int) * (r as int) <= n as int,
        (n as int) < (r as int + 1) * (r as int + 1),
{
    let mut lo: u128 = 0;
    let mut hi: u128 = 0x10000000000000000u128;
    proof {
        assert((hi as int) * (hi as int) > n as int) by (nonlinear_arith)
            requires
                hi as int == 0x10000000000000000int,
                0 <= n as int && (n as int) < 0x100000000000000000000000000000000int,
        ;
    }
    while lo + 1 < hi
        invariant
            lo < hi <= 0x10000000000000000u128,
            (lo as int) * (lo as int) <= n as int,
            (n as int) < (hi as int) * (hi as int),
        decreases hi - lo,
    {
        let mid: u128 = lo + (hi - lo) / 2;
        proof {
            assert((mid as int) * (mid as int) < 0x100000000000000000000000000000000int)
                by (nonlinear_arith)
                requires
                    0 <= mid as int <= 0xFFFFFFFFFFFFFFFFint,
            ;
        }
        if mid * mid <= n {
            lo = mid;
        } else {
            hi = mid;
        }
    }
    lo as u64
}

} // verus!
