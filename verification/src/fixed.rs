//! Saturating fixed-point arithmetic on `i64` values scaled by `FX_SCALE`.
//!
//! A world coordinate `w` is stored as the integer `w * FX_SCALE`
//! (millionths of a world unit). Every operation clamps its result into
//! `[-FX_LIMIT, FX_LIMIT]`, so all operations are total and every stored
//! quantity stays inside that range.

use vstd::prelude::*;

verus! {

/// Number of fixed-point units in one world unit.
pub const FX_SCALE: i64 = 1_000_000;

/// Largest magnitude a fixed-point quantity may take; every operation
/// saturates into `[-FX_LIMIT, FX_LIMIT]`.
pub const FX_LIMIT: i64 = 0x7fff_ffff_ffff;

/// Whether `v` lies in the saturation range.
pub open spec fn in_fx_range(v: int) -> bool {
    -FX_LIMIT <= v <= FX_LIMIT
}

/// `v` clamped into the saturation range.
pub open spec fn clamp_fx(v: int) -> int {
    if v > FX_LIMIT as int {
        FX_LIMIT as int
    } else if v < -(FX_LIMIT as int) {
        -(FX_LIMIT as int)
    } else {
        v
    }
}

/// Magnitude of `a`.
pub open spec fn abs_int(a: int) -> int {
    if a >= 0 {
        a
    } else {
        -a
    }
}

/// For nonnegative factors, products respect upper bounds.
pub proof fn lemma_mul_le(x: int, y: int, xb: int, yb: int)
    requires
        0 <= x <= xb,
        0 <= y <= yb,
    ensures
        x * y <= xb * yb,
{
    assert(x * y <= xb * yb) by (nonlinear_arith)
        requires
            0 <= x <= xb,
            0 <= y <= yb,
    ;
}

/// Magnitude of `a`, exactly, as an unsigned value.
fn abs_u128(a: i64) -> (r: u128)
    ensures
        r == abs_int(a as int),
{
    if a >= 0 {
        a as u128
    } else {
        (-(a as i128)) as u128
    }
}

/// Clamp the signed value of magnitude `m` (negative iff `neg`) into range.
fn clamp_mag(m: u128, neg: bool) -> (r: i64)
    ensures
        r == clamp_fx(if neg { -(m as int) } else { m as int }),
{
    if m > FX_LIMIT as u128 {
        if neg {
            -FX_LIMIT
        } else {
            FX_LIMIT
        }
    } else {
        if neg {
            -(m as i64)
        } else {
            m as i64
        }
    }
}

/// Saturating fixed-point sum.
pub fn fx_add(a: i64, b: i64) -> (r: i64)
    ensures
        r == clamp_fx(a + b),
        in_fx_range(r as int),
{
    let s: i128 = a as i128 + b as i128;
    if s > FX_LIMIT as i128 {
        FX_LIMIT
    } else if s < -(FX_LIMIT as i128) {
        -FX_LIMIT
    } else {
        s as i64
    }
}

/// Saturating fixed-point difference.
pub fn fx_sub(a: i64, b: i64) -> (r: i64)
    ensures
        r == clamp_fx(a - b),
        in_fx_range(r as int),
{
    let s: i128 = a as i128 - b as i128;
    if s > FX_LIMIT as i128 {
        FX_LIMIT
    } else if s < -(FX_LIMIT as i128) {
        -FX_LIMIT
    } else {
        s as i64
    }
}

/// Fixed-point product before clamping: magnitudes are multiplied, scaled
/// back down by `FX_SCALE` (truncating), and the sign is reapplied.
pub open spec fn fx_mul_raw(a: int, b: int) -> int {
    let m = (abs_int(a) * abs_int(b)) / (FX_SCALE as int);
    if (a < 0) != (b < 0) {
        -m
    } else {
        m
    }
}

/// Saturating fixed-point product.
pub open spec fn fx_mul_spec(a: int, b: int) -> int {
    clamp_fx(fx_mul_raw(a, b))
}

/// Saturating fixed-point multiplication.
pub fn fx_mul(a: i64, b: i64) -> (r: i64)
    ensures
        r == fx_mul_spec(a as int, b as int),
        in_fx_range(r as int),
{
    let ma = abs_u128(a);
    let mb = abs_u128(b);
    proof {
        lemma_mul_le(ma as int, mb as int, 0x8000_0000_0000_0000, 0x8000_0000_0000_0000);
    }
    let m: u128 = ma * mb / (FX_SCALE as u128);
    clamp_mag(m, (a < 0) != (b < 0))
}

/// Fixed-point quotient before clamping. Division by zero yields the
/// saturation bound with the sign of the dividend, standing in for the
/// infinities that exact division would produce.
pub open spec fn fx_div_raw(a: int, b: int) -> int {
    if b == 0 {
        if a >= 0 {
            FX_LIMIT as int
        } else {
            -(FX_LIMIT as int)
        }
    } else {
        let m = (abs_int(a) * (FX_SCALE as int)) / abs_int(b);
        if (a < 0) != (b < 0) {
            -m
        } else {
            m
        }
    }
}

/// Saturating fixed-point quotient.
pub open spec fn fx_div_spec(a: int, b: int) -> int {
    clamp_fx(fx_div_raw(a, b))
}

/// Saturating fixed-point division.
pub fn fx_div(a: i64, b: i64) -> (r: i64)
    ensures
        r == fx_div_spec(a as int, b as int),
        in_fx_range(r as int),
{
    if b == 0 {
        if a >= 0 {
            FX_LIMIT
        } else {
            -FX_LIMIT
        }
    } else {
        let ma = abs_u128(a);
        let mb = abs_u128(b);
        proof {
            lemma_mul_le(ma as int, FX_SCALE as int, 0x8000_0000_0000_0000, FX_SCALE as int);
        }
        let m: u128 = ma * (FX_SCALE as u128) / mb;
        clamp_mag(m, (a < 0) != (b < 0))
    }
}

/// Half of `a`, truncated toward zero.
pub open spec fn fx_half_spec(a: int) -> int {
    if a >= 0 {
        a / 2
    } else {
        -((-a) / 2)
    }
}

/// Halve a fixed-point value, truncating toward zero.
pub fn fx_half(a: i64) -> (r: i64)
    ensures
        r == fx_half_spec(a as int),
        in_fx_range(a as int) ==> in_fx_range(r as int),
{
    let m = abs_u128(a) / 2;
    if a >= 0 {
        m as i64
    } else {
        -(m as i64)
    }
}

/// A whole number of world units as a fixed-point value.
pub fn int_to_fx(v: i64) -> (r: i64)
    requires
        -140_737_488 <= v <= 140_737_488,
    ensures
        r == v * FX_SCALE,
        in_fx_range(r as int),
{
    v * FX_SCALE
}

/// Magnitude of an in-range fixed-point value.
pub fn abs_i64(a: i64) -> (r: i64)
    requires
        in_fx_range(a as int),
    ensures
        r == abs_int(a as int),
        in_fx_range(r as int),
{
    if a >= 0 {
        a
    } else {
        -a
    }
}

/// Floor division, the quotient rounded toward negative infinity: for a
/// positive divisor this is exactly the `/` of the specification language.
pub fn floor_div(a: i64, b: i64) -> (r: i64)
    requires
        b > 0,
    ensures
        r == a as int / b as int,
{
    if a >= 0 {
        a / b
    } else {
        let m: i128 = -(a as i128);
        let q: i128 = (m + b as i128 - 1) / (b as i128);
        proof {
            assert(-q == a as int / b as int) by (nonlinear_arith)
                requires
                    a < 0,
                    b > 0,
                    m == -(a as int),
                    q == (m + b - 1) / (b as int),
            ;
            assert(q <= m) by (nonlinear_arith)
                requires
                    m >= 1,
                    b >= 1,
                    q == (m + b - 1) / (b as int),
            ;
        }
        (-q) as i64
    }
}

/// Whole-unit part of `a`, truncated toward zero (the fixed-point
/// counterpart of casting to an integer).
pub open spec fn fx_trunc_spec(a: int) -> int {
    if a >= 0 {
        a / (FX_SCALE as int)
    } else {
        -((-a) / (FX_SCALE as int))
    }
}

/// Truncate a fixed-point value to whole world units.
pub fn fx_trunc(a: i64) -> (r: i64)
    ensures
        r == fx_trunc_spec(a as int),
        abs_int(r as int) <= abs_int(a as int) / (FX_SCALE as int),
        in_fx_range(a as int) ==> -140_737_489 < r < 140_737_489,
{
    let m = abs_u128(a) / (FX_SCALE as u128);
    proof {
        if in_fx_range(a as int) {
            assert(m < 140_737_489) by (nonlinear_arith)
                requires
                    m == abs_int(a as int) / 1_000_000,
                    0 <= abs_int(a as int) <= 0x7fff_ffff_ffff,
            ;
        }
    }
    if a >= 0 {
        m as i64
    } else {
        -(m as i64)
    }
}

} // verus!
