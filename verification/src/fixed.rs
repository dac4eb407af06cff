//! Saturating fixed-point arithmetic.
//!
//! Every scalar of the layout engine (pixel coordinate, fraction, opacity,
//! font size, time) is an `i64` holding the value scaled by [`FX_SCALE`]:
//! one unit is 1/10000. Arithmetic rounds quotients toward zero and
//! saturates at [`FX_MAX`], so every operation is total and exactly
//! specified.

use vstd::prelude::*;

verus! {

/// One fixed-point unit is 1/10000: `FX_SCALE` is the representation of 1.0.
pub const FX_SCALE: i64 = 10000;

/// Representation of 0.5.
pub const FX_HALF: i64 = 5000;

/// Representation of -0.5.
pub const FX_NEG_HALF: i64 = -5000;

/// Saturation bound of all fixed-point arithmetic in this crate.
pub const FX_MAX: i64 = 1000000000000000;

/// The lower saturation bound: `-FX_MAX`.
pub const FX_NEG_MAX: i64 = -1000000000000000;

/// Representation of -1.0.
pub const FX_NEG_SCALE: i64 = -10000;

/// Magnitude of `x`.
pub open spec fn sabs(x: int) -> int {
    if x >= 0 {
        x
    } else {
        -x
    }
}

/// Quotient of `a / b` rounded toward zero (the rounding convention of this
/// crate); defined as 0 when `b == 0`.
pub open spec fn tdiv(a: int, b: int) -> int {
    if b == 0 {
        0
    } else if (a >= 0) == (b >= 0) {
        sabs(a) / sabs(b)
    } else {
        -(sabs(a) / sabs(b))
    }
}

/// Saturate `x` into the representable range.
pub open spec fn fx_clamp(x: int) -> int {
    if x > FX_MAX as int {
        FX_MAX as int
    } else if x < -(FX_MAX as int) {
        -(FX_MAX as int)
    } else {
        x
    }
}

/// Whether `x` is a representable fixed-point value.
pub open spec fn fx_in_range(x: int) -> bool {
    -(FX_MAX as int) <= x <= FX_MAX as int
}

/// Saturating sum.
pub open spec fn fx_add_s(a: int, b: int) -> int {
    fx_clamp(a + b)
}

/// Saturating difference.
pub open spec fn fx_sub_s(a: int, b: int) -> int {
    fx_clamp(a - b)
}

/// Saturating fixed-point product: `a * b` descaled by [`FX_SCALE`].
pub open spec fn fx_mul_s(a: int, b: int) -> int {
    fx_clamp(tdiv(a * b, FX_SCALE as int))
}

/// Saturating fixed-point quotient: `a / b` rescaled by [`FX_SCALE`];
/// 0 when `b == 0`.
pub open spec fn fx_div_s(a: int, b: int) -> int {
    fx_clamp(tdiv(a * FX_SCALE, b))
}

/// Saturate a wide intermediate into an `i64` fixed-point value.
fn clamp128(x: i128) -> (r: i64)
    ensures
        r as int == fx_clamp(x as int),
        fx_in_range(r as int),
{
    if x > FX_MAX as i128 {
        FX_MAX
    } else if x < -(FX_MAX as i128) {
        -FX_MAX
    } else {
        x as i64
    }
}

/// Quotient rounded toward zero, on wide intermediates.
fn tdiv_i128(a: i128, b: i128) -> (r: i128)
    requires
        b != 0,
        -(0x7fffffffffffffffffffffffffffffffi128 as int) <= a as int,
        -(0x7fffffffffffffffffffffffffffffffi128 as int) <= b as int,
    ensures
        r as int == tdiv(a as int, b as int),
{
    let ua: u128 = if a >= 0 {
        a as u128
    } else {
        (-a) as u128
    };
    let ub: u128 = if b >= 0 {
        b as u128
    } else {
        (-b) as u128
    };
    let q: u128 = ua / ub;
    assert(ua as int == sabs(a as int));
    assert(ub as int == sabs(b as int));
    assert(q as int == sabs(a as int) / sabs(b as int));
    assert(q < 0x80000000000000000000000000000000u128) by {
        assert(q <= ua) by {
            vstd::arithmetic::div_mod::lemma_div_is_ordered_by_denominator(
                ua as int,
                1,
                ub as int,
            );
        }
    }
    if (a >= 0) == (b >= 0) {
        q as i128
    } else {
        -(q as i128)
    }
}

/// Saturating sum of two fixed-point values.
pub fn fx_add(a: i64, b: i64) -> (r: i64)
    ensures
        r as int == fx_add_s(a as int, b as int),
        fx_in_range(r as int),
{
    clamp128(a as i128 + b as i128)
}

/// Saturating difference of two fixed-point values.
pub fn fx_sub(a: i64, b: i64) -> (r: i64)
    ensures
        r as int == fx_sub_s(a as int, b as int),
        fx_in_range(r as int),
{
    clamp128(a as i128 - b as i128)
}

/// Saturating negation.
pub fn fx_neg(a: i64) -> (r: i64)
    ensures
        r as int == fx_clamp(-(a as int)),
        fx_in_range(r as int),
{
    clamp128(-(a as i128))
}

/// Saturating fixed-point product.
pub fn fx_mul(a: i64, b: i64) -> (r: i64)
    ensures
        r as int == fx_mul_s(a as int, b as int),
        fx_in_range(r as int),
{
    proof {
        lemma_i64_product_fits(a as int, b as int);
    }
    let p: i128 = (a as i128) * (b as i128);
    let q: i128 = tdiv_i128(p, FX_SCALE as i128);
    clamp128(q)
}

/// Saturating fixed-point quotient; 0 when the divisor is 0.
pub fn fx_div(a: i64, b: i64) -> (r: i64)
    ensures
        r as int == fx_div_s(a as int, b as int),
        fx_in_range(r as int),
{
    if b == 0 {
        assert(fx_div_s(a as int, 0) == 0);
        0
    } else {
        proof {
            lemma_i64_product_fits(a as int, FX_SCALE as int);
        }
        let p: i128 = (a as i128) * (FX_SCALE as i128);
        let q: i128 = tdiv_i128(p, b as i128);
        clamp128(q)
    }
}

/// A whole-number multiple of a fixed-point value, saturated.
pub open spec fn fx_nmul_s(k: int, v: int) -> int {
    fx_clamp(k * v)
}

/// Multiply a fixed-point value by a whole count, saturating.
pub fn fx_nmul(k: usize, v: i64) -> (r: i64)
    ensures
        r as int == fx_nmul_s(k as int, v as int),
        fx_in_range(r as int),
{
    proof {
        lemma_count_product_fits(k as int, v as int);
    }
    let p: i128 = (k as i128) * (v as i128);
    clamp128(p)
}

/// The product of a count and an `i64` fits in the wide intermediate range.
proof fn lemma_count_product_fits(k: int, v: int)
    requires
        0 <= k < 0x10000000000000000,
        -0x8000000000000000 <= v <= 0x7fffffffffffffff,
    ensures
        -(0x7fffffffffffffffffffffffffffffffi128 as int) <= k * v,
        k * v <= 0x7fffffffffffffffffffffffffffffffi128 as int,
{
    assert(sabs(k * v) <= 0xffffffffffffffff * 0x8000000000000000) by (nonlinear_arith)
        requires
            0 <= k < 0x10000000000000000,
            -0x8000000000000000 <= v <= 0x7fffffffffffffff,
    ;
}

/// Remainder of two nonnegative values.
pub fn fx_rem_nonneg(a: i64, b: i64) -> (r: i64)
    requires
        a >= 0,
        b > 0,
    ensures
        r as int == (a as int) % (b as int),
        0 <= r < b,
{
    let q: u64 = (a as u64) % (b as u64);
    q as i64
}

/// Smaller of two values.
pub fn fx_min(a: i64, b: i64) -> (r: i64)
    ensures
        r as int == if a as int <= b as int {
            a as int
        } else {
            b as int
        },
{
    if a <= b {
        a
    } else {
        b
    }
}

/// Larger of two values.
pub fn fx_max(a: i64, b: i64) -> (r: i64)
    ensures
        r as int == if a as int >= b as int {
            a as int
        } else {
            b as int
        },
{
    if a >= b {
        a
    } else {
        b
    }
}

/// When `b` divides `a * FX_SCALE` the fixed-point quotient is exact, in the
/// sense that re-multiplying recovers `a`.
pub proof fn lemma_tdiv_exact(q: int, b: int)
    requires
        b > 0,
    ensures
        tdiv(q * b, b) == q,
{
    if q >= 0 {
        assert(q * b >= 0) by (nonlinear_arith)
            requires
                q >= 0,
                b > 0,
        ;
        assert((q * b) / b == q) by {
            vstd::arithmetic::div_mod::lemma_div_by_multiple(q, b);
        }
    } else {
        assert(q * b < 0 && -(q * b) == (-q) * b) by (nonlinear_arith)
            requires
                q < 0,
                b > 0,
        ;
        assert(((-q) * b) / b == -q) by {
            vstd::arithmetic::div_mod::lemma_div_by_multiple(-q, b);
        }
    }
}

/// The product of two `i64` values fits in the wide intermediate range.
proof fn lemma_i64_product_fits(a: int, b: int)
    requires
        -0x8000000000000000 <= a <= 0x7fffffffffffffff,
        -0x8000000000000000 <= b <= 0x7fffffffffffffff,
    ensures
        -(0x7fffffffffffffffffffffffffffffffi128 as int) <= a * b,
        a * b <= 0x7fffffffffffffffffffffffffffffffi128 as int,
{
    assert(sabs(a * b) <= 0x8000000000000000 * 0x8000000000000000) by (nonlinear_arith)
        requires
            -0x8000000000000000 <= a <= 0x7fffffffffffffff,
            -0x8000000000000000 <= b <= 0x7fffffffffffffff,
    ;
}

} // verus!
