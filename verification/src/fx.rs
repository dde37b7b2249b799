//! Q32.32 fixed-point arithmetic on `i64`.
//!
//! A value `v` stands for the real number `v / 2^32`. All operations
//! saturate at the `i64` range and round toward zero, and each executable
//! operation is pinned to a spec-level definition, so every computation in
//! the engine is exact integer arithmetic with a known rounding rule.

use vstd::prelude::*;

verus! {

/// Number of raw units per 1.0.
pub const FX_SCALE: i64 = 0x1_0000_0000;

/// 1.0 in fixed point.
pub const FX_ONE: i64 = 0x1_0000_0000;

/// 2.0 in fixed point.
pub const FX_TWO: i64 = 0x2_0000_0000;

/// 4.0 in fixed point.
pub const FX_FOUR: i64 = 0x4_0000_0000;

/// Closest fixed-point value to pi/2.
pub const FX_HALF_PI: i64 = 6746518852;

/// Closest fixed-point value to pi.
pub const FX_PI: i64 = 13493037705;

/// Closest fixed-point value to 2*pi.
pub const FX_TWO_PI: i64 = 26986075409;

/// Closest fixed-point value to pi/180, for degree-to-radian conversion.
pub const FX_RAD_PER_DEG: i64 = 74961321;

/// Closest fixed-point value to 180/pi, for radian-to-degree conversion.
pub const FX_DEG_PER_RAD: i64 = 246083499208;

/// Magnitude of an integer.
pub open spec fn iabs(a: int) -> int {
    if a >= 0 {
        a
    } else {
        -a
    }
}

/// Saturation to the `i64` range.
pub open spec fn fx_sat(v: int) -> int {
    if v > i64::MAX as int {
        i64::MAX as int
    } else if v < i64::MIN as int {
        i64::MIN as int
    } else {
        v
    }
}

/// Quotient of `a` by `b` rounded toward zero; `b` must not be zero.
pub open spec fn quot_toward_zero(a: int, b: int) -> int {
    if (a >= 0) == (b >= 0) {
        iabs(a) / iabs(b)
    } else {
        -(iabs(a) / iabs(b))
    }
}

/// Saturating fixed-point addition.
pub open spec fn spec_add(a: int, b: int) -> int {
    fx_sat(a + b)
}

/// Saturating fixed-point subtraction.
pub open spec fn spec_sub(a: int, b: int) -> int {
    fx_sat(a - b)
}

/// Saturating fixed-point negation.
pub open spec fn spec_neg(a: int) -> int {
    fx_sat(-a)
}

/// Saturating fixed-point magnitude.
pub open spec fn spec_abs(a: int) -> int {
    fx_sat(iabs(a))
}

/// Saturating fixed-point product: `a * b / 2^32`, rounded toward zero.
pub open spec fn spec_mul(a: int, b: int) -> int {
    fx_sat(quot_toward_zero(a * b, FX_SCALE as int))
}

/// Saturating fixed-point quotient: `a * 2^32 / b`, rounded toward zero.
/// Division by zero saturates in the direction of the dividend's sign,
/// mirroring the limit of `a / b` as `b` approaches zero from above.
pub open spec fn spec_div(a: int, b: int) -> int {
    if b == 0 {
        if a > 0 {
            i64::MAX as int
        } else if a < 0 {
            i64::MIN as int
        } else {
            0
        }
    } else {
        fx_sat(quot_toward_zero(a * (FX_SCALE as int), b))
    }
}

/// Magnitude of an `i64`, widened so that `i64::MIN` has a representation.
fn abs_u(a: i64) -> (r: u64)
    ensures
        r as int == iabs(a as int),
{
    let wide: i128 = a as i128;
    if wide < 0 {
        (-wide) as u64
    } else {
        a as u64
    }
}

/// Packs a sign and a magnitude back into a saturated `i64`.
fn sat_signed(neg: bool, magnitude: u128) -> (r: i64)
    ensures
        r as int == fx_sat(if neg { -(magnitude as int) } else { magnitude as int }),
{
    if neg {
        if magnitude > 0x8000_0000_0000_0000u128 {
            i64::MIN
        } else {
            (-(magnitude as i128)) as i64
        }
    } else {
        if magnitude > i64::MAX as u128 {
            i64::MAX
        } else {
            magnitude as i64
        }
    }
}

/// Saturating addition.
pub fn fx_add(a: i64, b: i64) -> (r: i64)
    ensures
        r as int == spec_add(a as int, b as int),
{
    let wide: i128 = (a as i128) + (b as i128);
    if wide > i64::MAX as i128 {
        i64::MAX
    } else if wide < i64::MIN as i128 {
        i64::MIN
    } else {
        wide as i64
    }
}

/// Saturating subtraction.
pub fn fx_sub(a: i64, b: i64) -> (r: i64)
    ensures
        r as int == spec_sub(a as int, b as int),
{
    let wide: i128 = (a as i128) - (b as i128);
    if wide > i64::MAX as i128 {
        i64::MAX
    } else if wide < i64::MIN as i128 {
        i64::MIN
    } else {
        wide as i64
    }
}

/// Saturating negation.
pub fn fx_neg(a: i64) -> (r: i64)
    ensures
        r as int == spec_neg(a as int),
{
    if a == i64::MIN {
        i64::MAX
    } else {
        -a
    }
}

/// Saturating magnitude.
pub fn fx_abs(a: i64) -> (r: i64)
    ensures
        r as int == spec_abs(a as int),
{
    if a < 0 {
        fx_neg(a)
    } else {
        a
    }
}

pub proof fn lemma_abs_mul(a: int, b: int)
    by (nonlinear_arith)
    ensures
        iabs(a) * iabs(b) == iabs(a * b),
        ((a >= 0) == (b >= 0)) ==> a * b >= 0,
        ((a >= 0) != (b >= 0)) ==> a * b <= 0,
        (a < 0 && b < 0) ==> a * b > 0,
{
}

/// Saturating fixed-point multiplication.
pub fn fx_mul(a: i64, b: i64) -> (r: i64)
    ensures
        r as int == spec_mul(a as int, b as int),
{
    let neg = (a < 0) != (b < 0);
    let ma = abs_u(a);
    let mb = abs_u(b);
    proof {
        assert((ma as int) * (mb as int) <= 0x8000_0000_0000_0000 * 0x8000_0000_0000_0000) by (
        nonlinear_arith)
            requires
                (ma as int) <= 0x8000_0000_0000_0000,
                (mb as int) <= 0x8000_0000_0000_0000,
        ;
    }
    let p: u128 = (ma as u128) * (mb as u128);
    let q: u128 = p / (FX_SCALE as u128);
    proof {
        lemma_abs_mul(a as int, b as int);
        let ab = (a as int) * (b as int);
        assert(p as int == iabs(ab));
        if neg && q > 0 {
            assert(ab <= 0);
            assert(quot_toward_zero(ab, FX_SCALE as int) == -(q as int));
        } else {
            assert(quot_toward_zero(ab, FX_SCALE as int) == q as int);
        }
    }
    sat_signed(neg && q > 0, q)
}

/// Saturating fixed-point division; division by zero saturates toward the
/// dividend's sign.
pub fn fx_div(a: i64, b: i64) -> (r: i64)
    ensures
        r as int == spec_div(a as int, b as int),
{
    if b == 0 {
        if a > 0 {
            i64::MAX
        } else if a < 0 {
            i64::MIN
        } else {
            0
        }
    } else {
        let neg = (a < 0) != (b < 0);
        let ma = abs_u(a);
        let mb = abs_u(b);
        proof {
            assert((ma as int) * (FX_SCALE as int) <= 0x8000_0000_0000_0000 * 0x1_0000_0000) by (
            nonlinear_arith)
                requires
                    (ma as int) <= 0x8000_0000_0000_0000,
            ;
        }
        let p: u128 = (ma as u128) * (FX_SCALE as u128);
        let q: u128 = p / (mb as u128);
        proof {
            lemma_abs_mul(a as int, FX_SCALE as int);
            let asc = (a as int) * (FX_SCALE as int);
            assert(p as int == iabs(asc));
            assert(a >= 0 ==> asc >= 0);
            assert(a < 0 ==> asc < 0) by (nonlinear_arith)
                requires
                    asc == (a as int) * (FX_SCALE as int),
            ;
            if neg && q > 0 {
                assert(quot_toward_zero(asc, b as int) == -(q as int));
            } else {
                assert(quot_toward_zero(asc, b as int) == q as int);
            }
        }
        sat_signed(neg && q > 0, q)
    }
}

/// `r` is the largest integer whose square does not exceed `n`.
pub open spec fn is_isqrt(n: int, r: int) -> bool {
    &&& r >= 0
    &&& r * r <= n
    &&& n < (r + 1) * (r + 1)
}

/// The integer square root (rounded down) of a non-negative integer.
pub open spec fn sqrt_floor(n: int) -> int {
    choose|r: int| is_isqrt(n, r)
}

/// The integer square root is unique, so any witness pins `sqrt_floor`.
pub proof fn lemma_sqrt_floor(n: int, r: int)
    requires
        is_isqrt(n, r),
    ensures
        sqrt_floor(n) == r,
{
    assert(is_isqrt(n, sqrt_floor(n))) by {
        assert(exists|q: int| is_isqrt(n, q));
    }
    let s = sqrt_floor(n);
    assert(s == r) by (nonlinear_arith)
        requires
            is_isqrt(n, r),
            is_isqrt(n, s),
    ;
}

/// Integer square root over `u128`, for operands below `(2^64 - 1)^2`.
fn isqrt_u128(n: u128) -> (r: u128)
    requires
        n < 0xffff_ffff_ffff_fffe_0000_0000_0000_0001u128,
    ensures
        is_isqrt(n as int, r as int),
{
    let mut lo: u128 = 0;
    let mut hi: u128 = 0xffff_ffff_ffff_ffffu128;
    proof {
        let g: int = 0xffff_ffff_ffff_ffff;
        assert(g * g == 0xffff_ffff_ffff_fffe_0000_0000_0000_0001int);
        assert(hi as int == g);
    }
    while hi - lo > 1
        invariant
            lo < hi,
            hi <= 0xffff_ffff_ffff_ffffu128,
            lo * lo <= n,
            n < hi * hi,
        decreases hi - lo,
    {
        let mid: u128 = lo + (hi - lo) / 2;
        assert(lo < mid < hi);
        proof {
            vstd::arithmetic::mul::lemma_mul_upper_bound(
                mid as int,
                0xffff_ffff_ffff_fffe,
                mid as int,
                0xffff_ffff_ffff_fffe,
            );
            let g: int = 0xffff_ffff_ffff_fffe;
            assert(g * g == 0xffff_ffff_ffff_fffc_0000_0000_0000_0004int);
        }
        if mid * mid <= n {
            lo = mid;
        } else {
            hi = mid;
        }
    }
    lo
}

/// The fixed-point square root, rounded down; negative inputs give zero.
pub open spec fn spec_sqrt(a: int) -> int {
    if a <= 0 {
        0
    } else {
        sqrt_floor(a * (FX_SCALE as int))
    }
}

/// Fixed-point square root, rounded down. Negative inputs are clamped to
/// zero before the root is taken.
pub fn fx_sqrt(a: i64) -> (r: i64)
    ensures
        r as int == spec_sqrt(a as int),
        r >= 0,
{
    if a <= 0 {
        return 0;
    }
    proof {
        assert((a as int) * (FX_SCALE as int) < 0x8000_0000_0000_0000 * 0x1_0000_0000) by (
        nonlinear_arith)
            requires
                (a as int) < 0x8000_0000_0000_0000,
                a > 0,
        ;
    }
    let n: u128 = (a as u128) * (FX_SCALE as u128);
    let r = isqrt_u128(n);
    proof {
        assert(r < 0x1_0000_0000_0000u128) by (nonlinear_arith)
            requires
                (r as int) * (r as int) <= n as int,
                n < 0x1_0000_0000_0000_0000_0000_0000u128,
                0x1_0000_0000_0000u128 * 0x1_0000_0000_0000u128
                    == 0x1_0000_0000_0000_0000_0000_0000u128,
        ;
        lemma_sqrt_floor(n as int, r as int);
    }
    r as i64
}

/// The saturating fixed-point product of non-negative values is
/// non-negative.
pub proof fn lemma_spec_mul_nonneg(a: int, b: int)
    requires
        0 <= a,
        0 <= b,
    ensures
        0 <= spec_mul(a, b),
{
    lemma_abs_mul(a, b);
    vstd::arithmetic::div_mod::lemma_div_pos_is_pos(iabs(a * b), FX_SCALE as int);
}

/// The whole-unit part of a fixed-point value, rounded toward zero.
pub fn fx_trunc(v: i64) -> (r: i64)
    ensures
        r as int == quot_toward_zero(v as int, FX_SCALE as int),
{
    let neg = v < 0;
    let wide: i128 = v as i128;
    let m: u128 = if wide < 0 {
        (-wide) as u128
    } else {
        wide as u128
    };
    let q: u128 = m / (FX_SCALE as u128);
    proof {
        vstd::arithmetic::div_mod::lemma_div_pos_is_pos(m as int, FX_SCALE as int);
        vstd::arithmetic::div_mod::lemma_div_is_ordered(m as int, iabs(i64::MIN as int), FX_SCALE as int);
    }
    if neg {
        -(q as i64)
    } else {
        q as i64
    }
}

/// Integer square root of a Q64.64 quantity no greater than one: the
/// Q32.32 root, exact.
pub fn isqrt_small(n: u128) -> (r: i64)
    requires
        n <= 0x1_0000_0000_0000_0000u128,
    ensures
        r as int == sqrt_floor(n as int),
        r >= 0,
{
    let r = isqrt_u128(n);
    proof {
        assert(r <= 0x1_0000_0000u128) by (nonlinear_arith)
            requires
                (r as int) * (r as int) <= n as int,
                n <= 0x1_0000_0000_0000_0000u128,
        ;
        lemma_sqrt_floor(n as int, r as int);
    }
    r as i64
}

/// The fixed-point distance `sqrt(dx^2 + dy^2)`, rounded down and
/// saturated at the `i64` range.
pub open spec fn spec_hypot(dx: int, dy: int) -> int {
    fx_sat(sqrt_floor(dx * dx + dy * dy))
}

/// Euclidean norm of a fixed-point vector, exact up to rounding down.
pub fn fx_hypot(dx: i64, dy: i64) -> (r: i64)
    ensures
        r as int == spec_hypot(dx as int, dy as int),
        r >= 0,
{
    let ma = abs_u(dx);
    let mb = abs_u(dy);
    proof {
        assert((ma as int) * (ma as int) <= 0x8000_0000_0000_0000 * 0x8000_0000_0000_0000) by (
        nonlinear_arith)
            requires
                (ma as int) <= 0x8000_0000_0000_0000,
        ;
        assert((mb as int) * (mb as int) <= 0x8000_0000_0000_0000 * 0x8000_0000_0000_0000) by (
        nonlinear_arith)
            requires
                (mb as int) <= 0x8000_0000_0000_0000,
        ;
    }
    let n: u128 = (ma as u128) * (ma as u128) + (mb as u128) * (mb as u128);
    proof {
        lemma_abs_mul(dx as int, dx as int);
        lemma_abs_mul(dy as int, dy as int);
        assert(n as int == (dx as int) * (dx as int) + (dy as int) * (dy as int));
    }
    let r = isqrt_u128(n);
    proof {
        lemma_sqrt_floor(n as int, r as int);
    }
    if r > i64::MAX as u128 {
        i64::MAX
    } else {
        r as i64
    }
}

} // verus!
