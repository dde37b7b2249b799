//! Trigonometric primitives over Q32.32 fixed point.
//!
//! The raw sine, cosine and arc-tangent come from the `cordic` crate through
//! trusted wrappers; each result is a pure function of the argument bits and
//! is given a name that the engine's contracts speak of. Quadrant handling,
//! arc-sine and angle normalization are verified code built on those names.

use vstd::prelude::*;
use crate::fx::{
    fx_add, fx_div, fx_neg, fx_sub, fx_sqrt, iabs, quot_toward_zero, spec_add, spec_div, spec_neg,
    spec_sqrt, spec_sub, FX_HALF_PI, FX_ONE, FX_PI, FX_SCALE, FX_TWO_PI,
};

verus! {

/// What `cordic::sin` returns on Q32.32 bits.
pub uninterp spec fn sin_bits(x: int) -> int;

/// What `cordic::cos` returns on Q32.32 bits.
pub uninterp spec fn cos_bits(x: int) -> int;

/// What `cordic::atan` returns on Q32.32 bits.
pub uninterp spec fn atan_bits(v: int) -> int;

/// Relies on cordic::sin over Q32.32 fixed point: the sine of an angle in
/// radians, a deterministic function of the argument bits alone. The bound
/// keeps cordic's internal range reduction far from the i64 limits.
#[verifier::external_body]
pub(crate) fn fx_sin(x: i64) -> (r: i64)
    requires
        -16 * (FX_TWO_PI as int) <= x <= 16 * (FX_TWO_PI as int),
    ensures
        r as int == sin_bits(x as int),
{
    cordic::sin(fixed::types::I32F32::from_bits(x)).to_bits()
}

/// Relies on cordic::cos over Q32.32 fixed point: the cosine of an angle in
/// radians, a deterministic function of the argument bits alone.
#[verifier::external_body]
pub(crate) fn fx_cos(x: i64) -> (r: i64)
    requires
        -16 * (FX_TWO_PI as int) <= x <= 16 * (FX_TWO_PI as int),
    ensures
        r as int == cos_bits(x as int),
{
    cordic::cos(fixed::types::I32F32::from_bits(x)).to_bits()
}

/// Relies on cordic::atan over Q32.32 fixed point: the arc-tangent of a
/// ratio, a deterministic function of the argument bits alone; for a ratio
/// in [-1, 1] the arc-tangent lies well within [-pi/2, pi/2]. The argument
/// bound keeps cordic's internal rotation far from the i64 limits.
#[verifier::external_body]
pub(crate) fn fx_atan(v: i64) -> (r: i64)
    requires
        -(FX_ONE as int) <= v <= FX_ONE as int,
    ensures
        r as int == atan_bits(v as int),
        -(FX_HALF_PI as int) <= r as int <= FX_HALF_PI as int,
{
    cordic::atan(fixed::types::I32F32::from_bits(v)).to_bits()
}

/// The smallest `i64` is folded onto `-i64::MAX`, so that magnitudes of
/// both components stay inside the saturating domain.
pub open spec fn fold_min(v: int) -> int {
    if v < -(i64::MAX as int) {
        -(i64::MAX as int)
    } else {
        v
    }
}

/// The quadrant-corrected arc-tangent of `y/x`, in radians.
///
/// Exact cardinal directions are special-cased; otherwise the octant with
/// ratio magnitude at most one is selected so the raw arc-tangent is only
/// ever taken of a ratio in [-1, 1].
pub open spec fn spec_atan2(y0: int, x0: int) -> int {
    let y = fold_min(y0);
    let x = fold_min(x0);
    if y == 0 {
        if x >= 0 {
            0
        } else {
            FX_PI as int
        }
    } else if x == 0 {
        if y > 0 {
            FX_HALF_PI as int
        } else {
            -(FX_HALF_PI as int)
        }
    } else if iabs(y) <= iabs(x) {
        let q = spec_div(y, x);
        if x > 0 {
            atan_bits(q)
        } else if y > 0 {
            spec_add(FX_PI as int, atan_bits(q))
        } else {
            spec_sub(atan_bits(q), FX_PI as int)
        }
    } else {
        let q = spec_div(x, y);
        if y > 0 {
            spec_sub(FX_HALF_PI as int, atan_bits(q))
        } else {
            spec_sub(spec_neg(FX_HALF_PI as int), atan_bits(q))
        }
    }
}

proof fn lemma_ratio_in_unit(a: int, b: int)
    requires
        b != 0,
        iabs(a) <= iabs(b),
    ensures
        -(FX_ONE as int) <= spec_div(a, b) <= FX_ONE as int,
{
    let m = iabs(a) * (FX_SCALE as int);
    let n = iabs(b);
    assert(iabs(a * (FX_SCALE as int)) == m) by (nonlinear_arith)
        requires
            m == iabs(a) * (FX_SCALE as int),
    ;
    assert(m / n <= FX_SCALE as int) by (nonlinear_arith)
        requires
            n > 0,
            m == iabs(a) * (FX_SCALE as int),
            iabs(a) <= n,
    ;
    assert(m / n >= 0) by (nonlinear_arith)
        requires
            m >= 0,
            n > 0,
    ;
}

/// Quadrant-corrected arc-tangent; the result lies within
/// [-3/2 pi, 3/2 pi].
pub fn fx_atan2(y0: i64, x0: i64) -> (r: i64)
    ensures
        r as int == spec_atan2(y0 as int, x0 as int),
        -(FX_PI as int) - (FX_HALF_PI as int) <= r as int <= (FX_PI as int) + (
        FX_HALF_PI as int),
{
    let y: i64 = if y0 == i64::MIN {
        -i64::MAX
    } else {
        y0
    };
    let x: i64 = if x0 == i64::MIN {
        -i64::MAX
    } else {
        x0
    };
    if y == 0 {
        if x >= 0 {
            0
        } else {
            FX_PI
        }
    } else if x == 0 {
        if y > 0 {
            FX_HALF_PI
        } else {
            -FX_HALF_PI
        }
    } else {
        let ya = crate::fx::fx_abs(y);
        let xa = crate::fx::fx_abs(x);
        if ya <= xa {
            proof {
                lemma_ratio_in_unit(y as int, x as int);
            }
            let q = fx_div(y, x);
            let a = fx_atan(q);
            if x > 0 {
                a
            } else if y > 0 {
                fx_add(FX_PI, a)
            } else {
                fx_sub(a, FX_PI)
            }
        } else {
            proof {
                lemma_ratio_in_unit(x as int, y as int);
            }
            let q = fx_div(x, y);
            let a = fx_atan(q);
            if y > 0 {
                fx_sub(FX_HALF_PI, a)
            } else {
                fx_sub(fx_neg(FX_HALF_PI), a)
            }
        }
    }
}

/// The arc-sine of a ratio clamped to [-1, 1], through
/// `asin(v) = atan2(v, sqrt(1 - v^2))`.
pub open spec fn spec_asin(v: int) -> int {
    let c = if v > FX_ONE as int {
        FX_ONE as int
    } else if v < -(FX_ONE as int) {
        -(FX_ONE as int)
    } else {
        v
    };
    spec_atan2(c, spec_sqrt((FX_ONE as int) - quot_toward_zero(c * c, FX_SCALE as int)))
}

/// Arc-sine with the argument clamped to [-1, 1], as the error-handling
/// rules demand of inverse trigonometric inputs.
pub fn fx_asin(v: i64) -> (r: i64)
    ensures
        r as int == spec_asin(v as int),
        -(FX_PI as int) - (FX_HALF_PI as int) <= r as int <= (FX_PI as int) + (
        FX_HALF_PI as int),
{
    let c: i64 = if v > FX_ONE {
        FX_ONE
    } else if v < -FX_ONE {
        -FX_ONE
    } else {
        v
    };
    let c2 = crate::fx::fx_mul(c, c);
    proof {
        crate::fx::lemma_abs_mul(c as int, c as int);
        let cc = (c as int) * (c as int);
        assert(iabs(cc) <= (FX_ONE as int) * (FX_ONE as int)) by (nonlinear_arith)
            requires
                iabs(cc) == iabs(c as int) * iabs(c as int),
                iabs(c as int) <= FX_ONE as int,
        ;
        assert((FX_ONE as int) * (FX_ONE as int) / (FX_SCALE as int) == FX_ONE as int);
        assert(iabs(cc) / (FX_SCALE as int) <= FX_ONE as int) by (nonlinear_arith)
            requires
                0 <= iabs(cc) <= (FX_ONE as int) * (FX_ONE as int),
                (FX_ONE as int) * (FX_ONE as int) / (FX_SCALE as int) == FX_ONE as int,
        ;
        assert(quot_toward_zero(cc, FX_SCALE as int) == iabs(cc) / (FX_SCALE as int));
    }
    let w = fx_sqrt(fx_sub(FX_ONE, c2));
    fx_atan2(c, w)
}

/// The arc-cosine of a ratio clamped to [-1, 1], through
/// `acos(v) = atan2(sqrt(1 - v^2), v)`.
pub open spec fn spec_acos(v: int) -> int {
    let c = if v > FX_ONE as int {
        FX_ONE as int
    } else if v < -(FX_ONE as int) {
        -(FX_ONE as int)
    } else {
        v
    };
    spec_atan2(spec_sqrt((FX_ONE as int) - quot_toward_zero(c * c, FX_SCALE as int)), c)
}

/// Arc-cosine with the argument clamped to [-1, 1], as the error-handling
/// rules demand of inverse trigonometric inputs.
pub fn fx_acos(v: i64) -> (r: i64)
    ensures
        r as int == spec_acos(v as int),
        -(FX_PI as int) - (FX_HALF_PI as int) <= r as int <= (FX_PI as int) + (
        FX_HALF_PI as int),
{
    let c: i64 = if v > FX_ONE {
        FX_ONE
    } else if v < -FX_ONE {
        -FX_ONE
    } else {
        v
    };
    let c2 = crate::fx::fx_mul(c, c);
    proof {
        crate::fx::lemma_abs_mul(c as int, c as int);
        let cc = (c as int) * (c as int);
        assert(iabs(cc) <= (FX_ONE as int) * (FX_ONE as int)) by (nonlinear_arith)
            requires
                iabs(cc) == iabs(c as int) * iabs(c as int),
                iabs(c as int) <= FX_ONE as int,
        ;
        assert((FX_ONE as int) * (FX_ONE as int) / (FX_SCALE as int) == FX_ONE as int);
        assert(iabs(cc) / (FX_SCALE as int) <= FX_ONE as int) by (nonlinear_arith)
            requires
                0 <= iabs(cc) <= (FX_ONE as int) * (FX_ONE as int),
                (FX_ONE as int) * (FX_ONE as int) / (FX_SCALE as int) == FX_ONE as int,
        ;
        assert(quot_toward_zero(cc, FX_SCALE as int) == iabs(cc) / (FX_SCALE as int));
    }
    let w = fx_sqrt(fx_sub(FX_ONE, c2));
    fx_atan2(w, c)
}

/// An angle shifted by whole turns into [-pi, pi], up to the rounding of
/// the fixed-point two-pi constant.
pub open spec fn spec_normalize_angle(a: int) -> int
    decreases iabs(a),
{
    if a > FX_PI as int {
        spec_normalize_angle(a - FX_TWO_PI as int)
    } else if a < -(FX_PI as int) {
        spec_normalize_angle(a + FX_TWO_PI as int)
    } else {
        a
    }
}

/// Shifts an angle by whole turns into [-pi, pi].
pub fn fx_normalize_angle(a: i64) -> (r: i64)
    ensures
        r as int == spec_normalize_angle(a as int),
        -(FX_PI as int) <= r as int <= FX_PI as int,
{
    let mut v = a;
    while v > FX_PI || v < -FX_PI
        invariant
            spec_normalize_angle(v as int) == spec_normalize_angle(a as int),
        decreases iabs(v as int),
    {
        if v > FX_PI {
            v = v - FX_TWO_PI;
        } else {
            v = v + FX_TWO_PI;
        }
    }
    v
}

} // verus!
