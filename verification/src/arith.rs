//! Saturating fixed-point arithmetic used by the indicator engine.
//!
//! Every quantity the engine keeps is an `i64`. Additions, subtractions and
//! multiplications clip to the `i64` range instead of overflowing, and
//! quotients truncate toward zero, so each update is a total function of its
//! inputs. The spec functions here are the mathematical model; the exec
//! helpers are proved to match them exactly.

use vstd::prelude::*;

verus! {

/// `x` clipped to the representable `i64` range.
pub open spec fn clip64(x: int) -> int {
    if x > i64::MAX as int {
        i64::MAX as int
    } else if x < i64::MIN as int {
        i64::MIN as int
    } else {
        x
    }
}

/// Saturating sum.
pub open spec fn sat_add64(a: int, b: int) -> int {
    clip64(a + b)
}

/// Saturating difference.
pub open spec fn sat_sub64(a: int, b: int) -> int {
    clip64(a - b)
}

/// Saturating product.
pub open spec fn sat_mul64(a: int, b: int) -> int {
    clip64(a * b)
}

/// Absolute value.
pub open spec fn iabs(x: int) -> int {
    if x < 0 {
        -x
    } else {
        x
    }
}

/// Quotient of `a` by `b`, truncated toward zero (`b != 0`).
pub open spec fn tdiv(a: int, b: int) -> int
    recommends
        b != 0,
{
    let q = iabs(a) / iabs(b);
    if (a < 0) != (b < 0) {
        -q
    } else {
        q
    }
}

/// Truncated quotient, clipped to the `i64` range (`b != 0`).
pub open spec fn sat_div64(a: int, b: int) -> int
    recommends
        b != 0,
{
    clip64(tdiv(a, b))
}

/// Saturating addition of two `i64` values.
pub fn add_sat(a: i64, b: i64) -> (r: i64)
    ensures
        r as int == sat_add64(a as int, b as int),
{
    let s: i128 = a as i128 + b as i128;
    if s > i64::MAX as i128 {
        i64::MAX
    } else if s < i64::MIN as i128 {
        i64::MIN
    } else {
        s as i64
    }
}

/// Saturating subtraction of two `i64` values.
pub fn sub_sat(a: i64, b: i64) -> (r: i64)
    ensures
        r as int == sat_sub64(a as int, b as int),
{
    let s: i128 = a as i128 - b as i128;
    if s > i64::MAX as i128 {
        i64::MAX
    } else if s < i64::MIN as i128 {
        i64::MIN
    } else {
        s as i64
    }
}

/// Saturating multiplication of two `i64` values.
pub fn mul_sat(a: i64, b: i64) -> (r: i64)
    ensures
        r as int == sat_mul64(a as int, b as int),
{
    proof {
        assert((a as int) * (b as int) <= i128::MAX as int && (a as int) * (b as int)
            >= i128::MIN as int) by (nonlinear_arith)
            requires
                i64::MIN as int <= a as int <= i64::MAX as int,
                i64::MIN as int <= b as int <= i64::MAX as int,
        ;
    }
    let p: i128 = a as i128 * b as i128;
    if p > i64::MAX as i128 {
        i64::MAX
    } else if p < i64::MIN as i128 {
        i64::MIN
    } else {
        p as i64
    }
}

/// Truncated division of `num` by `den`, clipped to the `i64` range.
///
/// The two extreme `i128` values are excluded only so that the magnitudes can
/// be negated; every caller passes quantities far inside that range.
pub fn div_trunc_sat(num: i128, den: i128) -> (r: i64)
    requires
        den != 0,
        num != i128::MIN,
        den != i128::MIN,
    ensures
        r as int == sat_div64(num as int, den as int),
{
    let na: u128 = if num < 0 {
        (-num) as u128
    } else {
        num as u128
    };
    let da: u128 = if den < 0 {
        (-den) as u128
    } else {
        den as u128
    };
    let m: u128 = na / da;
    proof {
        assert(na as int == iabs(num as int));
        assert(da as int == iabs(den as int));
        assert(m as int == iabs(num as int) / iabs(den as int));
    }
    let neg: bool = (num < 0) != (den < 0);
    if neg {
        if m >= 0x8000_0000_0000_0000u128 {
            i64::MIN
        } else {
            -(m as i64)
        }
    } else {
        if m > i64::MAX as u128 {
            i64::MAX
        } else {
            m as i64
        }
    }
}

} // verus!
