//! Saturating fixed-point arithmetic.
//!
//! Every physical quantity in this crate (lengths, velocities, angles in
//! radians, gains, seconds) is an `i64` holding the quantity times
//! [`SCALE`], i.e. a count of millionths of a unit.  All operations
//! saturate at the `i64` range instead of overflowing, which matches the
//! control stack's policy of clamping rather than rejecting out-of-range
//! values.

use vstd::arithmetic::div_mod::*;
use vstd::arithmetic::mul::*;
use vstd::prelude::*;

verus! {

/// Number of fixed-point steps per unit: values carry six decimal places.
pub const SCALE: i64 = 1_000_000;

/// Smallest elapsed time (in fixed-point seconds, so one millisecond) that
/// the PID primitive will divide by: smaller or non-positive `dt` values are
/// floored to this, so a derivative term can never blow up.
pub const DT_EPS: i64 = 1_000;

/// The result of saturating an unbounded integer into the `i64` range.
pub open spec fn sat_i64(x: int) -> int {
    if x > i64::MAX as int {
        i64::MAX as int
    } else if x < i64::MIN as int {
        i64::MIN as int
    } else {
        x
    }
}

/// `x` forced into `[lo, hi]` (`lo` wins if the interval is empty).
pub open spec fn clamped(x: int, lo: int, hi: int) -> int {
    if x < lo {
        lo
    } else if x > hi {
        hi
    } else {
        x
    }
}

/// Narrows a 128-bit intermediate result back to `i64`, saturating.
pub fn sat_narrow(x: i128) -> (r: i64)
    ensures
        r as int == sat_i64(x as int),
{
    if x > i64::MAX as i128 {
        i64::MAX
    } else if x < i64::MIN as i128 {
        i64::MIN
    } else {
        x as i64
    }
}

/// Saturating addition.
pub fn sat_add(a: i64, b: i64) -> (r: i64)
    ensures
        r as int == sat_i64(a + b),
{
    sat_narrow(a as i128 + b as i128)
}

/// Saturating subtraction.
pub fn sat_sub(a: i64, b: i64) -> (r: i64)
    ensures
        r as int == sat_i64(a - b),
{
    sat_narrow(a as i128 - b as i128)
}

/// Clamp into `[lo, hi]`.
pub fn clamp_i64(x: i64, lo: i64, hi: i64) -> (r: i64)
    ensures
        r as int == clamped(x as int, lo as int, hi as int),
{
    if x < lo {
        lo
    } else if x > hi {
        hi
    } else {
        x
    }
}

/// Floor division by a positive divisor keeps the quotient between the
/// dividend and zero.
proof fn lemma_div_floor_bounds(p: int, d: int)
    requires
        1 <= d,
    ensures
        p >= 0 ==> 0 <= p / d <= p,
        p < 0 ==> p <= p / d <= 0,
{
    if p >= 0 {
        lemma_div_pos_is_pos(p, d);
        lemma_div_nonincreasing(p, d);
    } else {
        lemma_div_is_ordered(p, 0, d);
        lemma_div_of0(d);
        lemma_mul_unary_negation(d, p);
        lemma_mul_inequality(1, d, -p);
        assert(d * p <= 1 * p) by {
            assert(1 * (-p) <= d * (-p));
            assert(d * (-p) == -(d * p));
        }
        assert(1 * p == p) by {
            lemma_mul_basics(p);
        }
        lemma_div_is_ordered(d * p, p, d);
        lemma_div_multiples_vanish(p, d);
    }
}

/// A product of two `i64` values stays within the `i128` range.
proof fn lemma_i64_mul_fits(a: int, b: int)
    requires
        i64::MIN <= a <= i64::MAX,
        i64::MIN <= b <= i64::MAX,
    ensures
        i128::MIN <= a * b <= i128::MAX,
{
    assert(i128::MIN <= a * b <= i128::MAX) by (nonlinear_arith)
        requires
            i64::MIN <= a <= i64::MAX,
            i64::MIN <= b <= i64::MAX,
    ;
}

/// Euclidean (floor, for positive divisors) division of a wide intermediate.
fn div_floor_i128(p: i128, d: i128) -> (q: i128)
    requires
        1 <= d,
    ensures
        q as int == p as int / d as int,
{
    proof {
        lemma_div_floor_bounds(p as int, d as int);
    }
    p.checked_div_euclid(d).unwrap()
}

/// `(a * b) / d` with floor division, saturated into the `i64` range.
///
/// This one operation carries all of the stack's fixed-point algebra:
/// `mul_div(a, b, SCALE)` is the fixed-point product, and
/// `mul_div(a, SCALE, d)` the fixed-point quotient.
pub fn mul_div(a: i64, b: i64, d: i64) -> (r: i64)
    requires
        1 <= d,
    ensures
        r as int == sat_i64((a * b) / (d as int)),
{
    proof {
        lemma_i64_mul_fits(a as int, b as int);
    }
    let p: i128 = (a as i128) * (b as i128);
    let q: i128 = div_floor_i128(p, d as i128);
    sat_narrow(q)
}

/// Saturating absolute value (`i64::MIN` maps to `i64::MAX`).
pub fn abs_sat(x: i64) -> (r: i64)
    ensures
        r as int == sat_i64(if x < 0 { -(x as int) } else { x as int }),
{
    if x >= 0 {
        x
    } else if x == i64::MIN {
        i64::MAX
    } else {
        -x
    }
}

} // verus!
