//! Exact arithmetic on the eight-decimal measurement grid.
//!
//! Every length in this crate is stored as a whole number of grid units,
//! one hundred million of which make one pixel.  Conversions between
//! units and all tessellation arithmetic round onto this grid with the
//! divisions defined here, so two measurements are equal exactly when
//! their grid-unit counts are equal.

use vstd::prelude::*;

verus! {

/// Grid units in one pixel: the measurement grid has eight decimal places.
pub const SUBUNITS_PER_PIXEL: i64 = 100_000_000;

/// Largest magnitude, in grid units, that a well-formed length may hold
/// (one million pixels).  Keeping lengths inside this bound lets every
/// sum that the geometry builder forms fit comfortably in an `i64`.
pub const MAX_SUBUNITS: i64 = 100_000_000_000_000;

/// The same bound expressed in whole pixels:
/// `MAX_PIXELS * SUBUNITS_PER_PIXEL == MAX_SUBUNITS`.
pub const MAX_PIXELS: i64 = 1_000_000;

/// The quotient `a / b` rounded to the nearest integer, halves away
/// from zero.  Meaningful for `b > 0`.
pub open spec fn round_div(a: int, b: int) -> int {
    if a >= 0 {
        (2 * a + b) / (2 * b)
    } else {
        -((2 * (-a) + b) / (2 * b))
    }
}

/// The rounding division extended to negative divisors: the sign is
/// taken off both operands first, which leaves the rounded quotient of
/// `a / b` unchanged.
pub open spec fn round_div_any(a: int, b: int) -> int {
    if b >= 0 {
        round_div(a, b)
    } else {
        round_div(-a, -b)
    }
}

/// Bound on the operands of the executable rounding divisions, chosen so
/// that `2 * a + b` can never overflow their 128-bit arithmetic.
pub const DIV_OPERAND_BOUND: u128 = 0x2000_0000_0000_0000_0000_0000_0000_0000;

/// `a / b` rounded to nearest for non-negative operands.
pub fn div_round_u128(a: u128, b: u128) -> (r: u128)
    requires
        0 < b <= DIV_OPERAND_BOUND,
        a <= DIV_OPERAND_BOUND,
    ensures
        r == round_div(a as int, b as int),
{
    (2 * a + b) / (2 * b)
}

/// `a / b` rounded to nearest, halves away from zero, for a positive divisor.
pub fn div_round_i128(a: i128, b: i128) -> (r: i128)
    requires
        0 < b <= DIV_OPERAND_BOUND,
        -(DIV_OPERAND_BOUND as int) <= a <= DIV_OPERAND_BOUND,
    ensures
        r == round_div(a as int, b as int),
{
    if a >= 0 {
        let q = div_round_u128(a as u128, b as u128);
        proof {
            lemma_round_div_nonneg_le(a as int, b as int);
        }
        q as i128
    } else {
        let neg = (-a) as u128;
        let q = div_round_u128(neg, b as u128);
        proof {
            lemma_round_div_nonneg_le(neg as int, b as int);
        }
        -(q as i128)
    }
}

/// Rounding a non-negative value keeps it non-negative and never
/// enlarges it past the value itself (for divisors of at least one).
pub proof fn lemma_round_div_nonneg_le(a: int, b: int)
    requires
        0 <= a,
        0 < b,
    ensures
        0 <= round_div(a, b) <= a,
{
    assert(0 <= (2 * a + b) / (2 * b)) by (nonlinear_arith)
        requires
            0 <= a && 0 < b,
    ;
    assert((2 * a + b) / (2 * b) <= a) by (nonlinear_arith)
        requires
            0 <= a && 0 < b,
    ;
}

/// Dividing an exact multiple rounds to the exact quotient.
pub proof fn lemma_round_div_exact(a: int, b: int)
    requires
        0 < b,
    ensures
        round_div(a * b, b) == a,
{
    if a >= 0 {
        assert((2 * (a * b) + b) / (2 * b) == a) by (nonlinear_arith)
            requires
                0 <= a && 0 < b,
        ;
    } else {
        assert((2 * ((-a) * b) + b) / (2 * b) == -a) by (nonlinear_arith)
            requires
                a < 0 && 0 < b,
        ;
        assert(a * b < 0) by (nonlinear_arith)
            requires
                a < 0 && 0 < b,
        ;
        assert(-(a * b) == (-a) * b) by (nonlinear_arith);
    }
}

/// If `a` is at most `c` times the divisor, the rounded quotient is at
/// most `c`; the mirrored bound holds from below.
pub proof fn lemma_round_div_bounded(a: int, b: int, c: int)
    requires
        0 < b,
        0 <= a <= c * b,
    ensures
        0 <= round_div(a, b) <= c,
{
    lemma_round_div_nonneg_le(a, b);
    assert((2 * a + b) / (2 * b) <= c) by (nonlinear_arith)
        requires
            0 < b && 0 <= a && a <= c * b,
    ;
}

/// Rounding onto the grid moves a value by at most half a grid unit:
/// the rounded quotient times the divisor differs from the numerator
/// by no more than half the divisor either way.
pub proof fn lemma_round_div_error(a: int, b: int)
    requires
        0 < b,
    ensures
        -b <= 2 * (round_div(a, b) * b - a) <= b,
{
    if a >= 0 {
        lemma_round_div_error_nonneg(a, b);
    } else {
        lemma_round_div_error_nonneg(-a, b);
        assert(round_div(a, b) * b == -(round_div(-a, b) * b)) by (nonlinear_arith)
            requires
                round_div(a, b) == -round_div(-a, b),
        ;
    }
}

/// The half-grid-unit error bound for a non-negative numerator.
proof fn lemma_round_div_error_nonneg(a: int, b: int)
    requires
        0 <= a,
        0 < b,
    ensures
        -b < 2 * (round_div(a, b) * b - a) <= b,
{
    let q = (2 * a + b) / (2 * b);
    let r = (2 * a + b) % (2 * b);
    vstd::arithmetic::div_mod::lemma_fundamental_div_mod(2 * a + b, 2 * b);
    vstd::arithmetic::div_mod::lemma_mod_bound(2 * a + b, 2 * b);
    assert(2 * a + b == (2 * b) * q + r);
    assert(2 * (q * b - a) == b - r) by (nonlinear_arith)
        requires
            2 * a + b == (2 * b) * q + r,
    ;
}

/// A bound on the numerator, as a multiple of the divisor, bounds the
/// magnitude of the rounded quotient.
pub proof fn lemma_round_div_magnitude(a: int, b: int, c: int)
    requires
        0 < b,
        0 <= c,
        -(c * b) <= a <= c * b,
    ensures
        -c <= round_div(a, b) <= c,
{
    if a >= 0 {
        lemma_round_div_bounded(a, b, c);
    } else {
        lemma_round_div_bounded(-a, b, c);
    }
}

/// Rounding is unchanged when numerator and divisor carry a common
/// positive factor: the grid mapping is scale invariant.
pub proof fn lemma_round_div_scale_invariant(a: int, b: int, k: int)
    requires
        0 < b,
        0 < k,
    ensures
        round_div(k * a, k * b) == round_div(a, b),
{
    if a >= 0 {
        vstd::arithmetic::div_mod::lemma_div_multiples_vanish_quotient(k, 2 * a + b, 2 * b);
        assert(k * (2 * a + b) == 2 * (k * a) + k * b) by (nonlinear_arith);
        assert(k * (2 * b) == 2 * (k * b)) by (nonlinear_arith);
        assert(k * a >= 0) by (nonlinear_arith)
            requires
                0 <= a && 0 < k,
        ;
    } else {
        vstd::arithmetic::div_mod::lemma_div_multiples_vanish_quotient(k, 2 * (-a) + b, 2 * b);
        assert(k * (2 * (-a) + b) == 2 * (-(k * a)) + k * b) by (nonlinear_arith);
        assert(k * (2 * b) == 2 * (k * b)) by (nonlinear_arith);
        assert(k * a < 0) by (nonlinear_arith)
            requires
                a < 0 && 0 < k,
        ;
    }
}

} // verus!
