//! Fixed-point arithmetic: multiply, then divide, rounding down.

use vstd::prelude::*;

use crate::error::TrancheError;

verus! {

/// One US dollar in fixed point.
pub const FP_SCALE: u128 = 1_000_000_000;

/// The number of basis points in one whole.
pub const BPS_DENOM: u128 = 10_000;

/// `floor(a * b / c)` over the mathematical integers.
pub open spec fn mul_div_floor(a: int, b: int, c: int) -> int
    recommends
        0 <= a,
        0 <= b,
        0 < c,
{
    (a * b) / c
}

/// What [`checked_mul_div`] returns: the quotient where the divisor is not zero
/// and the product fits in 128 bits, the matching error otherwise. A zero
/// divisor is reported before an overflowing product.
pub open spec fn spec_checked_mul_div(a: u128, b: u128, c: u128) -> Result<u128, TrancheError> {
    if c == 0 {
        Err(TrancheError::InvalidAmount)
    } else if a * b > u128::MAX {
        Err(TrancheError::MathOverflow)
    } else {
        Ok(mul_div_floor(a as int, b as int, c as int) as u128)
    }
}

/// Computes `a * b / c`, rounded down, without wrapping.
pub fn checked_mul_div(a: u128, b: u128, c: u128) -> (r: Result<u128, TrancheError>)
    ensures
        r == spec_checked_mul_div(a, b, c),
        r matches Ok(q) ==> q == mul_div_floor(a as int, b as int, c as int),
{
    if c == 0 {
        return Err(TrancheError::InvalidAmount);
    }
    match a.checked_mul(b) {
        None => Err(TrancheError::MathOverflow),
        Some(prod) => {
            proof {
                lemma_quotient_fits(prod as int, c as int);
            }
            Ok(prod / c)
        },
    }
}

/// A quotient of a 128-bit value by a positive divisor is again a 128-bit value.
pub proof fn lemma_quotient_fits(x: int, c: int)
    requires
        0 <= x <= u128::MAX,
        0 < c,
    ensures
        0 <= x / c <= x,
{
    vstd::arithmetic::div_mod::lemma_div_pos_is_pos(x, c);
    vstd::arithmetic::div_mod::lemma_div_is_ordered_by_denominator(x, 1, c);
    vstd::arithmetic::div_mod::lemma_div_basics(x);
}

/// A floor quotient, multiplied back, misses the dividend by less than the
/// divisor.
pub proof fn lemma_floor_bounds(x: int, d: int)
    requires
        0 <= x,
        0 < d,
    ensures
        0 <= x / d,
        (x / d) * d <= x < (x / d + 1) * d,
{
    vstd::arithmetic::div_mod::lemma_fundamental_div_mod(x, d);
    vstd::arithmetic::div_mod::lemma_mod_bound(x, d);
    vstd::arithmetic::div_mod::lemma_div_pos_is_pos(x, d);
    assert((x / d) * d == d * (x / d)) by (nonlinear_arith);
    assert((x / d + 1) * d == d * (x / d) + d) by (nonlinear_arith);
}

/// The floor quotient is the greatest multiplier that stays under the dividend.
pub proof fn lemma_floor_is_greatest(x: int, d: int, q: int)
    requires
        0 < d,
        0 <= x,
    ensures
        q * d <= x <==> q <= x / d,
{
    lemma_floor_bounds(x, d);
    let f = x / d;
    if q <= f {
        assert(q * d <= f * d) by (nonlinear_arith)
            requires
                q <= f,
                0 < d,
        ;
    } else {
        assert(q * d >= (f + 1) * d) by (nonlinear_arith)
            requires
                q >= f + 1,
                0 < d,
        ;
    }
}

} // verus!
