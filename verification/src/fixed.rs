//! Unsigned decimal fixed-point numbers with eighteen fractional digits.
//!
//! A conversion rate or a fee multiplier is such a number: the integer
//! `inner` stands for the value `inner / 10^18`. The arithmetic is that of
//! `sp_runtime::FixedU128`, which this module calls: products are rounded
//! down and stop at the largest value instead of wrapping.

use sp_runtime::traits::Saturating;
use sp_runtime::FixedPointNumber;
use vstd::arithmetic::div_mod::{lemma_div_is_ordered, lemma_div_multiples_vanish};
use vstd::arithmetic::mul::{lemma_mul_inequality, lemma_mul_is_commutative};
use vstd::prelude::*;

verus! {

/// How many inner units make up the value one.
pub const FIXED_U128_DIV: u128 = 1_000_000_000_000_000_000;

/// `a * b / c` rounded down, or the largest `u128` where that is over it.
pub open spec fn mul_div_saturating(a: u128, b: u128, c: u128) -> u128 {
    if a * b / (c as int) > u128::MAX {
        u128::MAX
    } else {
        (a * b / (c as int)) as u128
    }
}

/// An unsigned fixed-point number: `inner / 10^18`.
#[derive(Clone, Copy, Debug, PartialEq, Eq)]
pub struct FixedU128 {
    /// The number, in units of `10^-18`.
    pub inner: u128,
}

/// `sp_runtime::FixedU128::saturating_mul_int`, for an unsigned 128-bit
/// integer: the product of the number and `n`, rounded down to an integer,
/// and the largest integer where the product does not fit.
#[verifier::external_body]
fn sp_saturating_mul_int(x: FixedU128, n: u128) -> (product: u128)
    ensures
        product == mul_div_saturating(x.inner, n, FIXED_U128_DIV),
{
    sp_runtime::FixedU128::from_inner(x.inner).saturating_mul_int(n)
}

/// `saturating_mul` of `sp_runtime::FixedU128`: the product of two numbers,
/// rounded down to a multiple of `10^-18`, and the largest number where the
/// product does not fit.
#[verifier::external_body]
fn sp_saturating_mul(x: FixedU128, y: FixedU128) -> (product: FixedU128)
    ensures
        product.inner == mul_div_saturating(x.inner, y.inner, FIXED_U128_DIV),
{
    let product = sp_runtime::FixedU128::from_inner(x.inner).saturating_mul(
        sp_runtime::FixedU128::from_inner(y.inner),
    );
    FixedU128 { inner: product.into_inner() }
}

/// `sp_runtime::FixedU128::saturating_from_rational`, for unsigned 128-bit
/// integers: the quotient `n / d`, rounded down to a multiple of `10^-18`,
/// and the largest number where the quotient does not fit. The outside
/// function panics where `d` is zero.
#[verifier::external_body]
fn sp_saturating_from_rational(n: u128, d: u128) -> (quotient: FixedU128)
    requires
        d != 0,
    ensures
        quotient.inner == mul_div_saturating(n, FIXED_U128_DIV, d),
{
    FixedU128 { inner: sp_runtime::FixedU128::saturating_from_rational(n, d).into_inner() }
}

impl FixedU128 {
    /// The value one.
    pub open spec fn spec_one() -> FixedU128 {
        FixedU128 { inner: FIXED_U128_DIV }
    }

    /// The product of this number and the integer `n`, rounded down, and
    /// the largest integer where the product does not fit.
    pub open spec fn spec_saturating_mul_int(self, n: u128) -> u128 {
        mul_div_saturating(self.inner, n, FIXED_U128_DIV)
    }

    /// The product of this number and `rhs`, rounded down to a multiple of
    /// `10^-18`, and the largest number where the product does not fit.
    pub open spec fn spec_saturating_mul(self, rhs: FixedU128) -> FixedU128 {
        FixedU128 { inner: mul_div_saturating(self.inner, rhs.inner, FIXED_U128_DIV) }
    }

    /// The quotient `n / d`, rounded down to a multiple of `10^-18`, and the
    /// largest number where the quotient does not fit.
    pub open spec fn spec_saturating_from_rational(n: u128, d: u128) -> FixedU128 {
        FixedU128 { inner: mul_div_saturating(n, FIXED_U128_DIV, d) }
    }

    /// Multiplies this number by the integer `n`. The product is rounded
    /// down; where it does not fit, the result is `u128::MAX`.
    pub fn saturating_mul_int(self, n: u128) -> (product: u128)
        ensures
            product == self.spec_saturating_mul_int(n),
    {
        sp_saturating_mul_int(self, n)
    }

    /// Multiplies this number by `rhs`. The product is rounded down to a
    /// multiple of `10^-18`; where it does not fit, the result is the
    /// largest number.
    pub fn saturating_mul(self, rhs: FixedU128) -> (product: FixedU128)
        ensures
            product == self.spec_saturating_mul(rhs),
    {
        sp_saturating_mul(self, rhs)
    }

    /// The number `n / d`, rounded down to a multiple of `10^-18`; where it
    /// does not fit, the largest number.
    pub fn saturating_from_rational(n: u128, d: u128) -> (quotient: FixedU128)
        requires
            d != 0,
        ensures
            quotient == Self::spec_saturating_from_rational(n, d),
    {
        sp_saturating_from_rational(n, d)
    }
}

/// Multiplying by a larger number never gives a smaller product.
pub proof fn lemma_mul_int_monotonic_in_rate(low: FixedU128, high: FixedU128, n: u128)
    requires
        low.inner <= high.inner,
    ensures
        low.spec_saturating_mul_int(n) <= high.spec_saturating_mul_int(n),
{
    lemma_mul_inequality(low.inner as int, high.inner as int, n as int);
    lemma_div_is_ordered(low.inner * n, high.inner * n, FIXED_U128_DIV as int);
}

/// Multiplying a larger integer never gives a smaller product.
pub proof fn lemma_mul_int_monotonic_in_amount(x: FixedU128, low: u128, high: u128)
    requires
        low <= high,
    ensures
        x.spec_saturating_mul_int(low) <= x.spec_saturating_mul_int(high),
{
    lemma_mul_inequality(low as int, high as int, x.inner as int);
    lemma_mul_is_commutative(low as int, x.inner as int);
    lemma_mul_is_commutative(high as int, x.inner as int);
    lemma_div_is_ordered(x.inner * low, x.inner * high, FIXED_U128_DIV as int);
}

/// Multiplying by one changes nothing: no rounding, no saturation.
pub proof fn lemma_mul_int_by_one(n: u128)
    ensures
        FixedU128::spec_one().spec_saturating_mul_int(n) == n,
{
    lemma_div_multiples_vanish(n as int, FIXED_U128_DIV as int);
}

} // verus!
