//! Thin layer over `sp_arithmetic`'s unsigned 128-bit fixed-point type,
//! which carries values scaled by a fixed accuracy of `10^18`. Price decay
//! must be bit-reproducible across independently executing validators, so the
//! market computes with this type rather than with floating point.

use sp_arithmetic::{FixedPointNumber, FixedU128};
use vstd::prelude::*;

verus! {

/// The scale of `FixedU128`: an inner value of this much represents 1.
pub const FIXED_ACCURACY: u128 = 1_000_000_000_000_000_000;

/// The inner fixed-point value that an integer converts to, saturating at
/// the representable bound.
pub open spec fn fixed_of_int(b: u128) -> int {
    if b * FIXED_ACCURACY <= u128::MAX {
        b * FIXED_ACCURACY
    } else {
        u128::MAX as int
    }
}

/// Relies on `sp_arithmetic::FixedU128::checked_from_rational`: the result is
/// `None` exactly when the denominator is zero or the scaled quotient
/// overflows; otherwise it is `n * 10^18 / d` rounded down. `into_inner`
/// unwraps the scaled integer.
#[verifier::external_body]
pub(crate) fn fixed_from_rational(n: u128, d: u128) -> (r: Option<u128>)
    ensures
        r is Some <==> (d != 0 && (n as int) * (FIXED_ACCURACY as int) / (d as int) <= u128::MAX),
        r matches Some(v) ==> v as int == (n as int) * (FIXED_ACCURACY as int) / (d as int),
{
    match FixedU128::checked_from_rational(n, d) {
        Some(x) => Some(x.into_inner()),
        None => None,
    }
}

/// Relies on `FixedU128`'s `Mul` (the `*` operator): the product of the two
/// inner values scaled back down by the accuracy, rounded down; `From<u128>`
/// scales the integer factor up first, saturating at the bound. The operator
/// panics when the scaled product overflows, which the precondition rules
/// out: a left factor of at most 1 keeps the product at or below the right
/// factor's inner value.
#[verifier::external_body]
pub(crate) fn fixed_mul_integer(a_inner: u128, b: u128) -> (r: u128)
    requires
        a_inner <= FIXED_ACCURACY,
    ensures
        r as int == (a_inner as int) * fixed_of_int(b) / (FIXED_ACCURACY as int),
{
    (FixedU128::from_inner(a_inner) * FixedU128::from(b)).into_inner()
}

} // verus!
