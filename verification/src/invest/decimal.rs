//! Fixed-point arithmetic on 128-bit amounts.
//!
//! An index value is a decimal number with 18 fractional digits, held as its
//! count of atomic units: `1.5` is `1_500_000_000_000_000_000`. The two
//! operations the reward rule needs are computed by `cosmwasm_std`, which works
//! through 256-bit intermediates.

use cosmwasm_std::{CheckedFromRatioError, CheckedMultiplyRatioError, Decimal, Uint128};
use vstd::prelude::*;

verus! {

/// Atomic units in one whole: `10^18`.
pub const DECIMAL_FRACTIONAL: u128 = 1_000_000_000_000_000_000u128;

/// Why a ratio has no value.
#[derive(Debug, Clone, Copy, PartialEq, Eq)]
pub enum RatioError {
    DivideByZero,
    Overflow,
}

/// `value * numerator / denominator`, rounded down, over the integers.
pub open spec fn mul_ratio(value: int, numerator: int, denominator: int) -> int {
    (value * numerator) / denominator
}

/// What a checked ratio returns: an error for denominator zero, an error where
/// the quotient does not fit in 128 bits, the quotient otherwise.
pub open spec fn checked_mul_ratio(value: u128, numerator: u128, denominator: u128) -> Result<
    u128,
    RatioError,
> {
    if denominator == 0 {
        Err(RatioError::DivideByZero)
    } else if mul_ratio(value as int, numerator as int, denominator as int) > u128::MAX {
        Err(RatioError::Overflow)
    } else {
        Ok(mul_ratio(value as int, numerator as int, denominator as int) as u128)
    }
}

/// `Uint128::checked_multiply_ratio` of `cosmwasm_std`: the full 256-bit product
/// `value * numerator` divided by `denominator`, rounded down. It reports
/// `DivideByZero` for denominator zero and `Overflow` where the quotient exceeds
/// `u128::MAX`.
#[verifier::external_body]
pub(crate) fn checked_multiply_ratio(value: u128, numerator: u128, denominator: u128) -> (r: Result<
    u128,
    RatioError,
>)
    ensures
        r == checked_mul_ratio(value, numerator, denominator),
{
    match Uint128::new(value).checked_multiply_ratio(numerator, denominator) {
        Ok(q) => Ok(q.u128()),
        Err(CheckedMultiplyRatioError::DivideByZero) => Err(RatioError::DivideByZero),
        Err(CheckedMultiplyRatioError::Overflow) => Err(RatioError::Overflow),
    }
}

/// `Decimal::checked_from_ratio` of `cosmwasm_std`: the decimal
/// `numerator / denominator`, whose atomic units are
/// `numerator * 10^18 / denominator`, rounded down. It reports `DivideByZero`
/// for denominator zero and `Overflow` where the atomic units exceed `u128::MAX`.
#[verifier::external_body]
pub(crate) fn checked_from_ratio(numerator: u128, denominator: u128) -> (r: Result<
    u128,
    RatioError,
>)
    ensures
        r == checked_mul_ratio(numerator, DECIMAL_FRACTIONAL, denominator),
{
    match Decimal::checked_from_ratio(numerator, denominator) {
        Ok(d) => Ok(d.atomics().u128()),
        Err(CheckedFromRatioError::DivideByZero) => Err(RatioError::DivideByZero),
        Err(CheckedFromRatioError::Overflow) => Err(RatioError::Overflow),
    }
}

} // verus!
