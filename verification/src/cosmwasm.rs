//! What this library takes from `cosmwasm_std`, and what it relies on.
//!
//! A fixed-point decimal with eighteen fractional digits is held here as its
//! number of atomic units: the value times `10^18`. The arithmetic itself is
//! `cosmwasm_std::Decimal`'s, and the text of amounts and coins is
//! `cosmwasm_std`'s too. Each function below makes one such call and states
//! what it returns; nothing in this module is proved.

use vstd::prelude::*;
use crate::call::Coin;
use crate::numeral::{decimal_digits, is_numeral, numeral_value};

verus! {

/// The number of atomic units in one whole: `10^18`.
pub const DECIMAL_FRACTIONAL: u128 = 1_000_000_000_000_000_000;

/// The number of fractional digits of a decimal.
pub const DECIMAL_PLACES: u32 = 18;

/// Ten to the power `e`.
pub open spec fn pow10(e: nat) -> nat
    decreases e,
{
    if e == 0 {
        1
    } else {
        10 * pow10((e - 1) as nat)
    }
}

/// `a` rounded up to a whole number of units, in atomic units.
pub open spec fn ceil_atomics(a: nat) -> nat {
    if a % (DECIMAL_FRACTIONAL as nat) == 0 {
        a
    } else {
        (a / (DECIMAL_FRACTIONAL as nat) + 1) * DECIMAL_FRACTIONAL as nat
    }
}

/// `cosmwasm_std::DecimalRangeExceeded`: the error of `Decimal::from_atomics`.
/// Nothing is known of its content.
#[verifier::external_type_specification]
#[verifier::external_body]
pub struct ExDecimalRangeExceeded(cosmwasm_std::DecimalRangeExceeded);

/// `cosmwasm_std::OverflowError`: the error of `Decimal::checked_mul`.
/// Nothing is known of its content.
#[verifier::external_type_specification]
#[verifier::external_body]
pub struct ExOverflowError(cosmwasm_std::OverflowError);

/// `cosmwasm_std::StdError`: the error of `Uint128::from_str`. Nothing is
/// known of its content.
#[verifier::external_type_specification]
#[verifier::external_body]
pub struct ExStdError(cosmwasm_std::StdError);

/// `cosmwasm_std::Decimal::from_atomics`, for at most eighteen decimal
/// places. The decimal that `atomics / 10^decimal_places` names has
/// `atomics * 10^(18 - decimal_places)` atomic units; the call fails exactly
/// when that number does not fit in 128 bits.
#[verifier::external_body]
pub(crate) fn decimal_from_atomics(atomics: u128, decimal_places: u32) -> (r: Result<
    u128,
    cosmwasm_std::DecimalRangeExceeded,
>)
    requires
        decimal_places <= DECIMAL_PLACES,
    ensures
        match r {
            Ok(a) => a == atomics * pow10((DECIMAL_PLACES - decimal_places) as nat),
            Err(_) => atomics * pow10((DECIMAL_PLACES - decimal_places) as nat) > u128::MAX,
        },
{
    match cosmwasm_std::Decimal::from_atomics(cosmwasm_std::Uint128::new(atomics), decimal_places) {
        Ok(d) => Ok(d.atomics().u128()),
        Err(e) => Err(e),
    }
}

/// `cosmwasm_std::Decimal::checked_mul`, on atomic units. The product of two
/// decimals has `a * b / 10^18` atomic units, rounded down; the call fails
/// exactly when that number does not fit in 128 bits.
#[verifier::external_body]
pub(crate) fn decimal_checked_mul(a: u128, b: u128) -> (r: Result<
    u128,
    cosmwasm_std::OverflowError,
>)
    ensures
        match r {
            Ok(p) => p == (a * b) / (DECIMAL_FRACTIONAL as int),
            Err(_) => (a * b) / (DECIMAL_FRACTIONAL as int) > u128::MAX,
        },
{
    match cosmwasm_std::Decimal::raw(a).checked_mul(cosmwasm_std::Decimal::raw(b)) {
        Ok(d) => Ok(d.atomics().u128()),
        Err(e) => Err(e),
    }
}

/// `cosmwasm_std::Decimal::ceil`, on atomic units: the least whole number of
/// units that is not below the decimal. The outside function panics where
/// that number does not fit in 128 bits, so callers must rule it out.
#[verifier::external_body]
pub(crate) fn decimal_ceil(a: u128) -> (r: u128)
    requires
        ceil_atomics(a as nat) <= u128::MAX,
    ensures
        r == ceil_atomics(a as nat),
{
    cosmwasm_std::Decimal::raw(a).ceil().atomics().u128()
}

/// The text of a `cosmwasm_std::Decimal` (its `Display`) that has no
/// fractional part: the decimal digits of its whole part.
#[verifier::external_body]
pub(crate) fn decimal_to_string(a: u128) -> (s: String)
    requires
        a % DECIMAL_FRACTIONAL == 0,
    ensures
        s@ == decimal_digits((a / DECIMAL_FRACTIONAL) as nat),
{
    cosmwasm_std::Decimal::raw(a).to_string()
}

/// `cosmwasm_std::Uint128::from_str` on a run of digits: the number that the
/// digits stand for, or an error exactly when it does not fit in 128 bits.
#[verifier::external_body]
pub(crate) fn uint128_from_str(s: &str) -> (r: Result<u128, cosmwasm_std::StdError>)
    requires
        is_numeral(s@),
    ensures
        match r {
            Ok(n) => n == numeral_value(s@),
            Err(_) => numeral_value(s@) > u128::MAX,
        },
{
    match <cosmwasm_std::Uint128 as core::str::FromStr>::from_str(s) {
        Ok(n) => Ok(n.u128()),
        Err(e) => Err(e),
    }
}

/// The text of a `cosmwasm_std::Uint128` (its `Display`): the decimal digits
/// of the number.
#[verifier::external_body]
pub(crate) fn uint128_to_string(n: u128) -> (s: String)
    ensures
        s@ == decimal_digits(n as nat),
{
    cosmwasm_std::Uint128::new(n).to_string()
}

/// The text of a `cosmwasm_std::Coin` (its `Display`): the decimal digits of
/// the amount, then the denomination, with nothing between them.
#[verifier::external_body]
pub(crate) fn coin_to_string(coin: &Coin) -> (s: String)
    ensures
        s@ == decimal_digits(coin.amount as nat) + coin.denom@,
{
    cosmwasm_std::Coin::new(coin.amount, coin.denom.clone()).to_string()
}

} // verus!
