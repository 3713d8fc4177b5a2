//! The split of a deposit into commission and bid credit.

use vstd::prelude::*;
use crate::cosmwasm::{
    decimal_ceil, decimal_checked_mul, decimal_from_atomics, decimal_to_string, uint128_from_str,
    ceil_atomics, pow10, DECIMAL_FRACTIONAL,
};
use crate::error::ContractError;
use crate::numeral::lemma_decimal_digits_round_trip;

verus! {

/// A non-negative decimal fraction with eighteen fractional digits, held as
/// its number of atomic units: `atomics / 10^18`.
#[derive(Debug, Clone, Copy, PartialEq, Eq, Structural)]
pub struct DecimalFraction {
    pub atomics: u128,
}

impl View for DecimalFraction {
    type V = nat;

    /// The number of atomic units.
    open spec fn view(&self) -> nat {
        self.atomics as nat
    }
}

impl DecimalFraction {
    /// The fraction of `atomics` atomic units.
    pub fn raw(atomics: u128) -> (r: Self)
        ensures
            r.atomics == atomics,
    {
        DecimalFraction { atomics }
    }
}

/// The commission on `deposit` at a rate of `rate / 10^18`: the product,
/// rounded up to a whole amount.
pub open spec fn commission_of(deposit: nat, rate: nat) -> nat {
    ((deposit * rate + (DECIMAL_FRACTIONAL - 1)) / (DECIMAL_FRACTIONAL as int)) as nat
}

/// What `commission` returns: the rounded-up product, unless the deposit or
/// the rounded-up product cannot be written as a decimal.
pub open spec fn commission_result(deposit: nat, rate: nat) -> Result<u128, ContractError> {
    if deposit * DECIMAL_FRACTIONAL > u128::MAX {
        Err(ContractError::DecimalRangeExceeded)
    } else if commission_of(deposit, rate) * DECIMAL_FRACTIONAL > u128::MAX {
        Err(ContractError::Overflow)
    } else {
        Ok(commission_of(deposit, rate) as u128)
    }
}

/// The commission is the ceiling of `deposit * rate / 10^18`: its
/// `10^18`-fold is not below `deposit * rate`, and exceeds it by less than
/// `10^18`. Nothing is lost to truncation.
pub proof fn lemma_commission_is_ceiling(deposit: nat, rate: nat)
    ensures
        commission_of(deposit, rate) * DECIMAL_FRACTIONAL >= deposit * rate,
        commission_of(deposit, rate) * DECIMAL_FRACTIONAL < deposit * rate + DECIMAL_FRACTIONAL,
{
    let p = deposit * rate;
    assert(p >= 0) by (nonlinear_arith)
        requires
            p == deposit * rate,
    ;
}

/// No amount below the commission covers `deposit * rate / 10^18`.
pub proof fn lemma_commission_is_least(deposit: nat, rate: nat, c: nat)
    requires
        c * DECIMAL_FRACTIONAL >= deposit * rate,
    ensures
        c >= commission_of(deposit, rate),
{
    let p = deposit * rate;
    assert(p >= 0) by (nonlinear_arith)
        requires
            p == deposit * rate,
    ;
}

proof fn lemma_pow10_18()
    ensures
        pow10(18) == DECIMAL_FRACTIONAL,
{
    reveal_with_fuel(pow10, 19);
}

proof fn lemma_scaled_product(deposit: nat, rate: nat)
    ensures
        ((deposit * DECIMAL_FRACTIONAL) * rate) / (DECIMAL_FRACTIONAL as int) == deposit * rate,
{
    let u = DECIMAL_FRACTIONAL as int;
    let p = (deposit * rate) as int;
    assert((deposit * u) * rate == p * u) by (nonlinear_arith)
        requires
            p == deposit * rate,
    ;
    assert((p * u) / u == p) by (nonlinear_arith)
        requires
            u > 0,
    ;
}

proof fn lemma_ceil_is_commission(deposit: nat, rate: nat)
    ensures
        ceil_atomics(deposit * rate) == commission_of(deposit, rate) * DECIMAL_FRACTIONAL,
        ceil_atomics(deposit * rate) % (DECIMAL_FRACTIONAL as nat) == 0,
        ceil_atomics(deposit * rate) / (DECIMAL_FRACTIONAL as nat) == commission_of(deposit, rate),
{
    let p = deposit * rate;
    assert(p >= 0) by (nonlinear_arith)
        requires
            p == deposit * rate,
    ;
}

/// The commission on `deposit` at `rate`, computed in `cosmwasm_std`'s
/// decimals: the deposit as a decimal, times the rate, rounded up, read back
/// as an amount.
pub fn commission(deposit: u128, rate: DecimalFraction) -> (r: Result<u128, ContractError>)
    ensures
        r == commission_result(deposit as nat, rate@),
{
    proof {
        lemma_pow10_18();
        lemma_scaled_product(deposit as nat, rate@);
        lemma_ceil_is_commission(deposit as nat, rate@);
        lemma_commission_is_ceiling(deposit as nat, rate@);
    }
    let whole: u128 = match decimal_from_atomics(deposit, 0) {
        Ok(a) => a,
        Err(_) => {
            return Err(ContractError::DecimalRangeExceeded);
        },
    };
    let product: u128 = match decimal_checked_mul(whole, rate.atomics) {
        Ok(p) => p,
        Err(_) => {
            return Err(ContractError::Overflow);
        },
    };
    assert(product == deposit * rate@);
    if product % DECIMAL_FRACTIONAL != 0 && product / DECIMAL_FRACTIONAL >= u128::MAX
        / DECIMAL_FRACTIONAL {
        return Err(ContractError::Overflow);
    }
    let rounded: u128 = decimal_ceil(product);
    let text: String = decimal_to_string(rounded);
    proof {
        lemma_decimal_digits_round_trip(commission_of(deposit as nat, rate@));
    }
    match uint128_from_str(text.as_str()) {
        Ok(c) => Ok(c),
        Err(_) => Err(ContractError::Std),
    }
}

} // verus!
