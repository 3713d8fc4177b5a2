//! The ways in which a call can be refused.

use vstd::prelude::*;
use crate::cosmwasm::uint128_to_string;
use crate::numeral::decimal_digits;

verus! {

/// Why a call was refused. A refused call changes nothing.
#[derive(Debug, Clone, Copy, PartialEq, Eq, Structural)]
pub enum ContractError {
    /// A record that the call needs is missing from the store.
    Std,
    /// An amount left the range of 128-bit unsigned integers.
    Overflow,
    /// The deposit is too large to be written as a fixed-point decimal.
    DecimalRangeExceeded,
    /// Only the owner may close the auction.
    Unauthorized,
    /// The auction is closed, and the call needs it open.
    UnauthorizedWhileClosed,
    /// The auction is open, and the call needs it closed.
    UnauthorizedWhileOpen,
    /// The call carries no funds in the bid denomination.
    InvalidBidZeroAmount,
    /// The bidder's total would not exceed the leader's. `amount` is the net
    /// credit that was offered, `required_amount` the least that would do.
    InvalidBidAmount { amount: u128, required_amount: u128 },
    /// The caller has nothing escrowed.
    InvalidRetractZeroAmount,
}

impl ContractError {
    /// What `message` says of each kind of refusal.
    pub open spec fn message_text(self) -> Seq<char> {
        match self {
            ContractError::Std => "Auction not found"@,
            ContractError::Overflow => "Arithmetic overflow"@,
            ContractError::DecimalRangeExceeded => "Decimal range exceeded"@,
            ContractError::Unauthorized => "Unauthorized"@,
            ContractError::UnauthorizedWhileClosed => "Unauthorized - bid is closed"@,
            ContractError::UnauthorizedWhileOpen => "Unauthorized - bid is open"@,
            ContractError::InvalidBidZeroAmount => "Invalid bid amount. Found 0 ATOM"@,
            ContractError::InvalidBidAmount { amount, required_amount } => "Invalid bid - sent "@
                + decimal_digits(amount as nat) + ", required at least "@ + decimal_digits(
                required_amount as nat,
            ),
            ContractError::InvalidRetractZeroAmount => "Invalid retract amount. Found 0 ATOM"@,
        }
    }

    /// The refusal in words, for the one who made the call.
    pub fn message(&self) -> (r: String)
        ensures
            r@ == self.message_text(),
    {
        match self {
            ContractError::Std => String::from_str("Auction not found"),
            ContractError::Overflow => String::from_str("Arithmetic overflow"),
            ContractError::DecimalRangeExceeded => String::from_str("Decimal range exceeded"),
            ContractError::Unauthorized => String::from_str("Unauthorized"),
            ContractError::UnauthorizedWhileClosed => String::from_str(
                "Unauthorized - bid is closed",
            ),
            ContractError::UnauthorizedWhileOpen => String::from_str("Unauthorized - bid is open"),
            ContractError::InvalidBidZeroAmount => String::from_str(
                "Invalid bid amount. Found 0 ATOM",
            ),
            ContractError::InvalidBidAmount { amount, required_amount } => {
                let sent = uint128_to_string(*amount);
                let required = uint128_to_string(*required_amount);
                String::from_str("Invalid bid - sent ").concat(sent.as_str()).concat(
                    ", required at least ",
                ).concat(required.as_str())
            },
            ContractError::InvalidRetractZeroAmount => String::from_str(
                "Invalid retract amount. Found 0 ATOM",
            ),
        }
    }
}

} // verus!
