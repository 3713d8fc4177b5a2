//! The records that an auction keeps.

use vstd::prelude::*;
use crate::commission::DecimalFraction;

verus! {

/// The one denomination in which bids are taken.
pub const BID_DENOM: &'static str = "ATOM";

/// The auction's configuration.
#[derive(Debug, Clone, PartialEq, Eq)]
pub struct State {
    /// What is being auctioned.
    pub commodity_uri: String,
    /// Who receives the commissions and, at close, the winning amount.
    pub owner: String,
    /// The fraction of each deposit that is kept as commission.
    pub bid_comission: DecimalFraction,
    /// Whether the auction has been closed.
    pub is_closed: bool,
}

/// A `State` as mathematics sees it.
pub struct StateView {
    pub commodity_uri: Seq<char>,
    pub owner: Seq<char>,
    pub bid_comission: nat,
    pub is_closed: bool,
}

impl View for State {
    type V = StateView;

    open spec fn view(&self) -> StateView {
        StateView {
            commodity_uri: self.commodity_uri@,
            owner: self.owner@,
            bid_comission: self.bid_comission@,
            is_closed: self.is_closed,
        }
    }
}

impl State {
    /// A copy of the configuration.
    pub fn duplicate(&self) -> (r: State)
        ensures
            r@ == self@,
    {
        State {
            commodity_uri: self.commodity_uri.clone(),
            owner: self.owner.clone(),
            bid_comission: self.bid_comission,
            is_closed: self.is_closed,
        }
    }
}

/// The leading bidder and their escrowed total. Once the auction is closed
/// this is its result.
#[derive(Debug, Clone, PartialEq, Eq)]
pub struct Winner {
    pub address: String,
    pub amount: u128,
}

/// A `Winner` as mathematics sees it.
pub struct WinnerView {
    pub address: Seq<char>,
    pub amount: nat,
}

impl View for Winner {
    type V = WinnerView;

    open spec fn view(&self) -> WinnerView {
        WinnerView { address: self.address@, amount: self.amount as nat }
    }
}

impl Winner {
    /// A copy of the record.
    pub fn duplicate(&self) -> (r: Winner)
        ensures
            r@ == self@,
    {
        Winner { address: self.address.clone(), amount: self.amount }
    }
}

} // verus!
