//! The auction's store: three records, loaded and saved one at a time.

use vstd::prelude::*;
use crate::error::ContractError;
use crate::ledger::{BidEntry, BidLedger};
use crate::model::Auction;
use crate::state::{State, Winner};

verus! {

/// The store that every call works on. It holds the configuration, the bid
/// ledger and the leader record, and nothing else.
#[derive(Debug)]
pub struct AuctionStore {
    state: Option<State>,
    bids: BidLedger,
    winner: Option<Winner>,
}

impl AuctionStore {
    /// The content of the three records.
    pub closed spec fn view(&self) -> Auction {
        Auction {
            state: match self.state {
                Some(s) => Some(s@),
                None => None,
            },
            bids: self.bids@,
            winner: match self.winner {
                Some(w) => Some(w@),
                None => None,
            },
        }
    }

    /// What the store holds fits the machine: amounts and the rate are
    /// 128-bit numbers, and there are finitely many bidders.
    pub proof fn lemma_bounded(&self)
        ensures
            self@.bids.dom().finite(),
            forall|a: Seq<char>|
                self@.bids.dom().contains(a) ==> #[trigger] self@.bids[a] <= u128::MAX,
            self@.winner matches Some(w) ==> w.amount <= u128::MAX,
            self@.state matches Some(s) ==> s.bid_comission <= u128::MAX,
    {
        self.bids.lemma_finite();
        assert forall|a: Seq<char>| self@.bids.dom().contains(a) implies #[trigger] self@.bids[a]
            <= u128::MAX by {
            self.bids.lemma_amounts_bounded(a);
        }
    }

    /// A store with no record in it.
    pub fn new() -> (r: Self)
        ensures
            r@ == Auction::empty(),
    {
        AuctionStore { state: None, bids: BidLedger::new(), winner: None }
    }

    /// The configuration. Fails with `Std` where none has been saved.
    pub fn load_state(&self) -> (r: Result<State, ContractError>)
        ensures
            match self@.state {
                Some(s) => r is Ok && r->Ok_0@ == s,
                None => r == Err::<State, ContractError>(ContractError::Std),
            },
    {
        match &self.state {
            Some(s) => Ok(s.duplicate()),
            None => Err(ContractError::Std),
        }
    }

    /// Saves the configuration, in place of the one saved before.
    pub fn save_state(&mut self, state: State)
        ensures
            final(self)@ == (Auction { state: Some(state@), ..old(self)@ }),
    {
        self.state = Some(state);
    }

    /// The leader record, if one has been saved.
    pub fn may_load_winner(&self) -> (r: Option<Winner>)
        ensures
            match self@.winner {
                Some(w) => r is Some && r->0@ == w,
                None => r is None,
            },
    {
        match &self.winner {
            Some(w) => Some(w.duplicate()),
            None => None,
        }
    }

    /// Saves the leader record, in place of the one saved before.
    pub fn save_winner(&mut self, winner: Winner)
        ensures
            final(self)@ == (Auction { winner: Some(winner@), ..old(self)@ }),
    {
        self.winner = Some(winner);
    }

    /// The ledger entry of `address`, if it has one.
    pub fn may_load_bid(&self, address: &String) -> (r: Option<u128>)
        ensures
            r is Some <==> self@.bids.dom().contains(address@),
            r matches Some(amount) ==> amount as nat == self@.bids[address@],
    {
        self.bids.may_load(address)
    }

    /// Saves `amount` as the ledger entry of `address`.
    pub fn save_bid(&mut self, address: &String, amount: u128)
        ensures
            final(self)@ == (Auction {
                bids: old(self)@.bids.insert(address@, amount as nat),
                ..old(self)@
            }),
    {
        self.bids.save(address, amount);
    }

    /// The ledger's entries, one for each bidder that has one.
    pub fn bid_entries(&self) -> (r: Vec<BidEntry>)
        ensures
            forall|i: int|
                0 <= i < r@.len() ==> self@.bids.dom().contains(#[trigger] r@[i].address@)
                    && self@.bids[r@[i].address@] == r@[i].amount,
            forall|i: int, j: int|
                0 <= i < j < r@.len() ==> r@[i].address@ != r@[j].address@,
            forall|a: Seq<char>|
                self@.bids.dom().contains(a) ==> exists|i: int|
                    0 <= i < r@.len() && #[trigger] r@[i].address@ == a,
    {
        self.bids.entries()
    }
}

} // verus!
