//! The auction as a mathematical state machine.
//!
//! An `Auction` is the content of the three records. Each call is a
//! function from the state before it to a verdict, and, where the call is
//! carried out, to the state after it and the acknowledgment that is handed
//! back. The executable entry points are specified by these functions.

use vstd::prelude::*;
use crate::call::{CoinView, ResponseView, TransferView};
use crate::commission::commission_result;
use crate::error::ContractError;
use crate::numeral::decimal_digits;
use crate::state::{StateView, WinnerView, BID_DENOM};

verus! {

/// The content of an auction's records.
pub struct Auction {
    /// The configuration, once the auction has been created.
    pub state: Option<StateView>,
    /// Each bidder's escrowed net contribution.
    pub bids: Map<Seq<char>, nat>,
    /// The leader, once a bid has been accepted.
    pub winner: Option<WinnerView>,
}

/// What an accepted bid amounts to.
pub struct BidTerms {
    /// The amount attached in the bid denomination.
    pub deposit: nat,
    /// The part of the deposit that goes to the owner at once.
    pub commission: nat,
    /// The part that is credited to the bidder: `deposit - commission`.
    pub net: nat,
    /// The bidder's escrowed total after the bid.
    pub total: nat,
}

/// A command and the caller that issues it.
pub enum Call {
    /// A bid by `sender` with `funds` attached.
    Bid { sender: Seq<char>, funds: Seq<CoinView> },
    /// A close by `sender`.
    Close { sender: Seq<char> },
    /// A retraction by `sender`, to `receiver` where one is named.
    Retract { sender: Seq<char>, receiver: Option<Seq<char>> },
}

/// A read-only request.
pub enum Query {
    /// What `address` has in escrow.
    TotalUserBid { address: Seq<char> },
    /// The leader, open or closed.
    HighestBid,
    /// Whether the auction is closed.
    IsClosed,
    /// The finalized winner.
    Winner,
}

/// The answer to a read-only request, by the kind of the request.
pub enum Answer {
    TotalUserBid(nat),
    HighestBid(Option<WinnerView>),
    IsClosed(bool),
    Winner(Option<WinnerView>),
}

/// The place of the first coin of `denom` at or after `from`, if there is one.
pub open spec fn first_in_denom(funds: Seq<CoinView>, denom: Seq<char>, from: int) -> Option<int>
    decreases funds.len() - from,
{
    if from < 0 || from >= funds.len() {
        None
    } else if funds[from].denom == denom {
        Some(from)
    } else {
        first_in_denom(funds, denom, from + 1)
    }
}

/// The deposit that `funds` holds: the amount of the first coin in the bid
/// denomination. Coins of other denominations are passed over.
pub open spec fn deposit_of(funds: Seq<CoinView>) -> Option<nat> {
    match first_in_denom(funds, BID_DENOM@, 0) {
        Some(i) => Some(funds[i].amount),
        None => None,
    }
}

/// What a run of transfers hands out in all.
pub open spec fn paid_out(transfers: Seq<TransferView>) -> nat
    decreases transfers.len(),
{
    if transfers.len() == 0 {
        0
    } else {
        paid_out(transfers.drop_last()) + transfers.last().amount.amount
    }
}

impl Call {
    /// What the command brings in: the deposit of a bid, and nothing else.
    pub open spec fn paid_in(self) -> nat {
        match self {
            Call::Bid { funds, .. } => match deposit_of(funds) {
                Some(d) => d,
                None => 0,
            },
            _ => 0,
        }
    }
}

impl Auction {
    /// The auction before it is created: no record at all.
    pub open spec fn empty() -> Auction {
        Auction { state: None, bids: Map::empty(), winner: None }
    }

    /// What `address` has in escrow: zero where it has no entry.
    pub open spec fn total_bid(self, address: Seq<char>) -> nat {
        if self.bids.dom().contains(address) {
            self.bids[address]
        } else {
            0
        }
    }

    /// The leader's total: zero while there is no leader.
    pub open spec fn leader_amount(self) -> nat {
        match self.winner {
            Some(w) => w.amount,
            None => 0,
        }
    }

    /// The auction exists and has been closed.
    pub open spec fn is_closed(self) -> bool {
        self.state matches Some(s) && s.is_closed
    }

    /// The auction exists and has not been closed.
    pub open spec fn is_open(self) -> bool {
        self.state matches Some(s) && !s.is_closed
    }

    /// The finalized winner: the leader once the auction is closed, nobody
    /// before that.
    pub open spec fn final_winner(self) -> Option<WinnerView> {
        if self.is_closed() {
            self.winner
        } else {
            None
        }
    }

    /// The answer to a query. What a bidder has in escrow and who leads can
    /// always be told; whether the auction is closed and who has won, only
    /// once the auction exists.
    pub open spec fn answer(self, query: Query) -> Result<Answer, ContractError> {
        match query {
            Query::TotalUserBid { address } => Ok(Answer::TotalUserBid(self.total_bid(address))),
            Query::HighestBid => Ok(Answer::HighestBid(self.winner)),
            Query::IsClosed => match self.state {
                Some(s) => Ok(Answer::IsClosed(s.is_closed)),
                None => Err(ContractError::Std),
            },
            Query::Winner => match self.state {
                Some(_) => Ok(Answer::Winner(self.final_winner())),
                None => Err(ContractError::Std),
            },
        }
    }

    /// The state after creation: the configuration is written, open; the
    /// other records stay as they are.
    pub open spec fn instantiate_effect(
        self,
        sender: Seq<char>,
        commodity_uri: Seq<char>,
        bid_comission: nat,
        owner: Option<Seq<char>>,
    ) -> Auction {
        Auction {
            state: Some(
                StateView {
                    commodity_uri,
                    owner: match owner {
                        Some(o) => o,
                        None => sender,
                    },
                    bid_comission,
                    is_closed: false,
                },
            ),
            ..self
        }
    }

    /// The verdict on a bid by `sender` with `funds` attached: its terms if
    /// it is accepted, else the reason for which it is refused. The checks
    /// are made in this order: the auction exists; it is open; there is a
    /// positive deposit; the commission can be computed and does not exceed
    /// the deposit; the bidder's new total fits in 128 bits; the new total
    /// strictly exceeds the leader's.
    pub open spec fn bid_terms(self, sender: Seq<char>, funds: Seq<CoinView>) -> Result<
        BidTerms,
        ContractError,
    > {
        if self.state is None {
            Err(ContractError::Std)
        } else if self.is_closed() {
            Err(ContractError::UnauthorizedWhileClosed)
        } else if deposit_of(funds) is None || deposit_of(funds) == Some(0nat) {
            Err(ContractError::InvalidBidZeroAmount)
        } else {
            let deposit = deposit_of(funds)->0;
            match commission_result(deposit, self.state->0.bid_comission) {
                Err(e) => Err(e),
                Ok(c) => {
                    let commission = c as nat;
                    let net = (deposit - commission) as nat;
                    let total = self.total_bid(sender) + net;
                    let required = self.leader_amount() - self.total_bid(sender) + 1;
                    if commission > deposit {
                        Err(ContractError::Overflow)
                    } else if total > u128::MAX {
                        Err(ContractError::Overflow)
                    } else if total > self.leader_amount() {
                        Ok(BidTerms { deposit, commission, net, total })
                    } else if required > u128::MAX {
                        Err(ContractError::Overflow)
                    } else {
                        Err(
                            ContractError::InvalidBidAmount {
                                amount: net as u128,
                                required_amount: required as u128,
                            },
                        )
                    }
                },
            }
        }
    }

    /// The state after an accepted bid: the bidder's entry holds the new
    /// total, and the bidder leads with it.
    pub open spec fn bid_effect(self, sender: Seq<char>, terms: BidTerms) -> Auction {
        Auction {
            bids: self.bids.insert(sender, terms.total),
            winner: Some(WinnerView { address: sender, amount: terms.total }),
            ..self
        }
    }

    /// The acknowledgment of an accepted bid: the commission goes to the
    /// owner, and nothing else moves.
    pub open spec fn bid_response(self, sender: Seq<char>, terms: BidTerms) -> ResponseView {
        ResponseView {
            transfers: seq![
                TransferView {
                    to_address: self.state->0.owner,
                    amount: CoinView { denom: BID_DENOM@, amount: terms.commission },
                },
            ],
            attributes: seq![
                ("action"@, "bid"@),
                ("bidder"@, sender),
                ("amount"@, decimal_digits(terms.deposit) + BID_DENOM@),
                ("net_amount"@, decimal_digits(terms.net)),
            ],
        }
    }

    /// The reason for which a call of `close` by `sender` is refused, if it
    /// is: the auction must exist, be open, and `sender` must own it.
    pub open spec fn close_refusal(self, sender: Seq<char>) -> Option<ContractError> {
        if self.state is None {
            Some(ContractError::Std)
        } else if self.is_closed() {
            Some(ContractError::UnauthorizedWhileClosed)
        } else if self.state->0.owner != sender {
            Some(ContractError::Unauthorized)
        } else {
            None
        }
    }

    /// The state after the auction is closed: the flag is set, the leader's
    /// entry is zero, and the leader record stays as it is.
    pub open spec fn close_effect(self) -> Auction {
        Auction {
            state: Some(StateView { is_closed: true, ..self.state->0 }),
            bids: match self.winner {
                Some(w) => self.bids.insert(w.address, 0),
                None => self.bids,
            },
            ..self
        }
    }

    /// The acknowledgment of a close: the leader's total goes to the owner;
    /// with no leader nothing moves and no winner is named.
    pub open spec fn close_response(self) -> ResponseView {
        match self.winner {
            Some(w) => ResponseView {
                transfers: seq![
                    TransferView {
                        to_address: self.state->0.owner,
                        amount: CoinView { denom: BID_DENOM@, amount: w.amount },
                    },
                ],
                attributes: seq![
                    ("action"@, "close"@),
                    ("winner"@, w.address),
                    ("amount"@, decimal_digits(w.amount)),
                ],
            },
            None => ResponseView {
                transfers: Seq::empty(),
                attributes: seq![("action"@, "close"@)],
            },
        }
    }

    /// The reason for which a call of `retract` by `sender` is refused, if
    /// it is: the auction must exist and be closed, and `sender` must have
    /// something in escrow.
    pub open spec fn retract_refusal(self, sender: Seq<char>) -> Option<ContractError> {
        if self.state is None {
            Some(ContractError::Std)
        } else if !self.is_closed() {
            Some(ContractError::UnauthorizedWhileOpen)
        } else if self.total_bid(sender) == 0 {
            Some(ContractError::InvalidRetractZeroAmount)
        } else {
            None
        }
    }

    /// The state after `sender` has retracted: their entry is zero.
    pub open spec fn retract_effect(self, sender: Seq<char>) -> Auction {
        Auction { bids: self.bids.insert(sender, 0), ..self }
    }

    /// Who receives what `sender` retracts: the receiver that was named, or
    /// `sender`.
    pub open spec fn retract_receiver(sender: Seq<char>, receiver: Option<Seq<char>>) -> Seq<
        char,
    > {
        match receiver {
            Some(r) => r,
            None => sender,
        }
    }

    /// The acknowledgment of a retraction: what `sender` had in escrow goes
    /// to the receiver.
    pub open spec fn retract_response(
        self,
        sender: Seq<char>,
        receiver: Option<Seq<char>>,
    ) -> ResponseView {
        ResponseView {
            transfers: seq![
                TransferView {
                    to_address: Self::retract_receiver(sender, receiver),
                    amount: CoinView { denom: BID_DENOM@, amount: self.total_bid(sender) },
                },
            ],
            attributes: seq![
                ("action"@, "retract"@),
                ("bidder"@, sender),
                ("receiver"@, Self::retract_receiver(sender, receiver)),
                ("amount"@, decimal_digits(self.total_bid(sender))),
            ],
        }
    }

    /// The one bidder whose ledger entry a command can change: the caller
    /// of a bid or a retraction, and the leader at a close.
    pub open spec fn account(self, call: Call) -> Seq<char> {
        match call {
            Call::Bid { sender, .. } => sender,
            Call::Close { sender } => match self.winner {
                Some(w) => w.address,
                None => sender,
            },
            Call::Retract { sender, .. } => sender,
        }
    }

    /// What a command does: the state after it and its acknowledgment, or
    /// the reason for which it is refused.
    pub open spec fn perform(self, call: Call) -> Result<(Auction, ResponseView), ContractError> {
        match call {
            Call::Bid { sender, funds } => match self.bid_terms(sender, funds) {
                Ok(terms) => Ok((self.bid_effect(sender, terms), self.bid_response(sender, terms))),
                Err(e) => Err(e),
            },
            Call::Close { sender } => match self.close_refusal(sender) {
                None => Ok((self.close_effect(), self.close_response())),
                Some(e) => Err(e),
            },
            Call::Retract { sender, receiver } => match self.retract_refusal(sender) {
                None => Ok((self.retract_effect(sender), self.retract_response(sender, receiver))),
                Some(e) => Err(e),
            },
        }
    }

    /// The state after a command: a refused command changes nothing.
    pub open spec fn after(self, call: Call) -> Auction {
        match self.perform(call) {
            Ok((next, _)) => next,
            Err(_) => self,
        }
    }

    /// What a command brings in where it is carried out, and nothing where
    /// it is refused.
    pub open spec fn taken_in_by(self, call: Call) -> nat {
        if self.perform(call) is Ok {
            call.paid_in()
        } else {
            0
        }
    }

    /// What a command hands out where it is carried out, and nothing where
    /// it is refused.
    pub open spec fn handed_out_by(self, call: Call) -> nat {
        match self.perform(call) {
            Ok((_, response)) => paid_out(response.transfers),
            Err(_) => 0,
        }
    }

    /// The state after a sequence of commands, each carried out or refused
    /// in its turn.
    pub open spec fn run(self, calls: Seq<Call>) -> Auction
        decreases calls.len(),
    {
        if calls.len() == 0 {
            self
        } else {
            self.run(calls.drop_last()).after(calls.last())
        }
    }

    /// All that a sequence of commands brings in.
    pub open spec fn taken_in(self, calls: Seq<Call>) -> nat
        decreases calls.len(),
    {
        if calls.len() == 0 {
            0
        } else {
            self.taken_in(calls.drop_last()) + self.run(calls.drop_last()).taken_in_by(
                calls.last(),
            )
        }
    }

    /// All that a sequence of commands hands out.
    pub open spec fn handed_out(self, calls: Seq<Call>) -> nat
        decreases calls.len(),
    {
        if calls.len() == 0 {
            0
        } else {
            self.handed_out(calls.drop_last()) + self.run(calls.drop_last()).handed_out_by(
                calls.last(),
            )
        }
    }
}

} // verus!
