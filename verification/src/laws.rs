//! What holds of every auction, whatever is asked of it.
//!
//! The laws are stated over the mathematical model. The executable calls
//! are specified by that model exactly, so each law holds of every store
//! that they have worked on.

use vstd::prelude::*;
use crate::call::CoinView;
use crate::commission::{commission_of, commission_result, lemma_commission_is_ceiling};
use crate::cosmwasm::DECIMAL_FRACTIONAL;
use crate::error::ContractError;
use crate::escrow::{escrow_of, lemma_escrow_of_empty, lemma_escrow_of_insert};
use crate::model::{deposit_of, paid_out, Answer, Auction, Call, Query};
use crate::state::BID_DENOM;

verus! {

impl Auction {
    /// The ledger and the leader record agree.
    ///
    /// The ledger has finitely many entries. With no leader it is empty.
    /// With a leader, the leader's total is positive and every other
    /// bidder's entry is strictly below it; the leader's own entry equals
    /// the total while the auction is open, and is zero once it is closed.
    pub open spec fn inv(self) -> bool {
        &&& self.bids.dom().finite()
        &&& match self.winner {
            None => forall|a: Seq<char>| !self.bids.dom().contains(a),
            Some(w) => {
                &&& self.state is Some
                &&& w.amount > 0
                &&& self.bids.dom().contains(w.address)
                &&& self.bids[w.address] == if self.is_closed() {
                    0
                } else {
                    w.amount
                }
                &&& forall|a: Seq<char>|
                    self.bids.dom().contains(a) && a != w.address ==> #[trigger] self.bids[a]
                        < w.amount
            },
        }
    }

    /// `m` is the greatest amount in the ledger: no entry exceeds it, and
    /// some entry equals it, unless the ledger is empty and `m` is zero.
    pub open spec fn is_highest_bid(self, m: nat) -> bool {
        &&& forall|a: Seq<char>| self.bids.dom().contains(a) ==> #[trigger] self.bids[a] <= m
        &&& (exists|a: Seq<char>| self.bids.dom().contains(a) && #[trigger] self.bids[a] == m) || (m
            == 0 && forall|a: Seq<char>| !self.bids.dom().contains(a))
    }
}

/// A newly created auction is consistent: creation on an empty store gives
/// an open auction with no leader and an empty ledger.
pub proof fn lemma_instantiate_is_consistent(
    sender: Seq<char>,
    commodity_uri: Seq<char>,
    bid_comission: nat,
    owner: Option<Seq<char>>,
)
    ensures
        Auction::empty().instantiate_effect(sender, commodity_uri, bid_comission, owner).inv(),
        Auction::empty().instantiate_effect(sender, commodity_uri, bid_comission, owner).is_open(),
        Auction::empty().instantiate_effect(sender, commodity_uri, bid_comission, owner).winner
            is None,
{
}

/// No command breaks the agreement of ledger and leader record.
pub proof fn lemma_command_keeps_consistency(pre: Auction, call: Call)
    requires
        pre.inv(),
    ensures
        pre.after(call).inv(),
{
    let post = pre.after(call);
    match call {
        Call::Bid { sender, funds } => {
            if let Ok(terms) = pre.bid_terms(sender, funds) {
                assert(post == pre.bid_effect(sender, terms));
                assert(post.winner == Some(
                    crate::state::WinnerView { address: sender, amount: terms.total },
                ));
                assert forall|a: Seq<char>|
                    post.bids.dom().contains(a) && a != sender implies #[trigger] post.bids[a]
                    < terms.total by {
                    assert(pre.bids.dom().contains(a));
                    assert(post.bids[a] == pre.bids[a]);
                    match pre.winner {
                        None => {},
                        Some(w) => {
                            if a != w.address {
                                assert(pre.bids[a] < w.amount);
                            }
                        },
                    }
                }
            }
        },
        Call::Close { sender } => {
            if pre.close_refusal(sender) is None {
                assert(post == pre.close_effect());
                match pre.winner {
                    None => {},
                    Some(w) => {
                        assert forall|a: Seq<char>|
                            post.bids.dom().contains(a) && a != w.address implies
                            #[trigger] post.bids[a] < w.amount by {
                            assert(post.bids[a] == pre.bids[a]);
                        }
                    },
                }
            }
        },
        Call::Retract { sender, receiver } => {
            if pre.retract_refusal(sender) is None {
                assert(post == pre.retract_effect(sender));
                assert(pre.bids.dom().contains(sender));
                match pre.winner {
                    None => {},
                    Some(w) => {
                        assert(sender != w.address);
                        assert forall|a: Seq<char>|
                            post.bids.dom().contains(a) && a != w.address implies
                            #[trigger] post.bids[a] < w.amount by {
                            if a != sender {
                                assert(post.bids[a] == pre.bids[a]);
                            }
                        }
                    },
                }
            }
        },
    }
}

/// No sequence of commands breaks the agreement of ledger and leader
/// record.
pub proof fn lemma_run_keeps_consistency(pre: Auction, calls: Seq<Call>)
    requires
        pre.inv(),
    ensures
        pre.run(calls).inv(),
    decreases calls.len(),
{
    if calls.len() > 0 {
        lemma_run_keeps_consistency(pre, calls.drop_last());
        lemma_command_keeps_consistency(pre.run(calls.drop_last()), calls.last());
    }
}

/// While a consistent auction is open, the leader's total is the greatest
/// amount in the ledger, and it is the leader who holds it.
pub proof fn lemma_leader_holds_highest_bid(pre: Auction)
    requires
        pre.inv(),
        pre.is_open(),
    ensures
        pre.is_highest_bid(pre.leader_amount()),
        pre.winner matches Some(w) ==> pre.total_bid(w.address) == w.amount,
{
    match pre.winner {
        None => {},
        Some(w) => {
            assert(pre.bids.dom().contains(w.address) && pre.bids[w.address] == w.amount);
            assert forall|a: Seq<char>| pre.bids.dom().contains(a) implies #[trigger] pre.bids[a]
                <= w.amount by {
                if a != w.address {
                    assert(pre.bids[a] < w.amount);
                }
            }
        },
    }
}

/// From its creation on, whatever is asked of it, an auction stays
/// consistent, and while it is open the leader's total is the greatest
/// amount in the ledger.
pub proof fn lemma_leader_is_highest_while_open(
    sender: Seq<char>,
    commodity_uri: Seq<char>,
    bid_comission: nat,
    owner: Option<Seq<char>>,
    calls: Seq<Call>,
)
    ensures
        ({
            let created = Auction::empty().instantiate_effect(
                sender,
                commodity_uri,
                bid_comission,
                owner,
            );
            let now = created.run(calls);
            &&& now.inv()
            &&& now.is_open() ==> now.is_highest_bid(now.leader_amount())
            &&& now.is_open() && now.winner is Some ==> now.total_bid(now.winner->0.address)
                == now.leader_amount()
        }),
{
    let created = Auction::empty().instantiate_effect(sender, commodity_uri, bid_comission, owner);
    lemma_instantiate_is_consistent(sender, commodity_uri, bid_comission, owner);
    lemma_run_keeps_consistency(created, calls);
    let now = created.run(calls);
    if now.is_open() {
        lemma_leader_holds_highest_bid(now);
    }
}

/// The leader's total never goes down, and an accepted bid raises it.
pub proof fn lemma_leader_never_decreases(pre: Auction, call: Call)
    ensures
        pre.after(call).leader_amount() >= pre.leader_amount(),
        call is Bid && pre.perform(call) is Ok ==> pre.after(call).leader_amount()
            > pre.leader_amount(),
{
}

/// Over any sequence of commands the leader's total never goes down.
pub proof fn lemma_run_leader_never_decreases(pre: Auction, calls: Seq<Call>)
    ensures
        pre.run(calls).leader_amount() >= pre.leader_amount(),
    decreases calls.len(),
{
    if calls.len() > 0 {
        lemma_run_leader_never_decreases(pre, calls.drop_last());
        lemma_leader_never_decreases(pre.run(calls.drop_last()), calls.last());
    }
}

/// An accepted bid splits the deposit without loss: commission and net
/// credit add up to the deposit, the commission is the rate times the
/// deposit rounded up, never down, and the bidder's escrow grows by the net
/// credit.
pub proof fn lemma_bid_conserves_deposit(pre: Auction, sender: Seq<char>, funds: Seq<CoinView>)
    requires
        pre.bid_terms(sender, funds) is Ok,
    ensures
        ({
            let terms = pre.bid_terms(sender, funds)->Ok_0;
            let rate = pre.state->0.bid_comission;
            &&& deposit_of(funds) == Some(terms.deposit)
            &&& terms.commission + terms.net == terms.deposit
            &&& terms.commission == commission_of(terms.deposit, rate)
            &&& terms.commission * DECIMAL_FRACTIONAL >= terms.deposit * rate
            &&& terms.commission * DECIMAL_FRACTIONAL < terms.deposit * rate + DECIMAL_FRACTIONAL
            &&& terms.total == pre.total_bid(sender) + terms.net
            &&& pre.bid_effect(sender, terms).total_bid(sender) == terms.total
        }),
{
    let terms = pre.bid_terms(sender, funds)->Ok_0;
    lemma_commission_is_ceiling(terms.deposit, pre.state->0.bid_comission);
}

/// No command creates or loses funds. A command that is carried out on a
/// consistent auction changes one ledger entry at most, and what that entry
/// holds afterwards, together with what the command hands out, is what the
/// entry held before, together with what the command brought in. All that
/// is handed out is in the bid denomination.
pub proof fn lemma_funds_are_conserved(pre: Auction, call: Call)
    requires
        pre.inv(),
        pre.perform(call) is Ok,
    ensures
        ({
            let (post, response) = pre.perform(call)->Ok_0;
            let account = pre.account(call);
            &&& forall|a: Seq<char>| a != account ==> post.total_bid(a) == pre.total_bid(a)
            &&& post.total_bid(account) + paid_out(response.transfers) == pre.total_bid(account)
                + call.paid_in()
            &&& forall|i: int|
                0 <= i < response.transfers.len() ==> (
                #[trigger] response.transfers[i]).amount.denom == BID_DENOM@
        }),
{
    let (post, response) = pre.perform(call)->Ok_0;
    let transfers = response.transfers;
    if transfers.len() == 0 {
    } else {
        assert(transfers.len() == 1);
        assert(transfers.drop_last().len() == 0);
        assert(paid_out(transfers.drop_last()) == 0);
        assert(paid_out(transfers) == transfers[0].amount.amount);
    }
}

/// The escrow follows the funds: after a command that is carried out on a
/// consistent auction, the sum of the ledger, together with what the command
/// hands out, is the sum of the ledger before, together with what the
/// command brought in. A command that is refused moves nothing.
pub proof fn lemma_command_balances(pre: Auction, call: Call)
    requires
        pre.inv(),
    ensures
        escrow_of(pre.after(call).bids) + pre.handed_out_by(call) == escrow_of(pre.bids)
            + pre.taken_in_by(call),
{
    if pre.perform(call) is Ok {
        lemma_funds_are_conserved(pre, call);
        let account = pre.account(call);
        let post = pre.after(call);
        if post.bids != pre.bids {
            assert(post.bids == pre.bids.insert(account, post.total_bid(account)));
            lemma_escrow_of_insert(pre.bids, account, post.total_bid(account));
        }
    }
}

/// Over any sequence of commands on a consistent auction, what is held in
/// escrow at the end and what was handed out on the way add up to what was
/// held at the start and what was brought in on the way.
pub proof fn lemma_run_balances(pre: Auction, calls: Seq<Call>)
    requires
        pre.inv(),
    ensures
        escrow_of(pre.run(calls).bids) + pre.handed_out(calls) == escrow_of(pre.bids)
            + pre.taken_in(calls),
    decreases calls.len(),
{
    if calls.len() > 0 {
        lemma_run_balances(pre, calls.drop_last());
        lemma_run_keeps_consistency(pre, calls.drop_last());
        lemma_command_balances(pre.run(calls.drop_last()), calls.last());
    }
}

/// From its creation on, an auction holds in escrow exactly what its
/// bidders brought in and it has not yet handed out: the sum of the ledger
/// is the deposits of all accepted bids less all commissions, the payment at
/// the close and all retractions.
pub proof fn lemma_escrow_is_deposits_less_payments(
    sender: Seq<char>,
    commodity_uri: Seq<char>,
    bid_comission: nat,
    owner: Option<Seq<char>>,
    calls: Seq<Call>,
)
    ensures
        ({
            let created = Auction::empty().instantiate_effect(
                sender,
                commodity_uri,
                bid_comission,
                owner,
            );
            escrow_of(created.run(calls).bids) + created.handed_out(calls) == created.taken_in(
                calls,
            )
        }),
{
    let created = Auction::empty().instantiate_effect(sender, commodity_uri, bid_comission, owner);
    lemma_instantiate_is_consistent(sender, commodity_uri, bid_comission, owner);
    lemma_escrow_of_empty();
    lemma_run_balances(created, calls);
}

/// A bid is accepted only if the bidder's new total strictly exceeds the
/// leader's: a total that merely equals it is refused.
pub proof fn lemma_accepted_bid_exceeds_leader(
    pre: Auction,
    sender: Seq<char>,
    funds: Seq<CoinView>,
)
    requires
        pre.bid_terms(sender, funds) is Ok,
    ensures
        pre.bid_terms(sender, funds)->Ok_0.total > pre.leader_amount(),
{
}

/// A bid whose total would not exceed the leader's is refused and changes
/// nothing: where the auction is open and the deposit splits into a
/// commission and a net credit, a new total at or below the leader's is
/// never accepted.
pub proof fn lemma_bid_not_above_leader_is_refused(
    pre: Auction,
    sender: Seq<char>,
    funds: Seq<CoinView>,
)
    requires
        pre.is_open(),
        deposit_of(funds) is Some,
        commission_result(deposit_of(funds)->0, pre.state->0.bid_comission) is Ok,
        commission_of(deposit_of(funds)->0, pre.state->0.bid_comission) <= deposit_of(funds)->0,
        pre.total_bid(sender) + deposit_of(funds)->0 - commission_of(
            deposit_of(funds)->0,
            pre.state->0.bid_comission,
        ) <= pre.leader_amount(),
    ensures
        pre.bid_terms(sender, funds) is Err,
        pre.after(Call::Bid { sender, funds }) == pre,
{
}

/// The leader cannot bid again to no effect: in a consistent, open auction
/// a bid by the leader is accepted only if it adds to the leader's total.
pub proof fn lemma_leader_must_raise(pre: Auction, funds: Seq<CoinView>)
    requires
        pre.inv(),
        pre.winner is Some,
        pre.bid_terms(pre.winner->0.address, funds) is Ok,
    ensures
        pre.bid_terms(pre.winner->0.address, funds)->Ok_0.net > 0,
{
}

/// Where a bid is refused as insufficient, the refusal names the net credit
/// that was offered and the least net credit that would have been enough.
pub proof fn lemma_insufficient_bid_names_minimum(
    pre: Auction,
    sender: Seq<char>,
    funds: Seq<CoinView>,
)
    requires
        pre.bid_terms(sender, funds) matches Err(ContractError::InvalidBidAmount { .. }),
    ensures
        ({
            let e = pre.bid_terms(sender, funds)->Err_0;
            let offered = e->amount as nat;
            let required = e->required_amount as nat;
            &&& pre.total_bid(sender) + offered <= pre.leader_amount()
            &&& pre.total_bid(sender) + required > pre.leader_amount()
            &&& pre.total_bid(sender) + (required - 1) <= pre.leader_amount()
        }),
{
}

/// Once closed, always closed, and the leader record is frozen: no sequence
/// of commands reopens the auction or touches its result.
pub proof fn lemma_closed_is_final(pre: Auction, calls: Seq<Call>)
    requires
        pre.is_closed(),
    ensures
        pre.run(calls).is_closed(),
        pre.run(calls).winner == pre.winner,
        pre.run(calls).final_winner() == pre.final_winner(),
    decreases calls.len(),
{
    if calls.len() > 0 {
        lemma_closed_is_final(pre, calls.drop_last());
    }
}

/// The auction is closed at most once: after a close that was carried out,
/// and whatever was asked in between, every close is refused because the
/// auction is closed.
pub proof fn lemma_close_succeeds_once(
    pre: Auction,
    sender: Seq<char>,
    calls: Seq<Call>,
    again: Seq<char>,
)
    requires
        pre.close_refusal(sender) is None,
    ensures
        pre.close_effect().run(calls).close_refusal(again) == Some(
            ContractError::UnauthorizedWhileClosed,
        ),
{
    lemma_closed_is_final(pre.close_effect(), calls);
}

/// Closing an auction in which nobody bid is carried out: nothing is
/// transferred, no winner is named, the ledger stays as it is, and a query
/// for the winner finds none afterwards.
pub proof fn lemma_close_without_bids(pre: Auction, sender: Seq<char>)
    requires
        pre.close_refusal(sender) is None,
        pre.winner is None,
    ensures
        pre.perform(Call::Close { sender }) is Ok,
        pre.close_response().transfers.len() == 0,
        pre.close_response().attributes == seq![("action"@, "close"@)],
        pre.close_effect().is_closed(),
        pre.close_effect().bids == pre.bids,
        pre.close_effect().final_winner() is None,
        pre.close_effect().answer(Query::Winner) == Ok::<Answer, ContractError>(
            Answer::Winner(None),
        ),
{
}

/// Once closed, an escrow that is empty stays empty: no sequence of
/// commands brings anything back into it.
pub proof fn lemma_paid_out_stays_paid_out(pre: Auction, address: Seq<char>, calls: Seq<Call>)
    requires
        pre.is_closed(),
        pre.total_bid(address) == 0,
    ensures
        pre.run(calls).total_bid(address) == 0,
        pre.run(calls).retract_refusal(address) == Some(ContractError::InvalidRetractZeroAmount),
    decreases calls.len(),
{
    lemma_closed_is_final(pre, calls);
    if calls.len() > 0 {
        lemma_paid_out_stays_paid_out(pre, address, calls.drop_last());
        lemma_closed_is_final(pre, calls.drop_last());
    }
}

/// A bidder is paid out at most once: a retraction that was carried out
/// pays exactly what the bidder had in escrow, and after it, whatever was
/// asked in between, every retraction by the same bidder is refused.
pub proof fn lemma_retract_pays_once(
    pre: Auction,
    sender: Seq<char>,
    receiver: Option<Seq<char>>,
    calls: Seq<Call>,
)
    requires
        pre.retract_refusal(sender) is None,
    ensures
        pre.retract_response(sender, receiver).transfers.len() == 1,
        pre.retract_response(sender, receiver).transfers[0].amount.amount == pre.total_bid(sender),
        pre.retract_effect(sender).total_bid(sender) == 0,
        pre.retract_effect(sender).run(calls).retract_refusal(sender) == Some(
            ContractError::InvalidRetractZeroAmount,
        ),
{
    lemma_paid_out_stays_paid_out(pre.retract_effect(sender), sender, calls);
}

/// The winner never retracts: the close pays the winner's escrow to the
/// owner and empties the winner's entry, and after it, whatever was asked
/// in between, every retraction by the winner is refused.
pub proof fn lemma_winner_cannot_retract(pre: Auction, sender: Seq<char>, calls: Seq<Call>)
    requires
        pre.close_refusal(sender) is None,
        pre.winner is Some,
    ensures
        pre.close_response().transfers.len() == 1,
        pre.close_response().transfers[0].amount.amount == pre.winner->0.amount,
        pre.close_response().transfers[0].to_address == pre.state->0.owner,
        pre.close_effect().run(calls).final_winner() == pre.winner,
        pre.close_effect().run(calls).retract_refusal(pre.winner->0.address) == Some(
            ContractError::InvalidRetractZeroAmount,
        ),
{
    lemma_closed_is_final(pre.close_effect(), calls);
    lemma_paid_out_stays_paid_out(pre.close_effect(), pre.winner->0.address, calls);
}

} // verus!
