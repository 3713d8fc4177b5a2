//! The auction's calls: creation, the three commands and the four queries.

use vstd::prelude::*;
use crate::call::{Coin, MessageInfo, Response, Transfer};
use crate::commission::{commission, DecimalFraction};
use crate::cosmwasm::{coin_to_string, uint128_to_string};
use crate::error::ContractError;
use crate::model::{deposit_of, first_in_denom, BidTerms};
use crate::msg::{
    highest_bid_view, winner_view, HighestBidResp, IsClosedResp, TotalUserBidResp, WinnerResp,
};
use crate::state::{State, Winner, BID_DENOM};
use crate::store::AuctionStore;

verus! {

/// An optional address as mathematics sees it.
pub open spec fn address_view(address: Option<String>) -> Option<Seq<char>> {
    match address {
        Some(a) => Some(a@),
        None => None,
    }
}

/// The place of the first coin of `denom` among `funds`, if there is one.
fn find_denom(funds: &Vec<Coin>, denom: &String) -> (r: Option<usize>)
    ensures
        match r {
            Some(i) => {
                &&& i < funds.len()
                &&& funds[i as int].denom@ == denom@
                &&& first_in_denom(funds@.map_values(|c: Coin| c@), denom@, 0) == Some(i as int)
            },
            None => first_in_denom(funds@.map_values(|c: Coin| c@), denom@, 0) is None,
        },
{
    let ghost coins = funds@.map_values(|c: Coin| c@);
    let mut i: usize = 0;
    while i < funds.len()
        invariant
            i <= funds.len(),
            coins == funds@.map_values(|c: Coin| c@),
            first_in_denom(coins, denom@, 0) == first_in_denom(coins, denom@, i as int),
        decreases funds.len() - i,
    {
        assert(coins[i as int] == funds@[i as int]@);
        if funds[i].denom == *denom {
            return Some(i);
        }
        i = i + 1;
    }
    None
}

/// Creates the auction: saves its configuration, open, with `owner` as the
/// owner, or the caller where no owner is named.
pub fn instantiate(
    store: &mut AuctionStore,
    info: MessageInfo,
    commodity_uri: String,
    bid_comission: DecimalFraction,
    owner: Option<String>,
) -> (r: Response)
    ensures
        final(store)@ == old(store)@.instantiate_effect(
            info@.sender,
            commodity_uri@,
            bid_comission@,
            address_view(owner),
        ),
        r@.transfers.len() == 0,
        r@.attributes.len() == 0,
{
    let contract_owner = match owner {
        Some(i) => i,
        None => info.sender,
    };
    store.save_state(
        State { commodity_uri, owner: contract_owner, bid_comission, is_closed: false },
    );
    Response::new()
}

/// Places a bid for the caller with the funds attached to the call.
///
/// The deposit is the first attached coin in the bid denomination. The
/// commission on it goes to the owner at once; the rest is added to the
/// caller's escrow. The bid is accepted only if the caller's new total
/// strictly exceeds the leader's; the caller then leads. A refused bid
/// changes nothing.
pub fn bid(store: &mut AuctionStore, info: MessageInfo) -> (r: Result<Response, ContractError>)
    ensures
        match old(store)@.bid_terms(info@.sender, info@.funds) {
            Ok(terms) => {
                &&& r is Ok
                &&& r->Ok_0@ == old(store)@.bid_response(info@.sender, terms)
                &&& final(store)@ == old(store)@.bid_effect(info@.sender, terms)
            },
            Err(e) => r == Err::<Response, ContractError>(e) && final(store)@ == old(store)@,
        },
{
    proof {
        store.lemma_bounded();
    }
    let state = match store.load_state() {
        Ok(s) => s,
        Err(e) => {
            return Err(e);
        },
    };
    if state.is_closed {
        return Err(ContractError::UnauthorizedWhileClosed);
    }
    let winner_amount: u128 = match store.may_load_winner() {
        Some(i) => i.amount,
        None => 0,
    };
    let user_bid: u128 = match store.may_load_bid(&info.sender) {
        Some(i) => i,
        None => 0,
    };
    let bid_denom = String::from_str(BID_DENOM);
    let coin_bid = match find_denom(&info.funds, &bid_denom) {
        Some(i) => &info.funds[i],
        None => {
            return Err(ContractError::InvalidBidZeroAmount);
        },
    };
    assert(deposit_of(info@.funds) == Some(coin_bid.amount as nat));
    if coin_bid.amount == 0 {
        return Err(ContractError::InvalidBidZeroAmount);
    }
    let amount_commission: u128 = match commission(coin_bid.amount, state.bid_comission) {
        Ok(c) => c,
        Err(e) => {
            return Err(e);
        },
    };
    let amount_bid: u128 = match coin_bid.amount.checked_sub(amount_commission) {
        Some(n) => n,
        None => {
            return Err(ContractError::Overflow);
        },
    };
    let total: u128 = match user_bid.checked_add(amount_bid) {
        Some(n) => n,
        None => {
            return Err(ContractError::Overflow);
        },
    };
    if !(winner_amount < total) {
        let short: u128 = winner_amount - total + amount_bid;
        let required_amount: u128 = match short.checked_add(1) {
            Some(n) => n,
            None => {
                return Err(ContractError::Overflow);
            },
        };
        return Err(ContractError::InvalidBidAmount { amount: amount_bid, required_amount });
    }
    let ghost terms = BidTerms {
        deposit: coin_bid.amount as nat,
        commission: amount_commission as nat,
        net: amount_bid as nat,
        total: total as nat,
    };
    assert(old(store)@.bid_terms(info@.sender, info@.funds) == Ok::<BidTerms, ContractError>(
        terms,
    ));

    store.save_bid(&info.sender, total);
    store.save_winner(Winner { address: info.sender.clone(), amount: total });

    let transfer = Transfer {
        to_address: state.owner.clone(),
        amount: Coin { denom: bid_denom, amount: amount_commission },
    };
    let deposit_text = coin_to_string(coin_bid);
    let net_text = uint128_to_string(amount_bid);
    let resp = Response::new().add_transfer(transfer).add_attribute("action", "bid").add_attribute(
        "bidder",
        info.sender.as_str(),
    ).add_attribute("amount", deposit_text.as_str()).add_attribute("net_amount", net_text.as_str());
    proof {
        let want = old(store)@.bid_response(info@.sender, terms);
        assert(resp@.transfers =~= want.transfers);
        assert(resp@.attributes =~= want.attributes);
    }
    Ok(resp)
}

/// Closes the auction, for good. Only the owner may do so, and only once.
///
/// The leader's escrow goes to the owner and the leader's entry is set to
/// zero, so that the winner has nothing left to retract. With no leader the
/// auction closes all the same, and nothing moves.
pub fn close(store: &mut AuctionStore, info: MessageInfo) -> (r: Result<Response, ContractError>)
    ensures
        match old(store)@.close_refusal(info@.sender) {
            None => {
                &&& r is Ok
                &&& r->Ok_0@ == old(store)@.close_response()
                &&& final(store)@ == old(store)@.close_effect()
            },
            Some(e) => r == Err::<Response, ContractError>(e) && final(store)@ == old(store)@,
        },
{
    proof {
        store.lemma_bounded();
    }
    let mut state = match store.load_state() {
        Ok(s) => s,
        Err(e) => {
            return Err(e);
        },
    };
    if state.is_closed {
        return Err(ContractError::UnauthorizedWhileClosed);
    }
    if state.owner != info.sender {
        return Err(ContractError::Unauthorized);
    }
    let owner = state.owner.clone();
    state.is_closed = true;
    store.save_state(state);

    let resp = match store.may_load_winner() {
        Some(i) => {
            store.save_bid(&i.address, 0);
            let transfer = Transfer {
                to_address: owner,
                amount: Coin { denom: String::from_str(BID_DENOM), amount: i.amount },
            };
            let amount_text = uint128_to_string(i.amount);
            Response::new().add_transfer(transfer).add_attribute("action", "close").add_attribute(
                "winner",
                i.address.as_str(),
            ).add_attribute("amount", amount_text.as_str())
        },
        None => Response::new().add_attribute("action", "close"),
    };
    proof {
        let want = old(store)@.close_response();
        assert(resp@.transfers =~= want.transfers);
        assert(resp@.attributes =~= want.attributes);
        assert(store@.bids =~= old(store)@.close_effect().bids);
    }
    Ok(resp)
}

/// Hands back what the caller has in escrow, once the auction is closed.
///
/// The amount goes to `receiver`, or to the caller where none is named, and
/// the caller's entry is set to zero: a second call finds nothing, and so
/// does the winner, whose entry was set to zero at the close.
pub fn retract(store: &mut AuctionStore, info: MessageInfo, receiver: Option<String>) -> (r: Result<
    Response,
    ContractError,
>)
    ensures
        match old(store)@.retract_refusal(info@.sender) {
            None => {
                &&& r is Ok
                &&& r->Ok_0@ == old(store)@.retract_response(info@.sender, address_view(receiver))
                &&& final(store)@ == old(store)@.retract_effect(info@.sender)
            },
            Some(e) => r == Err::<Response, ContractError>(e) && final(store)@ == old(store)@,
        },
{
    proof {
        store.lemma_bounded();
    }
    let state = match store.load_state() {
        Ok(s) => s,
        Err(e) => {
            return Err(e);
        },
    };
    if state.is_closed == false {
        return Err(ContractError::UnauthorizedWhileOpen);
    }
    let funds_receiver = match receiver {
        Some(i) => i,
        None => info.sender.clone(),
    };
    let amount: u128 = match store.may_load_bid(&info.sender) {
        Some(i) => i,
        None => 0,
    };
    if amount == 0 {
        return Err(ContractError::InvalidRetractZeroAmount);
    }
    store.save_bid(&info.sender, 0);

    let amount_text = uint128_to_string(amount);
    let transfer = Transfer {
        to_address: funds_receiver.clone(),
        amount: Coin { denom: String::from_str(BID_DENOM), amount },
    };
    let resp = Response::new().add_transfer(transfer).add_attribute(
        "action",
        "retract",
    ).add_attribute("bidder", info.sender.as_str()).add_attribute(
        "receiver",
        funds_receiver.as_str(),
    ).add_attribute("amount", amount_text.as_str());
    proof {
        let want = old(store)@.retract_response(info@.sender, address_view(receiver));
        assert(resp@.transfers =~= want.transfers);
        assert(resp@.attributes =~= want.attributes);
    }
    Ok(resp)
}

/// What `address` has in escrow: zero where it never bid, and zero again
/// once it has been paid out.
pub fn total_user_bid(store: &AuctionStore, address: String) -> (r: Result<
    TotalUserBidResp,
    ContractError,
>)
    ensures
        r is Ok,
        r->Ok_0.amount == store@.total_bid(address@),
{
    let amount: u128 = match store.may_load_bid(&address) {
        Some(i) => i,
        None => 0,
    };
    Ok(TotalUserBidResp { amount })
}

/// The leader, if there is one. It is shown while the auction is open, and
/// after the close it is the winner.
pub fn highest_bid(store: &AuctionStore) -> (r: Result<Option<HighestBidResp>, ContractError>)
    ensures
        r is Ok,
        highest_bid_view(r->Ok_0) == store@.winner,
{
    match store.may_load_winner() {
        Some(i) => Ok(Some(HighestBidResp { address: i.address, amount: i.amount })),
        None => Ok(None),
    }
}

/// Whether the auction is closed. Fails with `Std` where the auction has
/// not been created.
pub fn is_closed(store: &AuctionStore) -> (r: Result<IsClosedResp, ContractError>)
    ensures
        match store@.state {
            Some(s) => r is Ok && r->Ok_0.closed == s.is_closed,
            None => r == Err::<IsClosedResp, ContractError>(ContractError::Std),
        },
{
    let closed = match store.load_state() {
        Ok(s) => s.is_closed,
        Err(e) => {
            return Err(e);
        },
    };
    Ok(IsClosedResp { closed })
}

/// The finalized winner: the leader once the auction is closed, and nobody
/// while it is open, even if somebody leads. Fails with `Std` where the
/// auction has not been created.
pub fn winner(store: &AuctionStore) -> (r: Result<Option<WinnerResp>, ContractError>)
    ensures
        match store@.state {
            Some(_) => r is Ok && winner_view(r->Ok_0) == store@.final_winner(),
            None => r == Err::<Option<WinnerResp>, ContractError>(ContractError::Std),
        },
{
    let closed = match store.load_state() {
        Ok(s) => s.is_closed,
        Err(e) => {
            return Err(e);
        },
    };
    if closed == false {
        return Ok(None);
    }
    match store.may_load_winner() {
        Some(i) => Ok(Some(WinnerResp { address: i.address, amount: i.amount })),
        None => Ok(None),
    }
}

} // verus!
