//! A single-asset ascending auction with an escrowed-commission settlement.
//!
//! Bidders deposit funds; a commission is skimmed to the owner on every bid;
//! the highest net contributor leads; once the owner closes the auction the
//! leader's escrow is paid to the owner and every other bidder may retract
//! their net contribution exactly once.
//!
//! The entry points below take a request and hand it to the call that it
//! names. Every call works on an `AuctionStore` that the caller passes in.

use vstd::prelude::*;

pub mod error;
pub mod numeral;
pub mod cosmwasm;
pub mod commission;
pub mod ledger;
pub mod call;
pub mod state;
pub mod escrow;
pub mod model;
pub mod store;
pub mod msg;
pub mod contract;
pub mod laws;

use crate::call::{MessageInfo, MessageInfoView, Response};
use crate::contract::address_view;
use crate::error::ContractError;
use crate::model::Call;
use crate::msg::{ExecMsg, InstantiateMsg, QueryMsg, QueryResponse};
use crate::store::AuctionStore;

verus! {

/// Creates the auction that `msg` describes, for the caller in `info`.
pub fn instantiate(store: &mut AuctionStore, info: MessageInfo, msg: InstantiateMsg) -> (r:
    Response)
    ensures
        final(store)@ == old(store)@.instantiate_effect(
            info@.sender,
            msg.commodity_uri@,
            msg.bid_comission@,
            address_view(msg.owner),
        ),
        r@.transfers.len() == 0,
        r@.attributes.len() == 0,
{
    contract::instantiate(store, info, msg.commodity_uri, msg.bid_comission, msg.owner)
}

/// The command that a request and its caller make up.
pub open spec fn command(info: MessageInfoView, msg: ExecMsg) -> Call {
    match msg {
        ExecMsg::Bid {  } => Call::Bid { sender: info.sender, funds: info.funds },
        ExecMsg::Close {  } => Call::Close { sender: info.sender },
        ExecMsg::Retract { receiver } => Call::Retract {
            sender: info.sender,
            receiver: address_view(receiver),
        },
    }
}

/// Carries out the command that `msg` names, for the caller in `info`. A
/// command that is refused changes nothing.
pub fn execute(store: &mut AuctionStore, info: MessageInfo, msg: ExecMsg) -> (r: Result<
    Response,
    ContractError,
>)
    ensures
        match old(store)@.perform(command(info@, msg)) {
            Ok((next, response)) => {
                &&& r is Ok
                &&& r->Ok_0@ == response
                &&& final(store)@ == next
            },
            Err(e) => r == Err::<Response, ContractError>(e) && final(store)@ == old(store)@,
        },
{
    match msg {
        ExecMsg::Bid {  } => contract::bid(store, info),
        ExecMsg::Close {  } => contract::close(store, info),
        ExecMsg::Retract { receiver } => contract::retract(store, info, receiver),
    }
}

/// Answers the query that `msg` names. Nothing is changed.
pub fn query(store: &AuctionStore, msg: QueryMsg) -> (r: Result<QueryResponse, ContractError>)
    ensures
        match store@.answer(msg@) {
            Ok(answer) => r is Ok && r->Ok_0@ == answer,
            Err(e) => r == Err::<QueryResponse, ContractError>(e),
        },
{
    match msg {
        QueryMsg::TotalUserBid { address } => match contract::total_user_bid(store, address) {
            Ok(resp) => Ok(QueryResponse::TotalUserBid(resp)),
            Err(e) => Err(e),
        },
        QueryMsg::HighestBid {  } => match contract::highest_bid(store) {
            Ok(resp) => Ok(QueryResponse::HighestBid(resp)),
            Err(e) => Err(e),
        },
        QueryMsg::IsClosed {  } => match contract::is_closed(store) {
            Ok(resp) => Ok(QueryResponse::IsClosed(resp)),
            Err(e) => Err(e),
        },
        QueryMsg::Winner {  } => match contract::winner(store) {
            Ok(resp) => Ok(QueryResponse::Winner(resp)),
            Err(e) => Err(e),
        },
    }
}

} // verus!
