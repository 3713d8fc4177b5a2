//! The requests that an auction takes and the answers that its queries give.

use vstd::prelude::*;
use crate::commission::DecimalFraction;
use crate::model::{Answer, Query};
use crate::state::WinnerView;

verus! {

/// The request that creates an auction.
#[derive(Debug, Clone, PartialEq, Eq)]
pub struct InstantiateMsg {
    /// What is being auctioned.
    pub commodity_uri: String,
    /// The owner; the creator where none is named.
    pub owner: Option<String>,
    /// The fraction of each deposit that is kept as commission.
    pub bid_comission: DecimalFraction,
}

/// The read-only requests.
#[derive(Debug, Clone, PartialEq, Eq)]
pub enum QueryMsg {
    /// What `address` has in escrow.
    TotalUserBid { address: String },
    /// The leader, open or closed.
    HighestBid {},
    /// Whether the auction is closed.
    IsClosed {},
    /// The finalized winner: nobody while the auction is open.
    Winner {},
}

/// The requests that change the auction.
#[derive(Debug, Clone, PartialEq, Eq)]
pub enum ExecMsg {
    /// Bid with the funds attached to the call.
    Bid {},
    /// Close the auction.
    Close {},
    /// Take back what the caller has in escrow, to `receiver` or, where none
    /// is named, to the caller.
    Retract { receiver: Option<String> },
}

impl View for QueryMsg {
    type V = Query;

    open spec fn view(&self) -> Query {
        match self {
            QueryMsg::TotalUserBid { address } => Query::TotalUserBid { address: address@ },
            QueryMsg::HighestBid {  } => Query::HighestBid,
            QueryMsg::IsClosed {  } => Query::IsClosed,
            QueryMsg::Winner {  } => Query::Winner,
        }
    }
}

/// The answer to `QueryMsg::TotalUserBid`.
#[derive(Debug, Clone, PartialEq, Eq)]
pub struct TotalUserBidResp {
    pub amount: u128,
}

/// The answer to `QueryMsg::HighestBid`, where there is a leader.
#[derive(Debug, Clone, PartialEq, Eq)]
pub struct HighestBidResp {
    pub address: String,
    pub amount: u128,
}

impl View for HighestBidResp {
    type V = WinnerView;

    open spec fn view(&self) -> WinnerView {
        WinnerView { address: self.address@, amount: self.amount as nat }
    }
}

/// An optional leader as mathematics sees it.
pub open spec fn highest_bid_view(resp: Option<HighestBidResp>) -> Option<WinnerView> {
    match resp {
        Some(r) => Some(r@),
        None => None,
    }
}

/// The answer to `QueryMsg::IsClosed`.
#[derive(Debug, Clone, PartialEq, Eq)]
pub struct IsClosedResp {
    pub closed: bool,
}

/// The answer to `QueryMsg::Winner`, where there is a winner.
#[derive(Debug, Clone, PartialEq, Eq)]
pub struct WinnerResp {
    pub address: String,
    pub amount: u128,
}

impl View for WinnerResp {
    type V = WinnerView;

    open spec fn view(&self) -> WinnerView {
        WinnerView { address: self.address@, amount: self.amount as nat }
    }
}

/// An optional winner as mathematics sees it.
pub open spec fn winner_view(resp: Option<WinnerResp>) -> Option<WinnerView> {
    match resp {
        Some(r) => Some(r@),
        None => None,
    }
}

/// The answer to a query, by the kind of the query.
#[derive(Debug, Clone, PartialEq, Eq)]
pub enum QueryResponse {
    TotalUserBid(TotalUserBidResp),
    HighestBid(Option<HighestBidResp>),
    IsClosed(IsClosedResp),
    Winner(Option<WinnerResp>),
}

impl View for QueryResponse {
    type V = Answer;

    open spec fn view(&self) -> Answer {
        match self {
            QueryResponse::TotalUserBid(resp) => Answer::TotalUserBid(resp.amount as nat),
            QueryResponse::HighestBid(resp) => Answer::HighestBid(highest_bid_view(*resp)),
            QueryResponse::IsClosed(resp) => Answer::IsClosed(resp.closed),
            QueryResponse::Winner(resp) => Answer::Winner(winner_view(*resp)),
        }
    }
}

} // verus!
