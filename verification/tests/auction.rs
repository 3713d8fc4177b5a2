use bidding::call::{Attribute, Coin, MessageInfo, Response, Transfer};
use bidding::commission::DecimalFraction;
use bidding::contract::{
    bid, close, highest_bid, instantiate, is_closed, retract, total_user_bid, winner,
};
use bidding::error::ContractError;
use bidding::msg::{
    ExecMsg, HighestBidResp, InstantiateMsg, IsClosedResp, QueryMsg, QueryResponse,
    TotalUserBidResp, WinnerResp,
};
use bidding::state::{State, Winner, BID_DENOM};
use bidding::store::AuctionStore;

const ONE: u128 = 1_000_000_000_000_000_000;
const TENTH: u128 = 100_000_000_000_000_000;

fn addr(s: &str) -> String {
    s.to_string()
}

fn atom(amount: u128) -> Vec<Coin> {
    vec![Coin { denom: addr("ATOM"), amount }]
}

fn call(sender: &str, funds: Vec<Coin>) -> MessageInfo {
    MessageInfo { sender: addr(sender), funds }
}

fn attr(key: &str, value: &str) -> Attribute {
    Attribute { key: addr(key), value: addr(value) }
}

fn pay(to: &str, amount: u128) -> Transfer {
    Transfer { to_address: addr(to), amount: Coin { denom: addr("ATOM"), amount } }
}

fn auction(rate: u128) -> AuctionStore {
    let mut store = AuctionStore::new();
    let info = call("owner", vec![]);
    instantiate(&mut store, info, addr("someuri"), DecimalFraction::raw(rate), None);
    store
}

fn total(store: &AuctionStore, address: &str) -> u128 {
    total_user_bid(store, addr(address)).unwrap().amount
}

fn leader(store: &AuctionStore) -> Option<(String, u128)> {
    highest_bid(store).unwrap().map(|h| (h.address, h.amount))
}

#[test]
fn bid_denomination_is_atom() {
    assert_eq!(BID_DENOM, "ATOM");
}

#[test]
fn instantiate_saves_an_open_auction_owned_by_the_creator() {
    let mut store = AuctionStore::new();
    let resp = instantiate(
        &mut store,
        call("creator", vec![]),
        addr("someuri"),
        DecimalFraction::raw(TENTH),
        None,
    );
    assert_eq!(resp, Response { transfers: vec![], attributes: vec![] });
    assert_eq!(
        store.load_state(),
        Ok(State {
            commodity_uri: addr("someuri"),
            owner: addr("creator"),
            bid_comission: DecimalFraction::raw(TENTH),
            is_closed: false,
        })
    );
    assert_eq!(store.may_load_winner(), None);
    assert_eq!(store.bid_entries(), vec![]);
}

#[test]
fn instantiate_takes_the_owner_that_is_named() {
    let mut store = AuctionStore::new();
    instantiate(
        &mut store,
        call("creator", vec![]),
        addr("uri"),
        DecimalFraction::raw(0),
        Some(addr("owner")),
    );
    assert_eq!(store.load_state().unwrap().owner, "owner");
}

#[test]
fn instantiate_through_the_entry_point() {
    let mut store = AuctionStore::new();
    let msg = InstantiateMsg {
        commodity_uri: addr("someuri"),
        owner: Some(addr("owner")),
        bid_comission: DecimalFraction::raw(TENTH),
    };
    let resp = bidding::instantiate(&mut store, call("creator", vec![]), msg);
    assert_eq!(resp, Response { transfers: vec![], attributes: vec![] });
    let state = store.load_state().unwrap();
    assert_eq!(state.owner, "owner");
    assert_eq!(state.commodity_uri, "someuri");
    assert_eq!(state.bid_comission, DecimalFraction::raw(TENTH));
    assert!(!state.is_closed);
}

#[test]
fn first_bid_makes_the_bidder_leader() {
    let mut store = auction(TENTH);
    let resp = bid(&mut store, call("alex", atom(100))).unwrap();
    assert_eq!(resp.transfers, vec![pay("owner", 10)]);
    assert_eq!(
        resp.attributes,
        vec![
            attr("action", "bid"),
            attr("bidder", "alex"),
            attr("amount", "100ATOM"),
            attr("net_amount", "90"),
        ]
    );
    assert_eq!(leader(&store), Some((addr("alex"), 90)));
    assert_eq!(total(&store, "alex"), 90);
    assert_eq!(store.may_load_winner(), Some(Winner { address: addr("alex"), amount: 90 }));
}

#[test]
fn second_bid_by_the_same_bidder_adds_up() {
    let mut store = auction(TENTH);
    bid(&mut store, call("alex", atom(100))).unwrap();
    let resp = bid(&mut store, call("alex", atom(200))).unwrap();
    assert_eq!(resp.transfers, vec![pay("owner", 20)]);
    assert_eq!(resp.attributes[2], attr("amount", "200ATOM"));
    assert_eq!(resp.attributes[3], attr("net_amount", "180"));
    assert_eq!(total(&store, "alex"), 270);
    assert_eq!(leader(&store), Some((addr("alex"), 270)));
}

#[test]
fn higher_bid_by_another_bidder_takes_the_lead() {
    let mut store = auction(TENTH);
    let first = bid(&mut store, call("alex", atom(100))).unwrap();
    let second = bid(&mut store, call("anna", atom(200))).unwrap();
    assert_eq!(leader(&store), Some((addr("anna"), 180)));
    assert_eq!(total(&store, "alex"), 90);
    assert_eq!(total(&store, "anna"), 180);
    let paid: u128 = first
        .transfers
        .iter()
        .chain(second.transfers.iter())
        .filter(|t| t.to_address == "owner")
        .map(|t| t.amount.amount)
        .sum();
    assert_eq!(paid, 30);
}

#[test]
fn close_pays_the_leader_total_to_the_owner_once() {
    let mut store = auction(TENTH);
    bid(&mut store, call("alex", atom(100))).unwrap();
    bid(&mut store, call("anna", atom(200))).unwrap();
    let resp = close(&mut store, call("owner", vec![])).unwrap();
    assert_eq!(resp.transfers, vec![pay("owner", 180)]);
    assert_eq!(
        resp.attributes,
        vec![attr("action", "close"), attr("winner", "anna"), attr("amount", "180")]
    );
    assert_eq!(total(&store, "anna"), 0);
    assert_eq!(total(&store, "alex"), 90);
    assert_eq!(
        winner(&store),
        Ok(Some(WinnerResp { address: addr("anna"), amount: 180 }))
    );
    assert_eq!(
        close(&mut store, call("owner", vec![])),
        Err(ContractError::UnauthorizedWhileClosed)
    );
    assert_eq!(
        winner(&store),
        Ok(Some(WinnerResp { address: addr("anna"), amount: 180 }))
    );
}

#[test]
fn retract_after_close_returns_the_net_contribution_once() {
    let mut store = auction(TENTH);
    bid(&mut store, call("alex", atom(100))).unwrap();
    bid(&mut store, call("anna", atom(200))).unwrap();
    close(&mut store, call("owner", vec![])).unwrap();
    let resp = retract(&mut store, call("alex", vec![]), None).unwrap();
    assert_eq!(resp.transfers, vec![pay("alex", 90)]);
    assert_eq!(
        resp.attributes,
        vec![
            attr("action", "retract"),
            attr("bidder", "alex"),
            attr("receiver", "alex"),
            attr("amount", "90"),
        ]
    );
    assert_eq!(total(&store, "alex"), 0);
    assert_eq!(
        retract(&mut store, call("alex", vec![]), None),
        Err(ContractError::InvalidRetractZeroAmount)
    );
}

#[test]
fn winner_cannot_retract() {
    let mut store = auction(TENTH);
    bid(&mut store, call("alex", atom(100))).unwrap();
    bid(&mut store, call("anna", atom(200))).unwrap();
    close(&mut store, call("owner", vec![])).unwrap();
    assert_eq!(
        retract(&mut store, call("anna", vec![]), None),
        Err(ContractError::InvalidRetractZeroAmount)
    );
    retract(&mut store, call("alex", vec![]), None).unwrap();
    assert_eq!(
        retract(&mut store, call("anna", vec![]), Some(addr("alex"))),
        Err(ContractError::InvalidRetractZeroAmount)
    );
}

#[test]
fn retract_to_a_named_receiver() {
    let mut store = auction(TENTH);
    bid(&mut store, call("alex", atom(100))).unwrap();
    bid(&mut store, call("anna", atom(200))).unwrap();
    close(&mut store, call("owner", vec![])).unwrap();
    let resp = retract(&mut store, call("alex", vec![]), Some(addr("bob"))).unwrap();
    assert_eq!(resp.transfers, vec![pay("bob", 90)]);
    assert_eq!(
        resp.attributes,
        vec![
            attr("action", "retract"),
            attr("bidder", "alex"),
            attr("receiver", "bob"),
            attr("amount", "90"),
        ]
    );
    assert_eq!(total(&store, "alex"), 0);
    assert_eq!(total(&store, "bob"), 0);
}

#[test]
fn close_without_bids_names_no_winner() {
    let mut store = auction(TENTH);
    let resp = close(&mut store, call("owner", vec![])).unwrap();
    assert_eq!(resp.transfers, vec![]);
    assert_eq!(resp.attributes, vec![attr("action", "close")]);
    assert_eq!(is_closed(&store), Ok(IsClosedResp { closed: true }));
    assert_eq!(winner(&store), Ok(None));
    assert_eq!(highest_bid(&store), Ok(None));
    assert_eq!(store.bid_entries(), vec![]);
    assert_eq!(
        close(&mut store, call("owner", vec![])),
        Err(ContractError::UnauthorizedWhileClosed)
    );
}

#[test]
fn leader_amount_never_goes_down_and_is_the_highest_entry() {
    let mut store = auction(TENTH);
    let calls: [(&str, u128); 9] = [
        ("alex", 100),
        ("anna", 50),
        ("anna", 100),
        ("bob", 10),
        ("alex", 1),
        ("alex", 90),
        ("bob", 200),
        ("anna", 49),
        ("anna", 202),
    ];
    let mut before: u128 = 0;
    for (sender, amount) in calls {
        let accepted = bid(&mut store, call(sender, atom(amount))).is_ok();
        let now = leader(&store).map(|l| l.1).unwrap_or(0);
        assert!(now >= before);
        assert_eq!(accepted, now > before);
        let highest = store.bid_entries().iter().map(|e| e.amount).max().unwrap_or(0);
        assert_eq!(now, highest);
        if let Some((address, amount)) = leader(&store) {
            assert_eq!(total(&store, &address), amount);
        }
        before = now;
    }
    assert_eq!(leader(&store), Some((addr("anna"), 181)));
    assert_eq!(total(&store, "alex"), 171);
    assert_eq!(total(&store, "bob"), 180);
}

#[test]
fn commission_and_net_add_up_to_the_deposit() {
    for (deposit, rate, commission, net) in [
        (100u128, TENTH, 10u128, 90u128),
        (101, TENTH, 11, 90),
        (1, 1, 1, 0),
        (999, ONE / 3, 333, 666),
        (1000, ONE / 3, 334, 666),
        (50, 0, 0, 50),
    ] {
        let mut store = auction(rate);
        let result = bid(&mut store, call("alex", atom(deposit)));
        if net == 0 {
            assert_eq!(
                result,
                Err(ContractError::InvalidBidAmount { amount: 0, required_amount: 1 })
            );
        } else {
            let resp = result.unwrap();
            assert_eq!(resp.transfers, vec![pay("owner", commission)]);
            assert_eq!(total(&store, "alex"), net);
            assert_eq!(resp.transfers[0].amount.amount + total(&store, "alex"), deposit);
        }
    }
}

#[test]
fn tie_with_the_leader_is_refused() {
    let mut store = auction(TENTH);
    bid(&mut store, call("alex", atom(100))).unwrap();
    assert_eq!(
        bid(&mut store, call("anna", atom(100))),
        Err(ContractError::InvalidBidAmount { amount: 90, required_amount: 91 })
    );
    assert_eq!(leader(&store), Some((addr("alex"), 90)));
    assert_eq!(total(&store, "anna"), 0);
    assert_eq!(store.may_load_bid(&addr("anna")), None);
}

#[test]
fn lower_bid_is_refused_and_names_the_minimum() {
    let mut store = auction(TENTH);
    bid(&mut store, call("alex", atom(100))).unwrap();
    bid(&mut store, call("anna", atom(200))).unwrap();
    // alex holds 90, the leader 180: 91 more are needed, 45 are offered.
    assert_eq!(
        bid(&mut store, call("alex", atom(50))),
        Err(ContractError::InvalidBidAmount { amount: 45, required_amount: 91 })
    );
    assert_eq!(total(&store, "alex"), 90);
    // A deposit whose net credit is exactly the minimum is accepted.
    let resp = bid(&mut store, call("alex", atom(102))).unwrap();
    assert_eq!(resp.transfers, vec![pay("owner", 11)]);
    assert_eq!(leader(&store), Some((addr("alex"), 181)));
}

#[test]
fn leader_cannot_bid_again_to_no_effect() {
    let mut store = auction(ONE);
    // At a rate of one everything is commission: nobody ever leads.
    assert_eq!(
        bid(&mut store, call("alex", atom(100))),
        Err(ContractError::InvalidBidAmount { amount: 0, required_amount: 1 })
    );
    let mut store = auction(TENTH);
    bid(&mut store, call("alex", atom(100))).unwrap();
    assert_eq!(
        bid(&mut store, call("alex", atom(1))),
        Err(ContractError::InvalidBidAmount { amount: 0, required_amount: 1 })
    );
    assert_eq!(leader(&store), Some((addr("alex"), 90)));
    bid(&mut store, call("alex", atom(2))).unwrap();
    assert_eq!(leader(&store), Some((addr("alex"), 91)));
}

#[test]
fn bid_without_funds_in_the_bid_denomination_is_refused() {
    let mut store = auction(TENTH);
    assert_eq!(bid(&mut store, call("alex", vec![])), Err(ContractError::InvalidBidZeroAmount));
    let other = vec![Coin { denom: addr("BTC"), amount: 100 }];
    assert_eq!(bid(&mut store, call("alex", other)), Err(ContractError::InvalidBidZeroAmount));
    let lower_case = vec![Coin { denom: addr("atom"), amount: 100 }];
    assert_eq!(
        bid(&mut store, call("alex", lower_case)),
        Err(ContractError::InvalidBidZeroAmount)
    );
    assert_eq!(bid(&mut store, call("alex", atom(0))), Err(ContractError::InvalidBidZeroAmount));
    assert_eq!(leader(&store), None);
    assert_eq!(store.bid_entries(), vec![]);
}

#[test]
fn other_denominations_are_passed_over() {
    let mut store = auction(TENTH);
    let funds = vec![
        Coin { denom: addr("BTC"), amount: 5 },
        Coin { denom: addr("ATOM"), amount: 100 },
        Coin { denom: addr("ETH"), amount: 7 },
        Coin { denom: addr("ATOM"), amount: 1000 },
    ];
    let resp = bid(&mut store, call("alex", funds)).unwrap();
    assert_eq!(resp.transfers, vec![pay("owner", 10)]);
    assert_eq!(resp.attributes[2], attr("amount", "100ATOM"));
    assert_eq!(total(&store, "alex"), 90);
}

#[test]
fn bid_after_close_is_refused() {
    let mut store = auction(TENTH);
    bid(&mut store, call("alex", atom(100))).unwrap();
    close(&mut store, call("owner", vec![])).unwrap();
    assert_eq!(
        bid(&mut store, call("anna", atom(200))),
        Err(ContractError::UnauthorizedWhileClosed)
    );
    assert_eq!(bid(&mut store, call("anna", vec![])), Err(ContractError::UnauthorizedWhileClosed));
    assert_eq!(total(&store, "anna"), 0);
    assert_eq!(leader(&store), Some((addr("alex"), 90)));
}

#[test]
fn only_the_owner_closes() {
    let mut store = auction(TENTH);
    bid(&mut store, call("alex", atom(100))).unwrap();
    assert_eq!(close(&mut store, call("alex", vec![])), Err(ContractError::Unauthorized));
    assert_eq!(close(&mut store, call("", vec![])), Err(ContractError::Unauthorized));
    assert_eq!(is_closed(&store), Ok(IsClosedResp { closed: false }));
    assert_eq!(total(&store, "alex"), 90);
    close(&mut store, call("owner", vec![])).unwrap();
    // Once closed the refusal is the same for everybody.
    assert_eq!(
        close(&mut store, call("alex", vec![])),
        Err(ContractError::UnauthorizedWhileClosed)
    );
}

#[test]
fn retract_while_open_is_refused() {
    let mut store = auction(TENTH);
    bid(&mut store, call("alex", atom(100))).unwrap();
    assert_eq!(
        retract(&mut store, call("alex", vec![]), None),
        Err(ContractError::UnauthorizedWhileOpen)
    );
    assert_eq!(
        retract(&mut store, call("nobody", vec![]), None),
        Err(ContractError::UnauthorizedWhileOpen)
    );
    assert_eq!(total(&store, "alex"), 90);
}

#[test]
fn retract_by_one_who_never_bid_is_refused() {
    let mut store = auction(TENTH);
    bid(&mut store, call("alex", atom(100))).unwrap();
    close(&mut store, call("owner", vec![])).unwrap();
    assert_eq!(
        retract(&mut store, call("bob", vec![]), None),
        Err(ContractError::InvalidRetractZeroAmount)
    );
    assert_eq!(store.may_load_bid(&addr("bob")), None);
}

#[test]
fn calls_on_a_store_without_an_auction_fail() {
    let mut store = AuctionStore::new();
    assert_eq!(bid(&mut store, call("alex", atom(100))), Err(ContractError::Std));
    assert_eq!(close(&mut store, call("owner", vec![])), Err(ContractError::Std));
    assert_eq!(retract(&mut store, call("alex", vec![]), None), Err(ContractError::Std));
    assert_eq!(is_closed(&store), Err(ContractError::Std));
    assert_eq!(winner(&store), Err(ContractError::Std));
    assert_eq!(total_user_bid(&store, addr("alex")), Ok(TotalUserBidResp { amount: 0 }));
    assert_eq!(highest_bid(&store), Ok(None));
    assert_eq!(store.bid_entries(), vec![]);
}

#[test]
fn deposit_that_is_no_decimal_is_refused() {
    let mut store = auction(TENTH);
    assert_eq!(
        bid(&mut store, call("alex", atom(340282366920938463464))),
        Err(ContractError::DecimalRangeExceeded)
    );
    assert_eq!(
        bid(&mut store, call("alex", atom(u128::MAX))),
        Err(ContractError::DecimalRangeExceeded)
    );
    assert_eq!(leader(&store), None);
}

#[test]
fn commission_above_the_deposit_is_an_overflow() {
    let mut store = auction(2 * ONE);
    assert_eq!(bid(&mut store, call("alex", atom(100))), Err(ContractError::Overflow));
    let mut store = auction(ONE + 1);
    assert_eq!(bid(&mut store, call("alex", atom(1))), Err(ContractError::Overflow));
    assert_eq!(leader(&store), None);
    assert_eq!(store.bid_entries(), vec![]);
}

#[test]
fn commission_out_of_range_is_an_overflow() {
    let mut store = auction(u128::MAX);
    assert_eq!(bid(&mut store, call("alex", atom(1))), Err(ContractError::Overflow));
    assert_eq!(bid(&mut store, call("alex", atom(2))), Err(ContractError::Overflow));
}

#[test]
fn total_out_of_range_is_an_overflow() {
    let mut store = auction(0);
    store.save_bid(&addr("alex"), u128::MAX - 5);
    assert_eq!(bid(&mut store, call("alex", atom(6))), Err(ContractError::Overflow));
    assert_eq!(total(&store, "alex"), u128::MAX - 5);
    bid(&mut store, call("alex", atom(5))).unwrap();
    assert_eq!(leader(&store), Some((addr("alex"), u128::MAX)));
    // Nothing exceeds the greatest amount, and no minimum can be named.
    assert_eq!(bid(&mut store, call("anna", atom(5))), Err(ContractError::Overflow));
    assert_eq!(
        bid(&mut store, call("bob", atom(340282366920938463463))),
        Err(ContractError::Overflow)
    );
}

#[test]
fn refused_calls_change_nothing() {
    let mut store = auction(TENTH);
    bid(&mut store, call("alex", atom(100))).unwrap();
    bid(&mut store, call("anna", atom(200))).unwrap();
    let state = store.load_state();
    let entries = store.bid_entries();
    let lead = store.may_load_winner();
    assert!(bid(&mut store, call("alex", atom(10))).is_err());
    assert!(bid(&mut store, call("bob", vec![])).is_err());
    assert!(close(&mut store, call("anna", vec![])).is_err());
    assert!(retract(&mut store, call("alex", vec![]), None).is_err());
    assert_eq!(store.load_state(), state);
    assert_eq!(store.bid_entries(), entries);
    assert_eq!(store.may_load_winner(), lead);
}

#[test]
fn winner_is_hidden_while_open_and_frozen_once_closed() {
    let mut store = auction(TENTH);
    assert_eq!(winner(&store), Ok(None));
    bid(&mut store, call("alex", atom(100))).unwrap();
    assert_eq!(winner(&store), Ok(None));
    assert_eq!(
        highest_bid(&store),
        Ok(Some(HighestBidResp { address: addr("alex"), amount: 90 }))
    );
    close(&mut store, call("owner", vec![])).unwrap();
    let frozen = Ok(Some(WinnerResp { address: addr("alex"), amount: 90 }));
    assert_eq!(winner(&store), frozen);
    assert!(bid(&mut store, call("anna", atom(1000))).is_err());
    assert!(retract(&mut store, call("alex", vec![]), None).is_err());
    assert_eq!(winner(&store), frozen);
    assert_eq!(
        highest_bid(&store),
        Ok(Some(HighestBidResp { address: addr("alex"), amount: 90 }))
    );
}

#[test]
fn every_loser_is_paid_out_exactly_once() {
    let mut store = auction(TENTH);
    bid(&mut store, call("alex", atom(100))).unwrap();
    bid(&mut store, call("anna", atom(200))).unwrap();
    bid(&mut store, call("bob", atom(300))).unwrap();
    close(&mut store, call("owner", vec![])).unwrap();
    let mut paid: Vec<(String, u128)> = vec![];
    for _ in 0..3 {
        for sender in ["bob", "anna", "alex", "owner"] {
            if let Ok(resp) = retract(&mut store, call(sender, vec![]), None) {
                for t in resp.transfers {
                    paid.push((t.to_address, t.amount.amount));
                }
            }
        }
    }
    assert_eq!(paid, vec![(addr("anna"), 180), (addr("alex"), 90)]);
    for sender in ["bob", "anna", "alex", "owner"] {
        assert_eq!(total(&store, sender), 0);
    }
}

#[test]
fn execute_hands_each_command_to_its_call() {
    let mut store = auction(TENTH);
    let resp = bidding::execute(&mut store, call("alex", atom(100)), ExecMsg::Bid {}).unwrap();
    assert_eq!(resp.transfers, vec![pay("owner", 10)]);
    assert_eq!(
        bidding::execute(&mut store, call("alex", vec![]), ExecMsg::Retract { receiver: None }),
        Err(ContractError::UnauthorizedWhileOpen)
    );
    assert_eq!(
        bidding::execute(&mut store, call("alex", vec![]), ExecMsg::Close {}),
        Err(ContractError::Unauthorized)
    );
    bidding::execute(&mut store, call("anna", atom(200)), ExecMsg::Bid {}).unwrap();
    let resp = bidding::execute(&mut store, call("owner", vec![]), ExecMsg::Close {}).unwrap();
    assert_eq!(resp.transfers, vec![pay("owner", 180)]);
    let resp = bidding::execute(
        &mut store,
        call("alex", vec![]),
        ExecMsg::Retract { receiver: Some(addr("bob")) },
    )
    .unwrap();
    assert_eq!(resp.transfers, vec![pay("bob", 90)]);
}

#[test]
fn query_answers_by_the_kind_of_the_request() {
    let mut store = auction(TENTH);
    bid(&mut store, call("alex", atom(100))).unwrap();
    assert_eq!(
        bidding::query(&store, QueryMsg::TotalUserBid { address: addr("alex") }),
        Ok(QueryResponse::TotalUserBid(TotalUserBidResp { amount: 90 }))
    );
    assert_eq!(
        bidding::query(&store, QueryMsg::TotalUserBid { address: addr("anna") }),
        Ok(QueryResponse::TotalUserBid(TotalUserBidResp { amount: 0 }))
    );
    assert_eq!(
        bidding::query(&store, QueryMsg::HighestBid {}),
        Ok(QueryResponse::HighestBid(Some(HighestBidResp { address: addr("alex"), amount: 90 })))
    );
    assert_eq!(
        bidding::query(&store, QueryMsg::IsClosed {}),
        Ok(QueryResponse::IsClosed(IsClosedResp { closed: false }))
    );
    assert_eq!(bidding::query(&store, QueryMsg::Winner {}), Ok(QueryResponse::Winner(None)));
    close(&mut store, call("owner", vec![])).unwrap();
    assert_eq!(
        bidding::query(&store, QueryMsg::Winner {}),
        Ok(QueryResponse::Winner(Some(WinnerResp { address: addr("alex"), amount: 90 })))
    );
    assert_eq!(
        bidding::query(&store, QueryMsg::IsClosed {}),
        Ok(QueryResponse::IsClosed(IsClosedResp { closed: true }))
    );
    let empty = AuctionStore::new();
    assert_eq!(bidding::query(&empty, QueryMsg::IsClosed {}), Err(ContractError::Std));
    assert_eq!(bidding::query(&empty, QueryMsg::Winner {}), Err(ContractError::Std));
    assert_eq!(
        bidding::query(&empty, QueryMsg::HighestBid {}),
        Ok(QueryResponse::HighestBid(None))
    );
}

#[test]
fn response_is_built_in_order() {
    let resp = Response::new()
        .add_attribute("action", "close")
        .add_transfer(pay("owner", 1))
        .add_attribute("winner", "anna")
        .add_transfer(pay("anna", 2));
    assert_eq!(resp.transfers, vec![pay("owner", 1), pay("anna", 2)]);
    assert_eq!(resp.attributes, vec![attr("action", "close"), attr("winner", "anna")]);
}

#[test]
fn amounts_are_written_in_full() {
    let mut store = auction(0);
    let resp = bid(&mut store, call("alex", atom(340282366920938463463))).unwrap();
    assert_eq!(resp.attributes[2], attr("amount", "340282366920938463463ATOM"));
    assert_eq!(resp.attributes[3], attr("net_amount", "340282366920938463463"));
    assert_eq!(resp.transfers, vec![pay("owner", 0)]);
    let resp = close(&mut store, call("owner", vec![])).unwrap();
    assert_eq!(resp.attributes[2], attr("amount", "340282366920938463463"));
}

#[test]
fn escrow_is_deposits_less_payments() {
    let mut store = auction(TENTH);
    let mut deposited: u128 = 0;
    let mut paid: u128 = 0;
    let steps: Vec<(&str, ExecMsg, u128)> = vec![
        ("alex", ExecMsg::Bid {}, 100),
        ("anna", ExecMsg::Bid {}, 100),
        ("anna", ExecMsg::Bid {}, 205),
        ("alex", ExecMsg::Retract { receiver: None }, 0),
        ("bob", ExecMsg::Bid {}, 1),
        ("alex", ExecMsg::Bid {}, 333),
        ("anna", ExecMsg::Close {}, 0),
        ("owner", ExecMsg::Close {}, 0),
        ("owner", ExecMsg::Close {}, 0),
        ("bob", ExecMsg::Retract { receiver: None }, 0),
        ("anna", ExecMsg::Retract { receiver: Some(addr("bob")) }, 0),
        ("anna", ExecMsg::Retract { receiver: None }, 0),
        ("alex", ExecMsg::Retract { receiver: None }, 0),
        ("alex", ExecMsg::Bid {}, 1000),
    ];
    let mut carried_out = vec![];
    for (sender, msg, amount) in steps {
        let funds = if amount > 0 { atom(amount) } else { vec![] };
        let result = bidding::execute(&mut store, call(sender, funds), msg);
        carried_out.push(result.is_ok());
        if let Ok(resp) = result {
            deposited += amount;
            paid += resp.transfers.iter().map(|t| t.amount.amount).sum::<u128>();
            assert!(resp.transfers.iter().all(|t| t.amount.denom == BID_DENOM));
        }
        let escrow: u128 = store.bid_entries().iter().map(|e| e.amount).sum();
        assert_eq!(escrow + paid, deposited);
    }
    assert_eq!(
        carried_out,
        vec![
            true, false, true, false, false, true, false, true, false, false, true, false, false,
            false
        ]
    );
    assert_eq!(deposited, 638);
    assert_eq!(paid, 638);
    assert_eq!(store.bid_entries().iter().map(|e| e.amount).sum::<u128>(), 0);
}
