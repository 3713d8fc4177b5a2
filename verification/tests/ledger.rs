use bidding::ledger::{BidEntry, BidLedger};
use bidding::state::{State, Winner};
use bidding::store::AuctionStore;
use bidding::commission::DecimalFraction;
use bidding::error::ContractError;

fn addr(s: &str) -> String {
    s.to_string()
}

#[test]
fn empty_ledger_holds_nothing() {
    let ledger = BidLedger::new();
    assert_eq!(ledger.may_load(&addr("alex")), None);
    assert_eq!(ledger.entries(), vec![]);
}

#[test]
fn ledger_returns_what_was_saved() {
    let mut ledger = BidLedger::new();
    ledger.save(&addr("alex"), 90);
    ledger.save(&addr("anna"), 180);
    assert_eq!(ledger.may_load(&addr("alex")), Some(90));
    assert_eq!(ledger.may_load(&addr("anna")), Some(180));
    assert_eq!(ledger.may_load(&addr("bob")), None);
}

#[test]
fn ledger_keeps_one_entry_per_bidder() {
    let mut ledger = BidLedger::new();
    ledger.save(&addr("alex"), 90);
    ledger.save(&addr("anna"), 180);
    ledger.save(&addr("alex"), 270);
    ledger.save(&addr("anna"), 0);
    assert_eq!(ledger.may_load(&addr("alex")), Some(270));
    assert_eq!(ledger.may_load(&addr("anna")), Some(0));
    assert_eq!(
        ledger.entries(),
        vec![
            BidEntry { address: addr("alex"), amount: 270 },
            BidEntry { address: addr("anna"), amount: 0 },
        ]
    );
}

#[test]
fn ledger_tells_a_zero_entry_from_none() {
    let mut ledger = BidLedger::new();
    ledger.save(&addr("alex"), 0);
    assert_eq!(ledger.may_load(&addr("alex")), Some(0));
    assert_eq!(ledger.may_load(&addr("ale")), None);
    assert_eq!(ledger.may_load(&addr("")), None);
}

#[test]
fn new_store_has_no_record() {
    let store = AuctionStore::new();
    assert_eq!(store.load_state(), Err(ContractError::Std));
    assert_eq!(store.may_load_winner(), None);
    assert_eq!(store.may_load_bid(&addr("alex")), None);
    assert_eq!(store.bid_entries(), vec![]);
}

#[test]
fn store_returns_each_record_as_saved() {
    let mut store = AuctionStore::new();
    let state = State {
        commodity_uri: addr("someuri"),
        owner: addr("owner"),
        bid_comission: DecimalFraction::raw(5),
        is_closed: false,
    };
    store.save_state(state.clone());
    store.save_winner(Winner { address: addr("anna"), amount: 180 });
    store.save_bid(&addr("anna"), 180);
    store.save_bid(&addr("alex"), 90);
    assert_eq!(store.load_state(), Ok(state.clone()));
    assert_eq!(store.may_load_winner(), Some(Winner { address: addr("anna"), amount: 180 }));
    assert_eq!(store.may_load_bid(&addr("anna")), Some(180));
    assert_eq!(store.may_load_bid(&addr("alex")), Some(90));
    assert_eq!(
        store.bid_entries(),
        vec![
            BidEntry { address: addr("anna"), amount: 180 },
            BidEntry { address: addr("alex"), amount: 90 },
        ]
    );

    store.save_state(State { is_closed: true, ..state.clone() });
    store.save_winner(Winner { address: addr("alex"), amount: 200 });
    assert_eq!(store.load_state(), Ok(State { is_closed: true, ..state }));
    assert_eq!(store.may_load_winner(), Some(Winner { address: addr("alex"), amount: 200 }));
}

#[test]
fn copies_of_records_are_equal_to_them() {
    let state = State {
        commodity_uri: addr("someuri"),
        owner: addr("owner"),
        bid_comission: DecimalFraction::raw(5),
        is_closed: true,
    };
    assert_eq!(state.duplicate(), state);
    let winner = Winner { address: addr("anna"), amount: 180 };
    assert_eq!(winner.duplicate(), winner);
}
