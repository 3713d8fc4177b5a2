use bidding::error::ContractError;
use cosmwasm_std::StdError;

#[test]
fn each_refusal_has_its_message() {
    assert_eq!(ContractError::Std.message(), "Auction not found");
    assert_eq!(ContractError::Overflow.message(), "Arithmetic overflow");
    assert_eq!(ContractError::DecimalRangeExceeded.message(), "Decimal range exceeded");
    assert_eq!(ContractError::Unauthorized.message(), "Unauthorized");
    assert_eq!(ContractError::UnauthorizedWhileClosed.message(), "Unauthorized - bid is closed");
    assert_eq!(ContractError::UnauthorizedWhileOpen.message(), "Unauthorized - bid is open");
    assert_eq!(ContractError::InvalidBidZeroAmount.message(), "Invalid bid amount. Found 0 ATOM");
    assert_eq!(
        ContractError::InvalidRetractZeroAmount.message(),
        "Invalid retract amount. Found 0 ATOM"
    );
}

#[test]
fn insufficient_bid_message_names_both_amounts() {
    assert_eq!(
        ContractError::InvalidBidAmount { amount: 45, required_amount: 91 }.message(),
        "Invalid bid - sent 45, required at least 91"
    );
    assert_eq!(
        ContractError::InvalidBidAmount { amount: 0, required_amount: u128::MAX }.message(),
        "Invalid bid - sent 0, required at least 340282366920938463463374607431768211455"
    );
}

#[test]
fn missing_auction_reads_as_the_host_reports_a_missing_record() {
    assert_eq!(ContractError::Std.message(), StdError::not_found("Auction").to_string());
}

#[test]
fn refusals_compare_by_kind_and_content() {
    assert_eq!(ContractError::Unauthorized {}, ContractError::Unauthorized);
    assert_ne!(ContractError::UnauthorizedWhileClosed, ContractError::UnauthorizedWhileOpen);
    assert_ne!(
        ContractError::InvalidBidAmount { amount: 1, required_amount: 2 },
        ContractError::InvalidBidAmount { amount: 1, required_amount: 3 }
    );
    let e = ContractError::InvalidBidAmount { amount: 1, required_amount: 2 };
    let copy = e;
    assert_eq!(e, copy);
}
