use nameservice::coin_helpers::{assert_sent_sufficient_coin, Coin};
use nameservice::error::ContractError;

#[test]
fn coin_holds_amount_and_denom() {
    let c = Coin::new(10, "uatom");
    assert_eq!(c.amount, 10);
    assert_eq!(c.denom, "uatom");
    assert_eq!(c.clone(), c);
}

#[test]
fn free_operation_needs_no_funds() {
    assert_eq!(assert_sent_sufficient_coin(&[], &None), Ok(()));
    assert_eq!(assert_sent_sufficient_coin(&[Coin::new(5, "uatom")], &None), Ok(()));
}

#[test]
fn exact_payment_passes() {
    let sent = vec![Coin::new(10, "uatom")];
    assert_eq!(assert_sent_sufficient_coin(&sent, &Some(Coin::new(10, "uatom"))), Ok(()));
}

#[test]
fn overpayment_passes() {
    let sent = vec![Coin::new(11, "uatom")];
    assert_eq!(assert_sent_sufficient_coin(&sent, &Some(Coin::new(10, "uatom"))), Ok(()));
    let sent = vec![Coin::new(u128::MAX, "uatom")];
    assert_eq!(assert_sent_sufficient_coin(&sent, &Some(Coin::new(10, "uatom"))), Ok(()));
}

#[test]
fn underpayment_fails() {
    let sent = vec![Coin::new(9, "uatom")];
    assert_eq!(
        assert_sent_sufficient_coin(&sent, &Some(Coin::new(10, "uatom"))),
        Err(ContractError::InsufficientFunds)
    );
}

#[test]
fn absent_funds_fail_a_priced_operation() {
    assert_eq!(
        assert_sent_sufficient_coin(&[], &Some(Coin::new(10, "uatom"))),
        Err(ContractError::InsufficientFunds)
    );
}

#[test]
fn wrong_denomination_fails() {
    let sent = vec![Coin::new(1000, "uosmo")];
    assert_eq!(
        assert_sent_sufficient_coin(&sent, &Some(Coin::new(10, "uatom"))),
        Err(ContractError::InsufficientFunds)
    );
}

#[test]
fn matching_entry_may_stand_anywhere() {
    let sent = vec![Coin::new(1000, "uosmo"), Coin::new(3, "uatom"), Coin::new(10, "uatom")];
    assert_eq!(assert_sent_sufficient_coin(&sent, &Some(Coin::new(10, "uatom"))), Ok(()));
}

#[test]
fn entries_of_one_denomination_are_not_added_up() {
    let sent = vec![Coin::new(6, "uatom"), Coin::new(6, "uatom")];
    assert_eq!(
        assert_sent_sufficient_coin(&sent, &Some(Coin::new(10, "uatom"))),
        Err(ContractError::InsufficientFunds)
    );
}

#[test]
fn price_of_zero_still_asks_for_its_denomination() {
    assert_eq!(
        assert_sent_sufficient_coin(&[], &Some(Coin::new(0, "uatom"))),
        Err(ContractError::InsufficientFunds)
    );
    assert_eq!(
        assert_sent_sufficient_coin(&[Coin::new(0, "uatom")], &Some(Coin::new(0, "uatom"))),
        Ok(())
    );
}
