use token_ledger::erc20::{Erc20, Error};
use token_ledger::events::{Approval, Event, Transfer};
use token_ledger::ids::AccountId;

#[test]
fn new_credits_creator_and_emits_genesis_transfer() {
    let a = AccountId::new(1);
    let l = Erc20::new(a, 1000, Some("Token".to_string()), Some("TOK".to_string()));
    assert_eq!(l.total_supply(), 1000);
    assert_eq!(l.balance_of(a), 1000);
    assert_eq!(l.balance_of(AccountId::new(2)), 0);
    assert_eq!(l.name(), Some("Token".to_string()));
    assert_eq!(l.symbol(), Some("TOK".to_string()));
    assert_eq!(l.events().len(), 1);
    assert_eq!(
        l.events()[0],
        Event::Transfer(Transfer { from: None, to: Some(a), value: 1000 })
    );
}

#[test]
fn new_nameless_has_no_metadata() {
    let a = AccountId::new(1);
    let l = Erc20::new_nameless(a, 5);
    assert_eq!(l.name(), None);
    assert_eq!(l.symbol(), None);
    assert_eq!(l.total_supply(), 5);
    assert_eq!(l.balance_of(a), 5);
}

#[test]
fn transfer_moves_value_and_emits() {
    let a = AccountId::new(1);
    let b = AccountId::new(2);
    let mut l = Erc20::new_nameless(a, 100);
    assert_eq!(l.transfer(a, b, 40), Ok(()));
    assert_eq!(l.balance_of(a), 60);
    assert_eq!(l.balance_of(b), 40);
    assert_eq!(l.total_supply(), 100);
    assert_eq!(
        l.events()[1],
        Event::Transfer(Transfer { from: Some(a), to: Some(b), value: 40 })
    );
}

#[test]
fn transfer_insufficient_balance_changes_nothing() {
    let a = AccountId::new(1);
    let b = AccountId::new(2);
    let mut l = Erc20::new_nameless(a, 100);
    assert_eq!(l.transfer(a, b, 101), Err(Error::InsufficientBalance));
    assert_eq!(l.balance_of(a), 100);
    assert_eq!(l.balance_of(b), 0);
    assert_eq!(l.events().len(), 1);
    // An account without funds cannot move any positive amount either.
    assert_eq!(l.transfer(b, a, 1), Err(Error::InsufficientBalance));
    assert_eq!(l.balance_of(a), 100);
    assert_eq!(l.balance_of(b), 0);
}

#[test]
fn self_transfer_succeeds_and_still_emits() {
    let a = AccountId::new(1);
    let mut l = Erc20::new_nameless(a, 50);
    assert_eq!(l.transfer(a, a, 50), Ok(()));
    assert_eq!(l.balance_of(a), 50);
    assert_eq!(l.events().len(), 2);
    assert_eq!(
        l.events()[1],
        Event::Transfer(Transfer { from: Some(a), to: Some(a), value: 50 })
    );
    // The balance check still applies to a self-transfer.
    assert_eq!(l.transfer(a, a, 51), Err(Error::InsufficientBalance));
}

#[test]
fn approve_overwrites_instead_of_accumulating() {
    let o = AccountId::new(1);
    let d = AccountId::new(2);
    let mut l = Erc20::new_nameless(o, 10);
    assert_eq!(l.approve(o, d, 7), Ok(()));
    assert_eq!(l.allowance(o, d), 7);
    assert_eq!(l.approve(o, d, 4), Ok(()));
    assert_eq!(l.allowance(o, d), 4);
    assert_eq!(
        l.events()[2],
        Event::Approval(Approval { owner: o, spender: d, value: 4 })
    );
}

#[test]
fn allowance_defaults_to_zero() {
    let o = AccountId::new(1);
    let l = Erc20::new_nameless(o, 10);
    assert_eq!(l.allowance(o, AccountId::new(2)), 0);
    assert_eq!(l.allowance(AccountId::new(3), AccountId::new(4)), 0);
}

#[test]
fn delegated_transfer_scenario() {
    let a = AccountId::new(1);
    let b = AccountId::new(2);
    let c = AccountId::new(3);
    let mut l = Erc20::new_nameless(a, 1000);
    assert_eq!(l.balance_of(a), 1000);
    assert_eq!(l.approve(a, b, 400), Ok(()));
    assert_eq!(l.transfer_from(b, a, c, 300), Ok(()));
    assert_eq!(l.balance_of(a), 700);
    assert_eq!(l.balance_of(c), 300);
    assert_eq!(l.allowance(a, b), 100);
    assert_eq!(l.transfer_from(b, a, c, 200), Err(Error::InsufficientAllowance));
    assert_eq!(l.balance_of(a), 700);
    assert_eq!(l.balance_of(c), 300);
    assert_eq!(l.allowance(a, b), 100);
}

#[test]
fn failed_balance_move_leaves_allowance_untouched() {
    let a = AccountId::new(1);
    let b = AccountId::new(2);
    let c = AccountId::new(3);
    let mut l = Erc20::new_nameless(a, 100);
    assert_eq!(l.approve(a, b, 400), Ok(()));
    assert_eq!(l.transfer_from(b, a, c, 200), Err(Error::InsufficientBalance));
    assert_eq!(l.allowance(a, b), 400);
    assert_eq!(l.balance_of(a), 100);
    assert_eq!(l.balance_of(c), 0);
    // On success the allowance decreases by exactly the moved value.
    assert_eq!(l.transfer_from(b, a, c, 60), Ok(()));
    assert_eq!(l.allowance(a, b), 340);
    assert_eq!(l.balance_of(a), 40);
    assert_eq!(l.balance_of(c), 60);
}

#[test]
fn balances_sum_to_total_supply_after_operations() {
    let a = AccountId::new(1);
    let b = AccountId::new(2);
    let c = AccountId::new(3);
    let mut l = Erc20::new_nameless(a, 1000);
    l.transfer(a, b, 250).unwrap();
    l.transfer(b, c, 100).unwrap();
    l.approve(a, c, 500).unwrap();
    l.transfer_from(c, a, b, 500).unwrap();
    let sum = l.balance_of(a) + l.balance_of(b) + l.balance_of(c);
    assert_eq!(sum, l.total_supply());
}

#[test]
fn event_order_matches_mutation_order() {
    let a = AccountId::new(1);
    let b = AccountId::new(2);
    let mut l = Erc20::new_nameless(a, 10);
    l.approve(a, b, 5).unwrap();
    l.transfer(a, b, 3).unwrap();
    l.transfer_from(b, a, a, 2).unwrap();
    assert_eq!(l.events().len(), 4);
    assert_eq!(
        l.events()[0],
        Event::Transfer(Transfer { from: None, to: Some(a), value: 10 })
    );
    assert_eq!(
        l.events()[1],
        Event::Approval(Approval { owner: a, spender: b, value: 5 })
    );
    assert_eq!(
        l.events()[2],
        Event::Transfer(Transfer { from: Some(a), to: Some(b), value: 3 })
    );
    assert_eq!(
        l.events()[3],
        Event::Transfer(Transfer { from: Some(a), to: Some(a), value: 2 })
    );
}
