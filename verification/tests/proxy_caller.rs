use token_ledger::caller::Caller;
use token_ledger::ids::{AccountId, CodeHash};
use token_ledger::proxy::Proxy;

#[test]
fn proxy_starts_owned_by_its_creator() {
    let owner = AccountId::new(1);
    let p = Proxy::new(owner);
    assert_eq!(p.get_value(), 0);
    assert_eq!(p.get_code(), None);
    assert!(p.only_owner(owner));
    assert!(!p.only_owner(AccountId::new(2)));
}

#[test]
fn set_value_is_ungated() {
    let owner = AccountId::new(1);
    let mut p = Proxy::new(owner);
    p.set_value(17);
    assert_eq!(p.get_value(), 17);
    p.set_value(3);
    assert_eq!(p.get_value(), 3);
}

#[test]
fn set_code_is_owner_gated() {
    let owner = AccountId::new(1);
    let stranger = AccountId::new(2);
    let mut p = Proxy::new(owner);
    assert!(!p.set_code(stranger, CodeHash::new(0xabc)));
    assert_eq!(p.get_code(), None);
    assert!(p.set_code(owner, CodeHash::new(0xabc)));
    assert_eq!(p.get_code(), Some(CodeHash::new(0xabc)));
    assert!(p.set_code(owner, CodeHash::new(0xdef)));
    assert_eq!(p.get_code(), Some(CodeHash::new(0xdef)));
}

#[test]
fn call_flip_targets_the_stored_instance() {
    let target = AccountId::new(42);
    let c = Caller::new(target);
    assert_eq!(c.call_flip(), target);
}
