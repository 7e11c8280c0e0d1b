use token_ledger::ids::{AccountId, NameHash};
use token_ledger::pns::PnsResolver;

#[test]
fn register_claims_a_free_name() {
    let alice = AccountId::new(1);
    let name = NameHash::new(42);
    let mut pns = PnsResolver::new();
    assert!(!pns.is_registered(name));
    assert_eq!(pns.get_owner(name), None);
    assert!(pns.register(alice, name, vec![1, 2, 3]));
    assert!(pns.is_registered(name));
    assert_eq!(pns.get_owner(name), Some(alice));
    assert_eq!(pns.get_cid(name), vec![1, 2, 3]);
}

#[test]
fn register_refuses_a_taken_name() {
    let alice = AccountId::new(1);
    let bob = AccountId::new(2);
    let name = NameHash::new(42);
    let mut pns = PnsResolver::new();
    assert!(pns.register(alice, name, vec![1]));
    assert!(!pns.register(bob, name, vec![2]));
    assert_eq!(pns.get_owner(name), Some(alice));
    assert_eq!(pns.get_cid(name), vec![1]);
}

#[test]
fn update_cid_is_owner_gated() {
    let alice = AccountId::new(1);
    let bob = AccountId::new(2);
    let name = NameHash::new(42);
    let mut pns = PnsResolver::new();
    assert!(pns.register(alice, name, vec![1]));
    assert!(pns.update_cid(alice, name, vec![9, 9]));
    assert_eq!(pns.get_cid(name), vec![9, 9]);
    assert!(!pns.update_cid(bob, name, vec![7]));
    assert_eq!(pns.get_cid(name), vec![9, 9]);
    assert_eq!(pns.get_owner(name), Some(alice));
}

#[test]
fn update_cid_of_unregistered_name_is_refused() {
    let alice = AccountId::new(1);
    let mut pns = PnsResolver::new();
    assert!(!pns.update_cid(alice, NameHash::new(5), vec![1]));
    assert!(!pns.is_registered(NameHash::new(5)));
}

#[test]
fn get_cid_of_unregistered_name_is_empty() {
    let pns = PnsResolver::new();
    assert_eq!(pns.get_cid(NameHash::new(5)), Vec::<u8>::new());
}

#[test]
fn names_are_independent() {
    let alice = AccountId::new(1);
    let bob = AccountId::new(2);
    let mut pns = PnsResolver::new();
    assert!(pns.register(alice, NameHash::new(1), vec![1]));
    assert!(pns.register(bob, NameHash::new(2), vec![2]));
    assert_eq!(pns.get_owner(NameHash::new(1)), Some(alice));
    assert_eq!(pns.get_owner(NameHash::new(2)), Some(bob));
    assert!(pns.update_cid(bob, NameHash::new(2), vec![3]));
    assert_eq!(pns.get_cid(NameHash::new(1)), vec![1]);
    assert_eq!(pns.get_cid(NameHash::new(2)), vec![3]);
}
