use token_ledger::factory::{DeployerContract, InstanceHost, InstantiateError};
use token_ledger::ids::AccountId;

#[test]
fn deploy_with_distinct_salts_yields_distinct_recorded_addresses() {
    let fa = AccountId::new(9);
    let mut host = InstanceHost::new();
    let mut factory = DeployerContract::new(fa);
    let a1 = factory
        .deploy_erc20(&mut host, 100, Some("T".to_string()), Some("T".to_string()), 1)
        .unwrap();
    let a2 = factory
        .deploy_erc20(&mut host, 100, Some("T".to_string()), Some("T".to_string()), 2)
        .unwrap();
    assert_ne!(a1, a2);
    let deployed = factory.get_deployed_contracts();
    assert_eq!(deployed, vec![a1, a2]);
    // Re-using an already-used salt collides, whatever the other parameters.
    assert_eq!(
        factory.deploy_erc20(&mut host, 100, Some("T".to_string()), Some("T".to_string()), 1),
        Err(InstantiateError::AddressCollision)
    );
    assert_eq!(
        factory.deploy_erc20(&mut host, 999, None, None, 1),
        Err(InstantiateError::AddressCollision)
    );
}

#[test]
fn failed_deploy_leaves_registry_and_host_unchanged() {
    let fa = AccountId::new(7);
    let mut host = InstanceHost::new();
    let mut factory = DeployerContract::new(fa);
    let a1 = factory.deploy_erc20(&mut host, 50, None, None, 3).unwrap();
    assert_eq!(factory.get_deployed_contracts(), vec![a1]);
    assert_eq!(host.instances().len(), 1);
    assert!(factory.deploy_erc20(&mut host, 50, None, None, 3).is_err());
    assert_eq!(factory.get_deployed_contracts(), vec![a1]);
    assert_eq!(host.instances().len(), 1);
}

#[test]
fn deployed_ledger_credits_its_supply_to_the_factory() {
    let fa = AccountId::new(11);
    let mut host = InstanceHost::new();
    let mut factory = DeployerContract::new(fa);
    let addr = factory
        .deploy_erc20(&mut host, 100, Some("T".to_string()), Some("T".to_string()), 1)
        .unwrap();
    let inst = &host.instances()[0];
    assert_eq!(inst.addr, addr);
    assert_eq!(inst.ledger.total_supply(), 100);
    assert_eq!(inst.ledger.balance_of(fa), 100);
    assert_eq!(inst.ledger.name(), Some("T".to_string()));
    assert_eq!(inst.ledger.symbol(), Some("T".to_string()));
}

#[test]
fn distinct_deployers_do_not_collide_on_the_same_salt() {
    let mut host = InstanceHost::new();
    let mut f1 = DeployerContract::new(AccountId::new(1));
    let mut f2 = DeployerContract::new(AccountId::new(2));
    let a1 = f1.deploy_erc20(&mut host, 10, None, None, 5).unwrap();
    let a2 = f2.deploy_erc20(&mut host, 10, None, None, 5).unwrap();
    assert_ne!(a1, a2);
    assert_eq!(host.instances().len(), 2);
}
