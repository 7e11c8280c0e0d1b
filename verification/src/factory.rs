//! The factory: deploys new, independent ledger instances from a fixed code
//! template at deterministically derived addresses, and records each address
//! in an append-only registry.
//!
//! The code-template instantiation service of the hosting runtime is
//! modelled by [`InstanceHost`]: it derives the address of a new instance as
//! a function of the template identity, the deploying account and a
//! caller-supplied salt, refuses an address that is already occupied
//! (an address collision is the only way instantiation fails here), and owns
//! the instances it created. The factory itself only instantiates, records
//! and returns — it never touches an instance's state after creation.

use vstd::prelude::*;
use crate::erc20::Erc20;
use crate::ids::{AccountId, CodeHash};

verus! {

/// The number of distinct salts; the derived address keeps the salt in its
/// low bits, so two addresses derived with distinct salts always differ.
pub const SALT_SPACE: u128 = 0x10000000000000000;

/// The address at which an instance of template `code`, created by
/// `deployer` with `salt`, comes to live: a deterministic function of
/// exactly those three values, injective in the salt.
pub open spec fn spec_derive_address(code: CodeHash, deployer: AccountId, salt: u64) -> AccountId {
    AccountId { id: (((code.id ^ deployer.id) % SALT_SPACE) * SALT_SPACE + salt) as u128 }
}

/// Distinct salts yield distinct addresses for the same template and
/// deployer: the deterministic-address scheme collides only when the whole
/// `(template, deployer, salt)` triple is re-used.
pub proof fn lemma_derive_address_injective(
    code: CodeHash,
    deployer: AccountId,
    s1: u64,
    s2: u64,
)
    ensures
        spec_derive_address(code, deployer, s1) == spec_derive_address(code, deployer, s2)
            ==> s1 == s2,
{
    let b = ((code.id ^ deployer.id) % SALT_SPACE) as int;
    assert(0 <= b < SALT_SPACE);
    assert(b * SALT_SPACE + s1 < 0x100000000000000000000000000000000) by (nonlinear_arith)
        requires
            0 <= b < SALT_SPACE,
            s1 < SALT_SPACE,
    ;
    assert(b * SALT_SPACE + s2 < 0x100000000000000000000000000000000) by (nonlinear_arith)
        requires
            0 <= b < SALT_SPACE,
            s2 < SALT_SPACE,
    ;
    if spec_derive_address(code, deployer, s1) == spec_derive_address(code, deployer, s2) {
        assert((b * SALT_SPACE + s1) as u128 == (b * SALT_SPACE + s2) as u128);
        assert(b * SALT_SPACE + s1 == b * SALT_SPACE + s2);
    }
}

fn derive_address(code: CodeHash, deployer: AccountId, salt: u64) -> (r: AccountId)
    ensures
        r == spec_derive_address(code, deployer, salt),
{
    let base: u128 = (code.id ^ deployer.id) % SALT_SPACE;
    assert(base * SALT_SPACE <= (SALT_SPACE - 1) * SALT_SPACE) by (nonlinear_arith)
        requires
            base < SALT_SPACE,
    ;
    AccountId { id: base * SALT_SPACE + (salt as u128) }
}

/// Instantiation failures are fatal to the deploy call; with a
/// deterministic address scheme the one failure this model can reach is a
/// collision with an already-occupied address.
#[derive(PartialEq, Eq, Structural, Clone, Copy, Debug)]
pub enum InstantiateError {
    AddressCollision,
}

/// One instance the host has created: a ledger living at its address.
pub struct Instance {
    pub addr: AccountId,
    pub ledger: Erc20,
}

/// The code-template instantiation service: owns every instance it created
/// and refuses to place a new one at an occupied address.
pub struct InstanceHost {
    instances: Vec<Instance>,
}

impl InstanceHost {
    pub closed spec fn spec_instances(&self) -> Seq<Instance> {
        self.instances@
    }

    pub open spec fn spec_occupied(&self, a: AccountId) -> bool {
        exists|i: int| 0 <= i < self.spec_instances().len() && self.spec_instances()[i].addr == a
    }

    pub fn new() -> (h: Self)
        ensures
            h.spec_instances() =~= Seq::<Instance>::empty(),
            forall|a: AccountId| !h.spec_occupied(a),
    {
        InstanceHost { instances: Vec::new() }
    }

    /// The instances created so far, in creation order.
    pub fn instances(&self) -> (r: &Vec<Instance>)
        ensures
            r@ == self.spec_instances(),
    {
        &self.instances
    }

    fn occupied(&self, a: AccountId) -> (r: bool)
        ensures
            r == self.spec_occupied(a),
    {
        let mut i: usize = 0;
        while i < self.instances.len()
            invariant
                i <= self.instances@.len(),
                forall|j: int| 0 <= j < i ==> self.instances@[j].addr != a,
            decreases self.instances@.len() - i,
        {
            if self.instances[i].addr == a {
                proof {
                    assert(self.spec_instances()[i as int].addr == a);
                }
                return true;
            }
            i = i + 1;
        }
        proof {
            assert(forall|j: int|
                0 <= j < self.spec_instances().len() ==> self.spec_instances()[j].addr != a);
        }
        false
    }

    /// Creates a new ledger instance of template `code` at the derived
    /// address, with its whole supply credited to `deployer` (the account
    /// on whose behalf the instantiation runs). Fails, leaving the host
    /// unchanged, exactly when the derived address is already occupied.
    pub fn instantiate(
        &mut self,
        code: CodeHash,
        deployer: AccountId,
        total_supply: u128,
        name: Option<String>,
        symbol: Option<String>,
        salt: u64,
    ) -> (r: Result<AccountId, InstantiateError>)
        requires
            total_supply <= u128::MAX / 2,
        ensures
            r is Ok <==> !old(self).spec_occupied(spec_derive_address(code, deployer, salt)),
            r is Err ==> r == Err::<AccountId, InstantiateError>(
                InstantiateError::AddressCollision,
            ) && final(self).spec_instances() =~= old(self).spec_instances(),
            r matches Ok(a) ==> {
                &&& a == spec_derive_address(code, deployer, salt)
                &&& final(self).spec_instances().len() == old(self).spec_instances().len() + 1
                &&& final(self).spec_instances().subrange(
                    0,
                    old(self).spec_instances().len() as int,
                ) =~= old(self).spec_instances()
                &&& final(self).spec_instances().last().addr == a
                &&& final(self).spec_instances().last().ledger.wf()
                &&& final(self).spec_instances().last().ledger.spec_total_supply() == total_supply
                &&& final(self).spec_instances().last().ledger.spec_balance_of(deployer)
                    == total_supply
                &&& final(self).spec_instances().last().ledger.spec_name() == name
                &&& final(self).spec_instances().last().ledger.spec_symbol() == symbol
            },
            forall|b: AccountId|
                final(self).spec_occupied(b) <==> old(self).spec_occupied(b) || (r is Ok && b
                    == spec_derive_address(code, deployer, salt)),
    {
        let addr = derive_address(code, deployer, salt);
        if self.occupied(addr) {
            return Err(InstantiateError::AddressCollision);
        }
        let ledger = Erc20::new(deployer, total_supply, name, symbol);
        let ghost s0 = self.instances@;
        self.instances.push(Instance { addr, ledger });
        proof {
            assert(self.instances@.subrange(0, s0.len() as int) =~= s0);
            assert forall|b: AccountId|
                self.spec_occupied(b) <==> occupied_in(s0, b) || b == addr by {
                if self.spec_occupied(b) {
                    let i = choose|i: int|
                        0 <= i < self.instances@.len() && self.instances@[i].addr == b;
                    if i < s0.len() {
                        assert(s0[i].addr == b);
                    }
                }
                if occupied_in(s0, b) {
                    let i = choose|i: int| 0 <= i < s0.len() && s0[i].addr == b;
                    assert(self.instances@[i].addr == b);
                }
                if b == addr {
                    assert(self.instances@[s0.len() as int].addr == b);
                }
            }
        }
        Ok(addr)
    }
}

/// Whether any instance of `s` lives at `a`.
pub open spec fn occupied_in(s: Seq<Instance>, a: AccountId) -> bool {
    exists|i: int| 0 <= i < s.len() && s[i].addr == a
}

/// Deploys ledgers from the fixed template and keeps the registry of their
/// addresses: an append-only, insertion-ordered sequence that a failed
/// deployment never touches.
pub struct DeployerContract {
    account: AccountId,
    deployed_contracts: Vec<AccountId>,
}

impl DeployerContract {
    /// The factory's own account: the deployer identity under which it
    /// instantiates.
    pub closed spec fn spec_account(&self) -> AccountId {
        self.account
    }

    /// The instance registry, in insertion order.
    pub closed spec fn spec_deployed(&self) -> Seq<AccountId> {
        self.deployed_contracts@
    }

    pub fn new(account: AccountId) -> (c: Self)
        ensures
            c.spec_account() == account,
            c.spec_deployed() =~= Seq::<AccountId>::empty(),
    {
        DeployerContract { account, deployed_contracts: Vec::new() }
    }

    /// Deploys a new ledger against `host`: instantiates the template with
    /// the given parameters and the caller-supplied salt (used purely to
    /// let otherwise identical deployments receive distinct addresses),
    /// appends the new address to the registry and returns it. A collision
    /// at the derived address is fatal: the error propagates and neither
    /// the registry nor the host changes.
    pub fn deploy_erc20(
        &mut self,
        host: &mut InstanceHost,
        total_supply: u128,
        name: Option<String>,
        symbol: Option<String>,
        salt: u64,
    ) -> (r: Result<AccountId, InstantiateError>)
        requires
            total_supply <= u128::MAX / 2,
        ensures
            final(self).spec_account() == old(self).spec_account(),
            r is Ok <==> !old(host).spec_occupied(
                spec_derive_address(spec_erc20_code_hash(), old(self).spec_account(), salt),
            ),
            r matches Ok(a) ==> {
                &&& a == spec_derive_address(
                    spec_erc20_code_hash(),
                    old(self).spec_account(),
                    salt,
                )
                &&& final(self).spec_deployed() =~= old(self).spec_deployed().push(a)
                &&& final(host).spec_instances().len() == old(host).spec_instances().len() + 1
                &&& final(host).spec_instances().subrange(
                    0,
                    old(host).spec_instances().len() as int,
                ) =~= old(host).spec_instances()
                &&& final(host).spec_instances().last().addr == a
                &&& final(host).spec_instances().last().ledger.wf()
                &&& final(host).spec_instances().last().ledger.spec_total_supply() == total_supply
                &&& final(host).spec_instances().last().ledger.spec_balance_of(
                    old(self).spec_account(),
                ) == total_supply
                &&& final(host).spec_instances().last().ledger.spec_name() == name
                &&& final(host).spec_instances().last().ledger.spec_symbol() == symbol
            },
            r is Err ==> r == Err::<AccountId, InstantiateError>(
                InstantiateError::AddressCollision,
            ) && final(self).spec_deployed() =~= old(self).spec_deployed()
                && final(host).spec_instances() =~= old(host).spec_instances(),
            forall|b: AccountId|
                final(host).spec_occupied(b) <==> old(host).spec_occupied(b) || (r is Ok && b
                    == spec_derive_address(
                    spec_erc20_code_hash(),
                    old(self).spec_account(),
                    salt,
                )),
    {
        let code = self.erc20_code_hash();
        match host.instantiate(code, self.account, total_supply, name, symbol, salt) {
            Ok(addr) => {
                self.deployed_contracts.push(addr);
                Ok(addr)
            },
            Err(e) => Err(e),
        }
    }

    /// Returns a snapshot copy of the registry, in insertion order.
    pub fn get_deployed_contracts(&self) -> (r: Vec<AccountId>)
        ensures
            r@ == self.spec_deployed(),
    {
        let mut out: Vec<AccountId> = Vec::new();
        let mut i: usize = 0;
        while i < self.deployed_contracts.len()
            invariant
                i <= self.deployed_contracts@.len(),
                out@ =~= self.deployed_contracts@.subrange(0, i as int),
            decreases self.deployed_contracts@.len() - i,
        {
            out.push(self.deployed_contracts[i]);
            i = i + 1;
        }
        proof {
            assert(out@ =~= self.deployed_contracts@);
        }
        out
    }

    fn erc20_code_hash(&self) -> (h: CodeHash)
        ensures
            h == spec_erc20_code_hash(),
    {
        CodeHash { id: 0xf57cc5b34d13acd09359ecd0a4bd0ff6 }
    }
}

/// The identity of the fixed ledger code template that the factory deploys.
pub open spec fn spec_erc20_code_hash() -> CodeHash {
    CodeHash { id: 0xf57cc5b34d13acd09359ecd0a4bd0ff6 }
}

} // verus!
