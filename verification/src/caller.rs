//! The cross-contract forwarder: remembers one deployed instance and
//! decides, on request, that its zero-argument flip entry point is to be
//! invoked. Pure plumbing with no state of its own beyond the target.

use vstd::prelude::*;
use crate::ids::AccountId;

verus! {

/// Holds the address of the instance whose flip entry point it forwards to.
pub struct Caller {
    flipper_contract: AccountId,
}

impl Caller {
    pub closed spec fn spec_flipper_contract(&self) -> AccountId {
        self.flipper_contract
    }

    pub fn new(flipper_contract: AccountId) -> (c: Caller)
        ensures
            c.spec_flipper_contract() == flipper_contract,
    {
        Caller { flipper_contract }
    }

    /// Decides the forwarded invocation: returns the instance whose
    /// zero-argument flip entry point the hosting runtime is to invoke.
    /// Dispatching the call is the runtime's; nothing here changes.
    pub fn call_flip(&self) -> (target: AccountId)
        ensures
            target == self.spec_flipper_contract(),
    {
        self.flipper_contract
    }
}

} // verus!
