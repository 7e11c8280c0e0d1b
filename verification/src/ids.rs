//! Opaque identifiers: account addresses and hash values.

use vstd::prelude::*;

verus! {

/// An opaque, globally unique, fixed-width identifier of a holder of balance
/// or allowance (or of a deployed instance). Equality-comparable and
/// hashable; no ordering is needed.
#[derive(PartialEq, Eq, Structural, Clone, Copy, Hash, Debug)]
pub struct AccountId {
    pub id: u128,
}

impl AccountId {
    pub fn new(id: u128) -> (r: AccountId)
        ensures
            r.id == id,
    {
        AccountId { id }
    }
}

/// The identity of a fixed code template that the factory instantiates.
#[derive(PartialEq, Eq, Structural, Clone, Copy, Hash, Debug)]
pub struct CodeHash {
    pub id: u128,
}

impl CodeHash {
    pub fn new(id: u128) -> (r: CodeHash)
        ensures
            r.id == id,
    {
        CodeHash { id }
    }
}

/// The hash of a registered name in the name-resolution store.
#[derive(PartialEq, Eq, Structural, Clone, Copy, Hash, Debug)]
pub struct NameHash {
    pub id: u128,
}

impl NameHash {
    pub fn new(id: u128) -> (r: NameHash)
        ensures
            r.id == id,
    {
        NameHash { id }
    }
}

} // verus!
