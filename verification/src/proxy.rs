//! The upgrade pointer: an owner-gated, single-field repointing of which
//! code a stored object executes, next to one freely settable value.

use vstd::prelude::*;
use crate::ids::{AccountId, CodeHash};

verus! {

/// A proxy object: anyone may set its value, only the owner fixed at
/// creation may repoint the code it executes.
pub struct Proxy {
    value: u32,
    owner: AccountId,
    code: Option<CodeHash>,
}

impl Proxy {
    pub closed spec fn spec_value(&self) -> u32 {
        self.value
    }

    pub closed spec fn spec_owner(&self) -> AccountId {
        self.owner
    }

    /// The code the object executes after the last repointing; `None` until
    /// the first one, when it still runs the code it was created with.
    pub closed spec fn spec_code(&self) -> Option<CodeHash> {
        self.code
    }

    /// Creates a proxy owned by its creating caller.
    pub fn new(caller: AccountId) -> (p: Proxy)
        ensures
            p.spec_owner() == caller,
            p.spec_value() == 0,
            p.spec_code() is None,
    {
        Proxy { owner: caller, value: 0, code: None }
    }

    /// The authorization check that gates every owner-only operation.
    pub fn only_owner(&self, caller: AccountId) -> (r: bool)
        ensures
            r == (caller == self.spec_owner()),
    {
        caller == self.owner
    }

    /// Sets the stored value; deliberately ungated.
    pub fn set_value(&mut self, val: u32)
        ensures
            final(self).spec_value() == val,
            final(self).spec_owner() == old(self).spec_owner(),
            final(self).spec_code() == old(self).spec_code(),
    {
        self.value = val;
    }

    pub fn get_value(&self) -> (r: u32)
        ensures
            r == self.spec_value(),
    {
        self.value
    }

    /// The recorded code pointer, if it was ever repointed.
    pub fn get_code(&self) -> (r: Option<CodeHash>)
        ensures
            r == self.spec_code(),
    {
        self.code
    }

    /// Repoints the code the object executes, provided the caller is the
    /// owner; returns whether it did. The actual swap of running code is
    /// the hosting runtime's; the pointer recorded here is what it swaps
    /// to. A refused call changes nothing.
    pub fn set_code(&mut self, caller: AccountId, code_hash: CodeHash) -> (r: bool)
        ensures
            r == (caller == old(self).spec_owner()),
            r ==> final(self).spec_code() == Some(code_hash),
            !r ==> final(self).spec_code() == old(self).spec_code(),
            final(self).spec_value() == old(self).spec_value(),
            final(self).spec_owner() == old(self).spec_owner(),
    {
        if self.only_owner(caller) {
            self.code = Some(code_hash);
            true
        } else {
            false
        }
    }
}

} // verus!
