//! Records emitted by the ledger on its append-only event log.

use vstd::prelude::*;
use crate::ids::AccountId;

verus! {

/// Emitted when tokens move. A `from` of `None` marks the mint at genesis:
/// the creation credit of the whole supply to the creator.
#[derive(PartialEq, Eq, Clone, Copy, Debug)]
pub struct Transfer {
    pub from: Option<AccountId>,
    pub to: Option<AccountId>,
    pub value: u128,
}

/// Emitted when an owner grants `spender` the right to withdraw up to
/// `value` tokens from the owner's balance.
#[derive(PartialEq, Eq, Clone, Copy, Debug)]
pub struct Approval {
    pub owner: AccountId,
    pub spender: AccountId,
    pub value: u128,
}

/// One record of the event log, in the order the mutations occurred.
#[derive(PartialEq, Eq, Clone, Copy, Debug)]
pub enum Event {
    Transfer(Transfer),
    Approval(Approval),
}

} // verus!
