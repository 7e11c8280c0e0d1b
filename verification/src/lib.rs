//! A minimal fungible-token ledger together with a factory that deploys new
//! independent ledger instances at deterministically derived addresses.
//!
//! The ledger enforces conservation of value (the sum of all balances always
//! equals the fixed total supply), non-negativity of balances and allowances,
//! and all-or-nothing mutation: an operation that fails leaves every balance,
//! every allowance and the event log unchanged.
//!
//! The hosting runtime's services (caller identity, the event log, the
//! code-template instantiation service) are modelled as explicit values:
//! the caller is a parameter of each operation, emitted events accumulate in
//! an append-only log owned by the ledger, and instantiation is performed
//! against an `InstanceHost` that tracks which addresses are occupied.

pub mod ids;
pub mod events;
mod balances;
mod allowances;
pub mod erc20;
pub mod factory;
pub mod pns;
pub mod proxy;
pub mod caller;
