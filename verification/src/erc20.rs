//! The fungible-token ledger: balances, a fixed total supply, and the
//! two-party allowance mechanism for delegated transfers.
//!
//! Every operation is all-or-nothing: an operation that returns an error
//! leaves every balance, every allowance and the event log unchanged.
//! The conservation invariant (the sum of all recorded balances equals the
//! total supply) is part of [`Erc20::wf`], which every operation preserves.

use vstd::prelude::*;
use crate::allowances::AllowanceStore;
use crate::balances::BalanceStore;
use crate::events::{Approval, Event, Transfer};
use crate::ids::AccountId;

verus! {

/// The two recoverable failures of a ledger operation.
#[derive(PartialEq, Eq, Structural, Clone, Copy, Debug)]
pub enum Error {
    /// The source of a transfer holds fewer tokens than the transfer moves.
    InsufficientBalance,
    /// A delegated transfer exceeds the cap granted to the caller.
    InsufficientAllowance,
}

/// A fungible-token ledger with a supply fixed at construction.
pub struct Erc20 {
    total_supply: u128,
    balances: BalanceStore,
    allowances: AllowanceStore,
    name: Option<String>,
    symbol: Option<String>,
    events: Vec<Event>,
}

impl Erc20 {
    pub closed spec fn spec_total_supply(&self) -> u128 {
        self.total_supply
    }

    pub closed spec fn spec_balance_of(&self, a: AccountId) -> u128 {
        self.balances.spec_get(a)
    }

    pub closed spec fn spec_allowance(&self, o: AccountId, d: AccountId) -> u128 {
        self.allowances.spec_get(o, d)
    }

    pub closed spec fn spec_name(&self) -> Option<String> {
        self.name
    }

    pub closed spec fn spec_symbol(&self) -> Option<String> {
        self.symbol
    }

    pub closed spec fn spec_events(&self) -> Seq<Event> {
        self.events@
    }

    /// The sum of every recorded balance.
    pub closed spec fn spec_sum_balances(&self) -> int {
        self.balances.spec_sum()
    }

    /// Well-formedness: each account holds one balance entry at most,
    /// conservation holds (the balances over all accounts sum to the total
    /// supply), and the supply bound precludes overflow in any pairwise
    /// addition of two valid balances.
    pub closed spec fn wf(&self) -> bool {
        &&& self.balances.wf()
        &&& self.balances.spec_sum() == self.total_supply
        &&& self.total_supply <= u128::MAX / 2
    }

    /// Creates a ledger whose entire supply is credited to `caller`, and
    /// emits the genesis transfer record (a transfer with no source).
    ///
    /// The supply bound is the constructor's precondition: it is enforced by
    /// whoever creates a ledger and never re-checked per transfer.
    pub fn new(
        caller: AccountId,
        total_supply: u128,
        name: Option<String>,
        symbol: Option<String>,
    ) -> (l: Erc20)
        requires
            total_supply <= u128::MAX / 2,
        ensures
            l.wf(),
            l.spec_total_supply() == total_supply,
            l.spec_balance_of(caller) == total_supply,
            forall|a: AccountId| a != caller ==> l.spec_balance_of(a) == 0,
            forall|o: AccountId, d: AccountId| l.spec_allowance(o, d) == 0,
            l.spec_name() == name,
            l.spec_symbol() == symbol,
            l.spec_events() =~= seq![
                Event::Transfer(Transfer { from: None, to: Some(caller), value: total_supply }),
            ],
    {
        let mut balances = BalanceStore::new();
        balances.set(caller, total_supply);
        let mut events: Vec<Event> = Vec::new();
        events.push(Event::Transfer(Transfer {
            from: None,
            to: Some(caller),
            value: total_supply,
        }));
        Erc20 {
            total_supply,
            balances,
            allowances: AllowanceStore::new(),
            name,
            symbol,
            events,
        }
    }

    /// Creates a ledger without name and symbol.
    pub fn new_nameless(caller: AccountId, total_supply: u128) -> (l: Erc20)
        requires
            total_supply <= u128::MAX / 2,
        ensures
            l.wf(),
            l.spec_total_supply() == total_supply,
            l.spec_balance_of(caller) == total_supply,
            forall|a: AccountId| a != caller ==> l.spec_balance_of(a) == 0,
            forall|o: AccountId, d: AccountId| l.spec_allowance(o, d) == 0,
            l.spec_name() is None,
            l.spec_symbol() is None,
            l.spec_events() =~= seq![
                Event::Transfer(Transfer { from: None, to: Some(caller), value: total_supply }),
            ],
    {
        Erc20::new(caller, total_supply, None, None)
    }

    /// Returns the name of the token.
    pub fn name(&self) -> (r: Option<String>)
        ensures
            r == self.spec_name(),
    {
        match &self.name {
            Some(s) => Some(s.clone()),
            None => None,
        }
    }

    /// Returns the symbol of the token.
    pub fn symbol(&self) -> (r: Option<String>)
        ensures
            r == self.spec_symbol(),
    {
        match &self.symbol {
            Some(s) => Some(s.clone()),
            None => None,
        }
    }

    /// Returns the total token supply.
    pub fn total_supply(&self) -> (r: u128)
        ensures
            r == self.spec_total_supply(),
    {
        self.total_supply
    }

    /// Returns the balance of `owner`; an account with no entry holds zero.
    pub fn balance_of(&self, owner: AccountId) -> (r: u128)
        ensures
            r == self.spec_balance_of(owner),
    {
        self.balances.get(owner)
    }

    /// Returns what `spender` may still withdraw from `owner`; an absent
    /// pair means zero.
    pub fn allowance(&self, owner: AccountId, spender: AccountId) -> (r: u128)
        ensures
            r == self.spec_allowance(owner, spender),
    {
        self.allowances.get(owner, spender)
    }

    /// The event log so far, in the order the mutations occurred.
    pub fn events(&self) -> (r: &Vec<Event>)
        ensures
            r@ == self.spec_events(),
    {
        &self.events
    }

    /// Moves `value` from the caller's balance to `to`. A self-transfer is
    /// legal, leaves the balance unchanged, and still emits its record.
    pub fn transfer(&mut self, caller: AccountId, to: AccountId, value: u128) -> (r: Result<
        (),
        Error,
    >)
        requires
            old(self).wf(),
        ensures
            final(self).wf(),
            r is Ok <==> old(self).spec_balance_of(caller) >= value,
            r is Err ==> r == Err::<(), Error>(Error::InsufficientBalance),
            r is Ok ==> final(self).spec_balance_of(to) == if caller == to {
                old(self).spec_balance_of(to) as int
            } else {
                old(self).spec_balance_of(to) + value
            },
            r is Ok && caller != to ==> final(self).spec_balance_of(caller) == old(
                self,
            ).spec_balance_of(caller) - value,
            r is Ok ==> forall|a: AccountId|
                a != caller && a != to ==> final(self).spec_balance_of(a) == old(
                    self,
                ).spec_balance_of(a),
            r is Ok ==> final(self).spec_events() =~= old(self).spec_events().push(
                Event::Transfer(Transfer { from: Some(caller), to: Some(to), value }),
            ),
            r is Err ==> forall|a: AccountId|
                final(self).spec_balance_of(a) == old(self).spec_balance_of(a),
            r is Err ==> final(self).spec_events() =~= old(self).spec_events(),
            forall|o: AccountId, d: AccountId|
                final(self).spec_allowance(o, d) == old(self).spec_allowance(o, d),
            final(self).spec_total_supply() == old(self).spec_total_supply(),
            final(self).spec_name() == old(self).spec_name(),
            final(self).spec_symbol() == old(self).spec_symbol(),
    {
        self.transfer_from_to(caller, to, value)
    }

    /// Unconditionally sets the allowance of `(caller, spender)` to `value`:
    /// an overwrite, never an accumulation, so an earlier grant that was not
    /// yet consumed is discarded. Always succeeds and emits an approval
    /// record.
    pub fn approve(&mut self, caller: AccountId, spender: AccountId, value: u128) -> (r: Result<
        (),
        Error,
    >)
        requires
            old(self).wf(),
        ensures
            final(self).wf(),
            r is Ok,
            final(self).spec_allowance(caller, spender) == value,
            forall|o: AccountId, d: AccountId|
                !(o == caller && d == spender) ==> final(self).spec_allowance(o, d) == old(
                    self,
                ).spec_allowance(o, d),
            forall|a: AccountId| final(self).spec_balance_of(a) == old(self).spec_balance_of(a),
            final(self).spec_events() =~= old(self).spec_events().push(
                Event::Approval(Approval { owner: caller, spender, value }),
            ),
            final(self).spec_total_supply() == old(self).spec_total_supply(),
            final(self).spec_name() == old(self).spec_name(),
            final(self).spec_symbol() == old(self).spec_symbol(),
    {
        self.allowances.set(caller, spender, value);
        self.events.push(Event::Approval(Approval { owner: caller, spender, value }));
        Ok(())
    }

    /// Transfers `value` from `from` to `to` on behalf of `from`, bounded by
    /// the allowance granted to `caller`. The allowance check comes first;
    /// the allowance is decremented by exactly `value` only after the
    /// balance move succeeded, so a failed move leaves it untouched.
    pub fn transfer_from(
        &mut self,
        caller: AccountId,
        from: AccountId,
        to: AccountId,
        value: u128,
    ) -> (r: Result<(), Error>)
        requires
            old(self).wf(),
        ensures
            final(self).wf(),
            r is Ok <==> old(self).spec_allowance(from, caller) >= value && old(
                self,
            ).spec_balance_of(from) >= value,
            r == Err::<(), Error>(Error::InsufficientAllowance) <==> old(self).spec_allowance(
                from,
                caller,
            ) < value,
            r == Err::<(), Error>(Error::InsufficientBalance) <==> old(self).spec_allowance(
                from,
                caller,
            ) >= value && old(self).spec_balance_of(from) < value,
            r is Ok ==> final(self).spec_allowance(from, caller) == old(self).spec_allowance(
                from,
                caller,
            ) - value,
            r is Ok ==> forall|o: AccountId, d: AccountId|
                !(o == from && d == caller) ==> final(self).spec_allowance(o, d) == old(
                    self,
                ).spec_allowance(o, d),
            r is Err ==> forall|o: AccountId, d: AccountId|
                final(self).spec_allowance(o, d) == old(self).spec_allowance(o, d),
            r is Ok ==> final(self).spec_balance_of(to) == if from == to {
                old(self).spec_balance_of(to) as int
            } else {
                old(self).spec_balance_of(to) + value
            },
            r is Ok && from != to ==> final(self).spec_balance_of(from) == old(
                self,
            ).spec_balance_of(from) - value,
            r is Ok ==> forall|a: AccountId|
                a != from && a != to ==> final(self).spec_balance_of(a) == old(
                    self,
                ).spec_balance_of(a),
            r is Err ==> forall|a: AccountId|
                final(self).spec_balance_of(a) == old(self).spec_balance_of(a),
            r is Ok ==> final(self).spec_events() =~= old(self).spec_events().push(
                Event::Transfer(Transfer { from: Some(from), to: Some(to), value }),
            ),
            r is Err ==> final(self).spec_events() =~= old(self).spec_events(),
            final(self).spec_total_supply() == old(self).spec_total_supply(),
            final(self).spec_name() == old(self).spec_name(),
            final(self).spec_symbol() == old(self).spec_symbol(),
    {
        let allowance = self.allowances.get(from, caller);
        if allowance < value {
            return Err(Error::InsufficientAllowance);
        }
        match self.transfer_from_to(from, to, value) {
            Ok(()) => {
                self.allowances.set(from, caller, allowance - value);
                Ok(())
            },
            Err(e) => Err(e),
        }
    }

    /// The balance move shared by `transfer` and `transfer_from`: debits
    /// `from`, credits `to`, emits the transfer record. The credit cannot
    /// overflow because no balance exceeds the conserved sum.
    fn transfer_from_to(&mut self, from: AccountId, to: AccountId, value: u128) -> (r: Result<
        (),
        Error,
    >)
        requires
            old(self).wf(),
        ensures
            final(self).wf(),
            r is Ok <==> old(self).spec_balance_of(from) >= value,
            r is Err ==> r == Err::<(), Error>(Error::InsufficientBalance),
            r is Ok ==> final(self).spec_balance_of(to) == if from == to {
                old(self).spec_balance_of(to) as int
            } else {
                old(self).spec_balance_of(to) + value
            },
            r is Ok && from != to ==> final(self).spec_balance_of(from) == old(
                self,
            ).spec_balance_of(from) - value,
            r is Ok ==> forall|a: AccountId|
                a != from && a != to ==> final(self).spec_balance_of(a) == old(
                    self,
                ).spec_balance_of(a),
            r is Ok ==> final(self).spec_events() =~= old(self).spec_events().push(
                Event::Transfer(Transfer { from: Some(from), to: Some(to), value }),
            ),
            r is Err ==> forall|a: AccountId|
                final(self).spec_balance_of(a) == old(self).spec_balance_of(a),
            r is Err ==> final(self).spec_events() =~= old(self).spec_events(),
            forall|o: AccountId, d: AccountId|
                final(self).spec_allowance(o, d) == old(self).spec_allowance(o, d),
            final(self).spec_total_supply() == old(self).spec_total_supply(),
            final(self).spec_name() == old(self).spec_name(),
            final(self).spec_symbol() == old(self).spec_symbol(),
    {
        let from_balance = self.balances.get(from);
        if from_balance < value {
            return Err(Error::InsufficientBalance);
        }
        self.balances.set(from, from_balance - value);
        let to_balance = self.balances.get(to);
        proof {
            self.balances.lemma_get_le_sum(to);
        }
        self.balances.set(to, to_balance + value);
        self.events.push(Event::Transfer(Transfer { from: Some(from), to: Some(to), value }));
        Ok(())
    }

    /// Conservation of value: in a well-formed ledger the sum of all
    /// recorded balances equals the fixed total supply. Every operation
    /// requires and re-establishes well-formedness, so the sum is conserved
    /// across any sequence of transfers and delegated transfers.
    pub proof fn lemma_conservation(&self)
        requires
            self.wf(),
        ensures
            self.spec_sum_balances() == self.spec_total_supply() as int,
    {
    }

    /// No single balance can exceed the total supply: each recorded balance
    /// is bounded by the conserved sum.
    pub proof fn lemma_balance_bounded(&self, a: AccountId)
        requires
            self.wf(),
        ensures
            self.spec_balance_of(a) <= self.spec_total_supply(),
    {
        self.balances.lemma_get_le_sum(a);
    }
}

} // verus!
