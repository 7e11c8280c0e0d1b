//! The balance store: a mapping from account to unsigned balance, with
//! absent-key-means-zero semantics, plus the summation lemmas that carry the
//! conservation invariant.

use vstd::prelude::*;
use crate::ids::AccountId;

verus! {

pub struct BalanceEntry {
    pub account: AccountId,
    pub amount: u128,
}

/// The balance recorded for `a`: the amount of the first entry for `a`,
/// or zero where no entry exists.
pub open spec fn bal_in(s: Seq<BalanceEntry>, a: AccountId) -> u128
    decreases s.len(),
{
    if s.len() == 0 {
        0
    } else if s[0].account == a {
        s[0].amount
    } else {
        bal_in(s.drop_first(), a)
    }
}

/// The sum of every recorded amount.
pub open spec fn sum_amounts(s: Seq<BalanceEntry>) -> int
    decreases s.len(),
{
    if s.len() == 0 {
        0
    } else {
        s[0].amount + sum_amounts(s.drop_first())
    }
}

pub proof fn lemma_sum_nonneg(s: Seq<BalanceEntry>)
    ensures
        sum_amounts(s) >= 0,
    decreases s.len(),
{
    if s.len() > 0 {
        lemma_sum_nonneg(s.drop_first());
    }
}

/// No single recorded balance exceeds the sum of all of them.
pub proof fn lemma_bal_le_sum(s: Seq<BalanceEntry>, a: AccountId)
    ensures
        bal_in(s, a) <= sum_amounts(s),
    decreases s.len(),
{
    if s.len() > 0 {
        lemma_sum_nonneg(s.drop_first());
        if s[0].account != a {
            lemma_bal_le_sum(s.drop_first(), a);
        }
    }
}

pub proof fn lemma_bal_absent(s: Seq<BalanceEntry>, a: AccountId)
    requires
        forall|j: int| 0 <= j < s.len() ==> s[j].account != a,
    ensures
        bal_in(s, a) == 0,
    decreases s.len(),
{
    if s.len() > 0 {
        assert(forall|j: int|
            0 <= j < s.drop_first().len() ==> s.drop_first()[j] == s[j + 1]);
        lemma_bal_absent(s.drop_first(), a);
    }
}

pub proof fn lemma_bal_first_match(s: Seq<BalanceEntry>, i: int, a: AccountId)
    requires
        0 <= i < s.len(),
        s[i].account == a,
        forall|j: int| 0 <= j < i ==> s[j].account != a,
    ensures
        bal_in(s, a) == s[i].amount,
    decreases s.len(),
{
    if i > 0 {
        assert(forall|j: int|
            0 <= j < s.drop_first().len() ==> s.drop_first()[j] == s[j + 1]);
        lemma_bal_first_match(s.drop_first(), i - 1, a);
    }
}

pub proof fn lemma_sum_update(s: Seq<BalanceEntry>, i: int, e: BalanceEntry)
    requires
        0 <= i < s.len(),
    ensures
        sum_amounts(s.update(i, e)) == sum_amounts(s) - s[i].amount + e.amount,
    decreases s.len(),
{
    let t = s.update(i, e);
    if i == 0 {
        assert(t.drop_first() =~= s.drop_first());
    } else {
        assert(t.drop_first() =~= s.drop_first().update(i - 1, e));
        lemma_sum_update(s.drop_first(), i - 1, e);
    }
}

pub proof fn lemma_sum_push(s: Seq<BalanceEntry>, e: BalanceEntry)
    ensures
        sum_amounts(s.push(e)) == sum_amounts(s) + e.amount,
    decreases s.len(),
{
    let t = s.push(e);
    if s.len() == 0 {
        assert(t.drop_first() =~= Seq::<BalanceEntry>::empty());
        assert(t[0] == e);
        assert(sum_amounts(t) == t[0].amount + sum_amounts(t.drop_first()));
    } else {
        assert(t.drop_first() =~= s.drop_first().push(e));
        lemma_sum_push(s.drop_first(), e);
        assert(t[0] == s[0]);
        assert(sum_amounts(t) == t[0].amount + sum_amounts(t.drop_first()));
        assert(sum_amounts(t.drop_first()) == sum_amounts(s.drop_first()) + e.amount);
        assert(sum_amounts(s) == s[0].amount + sum_amounts(s.drop_first()));
    }
}

pub proof fn lemma_bal_update_same(s: Seq<BalanceEntry>, i: int, e: BalanceEntry)
    requires
        0 <= i < s.len(),
        e.account == s[i].account,
        forall|j: int| 0 <= j < i ==> s[j].account != s[i].account,
    ensures
        bal_in(s.update(i, e), e.account) == e.amount,
{
    let t = s.update(i, e);
    assert(forall|j: int| 0 <= j < i ==> t[j].account != e.account);
    lemma_bal_first_match(t, i, e.account);
}

pub proof fn lemma_bal_update_other(s: Seq<BalanceEntry>, i: int, e: BalanceEntry, b: AccountId)
    requires
        0 <= i < s.len(),
        e.account == s[i].account,
        b != e.account,
    ensures
        bal_in(s.update(i, e), b) == bal_in(s, b),
    decreases s.len(),
{
    let t = s.update(i, e);
    if i == 0 {
        assert(t.drop_first() =~= s.drop_first());
    } else {
        assert(t.drop_first() =~= s.drop_first().update(i - 1, e));
        lemma_bal_update_other(s.drop_first(), i - 1, e, b);
    }
}

pub proof fn lemma_bal_push_same(s: Seq<BalanceEntry>, e: BalanceEntry)
    requires
        forall|j: int| 0 <= j < s.len() ==> s[j].account != e.account,
    ensures
        bal_in(s.push(e), e.account) == e.amount,
{
    let t = s.push(e);
    assert(t[s.len() as int] == e);
    assert(forall|j: int| 0 <= j < s.len() ==> t[j].account != e.account);
    lemma_bal_first_match(t, s.len() as int, e.account);
}

pub proof fn lemma_bal_push_other(s: Seq<BalanceEntry>, e: BalanceEntry, b: AccountId)
    requires
        b != e.account,
    ensures
        bal_in(s.push(e), b) == bal_in(s, b),
    decreases s.len(),
{
    let t = s.push(e);
    if s.len() == 0 {
        assert(t.drop_first() =~= Seq::<BalanceEntry>::empty());
        assert(t[0] == e);
        assert(bal_in(t, b) == bal_in(t.drop_first(), b));
    } else {
        assert(t.drop_first() =~= s.drop_first().push(e));
        lemma_bal_push_other(s.drop_first(), e, b);
        assert(t[0] == s[0]);
        if s[0].account != b {
            assert(bal_in(t, b) == bal_in(t.drop_first(), b));
            assert(bal_in(s, b) == bal_in(s.drop_first(), b));
        }
    }
}

/// No account owns more than one entry, so the sum of all amounts is the
/// sum of the balances over all accounts.
pub open spec fn unique_accounts(s: Seq<BalanceEntry>) -> bool {
    forall|i: int, j: int| 0 <= i < j < s.len() ==> s[i].account != s[j].account
}

/// The balance store. Absent account means balance zero; `set` overwrites
/// the single entry of the account, so the sum of all amounts moves by
/// exactly the difference that `set` writes.
pub struct BalanceStore {
    entries: Vec<BalanceEntry>,
}

impl BalanceStore {
    pub closed spec fn spec_get(&self, a: AccountId) -> u128 {
        bal_in(self.entries@, a)
    }

    pub closed spec fn spec_sum(&self) -> int {
        sum_amounts(self.entries@)
    }

    /// Each account holds at most one entry.
    pub closed spec fn wf(&self) -> bool {
        unique_accounts(self.entries@)
    }

    pub fn new() -> (s: Self)
        ensures
            s.wf(),
            forall|a: AccountId| s.spec_get(a) == 0,
            s.spec_sum() == 0,
    {
        BalanceStore { entries: Vec::new() }
    }

    fn find(&self, a: AccountId) -> (r: Option<usize>)
        ensures
            match r {
                Some(i) => 0 <= i < self.entries@.len() && self.entries@[i as int].account == a
                    && forall|j: int| 0 <= j < i ==> self.entries@[j].account != a,
                None => forall|j: int| 0 <= j < self.entries@.len()
                    ==> self.entries@[j].account != a,
            },
    {
        let mut i: usize = 0;
        while i < self.entries.len()
            invariant
                i <= self.entries@.len(),
                forall|j: int| 0 <= j < i ==> self.entries@[j].account != a,
            decreases self.entries@.len() - i,
        {
            if self.entries[i].account == a {
                return Some(i);
            }
            i = i + 1;
        }
        None
    }

    pub fn get(&self, a: AccountId) -> (v: u128)
        ensures
            v == self.spec_get(a),
    {
        match self.find(a) {
            Some(i) => {
                proof {
                    lemma_bal_first_match(self.entries@, i as int, a);
                }
                self.entries[i].amount
            },
            None => {
                proof {
                    lemma_bal_absent(self.entries@, a);
                }
                0
            },
        }
    }

    pub fn set(&mut self, a: AccountId, v: u128)
        requires
            old(self).wf(),
        ensures
            final(self).wf(),
            final(self).spec_get(a) == v,
            forall|b: AccountId| b != a ==> final(self).spec_get(b) == old(self).spec_get(b),
            final(self).spec_sum() == old(self).spec_sum() - old(self).spec_get(a) + v,
    {
        let ghost s0 = self.entries@;
        let e = BalanceEntry { account: a, amount: v };
        match self.find(a) {
            Some(i) => {
                self.entries[i] = e;
                proof {
                    lemma_bal_first_match(s0, i as int, a);
                    lemma_sum_update(s0, i as int, e);
                    lemma_bal_update_same(s0, i as int, e);
                    assert forall|b: AccountId| b != a
                        implies bal_in(self.entries@, b) == bal_in(s0, b) by {
                        lemma_bal_update_other(s0, i as int, e, b);
                    }
                    assert(forall|k: int|
                        0 <= k < self.entries@.len()
                            ==> self.entries@[k].account == s0[k].account);
                }
            },
            None => {
                self.entries.push(e);
                proof {
                    lemma_bal_absent(s0, a);
                    lemma_sum_push(s0, e);
                    lemma_bal_push_same(s0, e);
                    assert forall|b: AccountId| b != a
                        implies bal_in(self.entries@, b) == bal_in(s0, b) by {
                        lemma_bal_push_other(s0, e, b);
                    }
                    assert(forall|k: int| 0 <= k < s0.len() ==> self.entries@[k] == s0[k]);
                    assert(self.entries@[s0.len() as int].account == a);
                }
            },
        }
    }

    /// Every recorded balance is bounded by the sum of all of them.
    pub proof fn lemma_get_le_sum(&self, a: AccountId)
        ensures
            self.spec_get(a) <= self.spec_sum(),
    {
        lemma_bal_le_sum(self.entries@, a);
    }
}

} // verus!
