//! The allowance store: a mapping from (owner, spender) pairs to the cap the
//! spender may still withdraw from the owner's balance, with
//! absent-key-means-zero semantics.

use vstd::prelude::*;
use crate::ids::AccountId;

verus! {

pub struct AllowanceEntry {
    pub owner: AccountId,
    pub spender: AccountId,
    pub amount: u128,
}

/// The allowance recorded for `(o, d)`: the amount of the first entry for
/// that pair, or zero where no entry exists.
pub open spec fn allow_in(s: Seq<AllowanceEntry>, o: AccountId, d: AccountId) -> u128
    decreases s.len(),
{
    if s.len() == 0 {
        0
    } else if s[0].owner == o && s[0].spender == d {
        s[0].amount
    } else {
        allow_in(s.drop_first(), o, d)
    }
}

pub proof fn lemma_allow_absent(s: Seq<AllowanceEntry>, o: AccountId, d: AccountId)
    requires
        forall|j: int| 0 <= j < s.len() ==> !(s[j].owner == o && s[j].spender == d),
    ensures
        allow_in(s, o, d) == 0,
    decreases s.len(),
{
    if s.len() > 0 {
        assert(forall|j: int|
            0 <= j < s.drop_first().len() ==> s.drop_first()[j] == s[j + 1]);
        lemma_allow_absent(s.drop_first(), o, d);
    }
}

pub proof fn lemma_allow_first_match(s: Seq<AllowanceEntry>, i: int, o: AccountId, d: AccountId)
    requires
        0 <= i < s.len(),
        s[i].owner == o && s[i].spender == d,
        forall|j: int| 0 <= j < i ==> !(s[j].owner == o && s[j].spender == d),
    ensures
        allow_in(s, o, d) == s[i].amount,
    decreases s.len(),
{
    if i > 0 {
        assert(forall|j: int|
            0 <= j < s.drop_first().len() ==> s.drop_first()[j] == s[j + 1]);
        lemma_allow_first_match(s.drop_first(), i - 1, o, d);
    }
}

pub proof fn lemma_allow_update_same(s: Seq<AllowanceEntry>, i: int, e: AllowanceEntry)
    requires
        0 <= i < s.len(),
        e.owner == s[i].owner && e.spender == s[i].spender,
        forall|j: int| 0 <= j < i ==> !(s[j].owner == s[i].owner && s[j].spender == s[i].spender),
    ensures
        allow_in(s.update(i, e), e.owner, e.spender) == e.amount,
{
    let t = s.update(i, e);
    assert(forall|j: int| 0 <= j < i ==> !(t[j].owner == e.owner && t[j].spender == e.spender));
    lemma_allow_first_match(t, i, e.owner, e.spender);
}

pub proof fn lemma_allow_update_other(
    s: Seq<AllowanceEntry>,
    i: int,
    e: AllowanceEntry,
    o: AccountId,
    d: AccountId,
)
    requires
        0 <= i < s.len(),
        e.owner == s[i].owner && e.spender == s[i].spender,
        !(o == e.owner && d == e.spender),
    ensures
        allow_in(s.update(i, e), o, d) == allow_in(s, o, d),
    decreases s.len(),
{
    let t = s.update(i, e);
    if i == 0 {
        assert(t.drop_first() =~= s.drop_first());
    } else {
        assert(t.drop_first() =~= s.drop_first().update(i - 1, e));
        lemma_allow_update_other(s.drop_first(), i - 1, e, o, d);
    }
}

pub proof fn lemma_allow_push_same(s: Seq<AllowanceEntry>, e: AllowanceEntry)
    requires
        forall|j: int| 0 <= j < s.len() ==> !(s[j].owner == e.owner && s[j].spender == e.spender),
    ensures
        allow_in(s.push(e), e.owner, e.spender) == e.amount,
{
    let t = s.push(e);
    assert(t[s.len() as int] == e);
    assert(forall|j: int|
        0 <= j < s.len() ==> !(t[j].owner == e.owner && t[j].spender == e.spender));
    lemma_allow_first_match(t, s.len() as int, e.owner, e.spender);
}

pub proof fn lemma_allow_push_other(
    s: Seq<AllowanceEntry>,
    e: AllowanceEntry,
    o: AccountId,
    d: AccountId,
)
    requires
        !(o == e.owner && d == e.spender),
    ensures
        allow_in(s.push(e), o, d) == allow_in(s, o, d),
    decreases s.len(),
{
    let t = s.push(e);
    if s.len() == 0 {
        assert(t.drop_first() =~= Seq::<AllowanceEntry>::empty());
        assert(t[0] == e);
        assert(allow_in(t, o, d) == allow_in(t.drop_first(), o, d));
    } else {
        assert(t.drop_first() =~= s.drop_first().push(e));
        lemma_allow_push_other(s.drop_first(), e, o, d);
        assert(t[0] == s[0]);
        if !(s[0].owner == o && s[0].spender == d) {
            assert(allow_in(t, o, d) == allow_in(t.drop_first(), o, d));
            assert(allow_in(s, o, d) == allow_in(s.drop_first(), o, d));
        }
    }
}

/// The allowance store. Absent pair means allowance zero; `set` overwrites,
/// it never accumulates.
pub struct AllowanceStore {
    entries: Vec<AllowanceEntry>,
}

impl AllowanceStore {
    pub closed spec fn spec_get(&self, o: AccountId, d: AccountId) -> u128 {
        allow_in(self.entries@, o, d)
    }

    pub fn new() -> (s: Self)
        ensures
            forall|o: AccountId, d: AccountId| s.spec_get(o, d) == 0,
    {
        AllowanceStore { entries: Vec::new() }
    }

    fn find(&self, o: AccountId, d: AccountId) -> (r: Option<usize>)
        ensures
            match r {
                Some(i) => 0 <= i < self.entries@.len()
                    && self.entries@[i as int].owner == o
                    && self.entries@[i as int].spender == d
                    && forall|j: int| 0 <= j < i
                        ==> !(self.entries@[j].owner == o && self.entries@[j].spender == d),
                None => forall|j: int| 0 <= j < self.entries@.len()
                    ==> !(self.entries@[j].owner == o && self.entries@[j].spender == d),
            },
    {
        let mut i: usize = 0;
        while i < self.entries.len()
            invariant
                i <= self.entries@.len(),
                forall|j: int| 0 <= j < i
                    ==> !(self.entries@[j].owner == o && self.entries@[j].spender == d),
            decreases self.entries@.len() - i,
        {
            if self.entries[i].owner == o && self.entries[i].spender == d {
                return Some(i);
            }
            i = i + 1;
        }
        None
    }

    pub fn get(&self, o: AccountId, d: AccountId) -> (v: u128)
        ensures
            v == self.spec_get(o, d),
    {
        match self.find(o, d) {
            Some(i) => {
                proof {
                    lemma_allow_first_match(self.entries@, i as int, o, d);
                }
                self.entries[i].amount
            },
            None => {
                proof {
                    lemma_allow_absent(self.entries@, o, d);
                }
                0
            },
        }
    }

    pub fn set(&mut self, o: AccountId, d: AccountId, v: u128)
        ensures
            final(self).spec_get(o, d) == v,
            forall|o2: AccountId, d2: AccountId| !(o2 == o && d2 == d)
                ==> final(self).spec_get(o2, d2) == old(self).spec_get(o2, d2),
    {
        let ghost s0 = self.entries@;
        let e = AllowanceEntry { owner: o, spender: d, amount: v };
        match self.find(o, d) {
            Some(i) => {
                self.entries[i] = e;
                proof {
                    lemma_allow_update_same(s0, i as int, e);
                    assert forall|o2: AccountId, d2: AccountId| !(o2 == o && d2 == d)
                        implies allow_in(self.entries@, o2, d2) == allow_in(s0, o2, d2) by {
                        lemma_allow_update_other(s0, i as int, e, o2, d2);
                    }
                }
            },
            None => {
                self.entries.push(e);
                proof {
                    lemma_allow_push_same(s0, e);
                    assert forall|o2: AccountId, d2: AccountId| !(o2 == o && d2 == d)
                        implies allow_in(self.entries@, o2, d2) == allow_in(s0, o2, d2) by {
                        lemma_allow_push_other(s0, e, o2, d2);
                    }
                }
            },
        }
    }
}

} // verus!
