//! The name-resolution store: an authenticated key/value mapping from a
//! name hash to its owner and an opaque content identifier. Writes are
//! gated on ownership; there is no invariant beyond that.

use vstd::prelude::*;
use crate::ids::{AccountId, NameHash};

verus! {

/// One registered name: its owner and its current content identifier.
/// The owner and the content identifier of a name are always registered
/// together, so a single entry carries both.
pub struct PnsEntry {
    pub name: NameHash,
    pub owner: AccountId,
    pub cid: Vec<u8>,
}

/// The entry registered for `n`: the first entry with that name, if any.
pub open spec fn entry_in(s: Seq<PnsEntry>, n: NameHash) -> Option<PnsEntry>
    decreases s.len(),
{
    if s.len() == 0 {
        None
    } else if s[0].name == n {
        Some(s[0])
    } else {
        entry_in(s.drop_first(), n)
    }
}

pub proof fn lemma_entry_absent(s: Seq<PnsEntry>, n: NameHash)
    requires
        forall|j: int| 0 <= j < s.len() ==> s[j].name != n,
    ensures
        entry_in(s, n) is None,
    decreases s.len(),
{
    if s.len() > 0 {
        assert(forall|j: int|
            0 <= j < s.drop_first().len() ==> s.drop_first()[j] == s[j + 1]);
        lemma_entry_absent(s.drop_first(), n);
    }
}

pub proof fn lemma_entry_first_match(s: Seq<PnsEntry>, i: int, n: NameHash)
    requires
        0 <= i < s.len(),
        s[i].name == n,
        forall|j: int| 0 <= j < i ==> s[j].name != n,
    ensures
        entry_in(s, n) == Some(s[i]),
    decreases s.len(),
{
    if i > 0 {
        assert(forall|j: int|
            0 <= j < s.drop_first().len() ==> s.drop_first()[j] == s[j + 1]);
        lemma_entry_first_match(s.drop_first(), i - 1, n);
    }
}

pub proof fn lemma_entry_update_other(s: Seq<PnsEntry>, i: int, e: PnsEntry, m: NameHash)
    requires
        0 <= i < s.len(),
        e.name == s[i].name,
        m != e.name,
    ensures
        entry_in(s.update(i, e), m) == entry_in(s, m),
    decreases s.len(),
{
    let t = s.update(i, e);
    if i == 0 {
        assert(t.drop_first() =~= s.drop_first());
    } else {
        assert(t.drop_first() =~= s.drop_first().update(i - 1, e));
        lemma_entry_update_other(s.drop_first(), i - 1, e, m);
    }
}

pub proof fn lemma_entry_push_other(s: Seq<PnsEntry>, e: PnsEntry, m: NameHash)
    requires
        m != e.name,
    ensures
        entry_in(s.push(e), m) == entry_in(s, m),
    decreases s.len(),
{
    let t = s.push(e);
    if s.len() == 0 {
        assert(t.drop_first() =~= Seq::<PnsEntry>::empty());
        assert(t[0] == e);
        assert(entry_in(t, m) == entry_in(t.drop_first(), m));
    } else {
        assert(t.drop_first() =~= s.drop_first().push(e));
        lemma_entry_push_other(s.drop_first(), e, m);
        assert(t[0] == s[0]);
        if s[0].name != m {
            assert(entry_in(t, m) == entry_in(t.drop_first(), m));
            assert(entry_in(s, m) == entry_in(s.drop_first(), m));
        }
    }
}

/// The resolver: registration claims a free name for the caller, and only
/// the owner may repoint the content identifier afterwards.
pub struct PnsResolver {
    entries: Vec<PnsEntry>,
}

impl PnsResolver {
    /// The owner a name resolves to, if the name is registered.
    pub closed spec fn spec_owner(&self, n: NameHash) -> Option<AccountId> {
        match entry_in(self.entries@, n) {
            Some(e) => Some(e.owner),
            None => None,
        }
    }

    /// The content identifier a name resolves to, if the name is registered.
    pub closed spec fn spec_cid(&self, n: NameHash) -> Option<Seq<u8>> {
        match entry_in(self.entries@, n) {
            Some(e) => Some(e.cid@),
            None => None,
        }
    }

    pub fn new() -> (r: Self)
        ensures
            forall|n: NameHash| r.spec_owner(n) is None,
            forall|n: NameHash| r.spec_cid(n) is None,
    {
        PnsResolver { entries: Vec::new() }
    }

    fn find(&self, n: NameHash) -> (r: Option<usize>)
        ensures
            match r {
                Some(i) => 0 <= i < self.entries@.len() && self.entries@[i as int].name == n
                    && entry_in(self.entries@, n) == Some(self.entries@[i as int])
                    && forall|j: int| 0 <= j < i ==> self.entries@[j].name != n,
                None => entry_in(self.entries@, n) is None && forall|j: int|
                    0 <= j < self.entries@.len() ==> self.entries@[j].name != n,
            },
    {
        let mut i: usize = 0;
        while i < self.entries.len()
            invariant
                i <= self.entries@.len(),
                forall|j: int| 0 <= j < i ==> self.entries@[j].name != n,
            decreases self.entries@.len() - i,
        {
            if self.entries[i].name == n {
                proof {
                    lemma_entry_first_match(self.entries@, i as int, n);
                }
                return Some(i);
            }
            i = i + 1;
        }
        proof {
            lemma_entry_absent(self.entries@, n);
        }
        None
    }

    /// Registers a free name to the caller with its content identifier;
    /// returns whether the name was free. A taken name is left untouched.
    pub fn register(&mut self, caller: AccountId, name: NameHash, cid: Vec<u8>) -> (r: bool)
        ensures
            r == (old(self).spec_owner(name) is None),
            r ==> final(self).spec_owner(name) == Some(caller),
            r ==> final(self).spec_cid(name) == Some(cid@),
            forall|m: NameHash| m != name ==> final(self).spec_owner(m) == old(self).spec_owner(m),
            forall|m: NameHash| m != name ==> final(self).spec_cid(m) == old(self).spec_cid(m),
            !r ==> final(self).spec_owner(name) == old(self).spec_owner(name),
            !r ==> final(self).spec_cid(name) == old(self).spec_cid(name),
    {
        match self.find(name) {
            Some(_) => false,
            None => {
                let ghost s0 = self.entries@;
                let e = PnsEntry { name, owner: caller, cid };
                self.entries.push(e);
                proof {
                    lemma_entry_first_match(self.entries@, s0.len() as int, name);
                    assert forall|m: NameHash| m != name
                        implies entry_in(self.entries@, m) == entry_in(s0, m) by {
                        lemma_entry_push_other(s0, e, m);
                    }
                }
                true
            },
        }
    }

    /// Repoints the content identifier of `name`, provided the caller owns
    /// it; returns whether it did. Ownership never changes here, and a
    /// refused update changes nothing.
    pub fn update_cid(&mut self, caller: AccountId, name: NameHash, new_cid: Vec<u8>) -> (r: bool)
        ensures
            r == (old(self).spec_owner(name) == Some(caller)),
            r ==> final(self).spec_cid(name) == Some(new_cid@),
            forall|m: NameHash| final(self).spec_owner(m) == old(self).spec_owner(m),
            forall|m: NameHash| m != name ==> final(self).spec_cid(m) == old(self).spec_cid(m),
            !r ==> final(self).spec_cid(name) == old(self).spec_cid(name),
    {
        match self.find(name) {
            Some(i) => {
                if self.entries[i].owner == caller {
                    let ghost s0 = self.entries@;
                    let owner = self.entries[i].owner;
                    let e = PnsEntry { name, owner, cid: new_cid };
                    self.entries[i] = e;
                    proof {
                        assert(forall|j: int| 0 <= j < i ==> s0[j].name != name);
                        lemma_entry_first_match(self.entries@, i as int, name);
                        assert forall|m: NameHash| m != name
                            implies entry_in(self.entries@, m) == entry_in(s0, m) by {
                            lemma_entry_update_other(s0, i as int, e, m);
                        }
                    }
                    true
                } else {
                    false
                }
            },
            None => false,
        }
    }

    /// The content identifier of `name`, or an empty value for an
    /// unregistered name.
    pub fn get_cid(&self, name: NameHash) -> (r: Vec<u8>)
        ensures
            r@ == match self.spec_cid(name) {
                Some(c) => c,
                None => Seq::<u8>::empty(),
            },
    {
        match self.find(name) {
            Some(i) => copy_bytes(&self.entries[i].cid),
            None => Vec::new(),
        }
    }

    /// Whether `name` is taken.
    pub fn is_registered(&self, name: NameHash) -> (r: bool)
        ensures
            r == (self.spec_owner(name) is Some),
    {
        self.find(name).is_some()
    }

    /// The owner of `name`, if it is registered.
    pub fn get_owner(&self, name: NameHash) -> (r: Option<AccountId>)
        ensures
            r == self.spec_owner(name),
    {
        match self.find(name) {
            Some(i) => Some(self.entries[i].owner),
            None => None,
        }
    }
}

fn copy_bytes(v: &Vec<u8>) -> (r: Vec<u8>)
    ensures
        r@ == v@,
{
    let mut out: Vec<u8> = Vec::new();
    let mut i: usize = 0;
    while i < v.len()
        invariant
            i <= v@.len(),
            out@ =~= v@.subrange(0, i as int),
        decreases v@.len() - i,
    {
        out.push(v[i]);
        i = i + 1;
    }
    proof {
        assert(out@ =~= v@);
    }
    out
}

} // verus!
