use vstd::prelude::*;
use vstd::seq_lib::*;

use crate::error::ErrorCode;
use crate::pubkey::Pubkey;

verus! {

/// One membership record: its existence makes `owner` a member of the group
/// stored at address `multisig`. Records are addressed by the (group, owner)
/// pair, so membership is a key-existence question, never a scan of a list
/// embedded in the group record.
#[derive(Clone, Copy, Debug, PartialEq, Eq, Structural)]
pub struct MultisigOwner {
    pub multisig: Pubkey,
    pub owner: Pubkey,
}

/// A record for `(multisig, owner)` occurs in `s`.
pub open spec fn has_record(s: Seq<MultisigOwner>, multisig: Pubkey, owner: Pubkey) -> bool {
    exists|i: int| 0 <= i < s.len() && s[i].multisig == multisig && s[i].owner == owner
}

/// The records in `s` that belong to the group at `multisig`.
pub open spec fn group_records(s: Seq<MultisigOwner>, multisig: Pubkey) -> Seq<MultisigOwner> {
    s.filter(|r: MultisigOwner| r.multisig == multisig)
}

/// How many records in `s` belong to the group at `multisig`: the group's
/// membership count.
pub open spec fn record_count(s: Seq<MultisigOwner>, multisig: Pubkey) -> nat {
    group_records(s, multisig).len()
}

/// The membership record store: every `MultisigOwner` record that currently
/// exists, across all groups.
pub struct MembershipStore {
    pub records: Vec<MultisigOwner>,
}

impl MembershipStore {
    /// Well-formed: at most one record exists per (group, owner) pair.
    pub open spec fn wf(self) -> bool {
        forall|i: int, j: int|
            0 <= i < j < self.records@.len() ==> !(self.records@[i].multisig
                == self.records@[j].multisig && self.records@[i].owner == self.records@[j].owner)
    }

    /// Membership: a record for `(multisig, owner)` exists.
    pub open spec fn has(self, multisig: Pubkey, owner: Pubkey) -> bool {
        has_record(self.records@, multisig, owner)
    }

    /// Membership count of the group at `multisig`.
    pub open spec fn count_for(self, multisig: Pubkey) -> nat {
        record_count(self.records@, multisig)
    }

    /// An empty store: no group has any member.
    pub fn new() -> (r: MembershipStore)
        ensures
            r.wf(),
            r.records@.len() == 0,
            forall|m: Pubkey, o: Pubkey| !r.has(m, o),
    {
        MembershipStore { records: Vec::new() }
    }

    /// Membership test. O(1) on the platform's deterministically addressed
    /// ledger; here a scan of the record list, with the same answer.
    pub fn is_member(&self, multisig: Pubkey, owner: Pubkey) -> (r: bool)
        ensures
            r == self.has(multisig, owner),
    {
        let n = self.records.len();
        let mut i: usize = 0;
        while i < n
            invariant
                i <= n,
                n == self.records@.len(),
                forall|k: int|
                    0 <= k < i ==> !(self.records@[k].multisig == multisig
                        && self.records@[k].owner == owner),
            decreases n - i,
        {
            if self.records[i].multisig == multisig && self.records[i].owner == owner {
                return true;
            }
            i = i + 1;
        }
        false
    }

    /// Allocates the record that makes `owner` a member of the group at
    /// `multisig`. The platform only ever asks this of a pair whose record
    /// does not exist yet: the record address is a pure function of the
    /// pair, and allocating at an occupied address fails upstream.
    pub fn create(&mut self, multisig: Pubkey, owner: Pubkey)
        requires
            old(self).wf(),
            !old(self).has(multisig, owner),
        ensures
            final(self).wf(),
            forall|m: Pubkey, o: Pubkey|
                final(self).has(m, o) == (old(self).has(m, o) || (m == multisig && o == owner)),
            final(self).count_for(multisig) == old(self).count_for(multisig) + 1,
            forall|m: Pubkey| m != multisig ==> final(self).count_for(m) == old(self).count_for(m),
    {
        let ghost pre = self.records@;
        let rec = MultisigOwner { multisig, owner };
        self.records.push(rec);
        proof {
            assert(self.records@ == pre.push(rec));
            assert forall|m: Pubkey| #[trigger]
                record_count(pre.push(rec), m) == record_count(pre, m) + (
                if rec.multisig == m {
                    1int
                } else {
                    0int
                }) by {
                pre.lemma_filter_push(rec, |r: MultisigOwner| r.multisig == m);
            }
            assert forall|m: Pubkey, o: Pubkey| #[trigger]
                has_record(pre.push(rec), m, o) == (has_record(pre, m, o) || (m == multisig && o
                    == owner)) by {
                if has_record(pre, m, o) {
                    let k = choose|k: int|
                        0 <= k < pre.len() && pre[k].multisig == m && pre[k].owner == o;
                    assert(pre.push(rec)[k].multisig == m && pre.push(rec)[k].owner == o);
                }
                if m == multisig && o == owner {
                    assert(pre.push(rec)[pre.len() as int].multisig == m);
                }
                if has_record(pre.push(rec), m, o) {
                    let k = choose|k: int|
                        0 <= k < pre.push(rec).len() && pre.push(rec)[k].multisig == m
                            && pre.push(rec)[k].owner == o;
                    if k < pre.len() {
                        assert(pre[k].multisig == m && pre[k].owner == o);
                    }
                }
            }
        }
    }

    /// Releases the record for `(multisig, owner)`. Removing a non-member
    /// fails with `RecordNotFound` and changes nothing.
    pub fn destroy(&mut self, multisig: Pubkey, owner: Pubkey) -> (r: Result<(), ErrorCode>)
        requires
            old(self).wf(),
        ensures
            final(self).wf(),
            old(self).has(multisig, owner) ==> {
                &&& r == Ok::<(), ErrorCode>(())
                &&& forall|m: Pubkey, o: Pubkey|
                    final(self).has(m, o) == (old(self).has(m, o) && !(m == multisig && o
                        == owner))
                &&& final(self).count_for(multisig) + 1 == old(self).count_for(multisig)
                &&& forall|m: Pubkey|
                    m != multisig ==> final(self).count_for(m) == old(self).count_for(m)
            },
            !old(self).has(multisig, owner) ==> {
                &&& r == Err::<(), ErrorCode>(ErrorCode::RecordNotFound)
                &&& final(self).records@ == old(self).records@
            },
    {
        let n = self.records.len();
        let mut i: usize = 0;
        while i < n
            invariant
                i <= n,
                n == self.records@.len(),
                self.records@ == old(self).records@,
                self.wf(),
                forall|k: int|
                    0 <= k < i ==> !(self.records@[k].multisig == multisig
                        && self.records@[k].owner == owner),
            decreases n - i,
        {
            if self.records[i].multisig == multisig && self.records[i].owner == owner {
                let ghost pre = self.records@;
                self.records.remove(i);
                proof {
                    lemma_remove_record(pre, i as int, multisig, owner);
                }
                return Ok(());
            }
            i = i + 1;
        }
        Err(ErrorCode::RecordNotFound)
    }

    /// Counts the records of the group at `multisig`.
    pub fn count_members(&self, multisig: Pubkey) -> (r: u64)
        ensures
            r == self.count_for(multisig),
    {
        let n = self.records.len();
        let mut count: u64 = 0;
        let mut i: usize = 0;
        while i < n
            invariant
                i <= n,
                n == self.records@.len(),
                count == record_count(self.records@.subrange(0, i as int), multisig),
                count <= i,
            decreases n - i,
        {
            proof {
                let prefix = self.records@.subrange(0, i as int);
                let elem = self.records@[i as int];
                assert(self.records@.subrange(0, i + 1) =~= prefix.push(elem));
                prefix.lemma_filter_push(elem, |r: MultisigOwner| r.multisig == multisig);
            }
            if self.records[i].multisig == multisig {
                count = count + 1;
            }
            i = i + 1;
        }
        proof {
            assert(self.records@.subrange(0, n as int) =~= self.records@);
        }
        count
    }

    /// A copy of the store holding the same records.
    pub fn duplicate(&self) -> (r: MembershipStore)
        ensures
            r.records@ == self.records@,
    {
        let n = self.records.len();
        let mut v: Vec<MultisigOwner> = Vec::new();
        let mut i: usize = 0;
        while i < n
            invariant
                i <= n,
                n == self.records@.len(),
                v@ == self.records@.subrange(0, i as int),
            decreases n - i,
        {
            v.push(self.records[i]);
            proof {
                assert(v@ =~= self.records@.subrange(0, i + 1));
            }
            i = i + 1;
        }
        proof {
            assert(v@ =~= self.records@);
        }
        MembershipStore { records: v }
    }
}

/// Removing the record at index `i` — the record for `(multisig, owner)` in
/// a store with unique pairs — takes exactly that record out: the pair
/// itself is gone, every other pair stays, and only that group's count
/// drops, by one.
proof fn lemma_remove_record(s: Seq<MultisigOwner>, i: int, multisig: Pubkey, owner: Pubkey)
    requires
        0 <= i < s.len(),
        s[i].multisig == multisig && s[i].owner == owner,
        forall|p: int, q: int|
            0 <= p < q < s.len() ==> !(s[p].multisig == s[q].multisig && s[p].owner
                == s[q].owner),
    ensures
        forall|p: int, q: int|
            0 <= p < q < s.remove(i).len() ==> !(s.remove(i)[p].multisig
                == s.remove(i)[q].multisig && s.remove(i)[p].owner == s.remove(i)[q].owner),
        forall|m: Pubkey, o: Pubkey|
            has_record(s.remove(i), m, o) == (has_record(s, m, o) && !(m == multisig && o
                == owner)),
        record_count(s.remove(i), multisig) + 1 == record_count(s, multisig),
        forall|m: Pubkey| m != multisig ==> record_count(s.remove(i), m) == record_count(s, m),
{
    let t = s.remove(i);
    assert(forall|k: int| 0 <= k < i ==> t[k] == s[k]);
    assert(forall|k: int| i <= k < t.len() ==> t[k] == s[k + 1]);
    assert forall|p: int, q: int| 0 <= p < q < t.len() implies !(t[p].multisig == t[q].multisig
        && t[p].owner == t[q].owner) by {
        let p2 = if p < i {
            p
        } else {
            p + 1
        };
        let q2 = if q < i {
            q
        } else {
            q + 1
        };
        assert(t[p] == s[p2] && t[q] == s[q2] && p2 < q2);
    }
    assert forall|m: Pubkey, o: Pubkey| #[trigger]
        has_record(t, m, o) == (has_record(s, m, o) && !(m == multisig && o == owner)) by {
        if has_record(t, m, o) {
            let k = choose|k: int| 0 <= k < t.len() && t[k].multisig == m && t[k].owner == o;
            let k2 = if k < i {
                k
            } else {
                k + 1
            };
            assert(s[k2].multisig == m && s[k2].owner == o);
            // By uniqueness of pairs, only index i holds the removed pair.
            if m == multisig && o == owner {
                if k2 < i {
                    assert(!(s[k2].multisig == s[i].multisig && s[k2].owner == s[i].owner));
                } else {
                    assert(!(s[i].multisig == s[k2].multisig && s[i].owner == s[k2].owner));
                }
                assert(false);
            }
        }
        if has_record(s, m, o) && !(m == multisig && o == owner) {
            let k = choose|k: int| 0 <= k < s.len() && s[k].multisig == m && s[k].owner == o;
            assert(k != i);
            if k < i {
                assert(t[k].multisig == m && t[k].owner == o);
            } else {
                assert(t[k - 1].multisig == m && t[k - 1].owner == o);
            }
        }
    }
    let a = s.subrange(0, i);
    let b = s.subrange(i + 1, s.len() as int);
    assert(s =~= a + (seq![s[i]] + b));
    assert(t =~= a + b);
    assert forall|m: Pubkey| #[trigger]
        record_count(s, m) == record_count(t, m) + (
        if multisig == m {
            1int
        } else {
            0int
        }) by {
        let pred = |r: MultisigOwner| r.multisig == m;
        Seq::filter_distributes_over_add(a, seq![s[i]] + b, pred);
        b.lemma_filter_prepend(s[i], pred);
        Seq::filter_distributes_over_add(a, b, pred);
    }
}

} // verus!
