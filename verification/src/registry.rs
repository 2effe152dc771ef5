use vstd::prelude::*;

use crate::error::ErrorCode;
use crate::pubkey::Pubkey;
use crate::store::{has_record, record_count, MembershipStore, MultisigOwner};

verus! {

/// A quorum group: the root record of one multisig instance.
///
/// The group record itself holds no owner list: membership is the existence
/// of per-(group, owner) records in the [`MembershipStore`], and
/// `owners_amount` caches how many of them the group has.
pub struct Multisig {
    /// Display label.
    pub name: String,
    /// Minimum number of approvals needed to execute a transaction.
    pub threshold: u64,
    /// Seed material fixing the group's derived authority identity;
    /// immutable after creation.
    pub nonce: u8,
    /// Membership epoch: bumped exactly once per membership-change batch.
    /// Transactions snapshot it and become permanently stale once it moves.
    pub owner_set_seqno: u32,
    /// Current number of active owners.
    pub owners_amount: u64,
}

/// What a caller supplies to create a group.
pub struct CreateMultisigArgs {
    pub owners: Vec<Pubkey>,
    pub threshold: u64,
    pub nonce: u8,
    pub name: String,
}

/// What a quorum-approved membership change supplies: the identities whose
/// membership is flipped, and the threshold that holds afterwards.
pub struct UpdateOwnersAndThresholdArgs {
    pub owners: Vec<Pubkey>,
    pub threshold: u64,
}

/// No identity occurs twice.
pub open spec fn unique_owners(owners: Seq<Pubkey>) -> bool {
    forall|i: int, j: int| 0 <= i < j < owners.len() ==> owners[i] != owners[j]
}

/// The group invariant: the cached owner count agrees with the store, and
/// the threshold is between one and that count.
pub open spec fn group_wf(multisig: Multisig, store: MembershipStore, multisig_key: Pubkey) -> bool {
    &&& multisig.owners_amount == store.count_for(multisig_key)
    &&& 1 <= multisig.threshold <= multisig.owners_amount
}

/// How many of the identities in `diffs` are members of the group at
/// `multisig` in store contents `s` — the removals a membership-change
/// batch will perform.
pub open spec fn removed_count(s: Seq<MultisigOwner>, multisig: Pubkey, diffs: Seq<Pubkey>) -> nat {
    diffs.filter(|o: Pubkey| has_record(s, multisig, o)).len()
}

/// How many of the identities in `diffs` are not members — the additions a
/// membership-change batch will perform.
pub open spec fn added_count(s: Seq<MultisigOwner>, multisig: Pubkey, diffs: Seq<Pubkey>) -> nat {
    diffs.filter(|o: Pubkey| !has_record(s, multisig, o)).len()
}

/// The membership count of the group after flipping each identity in
/// `diffs`: current members among them leave, the others join.
pub open spec fn updated_count(s: Seq<MultisigOwner>, multisig: Pubkey, diffs: Seq<Pubkey>) -> int {
    record_count(s, multisig) - removed_count(s, multisig, diffs) + added_count(s, multisig, diffs)
}

/// A group none of whose records occur in `s` has a zero record count.
proof fn lemma_absent_group_count(s: Seq<MultisigOwner>, multisig: Pubkey)
    requires
        forall|k: int| 0 <= k < s.len() ==> s[k].multisig != multisig,
    ensures
        record_count(s, multisig) == 0,
    decreases s.len(),
{
    reveal(Seq::filter);
    if s.len() > 0 {
        lemma_absent_group_count(s.drop_last(), multisig);
    }
}

/// Rejects an owner list in which any identity repeats.
pub fn assert_unique_owners(owners: &Vec<Pubkey>) -> (r: Result<(), ErrorCode>)
    ensures
        r is Ok <==> unique_owners(owners@),
        r is Err ==> r == Err::<(), ErrorCode>(ErrorCode::DuplicateOwner),
{
    let n = owners.len();
    let mut i: usize = 0;
    while i < n
        invariant
            i <= n,
            n == owners@.len(),
            forall|p: int, q: int| 0 <= p < q < owners@.len() && p < i ==> owners@[p] != owners@[q],
        decreases n - i,
    {
        let mut j: usize = i + 1;
        while j < n
            invariant
                i < j <= n,
                n == owners@.len(),
                forall|q: int| i < q < j ==> owners@[i as int] != owners@[q],
            decreases n - j,
        {
            if owners[i] == owners[j] {
                return Err(ErrorCode::DuplicateOwner);
            }
            j = j + 1;
        }
        i = i + 1;
    }
    Ok(())
}

/// Creates a quorum group.
///
/// Fails with `InvalidOwnersLen` on an empty owner list, `DuplicateOwner`
/// on a repeated identity, and `InvalidThreshold` unless
/// `1 <= threshold <= owners.len()`, in that order, touching nothing. On
/// success the group starts at membership epoch zero and one membership
/// record exists per owner — and no other record changed.
///
/// The platform hands the engine a freshly allocated group address, so no
/// membership record can exist under `multisig_key` yet.
pub fn create_multisig(
    store: &mut MembershipStore,
    multisig_key: Pubkey,
    args: CreateMultisigArgs,
) -> (r: Result<Multisig, ErrorCode>)
    requires
        old(store).wf(),
        forall|o: Pubkey| !old(store).has(multisig_key, o),
    ensures
        final(store).wf(),
        r is Ok <==> (args.owners@.len() > 0 && unique_owners(args.owners@) && 1 <= args.threshold
            <= args.owners@.len()),
        args.owners@.len() == 0 ==> r == Err::<Multisig, ErrorCode>(ErrorCode::InvalidOwnersLen),
        args.owners@.len() > 0 && !unique_owners(args.owners@) ==> r == Err::<
            Multisig,
            ErrorCode,
        >(ErrorCode::DuplicateOwner),
        args.owners@.len() > 0 && unique_owners(args.owners@) && !(1 <= args.threshold
            <= args.owners@.len()) ==> r == Err::<Multisig, ErrorCode>(ErrorCode::InvalidThreshold),
        r is Err ==> final(store).records@ == old(store).records@,
        r is Ok ==> {
            let m = r.unwrap();
            &&& m.name@ == args.name@
            &&& m.threshold == args.threshold
            &&& m.nonce == args.nonce
            &&& m.owner_set_seqno == 0
            &&& m.owners_amount == args.owners@.len()
            &&& group_wf(m, *final(store), multisig_key)
            &&& forall|o: Pubkey|
                final(store).has(multisig_key, o) <==> args.owners@.contains(o)
            &&& forall|m2: Pubkey, o: Pubkey|
                m2 != multisig_key ==> final(store).has(m2, o) == old(store).has(m2, o)
            &&& final(store).count_for(multisig_key) == args.owners@.len()
            &&& forall|m2: Pubkey|
                m2 != multisig_key ==> final(store).count_for(m2) == old(store).count_for(m2)
        },
{
    if args.owners.len() == 0 {
        return Err(ErrorCode::InvalidOwnersLen);
    }
    assert_unique_owners(&args.owners)?;
    if args.threshold == 0 || args.threshold > args.owners.len() as u64 {
        return Err(ErrorCode::InvalidThreshold);
    }
    proof {
        assert forall|k: int|
            0 <= k < store.records@.len() implies store.records@[k].multisig != multisig_key by {
            if store.records@[k].multisig == multisig_key {
                let o = store.records@[k].owner;
                assert(has_record(store.records@, multisig_key, o));
                assert(old(store).has(multisig_key, o));
            }
        }
        lemma_absent_group_count(store.records@, multisig_key);
    }
    let n = args.owners.len();
    let mut i: usize = 0;
    while i < n
        invariant
            i <= n,
            n == args.owners@.len(),
            unique_owners(args.owners@),
            store.wf(),
            forall|o: Pubkey| !old(store).has(multisig_key, o),
            forall|o: Pubkey|
                store.has(multisig_key, o) <==> args.owners@.subrange(0, i as int).contains(o),
            forall|m2: Pubkey, o: Pubkey|
                m2 != multisig_key ==> store.has(m2, o) == old(store).has(m2, o),
            store.count_for(multisig_key) == i,
            forall|m2: Pubkey|
                m2 != multisig_key ==> store.count_for(m2) == old(store).count_for(m2),
        decreases n - i,
    {
        let owner = args.owners[i];
        proof {
            // `owner` is not yet a member: it is not among the first i
            // entries, and only those have been created.
            if store.has(multisig_key, owner) {
                let prefix = args.owners@.subrange(0, i as int);
                let k = choose|k: int| 0 <= k < prefix.len() && prefix[k] == owner;
                assert(args.owners@[k] == args.owners@[i as int]);
            }
        }
        store.create(multisig_key, owner);
        proof {
            assert forall|o: Pubkey|
                store.has(multisig_key, o) <==> args.owners@.subrange(0, i + 1).contains(o) by {
                let prefix = args.owners@.subrange(0, i as int);
                let next = args.owners@.subrange(0, i + 1);
                assert(next =~= prefix.push(owner));
                if store.has(multisig_key, o) {
                    if prefix.contains(o) {
                        let k = choose|k: int| 0 <= k < prefix.len() && prefix[k] == o;
                        assert(next[k] == o);
                    } else {
                        assert(next[i as int] == o);
                    }
                }
                if next.contains(o) {
                    let k = choose|k: int| 0 <= k < next.len() && next[k] == o;
                    if k < i {
                        assert(prefix[k] == o);
                    }
                }
            }
        }
        i = i + 1;
    }
    proof {
        assert(args.owners@.subrange(0, n as int) =~= args.owners@);
        assert forall|o: Pubkey|
            store.has(multisig_key, o) <==> args.owners@.contains(o) by {}
    }
    Ok(
        Multisig {
            name: args.name,
            threshold: args.threshold,
            nonce: args.nonce,
            owner_set_seqno: 0,
            owners_amount: args.owners.len() as u64,
        },
    )
}

/// Applies one quorum-approved membership-change batch.
///
/// This is the privileged self-governance entry point: the platform only
/// invokes it as the action of an executed transaction, under the group's
/// own derived authority. Each identity in `args.owners` has its
/// membership flipped — current members leave and their records are
/// released, the others join and get records. A non-empty batch bumps the
/// membership epoch exactly once, which permanently invalidates every
/// in-flight transaction. Finally the new threshold must satisfy
/// `1 <= threshold <= post-batch membership count`.
///
/// Fails with `DuplicateOwner` on a repeated identity and
/// `InvalidThreshold` on a threshold outside the post-batch bounds; every
/// failure leaves the store and the group record untouched.
pub fn update_owners_and_threshold(
    store: &mut MembershipStore,
    multisig: &mut Multisig,
    multisig_key: Pubkey,
    args: UpdateOwnersAndThresholdArgs,
) -> (r: Result<(), ErrorCode>)
    requires
        old(store).wf(),
        args.owners@.len() > 0 ==> old(multisig).owner_set_seqno < u32::MAX,
    ensures
        final(store).wf(),
        r is Ok <==> (unique_owners(args.owners@) && 1 <= args.threshold <= updated_count(
            old(store).records@,
            multisig_key,
            args.owners@,
        )),
        !unique_owners(args.owners@) ==> r == Err::<(), ErrorCode>(ErrorCode::DuplicateOwner),
        unique_owners(args.owners@) && !(1 <= args.threshold <= updated_count(
            old(store).records@,
            multisig_key,
            args.owners@,
        )) ==> r == Err::<(), ErrorCode>(ErrorCode::InvalidThreshold),
        r is Err ==> final(store).records@ == old(store).records@ && *final(multisig) == *old(
            multisig,
        ),
        r is Ok ==> {
            &&& forall|o: Pubkey|
                final(store).has(multisig_key, o) == (old(store).has(multisig_key, o)
                    != args.owners@.contains(o))
            &&& forall|m2: Pubkey, o: Pubkey|
                m2 != multisig_key ==> final(store).has(m2, o) == old(store).has(m2, o)
            &&& forall|m2: Pubkey|
                m2 != multisig_key ==> final(store).count_for(m2) == old(store).count_for(m2)
            &&& final(store).count_for(multisig_key) == updated_count(
                old(store).records@,
                multisig_key,
                args.owners@,
            )
            &&& final(multisig).threshold == args.threshold
            &&& final(multisig).owners_amount == updated_count(
                old(store).records@,
                multisig_key,
                args.owners@,
            )
            &&& final(multisig).owner_set_seqno == old(multisig).owner_set_seqno + (
            if args.owners@.len() > 0 {
                1int
            } else {
                0int
            })
            &&& final(multisig).name@ == old(multisig).name@
            &&& final(multisig).nonce == old(multisig).nonce
            &&& group_wf(*final(multisig), *final(store), multisig_key)
        },
{
    assert_unique_owners(&args.owners)?;
    let ghost pre = store.records@;
    let mut new_store = store.duplicate();
    let n = args.owners.len();
    let mut i: usize = 0;
    proof {
        assert(args.owners@.subrange(0, 0) =~= Seq::<Pubkey>::empty());
    }
    while i < n
        invariant
            i <= n,
            n == args.owners@.len(),
            unique_owners(args.owners@),
            pre == store.records@,
            new_store.wf(),
            forall|o: Pubkey|
                new_store.has(multisig_key, o) == (has_record(pre, multisig_key, o)
                    != args.owners@.subrange(0, i as int).contains(o)),
            forall|m2: Pubkey, o: Pubkey|
                m2 != multisig_key ==> new_store.has(m2, o) == has_record(pre, m2, o),
            forall|m2: Pubkey|
                m2 != multisig_key ==> new_store.count_for(m2) == record_count(pre, m2),
            new_store.count_for(multisig_key) == updated_count(
                pre,
                multisig_key,
                args.owners@.subrange(0, i as int),
            ),
        decreases n - i,
    {
        let o = args.owners[i];
        let ghost prefix = args.owners@.subrange(0, i as int);
        proof {
            assert(args.owners@.subrange(0, i + 1) =~= prefix.push(o));
            if prefix.contains(o) {
                let k = choose|k: int| 0 <= k < prefix.len() && prefix[k] == o;
                assert(args.owners@[k] == args.owners@[i as int]);
            }
            prefix.lemma_filter_push(o, |x: Pubkey| has_record(pre, multisig_key, x));
            prefix.lemma_filter_push(o, |x: Pubkey| !has_record(pre, multisig_key, x));
        }
        if new_store.is_member(multisig_key, o) {
            let _ = new_store.destroy(multisig_key, o);
        } else {
            new_store.create(multisig_key, o);
        }
        proof {
            assert forall|o2: Pubkey|
                new_store.has(multisig_key, o2) == (has_record(pre, multisig_key, o2)
                    != prefix.push(o).contains(o2)) by {
                if o2 == o {
                    assert(prefix.push(o)[i as int] == o);
                } else {
                    if prefix.contains(o2) {
                        let k = choose|k: int| 0 <= k < prefix.len() && prefix[k] == o2;
                        assert(prefix.push(o)[k] == o2);
                    }
                    if prefix.push(o).contains(o2) {
                        let k = choose|k: int|
                            0 <= k < prefix.push(o).len() && prefix.push(o)[k] == o2;
                        assert(prefix[k] == o2);
                    }
                }
            }
        }
        i = i + 1;
    }
    proof {
        assert(args.owners@.subrange(0, n as int) =~= args.owners@);
    }
    let count = new_store.count_members(multisig_key);
    if args.threshold == 0 || args.threshold > count {
        return Err(ErrorCode::InvalidThreshold);
    }
    *store = new_store;
    multisig.threshold = args.threshold;
    multisig.owners_amount = count;
    if args.owners.len() > 0 {
        multisig.owner_set_seqno = multisig.owner_set_seqno + 1;
    }
    Ok(())
}

} // verus!
