use vstd::prelude::*;

use crate::error::ErrorCode;
use crate::pubkey::{hash_pubkey, Pubkey};
use crate::registry::Multisig;
use crate::store::MembershipStore;

verus! {

/// One account the proposed action touches, and how: the platform-level
/// shape of an action parameter.
#[derive(Clone, Copy, Debug, PartialEq, Eq, Structural)]
pub struct TransactionAccount {
    pub pubkey: Pubkey,
    pub is_signer: bool,
    pub is_writable: bool,
}

/// What a proposer supplies: the action descriptor and a display name.
pub struct CreateTransactionArgs {
    /// Destination the action executes against.
    pub pid: Pubkey,
    /// Structured account list of the action.
    pub accs: Vec<TransactionAccount>,
    /// Opaque payload bytes of the action.
    pub data: Vec<u8>,
    /// Display name.
    pub name: String,
}

/// A proposal: one pending or executed action awaiting quorum approval.
pub struct Transaction {
    /// The group this transaction belongs to.
    pub multisig: Pubkey,
    /// Destination the action executes against.
    pub program_id: Pubkey,
    /// Display name.
    pub name: String,
    /// Structured account list of the action.
    pub accounts: Vec<TransactionAccount>,
    /// Opaque payload bytes of the action.
    pub data: Vec<u8>,
    /// The exactly-once execution flag: set at most once, never cleared.
    pub did_execute: bool,
    /// Snapshot of the group's membership epoch at creation time. Once the
    /// group's epoch moves past it, the transaction is permanently stale.
    pub owner_set_seqno: u32,
    /// Fingerprints of the owners that approved, the proposer first.
    /// Insertion order carries no meaning; uniqueness is enforced.
    pub signers: Vec<u64>,
}

/// Creates a transaction proposing one action, bound to the group's
/// current membership epoch and auto-approved by its proposer.
///
/// Fails with `InvalidOwner` — touching nothing — unless the proposer
/// holds a membership record in the group at `multisig_key`.
pub fn create_transaction(
    store: &MembershipStore,
    multisig: &Multisig,
    multisig_key: Pubkey,
    proposer: Pubkey,
    args: CreateTransactionArgs,
) -> (r: Result<Transaction, ErrorCode>)
    ensures
        r is Ok <==> store.has(multisig_key, proposer),
        r is Err ==> r == Err::<Transaction, ErrorCode>(ErrorCode::InvalidOwner),
        r is Ok ==> {
            let t = r.unwrap();
            &&& t.multisig == multisig_key
            &&& t.program_id == args.pid
            &&& t.name@ == args.name@
            &&& t.accounts@ == args.accs@
            &&& t.data@ == args.data@
            &&& t.did_execute == false
            &&& t.owner_set_seqno == multisig.owner_set_seqno
            &&& t.signers@ == seq![proposer.0]
        },
{
    if !store.is_member(multisig_key, proposer) {
        return Err(ErrorCode::InvalidOwner);
    }
    let owner_hash = hash_pubkey(proposer);
    let mut signers: Vec<u64> = Vec::new();
    signers.push(owner_hash);
    proof {
        assert(signers@ =~= seq![proposer.0]);
    }
    Ok(
        Transaction {
            multisig: multisig_key,
            program_id: args.pid,
            name: args.name,
            accounts: args.accs,
            data: args.data,
            did_execute: false,
            owner_set_seqno: multisig.owner_set_seqno,
            signers,
        },
    )
}

/// The decision `approve` takes, as a function of the state it reads:
/// `None` means the approval is accepted. The first violated check, in
/// order, gives the error:
/// transaction bound to another group — `InvalidOwner`; approver not a
/// member — `InvalidOwner`; membership epoch moved since the transaction
/// was created — `StaleMembershipEpoch`; transaction already executed —
/// `AlreadyExecuted`; approver's fingerprint already present —
/// `AlreadySigned`.
pub open spec fn approve_error(
    store: MembershipStore,
    multisig: Multisig,
    transaction: Transaction,
    multisig_key: Pubkey,
    approver: Pubkey,
) -> Option<ErrorCode> {
    if transaction.multisig != multisig_key {
        Some(ErrorCode::InvalidOwner)
    } else if !store.has(multisig_key, approver) {
        Some(ErrorCode::InvalidOwner)
    } else if multisig.owner_set_seqno != transaction.owner_set_seqno {
        Some(ErrorCode::StaleMembershipEpoch)
    } else if transaction.did_execute {
        Some(ErrorCode::AlreadyExecuted)
    } else if transaction.signers@.contains(approver.0) {
        Some(ErrorCode::AlreadySigned)
    } else {
        None
    }
}

/// Records one owner's approval of a transaction.
///
/// Accepted exactly when [`approve_error`] is `None`; then the approver's
/// fingerprint joins the approval set and nothing else changes. On any
/// error the transaction is untouched — in particular a duplicate
/// approval leaves the approval count exactly as it was.
pub fn approve(
    store: &MembershipStore,
    multisig: &Multisig,
    transaction: &mut Transaction,
    multisig_key: Pubkey,
    approver: Pubkey,
) -> (r: Result<(), ErrorCode>)
    ensures
        match r {
            Ok(()) => {
                &&& approve_error(*store, *multisig, *old(transaction), multisig_key, approver)
                    is None
                &&& final(transaction).signers@ == old(transaction).signers@.push(approver.0)
                &&& final(transaction).multisig == old(transaction).multisig
                &&& final(transaction).program_id == old(transaction).program_id
                &&& final(transaction).name@ == old(transaction).name@
                &&& final(transaction).accounts@ == old(transaction).accounts@
                &&& final(transaction).data@ == old(transaction).data@
                &&& final(transaction).did_execute == old(transaction).did_execute
                &&& final(transaction).owner_set_seqno == old(transaction).owner_set_seqno
            },
            Err(e) => {
                &&& Some(e) == approve_error(
                    *store,
                    *multisig,
                    *old(transaction),
                    multisig_key,
                    approver,
                )
                &&& *final(transaction) == *old(transaction)
            },
        },
{
    if transaction.multisig != multisig_key {
        return Err(ErrorCode::InvalidOwner);
    }
    if !store.is_member(multisig_key, approver) {
        return Err(ErrorCode::InvalidOwner);
    }
    if multisig.owner_set_seqno != transaction.owner_set_seqno {
        return Err(ErrorCode::StaleMembershipEpoch);
    }
    if transaction.did_execute {
        return Err(ErrorCode::AlreadyExecuted);
    }
    let owner_hash = hash_pubkey(approver);
    let n = transaction.signers.len();
    let mut i: usize = 0;
    while i < n
        invariant
            i <= n,
            n == transaction.signers@.len(),
            owner_hash == approver.0,
            *transaction == *old(transaction),
            transaction.multisig == multisig_key,
            store.has(multisig_key, approver),
            multisig.owner_set_seqno == transaction.owner_set_seqno,
            !transaction.did_execute,
            forall|k: int| 0 <= k < i ==> transaction.signers@[k] != owner_hash,
        decreases n - i,
    {
        if transaction.signers[i] == owner_hash {
            return Err(ErrorCode::AlreadySigned);
        }
        i = i + 1;
    }
    transaction.signers.push(owner_hash);
    Ok(())
}

/// While the membership epoch stays where the transaction snapshotted it,
/// the quorum keeps working: any member whose fingerprint is not yet in
/// the approval set of a live transaction of this group is accepted.
pub proof fn lemma_same_epoch_approvable(
    store: MembershipStore,
    multisig: Multisig,
    transaction: Transaction,
    multisig_key: Pubkey,
    approver: Pubkey,
)
    requires
        transaction.multisig == multisig_key,
        store.has(multisig_key, approver),
        multisig.owner_set_seqno == transaction.owner_set_seqno,
        !transaction.did_execute,
        !transaction.signers@.contains(approver.0),
    ensures
        approve_error(store, multisig, transaction, multisig_key, approver) is None,
{
}

/// An approval is final: once an identity's approval is in the approval
/// set — as it is right after that identity approved successfully — the
/// same identity approving the same transaction again is rejected with
/// `AlreadySigned`, whatever the group and store say.
pub proof fn lemma_double_approval_rejected(
    store: MembershipStore,
    multisig: Multisig,
    before: Transaction,
    after: Transaction,
    multisig_key: Pubkey,
    approver: Pubkey,
)
    requires
        approve_error(store, multisig, before, multisig_key, approver) is None,
        after.signers@ == before.signers@.push(approver.0),
        after.multisig == before.multisig,
        after.owner_set_seqno == before.owner_set_seqno,
        after.did_execute == before.did_execute,
    ensures
        approve_error(store, multisig, after, multisig_key, approver) == Some(
            ErrorCode::AlreadySigned,
        ),
{
    assert(after.signers@[before.signers@.len() as int] == approver.0);
    assert(after.signers@.contains(approver.0));
}

} // verus!
