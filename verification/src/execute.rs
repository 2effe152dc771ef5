use vstd::prelude::*;

use crate::error::ErrorCode;
use crate::pubkey::Pubkey;
use crate::registry::Multisig;
use crate::store::MembershipStore;
use crate::transaction::{Transaction, TransactionAccount};

verus! {

/// The concrete action built from an approved transaction, ready for the
/// platform's delegated-authority invoker: it executes `data` against
/// `program_id` touching `accounts`, as if signed by the authority derived
/// from the group's address and nonce.
pub struct Instruction {
    pub program_id: Pubkey,
    pub accounts: Vec<TransactionAccount>,
    pub data: Vec<u8>,
}

/// How one account entry looks in the built action: wherever the
/// descriptor references the group's derived authority, that entry is
/// marked as an authorizing party; every other entry is taken verbatim.
pub open spec fn signed_account(acc: TransactionAccount, multisig_signer: Pubkey) -> TransactionAccount {
    if acc.pubkey == multisig_signer {
        TransactionAccount { pubkey: acc.pubkey, is_signer: true, is_writable: acc.is_writable }
    } else {
        acc
    }
}

/// The decision `execute_transaction` takes, as a function of the state it
/// reads: `None` means the action may be invoked. The first violated
/// check, in order, gives the error: transaction bound to another group —
/// `InvalidOwner`; membership epoch moved since the transaction was
/// created — `StaleMembershipEpoch`; already executed — `AlreadyExecuted`;
/// approvals below the group's threshold — `NotEnoughSigners`.
pub open spec fn execute_error(
    multisig: Multisig,
    transaction: Transaction,
    multisig_key: Pubkey,
) -> Option<ErrorCode> {
    if transaction.multisig != multisig_key {
        Some(ErrorCode::InvalidOwner)
    } else if multisig.owner_set_seqno != transaction.owner_set_seqno {
        Some(ErrorCode::StaleMembershipEpoch)
    } else if transaction.did_execute {
        Some(ErrorCode::AlreadyExecuted)
    } else if (transaction.signers@.len() as int) < (multisig.threshold as int) {
        Some(ErrorCode::NotEnoughSigners)
    } else {
        None
    }
}

/// Validates that a transaction has met its quorum and builds the action
/// to invoke, marking the group's derived authority (`multisig_signer`) as
/// an authorizing party wherever the descriptor references it.
///
/// Succeeds exactly when [`execute_error`] is `None`. The platform then
/// invokes the returned action under the group's derived authority and, on
/// success, burns the transaction with [`record_execution`]; invocation
/// failure surfaces verbatim and, like every error here, leaves the
/// transaction unchanged.
pub fn execute_transaction(
    multisig: &Multisig,
    transaction: &Transaction,
    multisig_key: Pubkey,
    multisig_signer: Pubkey,
) -> (r: Result<Instruction, ErrorCode>)
    ensures
        match r {
            Ok(ix) => {
                &&& execute_error(*multisig, *transaction, multisig_key) is None
                &&& ix.program_id == transaction.program_id
                &&& ix.data@ == transaction.data@
                &&& ix.accounts@.len() == transaction.accounts@.len()
                &&& forall|k: int|
                    0 <= k < ix.accounts@.len() ==> ix.accounts@[k] == signed_account(
                        transaction.accounts@[k],
                        multisig_signer,
                    )
            },
            Err(e) => Some(e) == execute_error(*multisig, *transaction, multisig_key),
        },
{
    if transaction.multisig != multisig_key {
        return Err(ErrorCode::InvalidOwner);
    }
    if multisig.owner_set_seqno != transaction.owner_set_seqno {
        return Err(ErrorCode::StaleMembershipEpoch);
    }
    if transaction.did_execute {
        return Err(ErrorCode::AlreadyExecuted);
    }
    let sig_count = transaction.signers.len() as u64;
    if sig_count < multisig.threshold {
        return Err(ErrorCode::NotEnoughSigners);
    }
    let n = transaction.accounts.len();
    let mut accounts: Vec<TransactionAccount> = Vec::new();
    let mut i: usize = 0;
    while i < n
        invariant
            i <= n,
            n == transaction.accounts@.len(),
            accounts@.len() == i,
            forall|k: int|
                0 <= k < i ==> accounts@[k] == signed_account(
                    transaction.accounts@[k],
                    multisig_signer,
                ),
        decreases n - i,
    {
        let acc = transaction.accounts[i];
        if acc.pubkey == multisig_signer {
            accounts.push(
                TransactionAccount {
                    pubkey: acc.pubkey,
                    is_signer: true,
                    is_writable: acc.is_writable,
                },
            );
        } else {
            accounts.push(acc);
        }
        i = i + 1;
    }
    let mut data: Vec<u8> = Vec::new();
    let mut j: usize = 0;
    let dn = transaction.data.len();
    while j < dn
        invariant
            j <= dn,
            dn == transaction.data@.len(),
            data@ == transaction.data@.subrange(0, j as int),
        decreases dn - j,
    {
        data.push(transaction.data[j]);
        proof {
            assert(data@ =~= transaction.data@.subrange(0, j + 1));
        }
        j = j + 1;
    }
    proof {
        assert(data@ =~= transaction.data@);
    }
    Ok(Instruction { program_id: transaction.program_id, accounts, data })
}

/// Burns a transaction after its action was invoked: sets the
/// exactly-once execution flag, the linearization point that makes every
/// later execution attempt fail with `AlreadyExecuted`. Nothing else
/// changes, and the flag is never cleared again.
pub fn record_execution(transaction: &mut Transaction)
    ensures
        final(transaction).did_execute == true,
        final(transaction).multisig == old(transaction).multisig,
        final(transaction).program_id == old(transaction).program_id,
        final(transaction).name@ == old(transaction).name@,
        final(transaction).accounts@ == old(transaction).accounts@,
        final(transaction).data@ == old(transaction).data@,
        final(transaction).owner_set_seqno == old(transaction).owner_set_seqno,
        final(transaction).signers@ == old(transaction).signers@,
{
    transaction.did_execute = true;
}

/// Execution is owed exactly to a met quorum: for a transaction bound to
/// this group and created under the current membership epoch, execution
/// is accepted if and only if the approvals reach the threshold and the
/// transaction was not executed before.
pub proof fn lemma_execution_iff_quorum(
    multisig: Multisig,
    transaction: Transaction,
    multisig_key: Pubkey,
)
    requires
        transaction.multisig == multisig_key,
        multisig.owner_set_seqno == transaction.owner_set_seqno,
    ensures
        execute_error(multisig, transaction, multisig_key) is None <==> (!transaction.did_execute
            && transaction.signers@.len() >= multisig.threshold),
{
}

/// Execution is exactly-once: once the execution flag is set — as it is
/// right after a successful execution was recorded — every further
/// execution attempt on the transaction is rejected, with
/// `AlreadyExecuted` while the membership epoch still matches, and with
/// `StaleMembershipEpoch` or `InvalidOwner` otherwise; never with success.
pub proof fn lemma_no_reexecution(multisig: Multisig, transaction: Transaction, multisig_key: Pubkey)
    requires
        transaction.did_execute,
    ensures
        execute_error(multisig, transaction, multisig_key) is Some,
        transaction.multisig == multisig_key && multisig.owner_set_seqno
            == transaction.owner_set_seqno ==> execute_error(multisig, transaction, multisig_key)
            == Some(ErrorCode::AlreadyExecuted),
{
}

/// A membership change invalidates what it did not vote on: a transaction
/// whose epoch snapshot differs from the group's current membership epoch
/// can neither be approved nor executed — both are rejected with
/// `StaleMembershipEpoch`, for any approver that is a member, however many
/// approvals the transaction already gathered.
pub proof fn lemma_epoch_bump_invalidates(
    store: MembershipStore,
    multisig: Multisig,
    transaction: Transaction,
    multisig_key: Pubkey,
    approver: Pubkey,
)
    requires
        transaction.multisig == multisig_key,
        multisig.owner_set_seqno != transaction.owner_set_seqno,
        store.has(multisig_key, approver),
    ensures
        crate::transaction::approve_error(store, multisig, transaction, multisig_key, approver)
            == Some(ErrorCode::StaleMembershipEpoch),
        execute_error(multisig, transaction, multisig_key) == Some(
            ErrorCode::StaleMembershipEpoch,
        ),
{
}

} // verus!
