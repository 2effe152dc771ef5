use multisig::{
    approve, create_multisig, create_transaction, execute_transaction, hash_pubkey,
    record_execution, update_owners_and_threshold, CreateMultisigArgs, CreateTransactionArgs,
    ErrorCode, MembershipStore, Multisig, Pubkey, Transaction, TransactionAccount,
    UpdateOwnersAndThresholdArgs,
};

fn pk(n: u64) -> Pubkey {
    Pubkey(n)
}

const GROUP: Pubkey = Pubkey(1000);
const SIGNER: Pubkey = Pubkey(2000);

fn group_args(owners: Vec<Pubkey>, threshold: u64) -> CreateMultisigArgs {
    CreateMultisigArgs { owners, threshold, nonce: 7, name: String::from("team") }
}

fn setup_group(owners: Vec<Pubkey>, threshold: u64) -> (MembershipStore, Multisig) {
    let mut store = MembershipStore::new();
    let multisig = create_multisig(&mut store, GROUP, group_args(owners, threshold)).unwrap();
    (store, multisig)
}

fn tx_args() -> CreateTransactionArgs {
    CreateTransactionArgs {
        pid: pk(5000),
        accs: vec![
            TransactionAccount { pubkey: pk(42), is_signer: false, is_writable: true },
            TransactionAccount { pubkey: SIGNER, is_signer: false, is_writable: false },
        ],
        data: vec![1, 2, 3],
        name: String::from("pay"),
    }
}

fn propose(store: &MembershipStore, multisig: &Multisig, proposer: Pubkey) -> Transaction {
    create_transaction(store, multisig, GROUP, proposer, tx_args()).unwrap()
}

#[test]
fn create_group_counts_and_records() {
    let owners = vec![pk(1), pk(2), pk(3)];
    let (store, multisig) = setup_group(owners, 2);
    assert_eq!(multisig.owners_amount, 3);
    assert_eq!(multisig.threshold, 2);
    assert_eq!(multisig.owner_set_seqno, 0);
    assert_eq!(multisig.nonce, 7);
    assert_eq!(multisig.name, "team");
    assert_eq!(store.count_members(GROUP), 3);
    assert!(store.is_member(GROUP, pk(1)));
    assert!(store.is_member(GROUP, pk(2)));
    assert!(store.is_member(GROUP, pk(3)));
    assert!(!store.is_member(GROUP, pk(4)));
}

#[test]
fn create_group_single_owner_threshold_one() {
    let (store, multisig) = setup_group(vec![pk(9)], 1);
    assert_eq!(multisig.owners_amount, 1);
    assert_eq!(multisig.threshold, 1);
    assert_eq!(store.count_members(GROUP), 1);
}

#[test]
fn create_group_duplicate_owner_rejected() {
    let mut store = MembershipStore::new();
    let r = create_multisig(&mut store, GROUP, group_args(vec![pk(1), pk(2), pk(1)], 2));
    assert_eq!(r.err(), Some(ErrorCode::DuplicateOwner));
    assert_eq!(store.count_members(GROUP), 0);
}

#[test]
fn create_group_zero_owners_rejected() {
    let mut store = MembershipStore::new();
    let r = create_multisig(&mut store, GROUP, group_args(vec![], 1));
    assert_eq!(r.err(), Some(ErrorCode::InvalidOwnersLen));
}

#[test]
fn create_group_zero_threshold_rejected() {
    let mut store = MembershipStore::new();
    let r = create_multisig(&mut store, GROUP, group_args(vec![pk(1), pk(2)], 0));
    assert_eq!(r.err(), Some(ErrorCode::InvalidThreshold));
}

#[test]
fn create_group_threshold_above_owner_count_rejected() {
    let mut store = MembershipStore::new();
    let r = create_multisig(&mut store, GROUP, group_args(vec![pk(1), pk(2)], 3));
    assert_eq!(r.err(), Some(ErrorCode::InvalidThreshold));
}

#[test]
fn proposer_is_auto_approved() {
    let (store, multisig) = setup_group(vec![pk(1), pk(2)], 2);
    let tx = propose(&store, &multisig, pk(1));
    assert_eq!(tx.signers, vec![hash_pubkey(pk(1))]);
    assert_eq!(tx.multisig, GROUP);
    assert_eq!(tx.owner_set_seqno, 0);
    assert!(!tx.did_execute);
    assert_eq!(tx.program_id, pk(5000));
    assert_eq!(tx.data, vec![1, 2, 3]);
    assert_eq!(tx.name, "pay");
}

#[test]
fn non_member_cannot_propose() {
    let (store, multisig) = setup_group(vec![pk(1), pk(2)], 2);
    let r = create_transaction(&store, &multisig, GROUP, pk(3), tx_args());
    assert_eq!(r.err(), Some(ErrorCode::InvalidOwner));
}

#[test]
fn non_member_cannot_approve() {
    let (store, multisig) = setup_group(vec![pk(1), pk(2)], 2);
    let mut tx = propose(&store, &multisig, pk(1));
    let r = approve(&store, &multisig, &mut tx, GROUP, pk(3));
    assert_eq!(r.err(), Some(ErrorCode::InvalidOwner));
    assert_eq!(tx.signers.len(), 1);
}

#[test]
fn approve_of_foreign_transaction_rejected() {
    let (store, multisig) = setup_group(vec![pk(1), pk(2)], 2);
    let mut tx = propose(&store, &multisig, pk(1));
    tx.multisig = pk(999);
    let r = approve(&store, &multisig, &mut tx, GROUP, pk(2));
    assert_eq!(r.err(), Some(ErrorCode::InvalidOwner));
}

#[test]
fn double_approval_rejected_and_count_unchanged() {
    let (store, multisig) = setup_group(vec![pk(1), pk(2), pk(3)], 3);
    let mut tx = propose(&store, &multisig, pk(1));
    assert!(approve(&store, &multisig, &mut tx, GROUP, pk(2)).is_ok());
    assert_eq!(tx.signers.len(), 2);
    let r = approve(&store, &multisig, &mut tx, GROUP, pk(2));
    assert_eq!(r.err(), Some(ErrorCode::AlreadySigned));
    assert_eq!(tx.signers.len(), 2);
    let r = approve(&store, &multisig, &mut tx, GROUP, pk(1));
    assert_eq!(r.err(), Some(ErrorCode::AlreadySigned));
    assert_eq!(tx.signers.len(), 2);
}

#[test]
fn execute_below_threshold_rejected() {
    let (store, multisig) = setup_group(vec![pk(1), pk(2), pk(3)], 2);
    let tx = propose(&store, &multisig, pk(1));
    let r = execute_transaction(&multisig, &tx, GROUP, SIGNER);
    assert_eq!(r.err(), Some(ErrorCode::NotEnoughSigners));
}

#[test]
fn execute_marks_derived_authority_as_signer() {
    let (store, multisig) = setup_group(vec![pk(1), pk(2)], 1);
    let tx = propose(&store, &multisig, pk(1));
    let ix = execute_transaction(&multisig, &tx, GROUP, SIGNER).unwrap();
    assert_eq!(ix.program_id, pk(5000));
    assert_eq!(ix.data, vec![1, 2, 3]);
    assert_eq!(ix.accounts.len(), 2);
    assert_eq!(ix.accounts[0].pubkey, pk(42));
    assert!(!ix.accounts[0].is_signer);
    assert!(ix.accounts[0].is_writable);
    assert_eq!(ix.accounts[1].pubkey, SIGNER);
    assert!(ix.accounts[1].is_signer);
    assert!(!ix.accounts[1].is_writable);
}

#[test]
fn quorum_execution_is_exactly_once() {
    // Owners {A, B, C}, threshold 2: A proposes (1/2), B approves (2/2),
    // execution succeeds once, C's late approval hits the burned flag.
    let a = pk(1);
    let b = pk(2);
    let c = pk(3);
    let (store, multisig) = setup_group(vec![a, b, c], 2);
    let mut tx = propose(&store, &multisig, a);
    assert_eq!(
        execute_transaction(&multisig, &tx, GROUP, SIGNER).err(),
        Some(ErrorCode::NotEnoughSigners)
    );
    assert!(approve(&store, &multisig, &mut tx, GROUP, b).is_ok());
    let ix = execute_transaction(&multisig, &tx, GROUP, SIGNER).unwrap();
    assert_eq!(ix.program_id, pk(5000));
    record_execution(&mut tx);
    assert!(tx.did_execute);
    assert_eq!(
        execute_transaction(&multisig, &tx, GROUP, SIGNER).err(),
        Some(ErrorCode::AlreadyExecuted)
    );
    let r = approve(&store, &multisig, &mut tx, GROUP, c);
    assert_eq!(r.err(), Some(ErrorCode::AlreadyExecuted));
    assert_eq!(tx.signers.len(), 2);
}

#[test]
fn membership_change_staleness() {
    // Owners {A, B, C}, threshold 2, epoch 0. A proposes Y. A quorum-approved
    // batch removes C and adds D, bumping the epoch. B, still a member,
    // can no longer approve Y.
    let a = pk(1);
    let b = pk(2);
    let c = pk(3);
    let d = pk(4);
    let (mut store, mut multisig) = setup_group(vec![a, b, c], 2);
    let mut tx_y = propose(&store, &multisig, a);

    // The membership change itself goes through the engine: proposed,
    // approved to quorum, executed, and only then applied.
    let mut tx_update = create_transaction(
        &store,
        &multisig,
        GROUP,
        a,
        CreateTransactionArgs {
            pid: GROUP,
            accs: vec![],
            data: vec![],
            name: String::from("swap C for D"),
        },
    )
    .unwrap();
    assert!(approve(&store, &multisig, &mut tx_update, GROUP, c).is_ok());
    assert!(execute_transaction(&multisig, &tx_update, GROUP, SIGNER).is_ok());
    let r = update_owners_and_threshold(
        &mut store,
        &mut multisig,
        GROUP,
        UpdateOwnersAndThresholdArgs { owners: vec![c, d], threshold: 2 },
    );
    assert!(r.is_ok());
    record_execution(&mut tx_update);

    assert_eq!(multisig.owner_set_seqno, 1);
    assert_eq!(multisig.owners_amount, 3);
    assert!(!store.is_member(GROUP, c));
    assert!(store.is_member(GROUP, d));
    assert!(store.is_member(GROUP, b));

    let r = approve(&store, &multisig, &mut tx_y, GROUP, b);
    assert_eq!(r.err(), Some(ErrorCode::StaleMembershipEpoch));
    assert_eq!(tx_y.signers.len(), 1);
    assert_eq!(
        execute_transaction(&multisig, &tx_y, GROUP, SIGNER).err(),
        Some(ErrorCode::StaleMembershipEpoch)
    );
}

#[test]
fn threshold_only_update_keeps_epoch() {
    let (mut store, mut multisig) = setup_group(vec![pk(1), pk(2), pk(3)], 2);
    let r = update_owners_and_threshold(
        &mut store,
        &mut multisig,
        GROUP,
        UpdateOwnersAndThresholdArgs { owners: vec![], threshold: 3 },
    );
    assert!(r.is_ok());
    assert_eq!(multisig.owner_set_seqno, 0);
    assert_eq!(multisig.threshold, 3);
    assert_eq!(multisig.owners_amount, 3);
}

#[test]
fn update_with_duplicate_diff_rejected() {
    let (mut store, mut multisig) = setup_group(vec![pk(1), pk(2)], 2);
    let r = update_owners_and_threshold(
        &mut store,
        &mut multisig,
        GROUP,
        UpdateOwnersAndThresholdArgs { owners: vec![pk(3), pk(3)], threshold: 2 },
    );
    assert_eq!(r.err(), Some(ErrorCode::DuplicateOwner));
    assert_eq!(multisig.owner_set_seqno, 0);
    assert_eq!(store.count_members(GROUP), 2);
}

#[test]
fn update_threshold_above_new_count_rejected() {
    let (mut store, mut multisig) = setup_group(vec![pk(1), pk(2), pk(3)], 2);
    // Removing one owner leaves two members; a threshold of three must fail
    // against the post-batch count, and nothing may change.
    let r = update_owners_and_threshold(
        &mut store,
        &mut multisig,
        GROUP,
        UpdateOwnersAndThresholdArgs { owners: vec![pk(3)], threshold: 3 },
    );
    assert_eq!(r.err(), Some(ErrorCode::InvalidThreshold));
    assert_eq!(multisig.owner_set_seqno, 0);
    assert_eq!(multisig.threshold, 2);
    assert!(store.is_member(GROUP, pk(3)));
    assert_eq!(store.count_members(GROUP), 3);
}

#[test]
fn update_zero_threshold_rejected() {
    let (mut store, mut multisig) = setup_group(vec![pk(1), pk(2)], 2);
    let r = update_owners_and_threshold(
        &mut store,
        &mut multisig,
        GROUP,
        UpdateOwnersAndThresholdArgs { owners: vec![], threshold: 0 },
    );
    assert_eq!(r.err(), Some(ErrorCode::InvalidThreshold));
}

#[test]
fn removing_non_member_record_fails() {
    let (mut store, _multisig) = setup_group(vec![pk(1), pk(2)], 1);
    let r = store.destroy(GROUP, pk(3));
    assert_eq!(r.err(), Some(ErrorCode::RecordNotFound));
    assert_eq!(store.count_members(GROUP), 2);
}

#[test]
fn destroying_member_record_releases_it() {
    let (mut store, _multisig) = setup_group(vec![pk(1), pk(2)], 1);
    assert!(store.destroy(GROUP, pk(2)).is_ok());
    assert!(!store.is_member(GROUP, pk(2)));
    assert!(store.is_member(GROUP, pk(1)));
    assert_eq!(store.count_members(GROUP), 1);
}

#[test]
fn record_store_create_and_lookup() {
    let mut store = MembershipStore::new();
    assert!(!store.is_member(GROUP, pk(1)));
    assert_eq!(store.count_members(GROUP), 0);
    store.create(GROUP, pk(1));
    assert!(store.is_member(GROUP, pk(1)));
    assert_eq!(store.count_members(GROUP), 1);
    let copy = store.duplicate();
    assert!(copy.is_member(GROUP, pk(1)));
    assert_eq!(copy.count_members(GROUP), 1);
}

#[test]
fn fingerprints_are_injective() {
    assert_eq!(hash_pubkey(pk(12)), 12);
    assert_ne!(hash_pubkey(pk(12)), hash_pubkey(pk(13)));
}

#[test]
fn groups_do_not_interfere() {
    let other_group = pk(1001);
    let mut store = MembershipStore::new();
    let m1 = create_multisig(&mut store, GROUP, group_args(vec![pk(1), pk(2)], 2)).unwrap();
    let m2 =
        create_multisig(&mut store, other_group, group_args(vec![pk(2), pk(3)], 1)).unwrap();
    assert_eq!(m1.owners_amount, 2);
    assert_eq!(m2.owners_amount, 2);
    assert!(store.is_member(GROUP, pk(1)));
    assert!(!store.is_member(GROUP, pk(3)));
    assert!(store.is_member(other_group, pk(3)));
    assert!(!store.is_member(other_group, pk(1)));
    assert_eq!(store.count_members(GROUP), 2);
    assert_eq!(store.count_members(other_group), 2);
    // A member of another group has no standing here.
    let mut tx = propose(&store, &m1, pk(1));
    let r = approve(&store, &m1, &mut tx, GROUP, pk(3));
    assert_eq!(r.err(), Some(ErrorCode::InvalidOwner));
}
