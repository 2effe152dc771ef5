//! A quorum-based authorization engine.
//!
//! A group of identities ("owners") jointly controls an authority. An owner
//! proposes an operation as a [`transaction::Transaction`], other owners
//! approve it, and once the approvals reach the group's threshold the
//! execution engine builds the delegated action exactly once and burns the
//! transaction.
//!
//! The surrounding platform supplies the persistent record ledger, the
//! mechanism that performs the built action under the group's derived
//! authority, and caller authentication; this crate holds the decision
//! logic: membership, thresholds, approval sets, membership epochs and the
//! exactly-once execution flag, all of it verified.

pub mod error;
pub mod execute;
pub mod pubkey;
pub mod registry;
pub mod store;
pub mod transaction;

pub use error::ErrorCode;
pub use execute::{execute_transaction, record_execution, Instruction};
pub use pubkey::{hash_pubkey, Pubkey};
pub use registry::{
    create_multisig, update_owners_and_threshold, CreateMultisigArgs, Multisig,
    UpdateOwnersAndThresholdArgs,
};
pub use store::{MembershipStore, MultisigOwner};
pub use transaction::{
    approve, create_transaction, CreateTransactionArgs, Transaction, TransactionAccount,
};
