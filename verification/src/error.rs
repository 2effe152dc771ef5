use vstd::prelude::*;

verus! {

/// Failure codes surfaced by the engine.
///
/// Every check an entry point performs is a precondition validated before
/// any mutation: the first violated one aborts the request with its code
/// and leaves every record unchanged.
#[derive(Clone, Copy, Debug, PartialEq, Eq, Structural)]
pub enum ErrorCode {
    /// The caller is not a recognized member of the referenced group, or a
    /// record does not belong to the group it was presented with.
    InvalidOwner,
    /// A group must be created with at least one owner.
    InvalidOwnersLen,
    /// The same identity appears more than once in an owner list.
    DuplicateOwner,
    /// The threshold must satisfy `1 <= threshold <= membership count`.
    InvalidThreshold,
    /// The identity already approved this transaction.
    AlreadySigned,
    /// Execution was attempted with fewer approvals than the threshold.
    NotEnoughSigners,
    /// The transaction was already executed.
    AlreadyExecuted,
    /// The transaction's membership-epoch snapshot no longer matches the
    /// group's current membership epoch.
    StaleMembershipEpoch,
    /// A membership record removal was attempted on a non-member.
    RecordNotFound,
}

} // verus!
