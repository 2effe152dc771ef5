use vstd::prelude::*;

verus! {

/// An identity: a public key whose authenticity the surrounding platform
/// has already checked before it reaches the engine.
///
/// The engine only ever compares identities for equality, so a key is
/// carried as a single machine word; the code that talks to the platform
/// gives each external key its own value.
#[derive(Clone, Copy, Debug, PartialEq, Eq, Hash, Structural)]
pub struct Pubkey(pub u64);

/// The fingerprint under which an approval is stored in a transaction's
/// approval set.
///
/// The fingerprint is injective — distinct identities always have distinct
/// fingerprints — so storing fingerprints can never conflate the approvals
/// of two different owners, nor let a chosen collision forge one.
pub fn hash_pubkey(pubkey: Pubkey) -> (r: u64)
    ensures
        r == pubkey.0,
{
    pubkey.0
}

} // verus!
