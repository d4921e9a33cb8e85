//! Plain value types shared across the protocol.

use vstd::prelude::*;

verus! {

/// A 32-byte opaque identifier, used for state roots and commitments.
/// The core imposes no structure on it.
pub type Hash = [u8; 32];

/// The proposed successor `state_root` accompanying a transition.
/// Opaque to the core: it is adopted verbatim on acceptance.
#[derive(Debug, Clone, Copy)]
pub struct Commitment(pub Hash);

/// The record a prover hands to the zkVM guest program. The core never
/// consumes it; it documents the guest's view of a transition.
#[derive(Debug, Clone, Copy)]
pub struct ZkVmInput {
    pub score: u64,
    pub threshold: u64,
    pub old_state_root: [u8; 32],
    pub nonce: u64,
}

/// Byte-wise equality of two 32-byte identifiers.
pub fn hash_eq(a: &Hash, b: &Hash) -> (r: bool)
    ensures
        r <==> a@ == b@,
{
    let mut i: usize = 0;
    while i < 32
        invariant
            0 <= i <= 32,
            forall|k: int| 0 <= k < i ==> a@[k] == b@[k],
        decreases 32 - i,
    {
        if a[i] != b[i] {
            return false;
        }
        i = i + 1;
    }
    proof {
        assert(a@ =~= b@);
    }
    true
}

} // verus!
