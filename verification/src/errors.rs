//! The closed error taxonomy surfaced by every layer of the verifier core.

use vstd::prelude::*;

verus! {

/// Failure kinds of the verifier core. The taxonomy is closed: no other
/// error is produced by the core.
///
/// - `InvalidFormat`: proof bytes or envelope cannot be decoded.
/// - `StateMismatch`: submitted `old_state_root` differs from the current root.
/// - `InvalidNonce`: submitted nonce is not the current nonce plus one.
/// - `InvalidProof`: cryptographic verification failed.
/// - `PolicyViolation`: public inputs violate the admissibility policy.
/// - `CommitmentMismatch`: reserved for a commitment-vs-journal cross-check;
///   never emitted by the current pipeline.
#[derive(Debug, Clone, Copy, PartialEq, Eq, Structural)]
pub enum ProtocolError {
    InvalidFormat,
    StateMismatch,
    InvalidNonce,
    InvalidProof,
    PolicyViolation,
    CommitmentMismatch,
}

} // verus!
