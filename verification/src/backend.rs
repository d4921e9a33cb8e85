//! The proof-verification capability consumed by the engine.

use vstd::prelude::*;

use crate::engine::PublicInputs;
use crate::errors::ProtocolError;

verus! {

/// A proof backend: a single deterministic operation that checks opaque
/// proof bytes against public inputs.
///
/// A backend is immutable after construction and performs no I/O during
/// verification, so its verdict is a fixed function of its own material
/// and the call's arguments: two calls of `verify` on equal arguments
/// return equal results.
pub trait ProofBackend: Send + Sync + Sized {
    /// The verdict this backend gives to `proof` under `inputs`.
    spec fn verdict(&self, proof: Seq<u8>, inputs: PublicInputs) -> Result<(), ProtocolError>;

    /// Verifies a proof against public inputs.
    ///
    /// Total on arbitrary byte sequences — empty, truncated or crafted
    /// bytes are rejected, never a panic — and the result equals the
    /// backend's verdict. A rejection surfaces as `InvalidProof`, or
    /// `InvalidFormat` where a backend distinguishes a decoding layer.
    fn verify(&self, proof_bytes: &[u8], public_inputs: &PublicInputs) -> (r: Result<
        (),
        ProtocolError,
    >)
        ensures
            r == self.verdict(proof_bytes@, *public_inputs),
            r is Err ==> r == Err::<(), ProtocolError>(ProtocolError::InvalidProof) || r == Err::<
                (),
                ProtocolError,
            >(ProtocolError::InvalidFormat),
    ;
}

} // verus!
