//! A bundled proof-verification request.

use vstd::prelude::*;

use crate::backend::ProofBackend;
use crate::backend_halo2::Halo2Backend;
use crate::engine::PublicInputs;
use crate::errors::ProtocolError;

verus! {

/// Borrows one proof and the public inputs it is to be checked against,
/// for the duration of a single verification call.
pub struct ProofInput<'a> {
    pub proof_bytes: &'a [u8],
    pub public_inputs: &'a PublicInputs,
}

/// Verifies a bundled proof input against a SNARK backend. The backend
/// is supplied by the caller, which holds the deployment's verifying
/// key and parameters.
pub fn verify(proof: ProofInput<'_>, backend: &Halo2Backend) -> (r: Result<(), ProtocolError>)
    ensures
        r == backend.verdict(proof.proof_bytes@, *proof.public_inputs),
{
    backend.verify(proof.proof_bytes, proof.public_inputs)
}

} // verus!
