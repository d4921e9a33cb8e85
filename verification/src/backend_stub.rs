//! The always-accepting backend, for hosts that run without a proof system.

use vstd::prelude::*;

use crate::backend::ProofBackend;
use crate::engine::PublicInputs;
use crate::errors::ProtocolError;

verus! {

/// A backend that accepts every proof. With it the engine still enforces
/// state binding, replay protection and policy; only the cryptographic
/// check is vacuous.
#[derive(Debug, Clone, Copy)]
pub struct StubBackend;

impl Default for StubBackend {
    /// The stub backend carries no material; its default is itself.
    fn default() -> (s: Self)
        ensures
            s == (StubBackend {  }),
    {
        StubBackend
    }
}

impl ProofBackend for StubBackend {
    /// The stub accepts every proof under every input.
    open spec fn verdict(&self, proof: Seq<u8>, inputs: PublicInputs) -> Result<
        (),
        ProtocolError,
    > {
        Ok(())
    }

    fn verify(&self, proof_bytes: &[u8], public_inputs: &PublicInputs) -> (r: Result<
        (),
        ProtocolError,
    >) {
        Ok(())
    }
}

} // verus!
