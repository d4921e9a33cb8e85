//! The SNARK backend: cryptographic verification against a verifying key.
//!
//! The verifying key and the public parameters are opaque cryptographic
//! material, produced by a key-generation phase outside the transition
//! pipeline and held immutably for the backend's lifetime. The sole
//! public-instance value bound by this backend is `threshold`;
//! `old_state_root` and `nonce` are not cryptographically bound here —
//! state binding for this backend rests entirely on the engine's
//! precondition checks.
//!
//! halo2_proofs' key and parameter types cannot be declared to the
//! verifier (their generics are bounded by the crate's own curve
//! trait), so each is held in a private field of an opaque carrier
//! struct; the trusted functions below are the only code that reads
//! the carried material.

use vstd::prelude::*;

use crate::backend::ProofBackend;
use crate::engine::PublicInputs;
use crate::errors::ProtocolError;
use halo2_proofs::pasta::EqAffine;
use halo2_proofs::pasta::Fp;
use halo2_proofs::plonk::Circuit;
use halo2_proofs::plonk::SingleVerifier;
use halo2_proofs::plonk::VerifyingKey;
use halo2_proofs::poly::commitment::Params;
use halo2_proofs::transcript::Blake2bRead;
use halo2_proofs::transcript::Challenge255;

verus! {

/// Declares the field element type of the curve the backend works
/// over, so that it may appear in the circuit bound below. Opaque:
/// nothing in this crate inspects a field element.
#[verifier::external_type_specification]
#[verifier::external_body]
pub struct ExFp(Fp);

/// Carries halo2_proofs' public parameters, together with the circuit
/// size `k` they were generated for. Opaque to the verifier; read only
/// by the trusted functions of this module.
#[verifier::external_body]
pub struct SnarkParams {
    inner: Params<EqAffine>,
    k: u32,
}

/// Carries halo2_proofs' verifying key, together with the size `k` of
/// the parameters it was derived under; opaque here as well.
#[verifier::external_body]
pub struct SnarkVerifyingKey {
    inner: VerifyingKey<EqAffine>,
    k: u32,
}

/// Relies on halo2_proofs::poly::commitment::Params::new: the
/// parameter set for circuit size `2^k` is derived deterministically
/// from `k` (points are drawn from a fixed hash-to-curve oracle), and
/// the call panics for `k >= 32`.
#[verifier::external_body]
pub fn snark_params(k: u32) -> SnarkParams
    requires
        k < 32,
{
    let inner = Params::new(k);
    SnarkParams { k: inner.k(), inner }
}

/// Relies on halo2_proofs::plonk::keygen_vk: derives the verifying key
/// for a circuit over the given parameters, deterministically, and
/// fails — `None` here — when the parameters are too small for the
/// circuit. The key records the parameters' size, so that verification
/// can refuse key material paired with parameters of another size.
#[verifier::external_body]
pub fn snark_keygen_vk<ConcreteCircuit: Circuit<Fp>>(
    params: &SnarkParams,
    circuit: &ConcreteCircuit,
) -> Option<SnarkVerifyingKey> {
    match halo2_proofs::plonk::keygen_vk(&params.inner, circuit) {
        Ok(vk) => Some(SnarkVerifyingKey { inner: vk, k: params.inner.k() }),
        Err(_) => None,
    }
}

/// The verdict of the underlying SNARK verifier on a proof byte stream,
/// checked against a parameter set, a verifying key, and `threshold` as
/// the single public-instance value. Named rather than spelled out: the
/// algebra of a PLONK verifier is not restated here. Verification is
/// deterministic, so the verdict is a function of these arguments alone.
pub uninterp spec fn snark_accepts(
    params: SnarkParams,
    vk: SnarkVerifyingKey,
    threshold: u64,
    proof: Seq<u8>,
) -> bool;

/// Relies on halo2_proofs::plonk::verify_proof with a `SingleVerifier`
/// strategy: it reads the proof as a Blake2b transcript, checks it
/// against (params, vk) with `threshold` at instance position 0, and
/// returns a verdict that depends on those arguments alone — the
/// strategy draws no randomness — without panicking on arbitrary bytes.
/// A verifying key derived under parameters of another size than the
/// ones supplied is refused outright: handing such a pair to the
/// outside verifier would abort on its domain-size check instead of
/// returning. An empty proof stream never verifies: the verifier's
/// first unconditional transcript read fails.
#[verifier::external_body]
fn snark_verify_call(
    params: &SnarkParams,
    vk: &SnarkVerifyingKey,
    threshold: u64,
    proof_bytes: &[u8],
) -> (r: bool)
    ensures
        r == snark_accepts(*params, *vk, threshold, proof_bytes@),
        proof_bytes@.len() == 0 ==> !r,
{
    if params.k != vk.k {
        return false;
    }
    let strategy = SingleVerifier::new(&params.inner);
    let mut transcript = Blake2bRead::<_, _, Challenge255<EqAffine>>::init(proof_bytes);
    let instance = [Fp::from(threshold)];
    halo2_proofs::plonk::verify_proof(&params.inner, &vk.inner, strategy, &[&[&instance]], &mut transcript)
        .is_ok()
}

/// Verifies zk-SNARK proofs against the verifying key and parameters
/// acquired at construction. A backend whose key was derived under
/// parameters of another size than the ones it is paired with accepts
/// nothing.
pub struct Halo2Backend {
    pub vk: SnarkVerifyingKey,
    pub params: SnarkParams,
}

impl ProofBackend for Halo2Backend {
    /// A proof is accepted exactly when the underlying SNARK verifier
    /// accepts it for this backend's material and the submitted
    /// threshold. All-or-nothing: any failure is `InvalidProof`.
    open spec fn verdict(&self, proof: Seq<u8>, inputs: PublicInputs) -> Result<
        (),
        ProtocolError,
    > {
        if snark_accepts(self.params, self.vk, inputs.threshold, proof) {
            Ok(())
        } else {
            Err(ProtocolError::InvalidProof)
        }
    }

    fn verify(&self, proof_bytes: &[u8], public_inputs: &PublicInputs) -> (r: Result<
        (),
        ProtocolError,
    >) {
        if snark_verify_call(&self.params, &self.vk, public_inputs.threshold, proof_bytes) {
            Ok(())
        } else {
            Err(ProtocolError::InvalidProof)
        }
    }
}

} // verus!
