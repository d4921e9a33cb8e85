//! The zero-knowledge virtual-machine backend: program identity plus
//! journal binding.
//!
//! A zkVM proof reaches the verifier as a canonical binary envelope
//! holding two 32-byte digests: the `method_id` identifying the guest
//! program, and the `journal_digest` of the guest's committed public
//! output. The backend decodes the envelope and asserts that the method
//! id equals the one authorized at construction. The journal digest is
//! produced by the zkVM runtime inside the guest; recomputing it here
//! from raw values would be unsound, so binding the journal's contents
//! to the engine's state is delegated to the engine's precondition
//! checks.

use vstd::prelude::*;

use crate::backend::ProofBackend;
use crate::engine::PublicInputs;
use crate::errors::ProtocolError;
use crate::types::hash_eq;

verus! {

/// The record a zkVM guest commits as its journal.
#[derive(Debug, Clone, Copy)]
pub struct ZkVmJournal {
    pub threshold: u64,
    pub old_state_root: [u8; 32],
    pub nonce: u64,
    pub ok: bool,
}

/// The decoded proof envelope: the guest program's digest and the digest
/// of the guest's journal.
#[derive(Debug, Clone, Copy)]
pub struct ZkVmProof {
    pub method_id: [u8; 32],
    pub journal_digest: [u8; 32],
}

/// The canonical byte encoding of an envelope: the method id's 32 bytes,
/// then the journal digest's 32 bytes, nothing else.
pub open spec fn envelope_bytes(p: ZkVmProof) -> Seq<u8> {
    p.method_id@ + p.journal_digest@
}

/// Encodes an envelope into its canonical 64-byte form.
pub fn encode_envelope(p: &ZkVmProof) -> (r: Vec<u8>)
    ensures
        r@ == envelope_bytes(*p),
{
    let mut out: Vec<u8> = Vec::new();
    let mut i: usize = 0;
    while i < 32
        invariant
            0 <= i <= 32,
            out@ == p.method_id@.take(i as int),
        decreases 32 - i,
    {
        out.push(p.method_id[i]);
        proof {
            assert(p.method_id@.take(i + 1) =~= p.method_id@.take(i as int).push(
                p.method_id@[i as int],
            ));
        }
        i = i + 1;
    }
    proof {
        assert(p.method_id@.take(32) =~= p.method_id@);
    }
    i = 0;
    while i < 32
        invariant
            0 <= i <= 32,
            out@ == p.method_id@ + p.journal_digest@.take(i as int),
        decreases 32 - i,
    {
        out.push(p.journal_digest[i]);
        proof {
            assert(p.method_id@ + p.journal_digest@.take(i + 1) =~= (p.method_id@
                + p.journal_digest@.take(i as int)).push(p.journal_digest@[i as int]));
        }
        i = i + 1;
    }
    proof {
        assert(p.method_id@ + p.journal_digest@.take(32) =~= envelope_bytes(*p));
    }
    out
}

/// Decodes an envelope from its canonical form. Every sequence of
/// exactly 64 bytes decodes; a short, long or empty input — trailing
/// bytes included — is a decode error.
pub fn decode_envelope(bytes: &[u8]) -> (r: Option<ZkVmProof>)
    ensures
        r is Some <==> bytes@.len() == 64,
        r is Some ==> r.unwrap().method_id@ == bytes@.subrange(0, 32) && r.unwrap().journal_digest@
            == bytes@.subrange(32, 64),
{
    if bytes.len() != 64 {
        return None;
    }
    let mut method_id = [0u8; 32];
    let mut journal_digest = [0u8; 32];
    let mut i: usize = 0;
    while i < 32
        invariant
            0 <= i <= 32,
            bytes@.len() == 64,
            forall|k: int| 0 <= k < i ==> method_id@[k] == bytes@[k],
            forall|k: int| 0 <= k < i ==> journal_digest@[k] == bytes@[32 + k],
        decreases 32 - i,
    {
        method_id[i] = bytes[i];
        journal_digest[i] = bytes[32 + i];
        i = i + 1;
    }
    proof {
        assert(method_id@ =~= bytes@.subrange(0, 32));
        assert(journal_digest@ =~= bytes@.subrange(32, 64));
    }
    Some(ZkVmProof { method_id, journal_digest })
}

/// Law: the envelope codec is canonical and deterministic — two
/// envelopes encode to equal bytes exactly when they hold equal digests.
pub proof fn lemma_envelope_canonical(p1: ZkVmProof, p2: ZkVmProof)
    ensures
        envelope_bytes(p1) == envelope_bytes(p2) <==> (p1.method_id@ == p2.method_id@
            && p1.journal_digest@ == p2.journal_digest@),
{
    if envelope_bytes(p1) == envelope_bytes(p2) {
        assert(p1.method_id@ =~= envelope_bytes(p1).subrange(0, 32));
        assert(p2.method_id@ =~= envelope_bytes(p2).subrange(0, 32));
        assert(p1.journal_digest@ =~= envelope_bytes(p1).subrange(32, 64));
        assert(p2.journal_digest@ =~= envelope_bytes(p2).subrange(32, 64));
    }
    if p1.method_id@ == p2.method_id@ && p1.journal_digest@ == p2.journal_digest@ {
        assert(envelope_bytes(p1) =~= envelope_bytes(p2));
    }
}

/// Verifies zkVM proofs for one authorized guest program, identified by
/// the digest supplied at construction.
#[derive(Debug, Clone, Copy)]
pub struct ZkVmBackend {
    pub method_id: [u8; 32],
}

impl ZkVmBackend {
    pub fn new(method_id: [u8; 32]) -> (b: Self)
        ensures
            b.method_id == method_id,
    {
        ZkVmBackend { method_id }
    }
}

impl ProofBackend for ZkVmBackend {
    /// A proof is accepted exactly when it is a well-formed envelope
    /// whose method id is the authorized one. The journal digest is
    /// carried, not checked: the guest's view of the public inputs is
    /// bound by the engine's state checks, not by this backend.
    open spec fn verdict(&self, proof: Seq<u8>, inputs: PublicInputs) -> Result<
        (),
        ProtocolError,
    > {
        if proof.len() == 64 && proof.subrange(0, 32) == self.method_id@ {
            Ok(())
        } else {
            Err(ProtocolError::InvalidProof)
        }
    }

    fn verify(&self, proof_bytes: &[u8], public_inputs: &PublicInputs) -> (r: Result<
        (),
        ProtocolError,
    >) {
        match decode_envelope(proof_bytes) {
            None => Err(ProtocolError::InvalidProof),
            Some(envelope) => {
                if hash_eq(&envelope.method_id, &self.method_id) {
                    Ok(())
                } else {
                    Err(ProtocolError::InvalidProof)
                }
            },
        }
    }
}

/// Law: malformed-proof totality. Any byte sequence that is not a
/// well-formed envelope carrying the authorized method id — the empty
/// sequence, a truncated one, one with trailing bytes, or one whose
/// method-id region is altered — is rejected with `InvalidProof`.
pub proof fn lemma_zkvm_rejects_malformed(
    backend: ZkVmBackend,
    proof: Seq<u8>,
    inputs: PublicInputs,
)
    requires
        proof.len() != 64 || proof.subrange(0, 32) != backend.method_id@,
    ensures
        backend.verdict(proof, inputs) == Err::<(), ProtocolError>(ProtocolError::InvalidProof),
{
}

} // verus!
