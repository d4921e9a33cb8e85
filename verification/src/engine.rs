//! The transition engine: sole mutator of the protocol state.

use vstd::prelude::*;

use crate::backend::ProofBackend;
use crate::errors::ProtocolError;
use crate::policy;
use crate::state::ProtocolState;
use crate::types::{hash_eq, Commitment};

verus! {

/// What the verifier publicly asserts a proof was computed over.
///
/// The prover never dictates `old_state_root` or `nonce`: the engine
/// checks both against its own state before any cryptographic work.
#[derive(Debug, Clone, Copy)]
pub struct PublicInputs {
    pub threshold: u64,
    pub old_state_root: [u8; 32],
    pub nonce: u64,
}

/// The state reached by accepting a transition from `st` with commitment
/// `commitment`: the commitment becomes the root, the nonce advances by
/// one, and the epoch is preserved verbatim.
pub open spec fn next_state(st: ProtocolState, commitment: Commitment) -> ProtocolState {
    ProtocolState { state_root: commitment.0, nonce: (st.nonce + 1) as u64, epoch: st.epoch }
}

/// The outcome of the strictly ordered transition pipeline on state `st`:
/// state-root check, then nonce check, then proof check, then policy
/// check. The first failing step decides the error; a transition is
/// accepted only when every step passes.
pub open spec fn transition_verdict<B: ProofBackend>(
    backend: B,
    st: ProtocolState,
    proof: Seq<u8>,
    inputs: PublicInputs,
) -> Result<(), ProtocolError> {
    if inputs.old_state_root@ != st.state_root@ {
        Err(ProtocolError::StateMismatch)
    } else if inputs.nonce != st.nonce + 1 {
        Err(ProtocolError::InvalidNonce)
    } else if backend.verdict(proof, inputs) is Err {
        backend.verdict(proof, inputs)
    } else if !policy::policy_ok(inputs) {
        Err(ProtocolError::PolicyViolation)
    } else {
        Ok(())
    }
}

/// Owns the current protocol state and a backend, and advances the state
/// only on the final step of a fully successful transition.
pub struct VerifierEngine<B: ProofBackend> {
    state: ProtocolState,
    backend: B,
}

impl<B: ProofBackend> VerifierEngine<B> {
    /// The engine's current state.
    pub closed spec fn spec_state(&self) -> ProtocolState {
        self.state
    }

    /// The engine's backend, immutable for the engine's lifetime.
    pub closed spec fn spec_backend(&self) -> B {
        self.backend
    }

    pub fn new(state: ProtocolState, backend: B) -> (e: Self)
        ensures
            e.spec_state() == state,
            e.spec_backend() == backend,
    {
        Self { state, backend }
    }

    /// Read-only view of the current state.
    pub fn state(&self) -> (s: &ProtocolState)
        ensures
            *s == self.spec_state(),
    {
        &self.state
    }

    /// Applies one transition: state-root, nonce, proof and policy checks
    /// in that order, then — only if all passed — the atomic mutation that
    /// adopts the commitment as the new root and advances the nonce.
    ///
    /// The result equals [`transition_verdict`] on the pre-state. On any
    /// error the engine is left exactly as it was before the call.
    pub fn process_transition(
        &mut self,
        proof_bytes: &[u8],
        public_inputs: PublicInputs,
        commitment: Commitment,
    ) -> (r: Result<(), ProtocolError>)
        ensures
            r == transition_verdict(
                old(self).spec_backend(),
                old(self).spec_state(),
                proof_bytes@,
                public_inputs,
            ),
            final(self).spec_backend() == old(self).spec_backend(),
            r is Ok ==> final(self).spec_state() == next_state(old(self).spec_state(), commitment),
            r is Err ==> final(self).spec_state() == old(self).spec_state(),
    {
        if !hash_eq(&public_inputs.old_state_root, &self.state.state_root) {
            return Err(ProtocolError::StateMismatch);
        }
        if self.state.nonce == u64::MAX || public_inputs.nonce != self.state.nonce + 1 {
            return Err(ProtocolError::InvalidNonce);
        }
        let proof_result = self.backend.verify(proof_bytes, &public_inputs);
        if let Err(e) = proof_result {
            return Err(e);
        }
        if let Err(e) = policy::enforce(&public_inputs) {
            return Err(e);
        }
        self.state.state_root = commitment.0;
        self.state.nonce = self.state.nonce + 1;
        Ok(())
    }
}

/// Law: monotonic nonce and commitment adoption. An accepted transition
/// moves to a state whose nonce is exactly the old nonce plus one,
/// whose root is the supplied commitment, and whose epoch is unchanged.
pub proof fn lemma_accepted_transition_shape<B: ProofBackend>(
    backend: B,
    st: ProtocolState,
    proof: Seq<u8>,
    inputs: PublicInputs,
    commitment: Commitment,
)
    requires
        transition_verdict(backend, st, proof, inputs) is Ok,
    ensures
        next_state(st, commitment).nonce == st.nonce + 1,
        next_state(st, commitment).state_root == commitment.0,
        next_state(st, commitment).epoch == st.epoch,
{
    assert(inputs.nonce == st.nonce + 1);
}

/// Law: replay rejection. A previously accepted call — same proof, same
/// public inputs — replayed against the state it produced is rejected
/// with `InvalidNonce` or `StateMismatch`, whatever the proof's validity.
pub proof fn lemma_replay_rejected<B: ProofBackend>(
    backend: B,
    st: ProtocolState,
    proof: Seq<u8>,
    inputs: PublicInputs,
    commitment: Commitment,
)
    requires
        transition_verdict(backend, st, proof, inputs) is Ok,
    ensures
        transition_verdict(backend, next_state(st, commitment), proof, inputs) == Err::<
            (),
            ProtocolError,
        >(ProtocolError::InvalidNonce) || transition_verdict(
            backend,
            next_state(st, commitment),
            proof,
            inputs,
        ) == Err::<(), ProtocolError>(ProtocolError::StateMismatch),
{
    assert(inputs.nonce == st.nonce + 1);
    assert(next_state(st, commitment).nonce == st.nonce + 1);
}

/// Law: ordering. Whenever the submitted `old_state_root` differs from
/// the current root, the verdict is `StateMismatch`, regardless of the
/// proof's validity or the policy.
pub proof fn lemma_state_mismatch_precedence<B: ProofBackend>(
    backend: B,
    st: ProtocolState,
    proof: Seq<u8>,
    inputs: PublicInputs,
)
    requires
        inputs.old_state_root@ != st.state_root@,
    ensures
        transition_verdict(backend, st, proof, inputs) == Err::<(), ProtocolError>(
            ProtocolError::StateMismatch,
        ),
{
}

/// Law: policy after proof. When the backend rejects the proof and the
/// policy would also reject the inputs, the surfaced error is the proof
/// error, not `PolicyViolation`.
pub proof fn lemma_proof_precedes_policy<B: ProofBackend>(
    backend: B,
    st: ProtocolState,
    proof: Seq<u8>,
    inputs: PublicInputs,
)
    requires
        inputs.old_state_root@ == st.state_root@,
        inputs.nonce == st.nonce + 1,
        backend.verdict(proof, inputs) == Err::<(), ProtocolError>(ProtocolError::InvalidProof),
        !policy::policy_ok(inputs),
    ensures
        transition_verdict(backend, st, proof, inputs) == Err::<(), ProtocolError>(
            ProtocolError::InvalidProof,
        ),
{
}

/// Law: backend purity. `verify` is deterministic: any two results that
/// meet its contract for equal arguments — as every call's result does —
/// are equal, since each equals the backend's verdict.
pub proof fn lemma_backend_purity<B: ProofBackend>(
    backend: B,
    proof: Seq<u8>,
    inputs: PublicInputs,
    r1: Result<(), ProtocolError>,
    r2: Result<(), ProtocolError>,
)
    requires
        r1 == backend.verdict(proof, inputs),
        r2 == backend.verdict(proof, inputs),
    ensures
        r1 == r2,
{
}

} // verus!
