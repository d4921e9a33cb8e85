//! The non-cryptographic admissibility policy over public inputs.

use vstd::prelude::*;

use crate::engine::PublicInputs;
use crate::errors::ProtocolError;

verus! {

/// The admissibility predicate: a zero threshold is inadmissible.
///
/// The policy is a pure function of the public inputs, so two calls of
/// [`enforce`] on equal inputs always produce equal results.
pub open spec fn policy_ok(inputs: PublicInputs) -> bool {
    inputs.threshold != 0
}

/// Enforces the admissibility policy on public inputs.
///
/// Returns `Ok` exactly when [`policy_ok`] holds, and
/// `Err(PolicyViolation)` otherwise.
pub fn enforce(inputs: &PublicInputs) -> (r: Result<(), ProtocolError>)
    ensures
        r is Ok <==> policy_ok(*inputs),
        !policy_ok(*inputs) ==> r == Err::<(), ProtocolError>(ProtocolError::PolicyViolation),
{
    if inputs.threshold == 0 {
        return Err(ProtocolError::PolicyViolation);
    }
    Ok(())
}

} // verus!
