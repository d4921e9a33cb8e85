//! Verifier core of a zero-knowledge credit-gating protocol.
//!
//! The library advances a replicated protocol state, one accepted proof per
//! transition. A transition is checked in a fixed order — state root, nonce,
//! cryptographic proof, admissibility policy — and the state is mutated only
//! when every check has passed; any failure leaves the state untouched.

use vstd::prelude::*;

pub mod backend;
pub mod backend_halo2;
pub mod backend_stub;
pub mod backend_zkvm;
pub mod engine;
pub mod errors;
pub mod policy;
pub mod proofs;
pub mod rate_limit;
pub mod state;
pub mod storage;
pub mod types;

verus! {

} // verus!
