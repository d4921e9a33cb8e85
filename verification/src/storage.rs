//! An exclusive-access wrapper guarding a protocol state.

use vstd::prelude::*;

use crate::state::ProtocolState;

verus! {

/// Holds a `ProtocolState` under exclusive access: reading hands out a
/// by-value snapshot, writing replaces the whole state. Exclusivity is
/// Rust's ownership discipline — a caller that needs a read-modify-write
/// sequence holds the store mutably across the sequence. A host that
/// shares the store between threads wraps it in its own lock.
pub struct StateStore {
    state: ProtocolState,
}

impl StateStore {
    /// The state currently held.
    pub closed spec fn spec_state(&self) -> ProtocolState {
        self.state
    }

    pub fn new(state: ProtocolState) -> (s: Self)
        ensures
            s.spec_state() == state,
    {
        StateStore { state }
    }

    /// A by-value snapshot of the held state.
    pub fn load(&self) -> (s: ProtocolState)
        ensures
            s == self.spec_state(),
    {
        self.state
    }

    /// Replaces the held state.
    pub fn save(&mut self, state: ProtocolState)
        ensures
            final(self).spec_state() == state,
    {
        self.state = state;
    }
}

} // verus!
