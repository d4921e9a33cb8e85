//! The replicated protocol state: a hash-chained ledger position.

use vstd::prelude::*;

verus! {

/// The protocol state advanced by accepted transitions.
///
/// `state_root` is an opaque 32-byte tag summarizing the chain position,
/// `nonce` counts accepted transitions, and `epoch` is carried along
/// unchanged by the transition pipeline.
#[derive(Debug, Clone, Copy)]
pub struct ProtocolState {
    pub state_root: [u8; 32],
    pub nonce: u64,
    pub epoch: u64,
}

impl ProtocolState {
    /// The starting state of every chain: all-zero root, nonce 0, epoch 0.
    pub fn genesis() -> (s: Self)
        ensures
            s.state_root@ == Seq::<u8>::new(32, |i: int| 0u8),
            s.nonce == 0,
            s.epoch == 0,
    {
        let s = Self { state_root: [0u8; 32], nonce: 0, epoch: 0 };
        proof {
            assert(s.state_root@ =~= Seq::<u8>::new(32, |i: int| 0u8));
        }
        s
    }
}

} // verus!
