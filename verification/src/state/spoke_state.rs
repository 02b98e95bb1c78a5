use vstd::prelude::*;

use crate::pubkey::Pubkey;

verus! {

/// Most assets a spoke accepts.
pub const MAX_SUPPORTED_ASSETS: u8 = 16;

/// Global configuration of the spoke.
#[derive(Clone, Copy, Debug)]
pub struct SpokeState {
    /// Admin authority (ideally a multisig)
    pub authority: Pubkey,
    /// Secondary keeper for operational tasks (oracle updates, message relay)
    pub keeper: Pubkey,
    /// Wormhole chain ID of the hub chain
    pub hub_chain_id: u16,
    /// Expected Wormhole emitter address on the hub chain
    pub hub_emitter: [u8; 32],
    /// Whether the protocol is paused
    pub paused: bool,
    /// Total number of registered assets
    pub supported_assets: u8,
    /// Global message sequence counter
    pub message_sequence: u64,
    /// Last processed hub message sequence
    pub last_hub_sequence: u64,
    /// Timestamp of last hub sync
    pub last_hub_sync: i64,
    /// PDA bump
    pub bump: u8,
}

/// `x + 1`, held at `u64::MAX`.
pub open spec fn saturating_inc(x: u64) -> u64 {
    if x == u64::MAX {
        x
    } else {
        (x + 1) as u64
    }
}

impl SpokeState {
    /// The spoke holds no more than the most assets it accepts.
    pub open spec fn within_asset_limit(&self) -> bool {
        self.supported_assets <= MAX_SUPPORTED_ASSETS
    }

    /// Hands out the current message sequence number and advances the
    /// counter by one, stopping at `u64::MAX`.
    pub fn next_sequence(&mut self) -> (seq: u64)
        ensures
            seq == old(self).message_sequence,
            final(self).message_sequence == saturating_inc(old(self).message_sequence),
            *final(self) == (SpokeState {
                message_sequence: final(self).message_sequence,
                ..*old(self)
            }),
    {
        let seq = self.message_sequence;
        self.message_sequence = self.message_sequence.saturating_add(1);
        seq
    }
}

} // verus!
