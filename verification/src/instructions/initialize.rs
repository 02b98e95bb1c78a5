use vstd::prelude::*;

use crate::events::SpokeInitialized;
use crate::pubkey::Pubkey;
use crate::state::SpokeState;

verus! {

/// What initializing the spoke reads and writes.
#[derive(Clone, Copy, Debug)]
pub struct InitializeSpoke {
    /// The freshly created spoke state account.
    pub spoke_state: SpokeState,
    /// Address of the spoke state account.
    pub spoke_state_key: Pubkey,
    /// Bump of the spoke state's address.
    pub spoke_state_bump: u8,
    /// The signer, who becomes authority and keeper.
    pub authority: Pubkey,
}

impl InitializeSpoke {
    /// The accounts after initializing at clock time `now`.
    pub open spec fn accepted(self, hub_chain_id: u16, hub_emitter: [u8; 32], now: i64) -> InitializeSpoke {
        InitializeSpoke {
            spoke_state: SpokeState {
                authority: self.authority,
                keeper: self.authority,
                hub_chain_id,
                hub_emitter,
                paused: false,
                supported_assets: 0,
                message_sequence: 0,
                last_hub_sequence: 0,
                last_hub_sync: now,
                bump: self.spoke_state_bump,
            },
            ..self
        }
    }
}

/// Initialize the spoke protocol with hub chain configuration, at clock
/// time `now`. The signer becomes both authority and keeper; the protocol
/// starts unpaused with no assets and both sequences at zero.
pub fn handler(ctx: &mut InitializeSpoke, hub_chain_id: u16, hub_emitter: [u8; 32], now: i64) -> (event:
    SpokeInitialized)
    ensures
        *final(ctx) == old(ctx).accepted(hub_chain_id, hub_emitter, now),
        event == (SpokeInitialized {
            spoke: old(ctx).spoke_state_key,
            authority: old(ctx).authority,
            hub_chain_id,
        }),
{
    ctx.spoke_state = SpokeState {
        authority: ctx.authority,
        // Initially same as authority
        keeper: ctx.authority,
        hub_chain_id,
        hub_emitter,
        paused: false,
        supported_assets: 0,
        message_sequence: 0,
        last_hub_sequence: 0,
        last_hub_sync: now,
        bump: ctx.spoke_state_bump,
    };
    SpokeInitialized { spoke: ctx.spoke_state_key, authority: ctx.authority, hub_chain_id }
}

} // verus!
