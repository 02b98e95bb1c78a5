use vstd::prelude::*;

use crate::errors::SpokeError;
use crate::events::{ProtocolPaused, ProtocolUnpaused};
use crate::pubkey::Pubkey;
use crate::state::SpokeState;

verus! {

/// What an authority-only action reads and writes.
#[derive(Clone, Copy, Debug)]
pub struct AdminAction {
    pub spoke_state: SpokeState,
    /// Address of the spoke state account.
    pub spoke_state_key: Pubkey,
    /// The signer.
    pub authority: Pubkey,
}

impl AdminAction {
    /// The signer is the spoke's authority.
    pub open spec fn signed_by_authority(self) -> bool {
        self.spoke_state.authority@ == self.authority@
    }

    /// The accounts with the pause flag set to `paused`.
    pub open spec fn with_paused(self, paused: bool) -> AdminAction {
        AdminAction { spoke_state: SpokeState { paused, ..self.spoke_state }, ..self }
    }

    /// The accounts with `keeper` as the keeper.
    pub open spec fn with_keeper(self, keeper: Pubkey) -> AdminAction {
        AdminAction { spoke_state: SpokeState { keeper, ..self.spoke_state }, ..self }
    }
}

/// Pause the protocol (authority only). Anyone else is refused with
/// `Unauthorized` and changes nothing.
pub fn pause(ctx: &mut AdminAction) -> (res: Result<ProtocolPaused, SpokeError>)
    ensures
        !old(ctx).signed_by_authority() ==> res == Err::<ProtocolPaused, SpokeError>(SpokeError::Unauthorized)
            && *final(ctx) == *old(ctx),
        old(ctx).signed_by_authority() ==> res == Ok::<ProtocolPaused, SpokeError>(
            ProtocolPaused { spoke: old(ctx).spoke_state_key, authority: old(ctx).authority },
        ) && *final(ctx) == old(ctx).with_paused(true),
{
    if !ctx.spoke_state.authority.key_eq(&ctx.authority) {
        return Err(SpokeError::Unauthorized);
    }
    ctx.spoke_state.paused = true;
    Ok(ProtocolPaused { spoke: ctx.spoke_state_key, authority: ctx.authority })
}

/// Unpause the protocol (authority only). Anyone else is refused with
/// `Unauthorized` and changes nothing.
pub fn unpause(ctx: &mut AdminAction) -> (res: Result<ProtocolUnpaused, SpokeError>)
    ensures
        !old(ctx).signed_by_authority() ==> res == Err::<ProtocolUnpaused, SpokeError>(SpokeError::Unauthorized)
            && *final(ctx) == *old(ctx),
        old(ctx).signed_by_authority() ==> res == Ok::<ProtocolUnpaused, SpokeError>(
            ProtocolUnpaused { spoke: old(ctx).spoke_state_key, authority: old(ctx).authority },
        ) && *final(ctx) == old(ctx).with_paused(false),
{
    if !ctx.spoke_state.authority.key_eq(&ctx.authority) {
        return Err(SpokeError::Unauthorized);
    }
    ctx.spoke_state.paused = false;
    Ok(ProtocolUnpaused { spoke: ctx.spoke_state_key, authority: ctx.authority })
}

/// Update the keeper address (authority only). Anyone else is refused with
/// `Unauthorized` and changes nothing.
pub fn update_keeper(ctx: &mut AdminAction, new_keeper: Pubkey) -> (res: Result<(), SpokeError>)
    ensures
        !old(ctx).signed_by_authority() ==> res == Err::<(), SpokeError>(SpokeError::Unauthorized) && *final(ctx)
            == *old(ctx),
        old(ctx).signed_by_authority() ==> res == Ok::<(), SpokeError>(()) && *final(ctx) == old(ctx).with_keeper(new_keeper),
{
    if !ctx.spoke_state.authority.key_eq(&ctx.authority) {
        return Err(SpokeError::Unauthorized);
    }
    ctx.spoke_state.keeper = new_keeper;
    Ok(())
}

} // verus!
