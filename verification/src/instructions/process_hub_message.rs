use vstd::prelude::*;

use crate::errors::SpokeError;
use crate::events::{BorrowLimitUpdated, HubMessageProcessed};
use crate::pubkey::Pubkey;
use crate::state::spoke_state::saturating_inc;
use crate::state::{SpokeState, UserDeposit};
use crate::wormhole::messages::{spec_decode_hub, HubToSpokeMessage};

verus! {

/// What processing a hub message reads and writes.
#[derive(Clone, Copy, Debug)]
pub struct ProcessHubMessage {
    pub spoke_state: SpokeState,
    /// Address of the spoke state account.
    pub spoke_state_key: Pubkey,
    /// The keeper or authority relaying the hub message
    pub relayer: Pubkey,
}

/// `signer` is the spoke's authority or its keeper.
pub open spec fn is_authority_or_keeper(spoke: SpokeState, signer: Pubkey) -> bool {
    signer@ == spoke.authority@ || signer@ == spoke.keeper@
}

impl ProcessHubMessage {
    /// The first check that refuses the message, if any.
    pub open spec fn refusal(self, message_data: Seq<u8>) -> Option<SpokeError> {
        if !is_authority_or_keeper(self.spoke_state, self.relayer) {
            Some(SpokeError::UnauthorizedKeeper)
        } else if self.spoke_state.paused {
            Some(SpokeError::ProtocolPaused)
        } else if spec_decode_hub(message_data) is None {
            Some(SpokeError::InvalidHubMessage)
        } else {
            None
        }
    }

    /// The accounts after a message is processed at clock time `now`.
    pub open spec fn accepted(self, now: i64) -> ProcessHubMessage {
        ProcessHubMessage {
            spoke_state: SpokeState {
                last_hub_sequence: saturating_inc(self.spoke_state.last_hub_sequence),
                last_hub_sync: now,
                ..self.spoke_state
            },
            ..self
        }
    }
}

/// Process an inbound message from the hub chain, relayed by the keeper or
/// the authority, at clock time `now`: the message is decoded, the hub
/// sequence advances by one (held at `u64::MAX`) and the sync time is
/// recorded. A refused message changes nothing.
pub fn handler(ctx: &mut ProcessHubMessage, message_data: Vec<u8>, now: i64) -> (res: Result<
    HubMessageProcessed,
    SpokeError,
>)
    ensures
        old(ctx).refusal(message_data@) matches Some(e) ==> res matches Err(f) && f == e && *final(ctx)
            == *old(ctx),
        old(ctx).refusal(message_data@) is None ==> {
            let sequence = saturating_inc(old(ctx).spoke_state.last_hub_sequence);
            &&& res matches Ok(event) && event.spoke == old(ctx).spoke_state_key && event.sequence == sequence
                && event.message_type@ == spec_decode_hub(message_data@).unwrap().spec_message_type()
            &&& *final(ctx) == old(ctx).accepted(now)
        },
{
    // Verify relayer is authorized
    if !(ctx.relayer.key_eq(&ctx.spoke_state.authority) || ctx.relayer.key_eq(&ctx.spoke_state.keeper)) {
        return Err(SpokeError::UnauthorizedKeeper);
    }
    if ctx.spoke_state.paused {
        return Err(SpokeError::ProtocolPaused);
    }
    // Deserialize the hub message
    let message = match HubToSpokeMessage::from_payload(message_data.as_slice()) {
        Ok(m) => m,
        Err(e) => {
            return Err(e);
        },
    };
    let message_type = message.message_type().to_owned();
    // Update spoke state
    ctx.spoke_state.last_hub_sequence = ctx.spoke_state.last_hub_sequence.saturating_add(1);
    ctx.spoke_state.last_hub_sync = now;
    Ok(
        HubMessageProcessed {
            spoke: ctx.spoke_state_key,
            message_type,
            sequence: ctx.spoke_state.last_hub_sequence,
        },
    )
}

/// What applying a borrow approval reads and writes.
#[derive(Clone, Copy, Debug)]
pub struct ApplyBorrowApproval {
    pub spoke_state: SpokeState,
    pub user_deposit: UserDeposit,
    /// The signer.
    pub authority: Pubkey,
}

impl ApplyBorrowApproval {
    /// The first check that refuses the approval, if any.
    pub open spec fn refusal(self) -> Option<SpokeError> {
        if !is_authority_or_keeper(self.spoke_state, self.authority) {
            Some(SpokeError::UnauthorizedKeeper)
        } else if self.spoke_state.paused {
            Some(SpokeError::ProtocolPaused)
        } else {
            None
        }
    }
}

/// Apply a borrow approval from the hub to a user's deposit, at clock slot
/// `slot`. Refused while the protocol is paused. A refused approval changes
/// nothing.
pub fn apply_borrow_approval(ctx: &mut ApplyBorrowApproval, approved_amount: u64, slot: u64) -> (res: Result<
    BorrowLimitUpdated,
    SpokeError,
>)
    ensures
        old(ctx).refusal() matches Some(e) ==> res == Err::<BorrowLimitUpdated, SpokeError>(e) && *final(ctx)
            == *old(ctx),
        old(ctx).refusal() is None ==> {
            &&& res == Ok::<BorrowLimitUpdated, SpokeError>(
                BorrowLimitUpdated {
                    user: old(ctx).user_deposit.owner,
                    asset: old(ctx).user_deposit.asset_config,
                    new_limit: approved_amount,
                },
            )
            &&& *final(ctx) == (ApplyBorrowApproval {
                user_deposit: UserDeposit {
                    hub_approved_borrow: approved_amount,
                    last_hub_sync_slot: slot,
                    ..old(ctx).user_deposit
                },
                ..*old(ctx)
            })
        },
{
    if !(ctx.authority.key_eq(&ctx.spoke_state.authority) || ctx.authority.key_eq(&ctx.spoke_state.keeper)) {
        return Err(SpokeError::UnauthorizedKeeper);
    }
    if ctx.spoke_state.paused {
        return Err(SpokeError::ProtocolPaused);
    }
    ctx.user_deposit.hub_approved_borrow = approved_amount;
    ctx.user_deposit.last_hub_sync_slot = slot;
    Ok(
        BorrowLimitUpdated {
            user: ctx.user_deposit.owner,
            asset: ctx.user_deposit.asset_config,
            new_limit: approved_amount,
        },
    )
}

} // verus!
