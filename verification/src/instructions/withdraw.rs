use vstd::prelude::*;

use crate::errors::SpokeError;
use crate::events::WithdrawalMade;
use crate::pubkey::Pubkey;
use crate::state::{AssetConfig, SpokeState, UserDeposit};

verus! {

/// What a withdrawal reads and writes.
#[derive(Clone, Copy, Debug)]
pub struct Withdraw {
    pub spoke_state: SpokeState,
    pub asset_config: AssetConfig,
    pub user_deposit: UserDeposit,
    /// Address of the vault account passed in.
    pub asset_vault: Pubkey,
    /// Mint of the token account that receives the tokens.
    pub user_token_mint: Pubkey,
    /// The signer.
    pub withdrawer: Pubkey,
}

/// Collateral value that a debt (or a borrow limit) of `borrowed` needs:
/// `borrowed * threshold / 10000`.
pub open spec fn min_collateral(borrowed: u64, threshold_bps: u16) -> int {
    (borrowed * threshold_bps) / 10_000
}

impl Withdraw {
    /// Collateral value of what stays after withdrawing `amount`.
    pub open spec fn remaining_value(self, amount: u64) -> Option<u64> {
        self.asset_config.spec_collateral_value((self.user_deposit.deposited_amount - amount) as u64)
    }

    /// The position carries debt or a hub-approved borrow limit, so the
    /// remaining deposit must cover both.
    pub open spec fn needs_health_check(self) -> bool {
        self.user_deposit.borrowed_amount > 0 || self.user_deposit.hub_approved_borrow > 0
    }

    /// The first check that refuses withdrawing `amount`, if any.
    pub open spec fn refusal(self, amount: u64) -> Option<SpokeError> {
        let threshold = self.asset_config.liquidation_threshold_bps;
        if self.user_deposit.owner@ != self.withdrawer@ {
            Some(SpokeError::Unauthorized)
        } else if self.asset_vault@ != self.asset_config.vault@ {
            Some(SpokeError::Unauthorized)
        } else if self.user_token_mint@ != self.asset_config.mint@ {
            Some(SpokeError::AssetNotRegistered)
        } else if self.spoke_state.paused {
            Some(SpokeError::ProtocolPaused)
        } else if amount == 0 {
            Some(SpokeError::ZeroWithdrawal)
        } else if self.user_deposit.deposited_amount < amount {
            Some(SpokeError::InsufficientDeposit)
        } else if self.needs_health_check() && self.remaining_value(amount) is None {
            Some(SpokeError::MathOverflow)
        } else if self.needs_health_check() && (self.remaining_value(amount).unwrap() < min_collateral(
            self.user_deposit.borrowed_amount,
            threshold,
        ) || self.remaining_value(amount).unwrap() < min_collateral(
            self.user_deposit.hub_approved_borrow,
            threshold,
        )) {
            Some(SpokeError::WithdrawalExceedsApproval)
        } else if self.asset_config.total_deposited < amount {
            Some(SpokeError::MathOverflow)
        } else {
            None
        }
    }

    /// The accounts after withdrawing `amount`.
    pub open spec fn accepted(self, amount: u64) -> Withdraw {
        Withdraw {
            user_deposit: UserDeposit {
                deposited_amount: (self.user_deposit.deposited_amount - amount) as u64,
                ..self.user_deposit
            },
            asset_config: AssetConfig {
                total_deposited: (self.asset_config.total_deposited - amount) as u64,
                ..self.asset_config
            },
            ..self
        }
    }
}

/// Withdraw deposited collateral. A position with debt or a hub-approved
/// borrow limit keeps, after the withdrawal, collateral worth at least the
/// liquidation threshold's share of each. Refused while the protocol is
/// paused. A refused withdrawal changes nothing.
pub fn handler(ctx: &mut Withdraw, amount: u64, now: i64) -> (res: Result<WithdrawalMade, SpokeError>)
    ensures
        old(ctx).refusal(amount) matches Some(e) ==> res == Err::<WithdrawalMade, SpokeError>(e) && *final(ctx)
            == *old(ctx),
        old(ctx).refusal(amount) is None ==> {
            &&& res == Ok::<WithdrawalMade, SpokeError>(
                WithdrawalMade {
                    user: old(ctx).withdrawer,
                    asset: old(ctx).asset_config.mint,
                    amount,
                    remaining_deposit: (old(ctx).user_deposit.deposited_amount - amount) as u64,
                    timestamp: now,
                },
            )
            &&& *final(ctx) == old(ctx).accepted(amount)
        },
{
    let asset = ctx.asset_config;
    let user = ctx.user_deposit;
    if !user.owner.key_eq(&ctx.withdrawer) {
        return Err(SpokeError::Unauthorized);
    }
    if !ctx.asset_vault.key_eq(&asset.vault) {
        return Err(SpokeError::Unauthorized);
    }
    if !ctx.user_token_mint.key_eq(&asset.mint) {
        return Err(SpokeError::AssetNotRegistered);
    }
    if ctx.spoke_state.paused {
        return Err(SpokeError::ProtocolPaused);
    }
    if amount == 0 {
        return Err(SpokeError::ZeroWithdrawal);
    }
    if user.deposited_amount < amount {
        return Err(SpokeError::InsufficientDeposit);
    }
    // With debt or a borrow limit, the withdrawal must keep the position healthy
    if user.borrowed_amount > 0 || user.hub_approved_borrow > 0 {
        let remaining = user.deposited_amount - amount;
        let remaining_value = match asset.calculate_collateral_value(remaining) {
            Some(v) => v,
            None => {
                return Err(SpokeError::MathOverflow);
            },
        };
        // After withdrawal, health must stay above liquidation threshold
        proof {
            crate::math::lemma_mul_u64_fits(user.borrowed_amount, asset.liquidation_threshold_bps as u64);
            crate::math::lemma_mul_u64_fits(user.hub_approved_borrow, asset.liquidation_threshold_bps as u64);
        }
        let min_for_debt: u128 = (user.borrowed_amount as u128) * (asset.liquidation_threshold_bps as u128)
            / 10_000;
        let min_for_limit: u128 = (user.hub_approved_borrow as u128) * (asset.liquidation_threshold_bps as u128)
            / 10_000;
        if (remaining_value as u128) < min_for_debt || (remaining_value as u128) < min_for_limit {
            return Err(SpokeError::WithdrawalExceedsApproval);
        }
    }
    let total = match asset.total_deposited.checked_sub(amount) {
        Some(t) => t,
        None => {
            return Err(SpokeError::MathOverflow);
        },
    };
    ctx.user_deposit.deposited_amount = user.deposited_amount - amount;
    ctx.asset_config.total_deposited = total;
    Ok(
        WithdrawalMade {
            user: ctx.withdrawer,
            asset: asset.mint,
            amount,
            remaining_deposit: ctx.user_deposit.deposited_amount,
            timestamp: now,
        },
    )
}

} // verus!
