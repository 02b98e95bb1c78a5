use vstd::prelude::*;

use crate::errors::SpokeError;
use crate::events::DepositMade;
use crate::pubkey::Pubkey;
use crate::state::{AssetConfig, SpokeState, UserDeposit};

verus! {

/// What a deposit reads and writes.
#[derive(Clone, Copy, Debug)]
pub struct Deposit {
    pub spoke_state: SpokeState,
    pub asset_config: AssetConfig,
    /// Address of the asset config account.
    pub asset_config_key: Pubkey,
    /// The depositor's position; all zero when the account was just created.
    pub user_deposit: UserDeposit,
    /// Bump of the position's address.
    pub user_deposit_bump: u8,
    /// Address of the vault account passed in.
    pub asset_vault: Pubkey,
    /// Mint of the token account the tokens come from.
    pub user_token_mint: Pubkey,
    /// The signer.
    pub depositor: Pubkey,
}

impl Deposit {
    /// The first check that refuses depositing `amount`, if any.
    pub open spec fn refusal(self, amount: u64) -> Option<SpokeError> {
        if self.asset_vault@ != self.asset_config.vault@ {
            Some(SpokeError::Unauthorized)
        } else if self.user_token_mint@ != self.asset_config.mint@ {
            Some(SpokeError::AssetNotRegistered)
        } else if amount == 0 {
            Some(SpokeError::ZeroDeposit)
        } else if self.spoke_state.paused {
            Some(SpokeError::ProtocolPaused)
        } else if !self.asset_config.spec_can_deposit(amount) {
            Some(SpokeError::DepositCapExceeded)
        } else if self.user_deposit.deposited_amount + amount > u64::MAX {
            Some(SpokeError::MathOverflow)
        } else {
            None
        }
    }

    /// The position before the deposit is added: an empty one is set up
    /// afresh for the depositor.
    pub open spec fn position_before(self, now: i64) -> UserDeposit {
        if self.user_deposit.deposited_amount == 0 {
            UserDeposit {
                owner: self.depositor,
                asset_config: self.asset_config_key,
                deposit_timestamp: now,
                hub_approved_borrow: 0,
                borrowed_amount: 0,
                pending_withdrawal: 0,
                withdrawal_pending: false,
                bump: self.user_deposit_bump,
                ..self.user_deposit
            }
        } else {
            self.user_deposit
        }
    }

    /// The accounts after depositing `amount` at clock time `now`.
    pub open spec fn accepted(self, amount: u64, now: i64) -> Deposit {
        Deposit {
            user_deposit: UserDeposit {
                deposited_amount: (self.user_deposit.deposited_amount + amount) as u64,
                ..self.position_before(now)
            },
            asset_config: AssetConfig {
                total_deposited: (self.asset_config.total_deposited + amount) as u64,
                ..self.asset_config
            },
            ..self
        }
    }
}

/// Deposit tokens as collateral. A refused deposit changes nothing.
pub fn handler(ctx: &mut Deposit, amount: u64, now: i64) -> (res: Result<DepositMade, SpokeError>)
    ensures
        old(ctx).refusal(amount) matches Some(e) ==> res == Err::<DepositMade, SpokeError>(e) && *final(ctx)
            == *old(ctx),
        old(ctx).refusal(amount) is None ==> {
            let total = (old(ctx).user_deposit.deposited_amount + amount) as u64;
            &&& res == Ok::<DepositMade, SpokeError>(
                DepositMade {
                    user: old(ctx).depositor,
                    asset: old(ctx).asset_config.mint,
                    amount,
                    oracle_price: old(ctx).asset_config.last_oracle_price,
                    total_deposited: total,
                    timestamp: now,
                },
            )
            &&& *final(ctx) == old(ctx).accepted(amount, now)
        },
        old(ctx).refusal(amount) is None ==> {
            &&& res is Ok
            &&& final(ctx).user_deposit.deposited_amount == old(ctx).user_deposit.deposited_amount + amount
            &&& final(ctx).asset_config.total_deposited == old(ctx).asset_config.total_deposited + amount
            &&& final(ctx).asset_config.total_deposited <= old(ctx).asset_config.max_deposit
        },
{
    let asset = ctx.asset_config;
    if !ctx.asset_vault.key_eq(&asset.vault) {
        return Err(SpokeError::Unauthorized);
    }
    if !ctx.user_token_mint.key_eq(&asset.mint) {
        return Err(SpokeError::AssetNotRegistered);
    }
    if amount == 0 {
        return Err(SpokeError::ZeroDeposit);
    }
    if ctx.spoke_state.paused {
        return Err(SpokeError::ProtocolPaused);
    }
    if !asset.can_deposit(amount) {
        return Err(SpokeError::DepositCapExceeded);
    }
    let mut user = ctx.user_deposit;
    if user.deposited_amount == 0 {
        // First deposit: initialize
        user.owner = ctx.depositor;
        user.asset_config = ctx.asset_config_key;
        user.deposit_timestamp = now;
        user.hub_approved_borrow = 0;
        user.borrowed_amount = 0;
        user.pending_withdrawal = 0;
        user.withdrawal_pending = false;
        user.bump = ctx.user_deposit_bump;
    }
    user.deposited_amount = match user.deposited_amount.checked_add(amount) {
        Some(total) => total,
        None => {
            return Err(SpokeError::MathOverflow);
        },
    };
    let total_deposited = match asset.total_deposited.checked_add(amount) {
        Some(total) => total,
        None => {
            return Err(SpokeError::MathOverflow);
        },
    };
    ctx.user_deposit = user;
    ctx.asset_config.total_deposited = total_deposited;
    Ok(
        DepositMade {
            user: ctx.depositor,
            asset: asset.mint,
            amount,
            oracle_price: asset.last_oracle_price,
            total_deposited: user.deposited_amount,
            timestamp: now,
        },
    )
}

} // verus!
