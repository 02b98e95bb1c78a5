use vstd::prelude::*;

use crate::errors::SpokeError;
use crate::events::LiquidationExecuted;
use crate::pubkey::Pubkey;
use crate::state::{AssetConfig, SpokeState, UserDeposit};

verus! {

/// What a liquidation reads and writes: the accounts' contents, and the
/// addresses that the account constraints compare.
#[derive(Clone, Copy, Debug)]
pub struct Liquidate {
    pub spoke_state: SpokeState,
    pub asset_config: AssetConfig,
    /// Address of the asset config account.
    pub asset_config_key: Pubkey,
    /// The position being liquidated.
    pub user_deposit: UserDeposit,
    /// Address of the vault account passed in.
    pub asset_vault: Pubkey,
    /// Anyone can call liquidate (keeper incentivized)
    pub liquidator: Pubkey,
}

/// Reward of the liquidator: the bonus share of the liquidated amount.
pub open spec fn liquidation_reward(amount: u64, bonus_bps: u16) -> int {
    (amount * bonus_bps) / 10_000
}

impl Liquidate {
    /// Collateral value of the whole position.
    pub open spec fn position_value(self) -> Option<u64> {
        self.asset_config.spec_collateral_value(self.user_deposit.deposited_amount)
    }

    /// The account constraints hold and the protocol runs: the position
    /// is valued next.
    pub open spec fn reaches_valuation(self) -> bool {
        &&& self.user_deposit.asset_config@ == self.asset_config_key@
        &&& self.asset_vault@ == self.asset_config.vault@
        &&& !self.spoke_state.paused
    }

    /// The first check that refuses liquidating `amount`, if any.
    pub open spec fn refusal(self, amount: u64) -> Option<SpokeError> {
        if self.user_deposit.asset_config@ != self.asset_config_key@ {
            Some(SpokeError::AssetNotRegistered)
        } else if self.asset_vault@ != self.asset_config.vault@ {
            Some(SpokeError::Unauthorized)
        } else if self.spoke_state.paused {
            Some(SpokeError::ProtocolPaused)
        } else if self.position_value() is None {
            Some(SpokeError::MathOverflow)
        } else if !self.user_deposit.spec_is_liquidatable(
            self.position_value().unwrap(),
            self.asset_config.liquidation_threshold_bps,
        ) {
            Some(SpokeError::PositionHealthy)
        } else if amount > self.user_deposit.deposited_amount {
            Some(SpokeError::LiquidationTooLarge)
        } else if amount + liquidation_reward(amount, self.asset_config.liquidation_bonus_bps) > u64::MAX {
            Some(SpokeError::LiquidationRewardOverflow)
        } else if self.user_deposit.deposited_amount == 0 {
            Some(SpokeError::DivisionByZero)
        } else if self.asset_config.total_deposited < self.seized(amount) {
            Some(SpokeError::MathOverflow)
        } else {
            None
        }
    }

    /// Collateral taken from the position: amount plus reward, capped at
    /// the deposit.
    pub open spec fn seized(self, amount: u64) -> int {
        let total = amount + liquidation_reward(amount, self.asset_config.liquidation_bonus_bps);
        if total < self.user_deposit.deposited_amount {
            total
        } else {
            self.user_deposit.deposited_amount as int
        }
    }

    /// Debt written off: the borrowed amount times the liquidated share of
    /// the deposit, in whole basis points.
    pub open spec fn debt_repaid(self, amount: u64) -> int {
        if self.user_deposit.borrowed_amount > 0 {
            (self.user_deposit.borrowed_amount * ((amount * 10_000) / (self.user_deposit.deposited_amount as int)))
                / 10_000
        } else {
            0
        }
    }

    /// The accounts after liquidating `amount`: the seized collateral leaves
    /// the position and the asset's total, and the matching share of debt is
    /// written off.
    pub open spec fn accepted(self, amount: u64) -> Liquidate {
        Liquidate {
            user_deposit: UserDeposit {
                deposited_amount: (self.user_deposit.deposited_amount - self.seized(amount)) as u64,
                borrowed_amount: (self.user_deposit.borrowed_amount - self.debt_repaid(amount)) as u64,
                ..self.user_deposit
            },
            asset_config: AssetConfig {
                total_deposited: (self.asset_config.total_deposited - self.seized(amount)) as u64,
                ..self.asset_config
            },
            ..self
        }
    }
}

/// Liquidate an unhealthy position: seize `amount` plus the liquidator's
/// bonus (capped at the deposit), take it off the asset's total, and write
/// off the matching share of debt. A refused liquidation changes nothing.
pub fn handler(ctx: &mut Liquidate, amount_to_liquidate: u64) -> (res: Result<LiquidationExecuted, SpokeError>)
    ensures
        old(ctx).refusal(amount_to_liquidate) matches Some(e) ==> res == Err::<LiquidationExecuted, SpokeError>(e)
            && *final(ctx) == *old(ctx),
        old(ctx).refusal(amount_to_liquidate) is None ==> {
            &&& res == Ok::<LiquidationExecuted, SpokeError>(
                LiquidationExecuted {
                    user: old(ctx).user_deposit.owner,
                    asset: old(ctx).asset_config.mint,
                    amount_liquidated: old(ctx).seized(amount_to_liquidate) as u64,
                    liquidator: old(ctx).liquidator,
                    liquidator_reward: liquidation_reward(
                        amount_to_liquidate,
                        old(ctx).asset_config.liquidation_bonus_bps,
                    ) as u64,
                },
            )
            &&& *final(ctx) == old(ctx).accepted(amount_to_liquidate)
        },
        old(ctx).refusal(amount_to_liquidate) is None ==> {
            let deposit = old(ctx).user_deposit.deposited_amount as int;
            let bonus = (amount_to_liquidate * old(ctx).asset_config.liquidation_bonus_bps) / 10_000;
            let wanted = amount_to_liquidate + bonus;
            let taken = if wanted < deposit { wanted } else { deposit };
            let borrowed = old(ctx).user_deposit.borrowed_amount as int;
            &&& res is Ok
            &&& res.unwrap().amount_liquidated == taken
            &&& res.unwrap().liquidator_reward == bonus
            &&& final(ctx).user_deposit.deposited_amount == deposit - taken
            &&& wanted >= deposit ==> final(ctx).user_deposit.deposited_amount == 0
            &&& final(ctx).asset_config.total_deposited == old(ctx).asset_config.total_deposited - taken
            &&& final(ctx).user_deposit.borrowed_amount == borrowed - (borrowed * ((amount_to_liquidate * 10_000)
                / deposit)) / 10_000
        },
{
    let asset = ctx.asset_config;
    let user = ctx.user_deposit;
    if !user.asset_config.key_eq(&ctx.asset_config_key) {
        return Err(SpokeError::AssetNotRegistered);
    }
    if !ctx.asset_vault.key_eq(&asset.vault) {
        return Err(SpokeError::Unauthorized);
    }
    if ctx.spoke_state.paused {
        return Err(SpokeError::ProtocolPaused);
    }
    // Verify position is actually liquidatable
    let collateral_value = match asset.calculate_collateral_value(user.deposited_amount) {
        Some(v) => v,
        None => {
            return Err(SpokeError::MathOverflow);
        },
    };
    if !user.is_liquidatable(collateral_value, asset.liquidation_threshold_bps) {
        return Err(SpokeError::PositionHealthy);
    }
    // Cap liquidation amount
    if amount_to_liquidate > user.deposited_amount {
        return Err(SpokeError::LiquidationTooLarge);
    }
    // Calculate liquidator reward
    proof {
        crate::math::lemma_mul_u64_fits(amount_to_liquidate, asset.liquidation_bonus_bps as u64);
    }
    let reward_wide: u128 = (amount_to_liquidate as u128) * (asset.liquidation_bonus_bps as u128) / 10_000;
    let total_wide: u128 = (amount_to_liquidate as u128) + reward_wide;
    if total_wide > u64::MAX as u128 {
        return Err(SpokeError::LiquidationRewardOverflow);
    }
    let liquidator_reward = reward_wide as u64;
    let total_seized = total_wide as u64;
    // Cap total seized to available deposit
    let actual_seized = if total_seized < user.deposited_amount {
        total_seized
    } else {
        user.deposited_amount
    };
    // The debt share divides by the size of the position
    if user.deposited_amount == 0 {
        return Err(SpokeError::DivisionByZero);
    }
    let total_deposited = match asset.total_deposited.checked_sub(actual_seized) {
        Some(t) => t,
        None => {
            return Err(SpokeError::MathOverflow);
        },
    };
    let remaining = user.deposited_amount - actual_seized;
    // Reduce borrowed amount proportionally
    let mut borrowed = user.borrowed_amount;
    if borrowed > 0 {
        let deposit_before: u64 = user.deposited_amount;
        let ratio: u128 = (amount_to_liquidate as u128) * 10_000 / (deposit_before as u128);
        assert(ratio <= 10_000) by (nonlinear_arith)
            requires
                ratio == (amount_to_liquidate * 10_000) / (deposit_before as int),
                amount_to_liquidate <= deposit_before,
                deposit_before > 0,
        ;
        assert(borrowed * ratio <= borrowed * 10_000) by (nonlinear_arith)
            requires
                ratio <= 10_000,
        ;
        let debt_repaid: u128 = (borrowed as u128) * ratio / 10_000;
        assert(debt_repaid <= borrowed) by (nonlinear_arith)
            requires
                debt_repaid == (borrowed * ratio) / 10_000,
                borrowed * ratio <= borrowed * 10_000,
        ;
        borrowed = borrowed - (debt_repaid as u64);
    }
    ctx.user_deposit.deposited_amount = remaining;
    ctx.user_deposit.borrowed_amount = borrowed;
    ctx.asset_config.total_deposited = total_deposited;
    Ok(
        LiquidationExecuted {
            user: user.owner,
            asset: asset.mint,
            amount_liquidated: actual_seized,
            liquidator: ctx.liquidator,
            liquidator_reward,
        },
    )
}

} // verus!
