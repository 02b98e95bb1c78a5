use vstd::prelude::*;

use crate::errors::SpokeError;
use crate::events::AssetRegistered;
use crate::pubkey::Pubkey;
use crate::state::asset_config::{MAX_COLLATERAL_FACTOR_BPS, MAX_LIQUIDATION_BONUS_BPS};
use crate::state::{AssetConfig, SpokeState, MAX_SUPPORTED_ASSETS};

verus! {

/// What registering an asset reads and writes.
#[derive(Clone, Copy, Debug)]
pub struct RegisterAsset {
    pub spoke_state: SpokeState,
    /// Address of the spoke state account.
    pub spoke_state_key: Pubkey,
    /// The freshly created asset config account.
    pub asset_config: AssetConfig,
    /// Address of the asset config account.
    pub asset_config_key: Pubkey,
    /// Bump of the asset config's address.
    pub asset_config_bump: u8,
    /// Address of the token mint.
    pub mint: Pubkey,
    /// Decimals of the token mint.
    pub mint_decimals: u8,
    /// Address of the freshly created vault.
    pub vault: Pubkey,
    /// Address of the price feed account.
    pub oracle_feed: Pubkey,
    /// The signer.
    pub authority: Pubkey,
}

impl RegisterAsset {
    /// The first check that refuses the registration, if any.
    pub open spec fn refusal(
        self,
        collateral_factor_bps: u16,
        liquidation_threshold_bps: u16,
        liquidation_bonus_bps: u16,
    ) -> Option<SpokeError> {
        if self.spoke_state.authority@ != self.authority@ {
            Some(SpokeError::Unauthorized)
        } else if self.spoke_state.supported_assets >= MAX_SUPPORTED_ASSETS {
            Some(SpokeError::MaxAssetsReached)
        } else if self.spoke_state.paused {
            Some(SpokeError::ProtocolPaused)
        } else if collateral_factor_bps > MAX_COLLATERAL_FACTOR_BPS {
            Some(SpokeError::MathOverflow)
        } else if liquidation_threshold_bps <= collateral_factor_bps {
            Some(SpokeError::MathOverflow)
        } else if liquidation_bonus_bps > MAX_LIQUIDATION_BONUS_BPS {
            Some(SpokeError::MathOverflow)
        } else {
            None
        }
    }

    /// The accounts after registering the asset with these parameters.
    pub open spec fn accepted(
        self,
        max_deposit: u64,
        collateral_factor_bps: u16,
        liquidation_threshold_bps: u16,
        liquidation_bonus_bps: u16,
    ) -> RegisterAsset {
        RegisterAsset {
            spoke_state: SpokeState {
                supported_assets: (self.spoke_state.supported_assets + 1) as u8,
                ..self.spoke_state
            },
            asset_config: AssetConfig {
                mint: self.mint,
                vault: self.vault,
                oracle_feed: self.oracle_feed,
                max_deposit,
                deposit_enabled: true,
                total_deposited: 0,
                decimals: self.mint_decimals,
                interest_rate_bps: 0,
                last_oracle_price: 0,
                last_oracle_timestamp: 0,
                collateral_factor_bps,
                liquidation_threshold_bps,
                liquidation_bonus_bps,
                bump: self.asset_config_bump,
            },
            ..self
        }
    }
}

/// Register a new supported asset with its oracle and risk parameters.
/// A refused registration changes nothing.
pub fn handler(
    ctx: &mut RegisterAsset,
    max_deposit: u64,
    collateral_factor_bps: u16,
    liquidation_threshold_bps: u16,
    liquidation_bonus_bps: u16,
) -> (res: Result<AssetRegistered, SpokeError>)
    ensures
        old(ctx).refusal(collateral_factor_bps, liquidation_threshold_bps, liquidation_bonus_bps) matches Some(e)
            ==> res == Err::<AssetRegistered, SpokeError>(e) && *final(ctx) == *old(ctx),
        old(ctx).refusal(collateral_factor_bps, liquidation_threshold_bps, liquidation_bonus_bps) is None ==> {
            &&& res == Ok::<AssetRegistered, SpokeError>(
                AssetRegistered {
                    spoke: old(ctx).spoke_state_key,
                    asset_config: old(ctx).asset_config_key,
                    mint: old(ctx).mint,
                    oracle_feed: old(ctx).oracle_feed,
                    max_deposit,
                },
            )
            &&& *final(ctx) == old(ctx).accepted(
                max_deposit,
                collateral_factor_bps,
                liquidation_threshold_bps,
                liquidation_bonus_bps,
            )
        },
        ({
            let o = *old(ctx);
            &&& o.spoke_state.authority@ == o.authority@
            &&& o.spoke_state.supported_assets < 16
            &&& !o.spoke_state.paused
            &&& collateral_factor_bps <= 9500
            &&& collateral_factor_bps < liquidation_threshold_bps
            &&& liquidation_bonus_bps <= 2000
        }) ==> res is Ok && final(ctx).spoke_state.supported_assets == old(ctx).spoke_state.supported_assets + 1,
        old(ctx).spoke_state.authority@ == old(ctx).authority@ && old(ctx).spoke_state.supported_assets >= 16
            ==> res == Err::<AssetRegistered, SpokeError>(SpokeError::MaxAssetsReached),
{
    if !ctx.spoke_state.authority.key_eq(&ctx.authority) {
        return Err(SpokeError::Unauthorized);
    }
    if ctx.spoke_state.supported_assets >= MAX_SUPPORTED_ASSETS {
        return Err(SpokeError::MaxAssetsReached);
    }
    if ctx.spoke_state.paused {
        return Err(SpokeError::ProtocolPaused);
    }
    // Validate parameters
    if collateral_factor_bps > MAX_COLLATERAL_FACTOR_BPS {
        return Err(SpokeError::MathOverflow);
    }
    if liquidation_threshold_bps <= collateral_factor_bps {
        return Err(SpokeError::MathOverflow);
    }
    if liquidation_bonus_bps > MAX_LIQUIDATION_BONUS_BPS {
        return Err(SpokeError::MathOverflow);
    }
    let supported_assets = match ctx.spoke_state.supported_assets.checked_add(1) {
        Some(n) => n,
        None => {
            return Err(SpokeError::MathOverflow);
        },
    };
    ctx.asset_config = AssetConfig {
        mint: ctx.mint,
        vault: ctx.vault,
        oracle_feed: ctx.oracle_feed,
        max_deposit,
        deposit_enabled: true,
        total_deposited: 0,
        decimals: ctx.mint_decimals,
        interest_rate_bps: 0,
        last_oracle_price: 0,
        last_oracle_timestamp: 0,
        collateral_factor_bps,
        liquidation_threshold_bps,
        liquidation_bonus_bps,
        bump: ctx.asset_config_bump,
    };
    ctx.spoke_state.supported_assets = supported_assets;
    Ok(
        AssetRegistered {
            spoke: ctx.spoke_state_key,
            asset_config: ctx.asset_config_key,
            mint: ctx.mint,
            oracle_feed: ctx.oracle_feed,
            max_deposit,
        },
    )
}

} // verus!
