use vstd::prelude::*;

use crate::math::{pow10, pow10_u128, MAX_POW10_EXPONENT_U128};
use crate::pubkey::Pubkey;

verus! {

/// Highest collateral factor an asset can be registered with (95%).
pub const MAX_COLLATERAL_FACTOR_BPS: u16 = 9500;

/// Highest liquidation bonus an asset can be registered with (20%).
pub const MAX_LIQUIDATION_BONUS_BPS: u16 = 2000;

/// Per-asset configuration and risk parameters.
#[derive(Clone, Copy, Debug)]
pub struct AssetConfig {
    /// SPL token mint for this asset
    pub mint: Pubkey,
    /// PDA vault holding deposited tokens
    pub vault: Pubkey,
    /// Price feed account
    pub oracle_feed: Pubkey,
    /// Maximum total deposit allowed for this asset
    pub max_deposit: u64,
    /// Whether deposits are currently enabled
    pub deposit_enabled: bool,
    /// Total amount deposited across all users
    pub total_deposited: u64,
    /// Token decimals (cached from mint)
    pub decimals: u8,
    /// Interest rate in basis points (set by hub)
    pub interest_rate_bps: u64,
    /// Last oracle price (cached for quick reads)
    pub last_oracle_price: u64,
    /// Last oracle update timestamp
    pub last_oracle_timestamp: i64,
    /// Collateral factor in basis points (e.g., 8000 = 80%)
    pub collateral_factor_bps: u16,
    /// Liquidation threshold in basis points (e.g., 8500 = 85%)
    pub liquidation_threshold_bps: u16,
    /// Liquidation bonus in basis points (e.g., 500 = 5%)
    pub liquidation_bonus_bps: u16,
    /// PDA bump
    pub bump: u8,
}

/// Collateral value of `amount` tokens: `amount * price / 10^decimals`,
/// then scaled by the collateral factor in basis points. Every step is
/// checked: `None` where `10^decimals` or the scaled value overflows a
/// `u128`, or the result does not fit in a `u64`.
pub open spec fn collateral_value(amount: u64, price: u64, decimals: u8, factor_bps: u16) -> Option<u64> {
    if decimals > MAX_POW10_EXPONENT_U128 {
        None
    } else {
        let value = (amount * price) / (pow10(decimals as nat) as int);
        let scaled = value * factor_bps;
        if scaled > u128::MAX || scaled / 10_000 > u64::MAX {
            None
        } else {
            Some((scaled / 10_000) as u64)
        }
    }
}

impl AssetConfig {
    pub open spec fn spec_collateral_value(&self, amount: u64) -> Option<u64> {
        collateral_value(amount, self.last_oracle_price, self.decimals, self.collateral_factor_bps)
    }

    /// The risk parameters an asset is registered with: a collateral factor
    /// of at most 95%, a liquidation threshold above it, and a liquidation
    /// bonus of at most 20%.
    pub open spec fn within_registration_bounds(&self) -> bool {
        &&& self.collateral_factor_bps <= MAX_COLLATERAL_FACTOR_BPS
        &&& self.liquidation_threshold_bps > self.collateral_factor_bps
        &&& self.liquidation_bonus_bps <= MAX_LIQUIDATION_BONUS_BPS
    }

    /// Whether a deposit of `amount` fits under the cap of an enabled asset.
    pub open spec fn spec_can_deposit(&self, amount: u64) -> bool {
        self.deposit_enabled && self.total_deposited + amount <= self.max_deposit
    }

    /// Calculate the collateral value of a deposit amount in USD terms.
    /// Returns value scaled by 10^6 (6 decimal places).
    pub fn calculate_collateral_value(&self, amount: u64) -> (value: Option<u64>)
        ensures
            value == self.spec_collateral_value(amount),
    {
        if self.decimals > MAX_POW10_EXPONENT_U128 {
            return None;
        }
        proof {
            crate::math::lemma_mul_u64_fits(amount, self.last_oracle_price);
        }
        let product: u128 = (amount as u128) * (self.last_oracle_price as u128);
        let divisor = pow10_u128(self.decimals);
        proof {
            crate::math::lemma_pow10_positive(self.decimals as nat);
        }
        let value = product / divisor;
        match value.checked_mul(self.collateral_factor_bps as u128) {
            None => None,
            Some(scaled) => {
                let collateral_value = scaled / 10_000;
                if collateral_value > u64::MAX as u128 {
                    None
                } else {
                    Some(collateral_value as u64)
                }
            },
        }
    }

    /// Check if a deposit of `amount` would exceed the cap.
    pub fn can_deposit(&self, amount: u64) -> (ok: bool)
        ensures
            ok == self.spec_can_deposit(amount),
    {
        self.deposit_enabled && match self.total_deposited.checked_add(amount) {
            None => false,
            Some(total) => total <= self.max_deposit,
        }
    }
}

} // verus!
