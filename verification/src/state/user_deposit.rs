use vstd::prelude::*;

use crate::pubkey::Pubkey;

verus! {

/// One user's deposit of one asset.
#[derive(Clone, Copy, Debug)]
pub struct UserDeposit {
    /// Depositor's wallet
    pub owner: Pubkey,
    /// Links to the AssetConfig for this deposit
    pub asset_config: Pubkey,
    /// Amount of tokens deposited
    pub deposited_amount: u64,
    /// Timestamp of first deposit
    pub deposit_timestamp: i64,
    /// Last time this deposit was synced with the hub
    pub last_hub_sync_slot: u64,
    /// Borrow limit approved by the hub (in USD, 6 decimals)
    pub hub_approved_borrow: u64,
    /// Amount already borrowed against this deposit
    pub borrowed_amount: u64,
    /// Pending withdrawal amount (awaiting hub approval)
    pub pending_withdrawal: u64,
    /// Whether a withdrawal is pending hub approval
    pub withdrawal_pending: bool,
    /// PDA bump
    pub bump: u8,
}

impl UserDeposit {
    /// `collateral * 100 / borrowed`, held at `u64::MAX`; `u64::MAX` when
    /// nothing is borrowed.
    pub open spec fn spec_health_factor(&self, collateral_value_usd: u64) -> u64 {
        if self.borrowed_amount == 0 {
            u64::MAX
        } else {
            let health = (collateral_value_usd * 100) / (self.borrowed_amount as int);
            if health > u64::MAX {
                u64::MAX
            } else {
                health as u64
            }
        }
    }

    /// Liquidatable when something is borrowed and the collateral value is
    /// below `borrowed * threshold / 10000`.
    pub open spec fn spec_is_liquidatable(&self, collateral_value_usd: u64, liquidation_threshold_bps: u16) -> bool {
        self.borrowed_amount != 0 && collateral_value_usd < (self.borrowed_amount * liquidation_threshold_bps) / 10_000
    }

    /// Calculate health factor: (collateral_value / borrowed_amount) * 100
    /// Returns percentage (100 = healthy at 1:1, higher is safer)
    pub fn calculate_health_factor(&self, collateral_value_usd: u64) -> (health: u64)
        ensures
            health == self.spec_health_factor(collateral_value_usd),
            self.borrowed_amount == 0 ==> health == u64::MAX,
            self.borrowed_amount > 0 ==> {
                let percent = (collateral_value_usd * 100) / (self.borrowed_amount as int);
                &&& percent <= u64::MAX ==> health == percent
                &&& percent > u64::MAX ==> health == u64::MAX
            },
    {
        if self.borrowed_amount == 0 {
            return u64::MAX;
        }
        let scaled: u128 = (collateral_value_usd as u128) * 100;
        let health = scaled / (self.borrowed_amount as u128);
        if health > u64::MAX as u128 {
            u64::MAX
        } else {
            health as u64
        }
    }

    /// Check if position is liquidatable based on liquidation threshold.
    pub fn is_liquidatable(&self, collateral_value_usd: u64, liquidation_threshold_bps: u16) -> (liquidatable: bool)
        ensures
            liquidatable == self.spec_is_liquidatable(collateral_value_usd, liquidation_threshold_bps),
    {
        if self.borrowed_amount == 0 {
            return false;
        }
        proof {
            crate::math::lemma_mul_u64_fits(self.borrowed_amount, liquidation_threshold_bps as u64);
        }
        let product: u128 = (self.borrowed_amount as u128) * (liquidation_threshold_bps as u128);
        let threshold_value = product / 10_000;
        (collateral_value_usd as u128) < threshold_value
    }
}

} // verus!
