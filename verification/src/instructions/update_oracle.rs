use vstd::prelude::*;

use crate::errors::SpokeError;
use crate::events::OracleUpdated;
use crate::math::{saturating_diff_i64, saturating_sub_i64};
use crate::pubkey::Pubkey;
use crate::state::{AssetConfig, SpokeState};

verus! {

/// Maximum staleness for oracle data: 30 seconds
pub const MAX_ORACLE_STALENESS: i64 = 30;

/// Maximum confidence interval: 1% of price
pub const MAX_CONFIDENCE_RATIO_BPS: u64 = 100;

/// What an oracle update reads and writes.
#[derive(Clone, Copy, Debug)]
pub struct UpdateOracle {
    pub spoke_state: SpokeState,
    pub asset_config: AssetConfig,
    /// Address of the price feed account passed in.
    pub oracle_feed: Pubkey,
    /// Keeper or authority updating the oracle
    pub updater: Pubkey,
}

/// The confidence interval is wider than `MAX_CONFIDENCE_RATIO_BPS` of the
/// price, compared exactly.
pub open spec fn confidence_too_wide(confidence: u64, price: u64) -> bool {
    confidence * 10_000 > price * MAX_CONFIDENCE_RATIO_BPS
}

impl UpdateOracle {
    /// The first check that refuses the update, if any.
    pub open spec fn refusal(self, price: u64, confidence: u64, publish_timestamp: i64, now: i64) -> Option<
        SpokeError,
    > {
        if self.oracle_feed@ != self.asset_config.oracle_feed@ {
            Some(SpokeError::OracleInvalidPrice)
        } else if self.spoke_state.paused {
            Some(SpokeError::ProtocolPaused)
        } else if price == 0 {
            Some(SpokeError::OracleInvalidPrice)
        } else if saturating_diff_i64(now, publish_timestamp) > MAX_ORACLE_STALENESS {
            Some(SpokeError::OracleStale)
        } else if confidence_too_wide(confidence, price) {
            Some(SpokeError::OracleConfidenceTooWide)
        } else {
            None
        }
    }

    /// The accounts after caching `price`, published at `publish_timestamp`.
    pub open spec fn accepted(self, price: u64, publish_timestamp: i64) -> UpdateOracle {
        UpdateOracle {
            asset_config: AssetConfig {
                last_oracle_price: price,
                last_oracle_timestamp: publish_timestamp,
                ..self.asset_config
            },
            ..self
        }
    }
}

/// Update cached oracle price for an asset, at clock time `now`. Prices
/// published more than 30 seconds ago, or whose confidence interval is over
/// 1% of the price, are refused, and so is any update while the protocol
/// is paused. A refused update changes nothing.
pub fn handler(ctx: &mut UpdateOracle, price: u64, confidence: u64, publish_timestamp: i64, now: i64) -> (res:
    Result<OracleUpdated, SpokeError>)
    ensures
        old(ctx).refusal(price, confidence, publish_timestamp, now) matches Some(e) ==> res == Err::<
            OracleUpdated,
            SpokeError,
        >(e) && *final(ctx) == *old(ctx),
        old(ctx).refusal(price, confidence, publish_timestamp, now) is None ==> {
            &&& res == Ok::<OracleUpdated, SpokeError>(
                OracleUpdated {
                    asset: old(ctx).asset_config.mint,
                    price,
                    confidence,
                    timestamp: publish_timestamp,
                },
            )
            &&& *final(ctx) == old(ctx).accepted(price, publish_timestamp)
        },
{
    if !ctx.oracle_feed.key_eq(&ctx.asset_config.oracle_feed) {
        return Err(SpokeError::OracleInvalidPrice);
    }
    if ctx.spoke_state.paused {
        return Err(SpokeError::ProtocolPaused);
    }
    // Validate oracle data
    if price == 0 {
        return Err(SpokeError::OracleInvalidPrice);
    }
    let staleness = saturating_sub_i64(now, publish_timestamp);
    if staleness > MAX_ORACLE_STALENESS {
        return Err(SpokeError::OracleStale);
    }
    // Check confidence interval
    proof {
        crate::math::lemma_mul_u64_fits(confidence, 10_000);
    }
    proof {
        crate::math::lemma_mul_u64_fits(price, MAX_CONFIDENCE_RATIO_BPS);
    }
    if (confidence as u128) * 10_000 > (price as u128) * (MAX_CONFIDENCE_RATIO_BPS as u128) {
        return Err(SpokeError::OracleConfidenceTooWide);
    }
    // Update cached oracle data
    ctx.asset_config.last_oracle_price = price;
    ctx.asset_config.last_oracle_timestamp = publish_timestamp;
    Ok(OracleUpdated { asset: ctx.asset_config.mint, price, confidence, timestamp: publish_timestamp })
}

} // verus!
