//! Properties that span the instructions: what the protocol promises of
//! every call, stated over the same spec functions that the instructions'
//! contracts use.
use vstd::prelude::*;

use crate::errors::SpokeError;
use crate::instructions::admin::AdminAction;
use crate::instructions::deposit::Deposit;
use crate::instructions::initialize::InitializeSpoke;
use crate::instructions::liquidate::{liquidation_reward, Liquidate};
use crate::instructions::process_hub_message::{ApplyBorrowApproval, ProcessHubMessage};
use crate::instructions::register_asset::RegisterAsset;
use crate::instructions::update_oracle::{UpdateOracle, MAX_CONFIDENCE_RATIO_BPS, MAX_ORACLE_STALENESS};
use crate::instructions::withdraw::{min_collateral, Withdraw};
use crate::math::{lemma_pow10_positive, pow10, saturating_diff_i64};
use crate::pubkey::Pubkey;
use crate::state::{AssetConfig, UserDeposit};

verus! {

// ---------------------------------------------------------------------------
// Health checks
// ---------------------------------------------------------------------------

/// Health checks: a withdrawal that goes through leaves a position that a
/// liquidation of the same position refuses, whatever amount it asks for:
/// with debt outstanding it is refused as healthy.
pub proof fn lemma_withdrawal_leaves_position_unliquidatable(
    w: Withdraw,
    amount: u64,
    l: Liquidate,
    amount_to_liquidate: u64,
)
    requires
        w.refusal(amount) is None,
        l.user_deposit == w.accepted(amount).user_deposit,
        l.asset_config == w.accepted(amount).asset_config,
    ensures
        l.refusal(amount_to_liquidate) is Some,
        l.reaches_valuation() && w.user_deposit.borrowed_amount > 0 ==> l.refusal(amount_to_liquidate) == Some(
            SpokeError::PositionHealthy,
        ),
{
    assert(l.position_value() == w.remaining_value(amount));
}

/// Hub-approved borrow limit: a withdrawal that goes through leaves
/// collateral worth at least the liquidation threshold's share of both the
/// debt and the limit the hub approved.
pub proof fn lemma_withdrawal_respects_borrow_limit(w: Withdraw, amount: u64)
    requires
        w.refusal(amount) is None,
        w.user_deposit.borrowed_amount > 0 || w.user_deposit.hub_approved_borrow > 0,
    ensures
        w.remaining_value(amount) is Some,
        w.remaining_value(amount).unwrap() >= min_collateral(
            w.user_deposit.hub_approved_borrow,
            w.asset_config.liquidation_threshold_bps,
        ),
        w.remaining_value(amount).unwrap() >= min_collateral(
            w.user_deposit.borrowed_amount,
            w.asset_config.liquidation_threshold_bps,
        ),
{
}

/// Only the owner of a position withdraws from it.
pub proof fn lemma_only_owner_withdraws(w: Withdraw, amount: u64)
    requires
        w.withdrawer@ != w.user_deposit.owner@,
    ensures
        w.refusal(amount) == Some(SpokeError::Unauthorized),
{
}

// ---------------------------------------------------------------------------
// Emergency pause and roles
// ---------------------------------------------------------------------------

/// Emergency pause: on a paused spoke every operation but the authority's
/// own (pause, unpause, changing the keeper) is refused: deposits,
/// withdrawals, liquidations, oracle updates, hub messages, borrow
/// approvals and asset registrations.
pub proof fn lemma_paused_spoke_refuses(
    d: Deposit,
    deposit_amount: u64,
    w: Withdraw,
    withdraw_amount: u64,
    l: Liquidate,
    liquidation_amount: u64,
    u: UpdateOracle,
    price: u64,
    confidence: u64,
    publish_timestamp: i64,
    now: i64,
    p: ProcessHubMessage,
    message: Seq<u8>,
    b: ApplyBorrowApproval,
    r: RegisterAsset,
    collateral_factor_bps: u16,
    liquidation_threshold_bps: u16,
    liquidation_bonus_bps: u16,
)
    requires
        d.spoke_state.paused,
        w.spoke_state.paused,
        l.spoke_state.paused,
        u.spoke_state.paused,
        p.spoke_state.paused,
        b.spoke_state.paused,
        r.spoke_state.paused,
    ensures
        d.refusal(deposit_amount) is Some,
        w.refusal(withdraw_amount) is Some,
        l.refusal(liquidation_amount) is Some,
        u.refusal(price, confidence, publish_timestamp, now) is Some,
        p.refusal(message) is Some,
        b.refusal() is Some,
        r.refusal(collateral_factor_bps, liquidation_threshold_bps, liquidation_bonus_bps) is Some,
{
}

/// Pausing and then unpausing, both by the authority, gives back the
/// spoke as it was when it was running.
pub proof fn lemma_unpause_undoes_pause(a: AdminAction)
    requires
        a.signed_by_authority(),
        !a.spoke_state.paused,
    ensures
        a.with_paused(true).signed_by_authority(),
        a.with_paused(true).with_paused(false) == a,
{
}

/// Keeper role: a keeper that is not the authority can relay hub messages
/// and apply borrow approvals, but cannot pause, unpause, change the keeper
/// or register assets.
pub proof fn lemma_keeper_role(
    a: AdminAction,
    r: RegisterAsset,
    collateral_factor_bps: u16,
    liquidation_threshold_bps: u16,
    liquidation_bonus_bps: u16,
    p: ProcessHubMessage,
    message: Seq<u8>,
    b: ApplyBorrowApproval,
)
    requires
        a.authority@ == a.spoke_state.keeper@ && a.spoke_state.keeper@ != a.spoke_state.authority@,
        r.authority@ == r.spoke_state.keeper@ && r.spoke_state.keeper@ != r.spoke_state.authority@,
        p.relayer@ == p.spoke_state.keeper@,
        b.authority@ == b.spoke_state.keeper@,
    ensures
        !a.signed_by_authority(),
        r.refusal(collateral_factor_bps, liquidation_threshold_bps, liquidation_bonus_bps) == Some(
            SpokeError::Unauthorized,
        ),
        p.refusal(message) != Some(SpokeError::UnauthorizedKeeper),
        b.refusal() != Some(SpokeError::UnauthorizedKeeper),
{
}

// ---------------------------------------------------------------------------
// Caps, oracle, liquidation
// ---------------------------------------------------------------------------

/// Deposit cap: a deposit that goes through keeps the asset's total at or
/// under its maximum, on an asset open to deposits.
pub proof fn lemma_deposit_respects_cap(d: Deposit, amount: u64, now: i64)
    requires
        d.refusal(amount) is None,
    ensures
        d.asset_config.deposit_enabled,
        d.accepted(amount, now).asset_config.total_deposited <= d.asset_config.max_deposit,
        amount > 0,
{
}

/// Oracle safety: a price is only cached when it is positive, published
/// at most 30 seconds before the clock, and its confidence interval is at
/// most 1% of it.
pub proof fn lemma_accepted_price_is_fresh(
    u: UpdateOracle,
    price: u64,
    confidence: u64,
    publish_timestamp: i64,
    now: i64,
)
    requires
        u.refusal(price, confidence, publish_timestamp, now) is None,
    ensures
        price > 0,
        saturating_diff_i64(now, publish_timestamp) <= MAX_ORACLE_STALENESS,
        now - publish_timestamp <= MAX_ORACLE_STALENESS,
        confidence * 10_000 <= price * MAX_CONFIDENCE_RATIO_BPS,
        !u.spoke_state.paused,
{
}

/// Liquidation only touches unhealthy positions, never seizes more than
/// the deposit (nor more than the asset's total), and never raises the
/// debt.
pub proof fn lemma_liquidation_bounds(l: Liquidate, amount: u64)
    requires
        l.refusal(amount) is None,
    ensures
        l.position_value() is Some,
        l.user_deposit.spec_is_liquidatable(l.position_value().unwrap(), l.asset_config.liquidation_threshold_bps),
        0 <= l.seized(amount) <= l.user_deposit.deposited_amount,
        l.seized(amount) <= l.asset_config.total_deposited,
        l.seized(amount) <= amount + liquidation_reward(amount, l.asset_config.liquidation_bonus_bps),
        0 <= l.debt_repaid(amount) <= l.user_deposit.borrowed_amount,
{
    let dep = l.user_deposit.deposited_amount;
    let borrowed = l.user_deposit.borrowed_amount;
    let ratio = (amount * 10_000) / (dep as int);
    assert(0 <= ratio <= 10_000) by (nonlinear_arith)
        requires
            ratio == (amount * 10_000) / (dep as int),
            amount <= dep,
            dep > 0,
    ;
    assert(0 <= (borrowed * ratio) / 10_000 <= borrowed) by (nonlinear_arith)
        requires
            0 <= ratio <= 10_000,
            borrowed >= 0,
    ;
}

/// Seizure: a liquidation of `amount` that goes through takes `amount`
/// plus the bonus share `amount * bonus_bps / 10000` from the position,
/// capped at the deposit. When amount and bonus reach the deposit, the
/// whole deposit is taken and the position is left empty. The asset's
/// total drops by what was taken, and the liquidator's reward is the bonus
/// share.
pub proof fn lemma_liquidation_seizes_amount_and_bonus_up_to_deposit(l: Liquidate, amount: u64)
    requires
        l.refusal(amount) is None,
    ensures
        ({
            let deposit = l.user_deposit.deposited_amount as int;
            let bonus = (amount * l.asset_config.liquidation_bonus_bps) / 10_000;
            let wanted = amount + bonus;
            let after = l.accepted(amount);
            let taken = deposit - after.user_deposit.deposited_amount;
            &&& liquidation_reward(amount, l.asset_config.liquidation_bonus_bps) == bonus
            &&& l.seized(amount) == taken
            &&& wanted < deposit ==> taken == wanted
            &&& wanted >= deposit ==> taken == deposit && after.user_deposit.deposited_amount == 0
            &&& after.asset_config.total_deposited == l.asset_config.total_deposited - taken
        }),
{
}

/// Debt write-off: a liquidation of `amount` that goes through writes off
/// the borrowed amount times the liquidated share of the deposit, in whole
/// basis points (rounded down twice), and leaves everything but the
/// position's deposit and debt and the asset's total as it was.
pub proof fn lemma_liquidation_writes_off_proportional_debt(l: Liquidate, amount: u64)
    requires
        l.refusal(amount) is None,
    ensures
        ({
            let deposit = l.user_deposit.deposited_amount as int;
            let borrowed = l.user_deposit.borrowed_amount as int;
            let share_bps = (amount * 10_000) / deposit;
            let after = l.accepted(amount);
            &&& after.user_deposit.borrowed_amount == borrowed - (borrowed * share_bps) / 10_000
            &&& after.user_deposit.owner == l.user_deposit.owner
            &&& after.user_deposit.hub_approved_borrow == l.user_deposit.hub_approved_borrow
            &&& after.spoke_state == l.spoke_state
            &&& after.asset_config.max_deposit == l.asset_config.max_deposit
            &&& after.asset_config.last_oracle_price == l.asset_config.last_oracle_price
        }),
{
    lemma_liquidation_bounds(l, amount);
}

/// Deposits add up: every deposit that goes through adds its amount both
/// to the position and to the asset's total, whether or not the position
/// was empty before.
pub proof fn lemma_deposit_adds_to_position_and_total(d: Deposit, amount: u64, now: i64)
    requires
        d.refusal(amount) is None,
    ensures
        d.accepted(amount, now).user_deposit.deposited_amount == d.user_deposit.deposited_amount + amount,
        d.accepted(amount, now).asset_config.total_deposited == d.asset_config.total_deposited + amount,
{
}

/// Two deposits in a row, both accepted, add both amounts to the asset's
/// total and to the position.
pub proof fn lemma_two_deposits_add_up(d: Deposit, first: u64, second: u64, now: i64, later: i64)
    requires
        d.refusal(first) is None,
        d.accepted(first, now).refusal(second) is None,
    ensures
        d.accepted(first, now).accepted(second, later).asset_config.total_deposited
            == d.asset_config.total_deposited + first + second,
        d.accepted(first, now).accepted(second, later).user_deposit.deposited_amount
            == d.user_deposit.deposited_amount + first + second,
{
}

/// Health factor in percent: with debt outstanding it is
/// `collateral * 100 / borrowed` rounded down, held at `u64::MAX`.
pub proof fn lemma_health_factor_is_percentage(user: UserDeposit, collateral_value_usd: u64)
    requires
        user.borrowed_amount > 0,
    ensures
        ({
            let h = user.spec_health_factor(collateral_value_usd) as int;
            let b = user.borrowed_amount as int;
            let scaled = collateral_value_usd * 100;
            &&& h < u64::MAX ==> h * b <= scaled && scaled < (h + 1) * b
            &&& h == u64::MAX ==> u64::MAX * b <= scaled
        }),
{
    let b = user.borrowed_amount as int;
    let scaled = collateral_value_usd * 100;
    let q = scaled / b;
    assert(q * b <= scaled && scaled < (q + 1) * b) by (nonlinear_arith)
        requires
            q == scaled / b,
            b > 0,
    ;
    if q > u64::MAX {
        assert(u64::MAX * b <= q * b) by (nonlinear_arith)
            requires
                q > u64::MAX,
                b > 0,
        ;
    }
}

/// Healthy at one to one: with debt outstanding, the health factor is at
/// least 100 exactly when the collateral is worth at least the debt.
pub proof fn lemma_health_factor_at_least_100_iff_covered(user: UserDeposit, collateral_value_usd: u64)
    requires
        user.borrowed_amount > 0,
    ensures
        user.spec_health_factor(collateral_value_usd) >= 100 <==> collateral_value_usd >= user.borrowed_amount,
{
    lemma_health_factor_is_percentage(user, collateral_value_usd);
    let h = user.spec_health_factor(collateral_value_usd) as int;
    let b = user.borrowed_amount as int;
    let c = collateral_value_usd as int;
    if h < u64::MAX {
        assert(h >= 100 <==> c >= b) by (nonlinear_arith)
            requires
                h * b <= c * 100,
                c * 100 < (h + 1) * b,
                b > 0,
                h >= 0,
        ;
    } else {
        assert(c >= b) by (nonlinear_arith)
            requires
                u64::MAX * b <= c * 100,
                b > 0,
                c >= 0,
        ;
    }
}

/// Deposit completeness: a deposit of a positive amount into the asset's
/// own vault, from a token account of the asset's mint, on a running spoke,
/// goes through whenever the asset takes deposits, the new total stays
/// within the cap and the position does not overflow.
pub proof fn lemma_deposit_completeness(d: Deposit, amount: u64)
    requires
        d.asset_vault@ == d.asset_config.vault@,
        d.user_token_mint@ == d.asset_config.mint@,
        amount > 0,
        !d.spoke_state.paused,
        d.asset_config.deposit_enabled,
        d.asset_config.total_deposited + amount <= d.asset_config.max_deposit,
        d.user_deposit.deposited_amount + amount <= u64::MAX,
    ensures
        d.refusal(amount) is None,
{
}

/// Deposit cap, refused side: a deposit that would take the asset's total
/// over its maximum, or into an asset closed to deposits, never goes
/// through.
pub proof fn lemma_deposit_over_cap_refused(d: Deposit, amount: u64)
    requires
        d.asset_config.total_deposited + amount > d.asset_config.max_deposit || !d.asset_config.deposit_enabled,
    ensures
        d.refusal(amount) is Some,
{
}

/// A smaller deposit fits wherever a larger one does.
pub proof fn lemma_can_deposit_downward_closed(asset: AssetConfig, smaller: u64, larger: u64)
    requires
        smaller <= larger,
        asset.spec_can_deposit(larger),
    ensures
        asset.spec_can_deposit(smaller),
{
}

/// Withdrawals take off what they withdraw: a withdrawal of `amount` that
/// goes through lowers both the position and the asset's total by exactly
/// `amount`, and touches nothing else.
pub proof fn lemma_withdrawal_subtracts_amount(w: Withdraw, amount: u64)
    requires
        w.refusal(amount) is None,
    ensures
        w.accepted(amount).user_deposit.deposited_amount == w.user_deposit.deposited_amount - amount,
        w.accepted(amount).asset_config.total_deposited == w.asset_config.total_deposited - amount,
        w.accepted(amount).user_deposit.borrowed_amount == w.user_deposit.borrowed_amount,
        w.accepted(amount).spoke_state == w.spoke_state,
{
}

/// Withdrawing a deposit undoes it: after a deposit of `amount`, a
/// withdrawal of the same amount that goes through gives back the
/// position's deposit and the asset's total as they were.
pub proof fn lemma_withdraw_undoes_deposit(d: Deposit, amount: u64, now: i64, w: Withdraw)
    requires
        d.refusal(amount) is None,
        w.user_deposit == d.accepted(amount, now).user_deposit,
        w.asset_config == d.accepted(amount, now).asset_config,
        w.refusal(amount) is None,
    ensures
        w.accepted(amount).user_deposit.deposited_amount == d.user_deposit.deposited_amount,
        w.accepted(amount).asset_config.total_deposited == d.asset_config.total_deposited,
{
}

/// Withdrawal completeness: the owner of a position without debt or a
/// borrow limit withdraws any positive amount up to the deposit, through
/// the asset's own vault to a token account of its mint, on a running
/// spoke, as long as the asset's total holds it.
pub proof fn lemma_withdrawal_completeness(w: Withdraw, amount: u64)
    requires
        w.withdrawer@ == w.user_deposit.owner@,
        w.asset_vault@ == w.asset_config.vault@,
        w.user_token_mint@ == w.asset_config.mint@,
        !w.spoke_state.paused,
        0 < amount <= w.user_deposit.deposited_amount,
        w.user_deposit.borrowed_amount == 0,
        w.user_deposit.hub_approved_borrow == 0,
        amount <= w.asset_config.total_deposited,
    ensures
        w.refusal(amount) is None,
{
}

/// Withdrawals never overdraw: one for more than the deposit is refused.
pub proof fn lemma_withdrawal_over_deposit_refused(w: Withdraw, amount: u64)
    requires
        amount > w.user_deposit.deposited_amount,
    ensures
        w.refusal(amount) is Some,
{
}

/// Liquidatable means under water: a position is liquidatable at a
/// collateral value only if that value, in basis points, is under the debt
/// times the liquidation threshold; and it is whenever the value is at
/// least one whole unit under the threshold's share of the debt.
pub proof fn lemma_liquidatable_below_threshold(user: UserDeposit, collateral_value_usd: u64, threshold_bps: u16)
    ensures
        user.spec_is_liquidatable(collateral_value_usd, threshold_bps) ==> user.borrowed_amount > 0
            && collateral_value_usd * 10_000 < user.borrowed_amount * threshold_bps,
        user.borrowed_amount > 0 && (collateral_value_usd + 1) * 10_000 <= user.borrowed_amount * threshold_bps
            ==> user.spec_is_liquidatable(collateral_value_usd, threshold_bps),
{
    let b = user.borrowed_amount as int;
    let t = threshold_bps as int;
    let c = collateral_value_usd as int;
    let q = (b * t) / 10_000;
    assert(q * 10_000 <= b * t && b * t < (q + 1) * 10_000) by (nonlinear_arith)
        requires
            q == (b * t) / 10_000,
    ;
    assert(c < q ==> c * 10_000 < b * t) by (nonlinear_arith)
        requires
            q * 10_000 <= b * t,
    ;
    assert((c + 1) * 10_000 <= b * t ==> c < q) by (nonlinear_arith)
        requires
            b * t < (q + 1) * 10_000,
    ;
}

/// A position liquidatable at one collateral value stays liquidatable at
/// any lower value.
pub proof fn lemma_liquidatable_downward_closed(user: UserDeposit, lower: u64, higher: u64, threshold_bps: u16)
    requires
        lower <= higher,
        user.spec_is_liquidatable(higher, threshold_bps),
    ensures
        user.spec_is_liquidatable(lower, threshold_bps),
{
}

/// Liquidation completeness: on a running spoke with the accounts in
/// place, an under-water position with a deposit can be liquidated for any
/// amount up to the deposit, as long as amount and bonus fit in a `u64` and
/// the asset's total holds what is seized.
pub proof fn lemma_liquidation_completeness(l: Liquidate, amount: u64)
    requires
        l.reaches_valuation(),
        l.position_value() is Some,
        l.user_deposit.borrowed_amount > 0,
        (l.position_value().unwrap() + 1) * 10_000 <= l.user_deposit.borrowed_amount
            * l.asset_config.liquidation_threshold_bps,
        0 < l.user_deposit.deposited_amount,
        amount <= l.user_deposit.deposited_amount,
        amount + (amount * l.asset_config.liquidation_bonus_bps) / 10_000 <= u64::MAX,
        l.user_deposit.deposited_amount <= l.asset_config.total_deposited,
    ensures
        l.refusal(amount) is None,
{
    lemma_liquidatable_below_threshold(
        l.user_deposit,
        l.position_value().unwrap(),
        l.asset_config.liquidation_threshold_bps,
    );
}

/// Oracle completeness: a positive price from the asset's own feed,
/// published at most 30 seconds before the clock (or after it), with a
/// confidence interval of at most 1% of the price, is cached on a running
/// spoke, together with its publish time, and nothing else changes.
pub proof fn lemma_oracle_update_completeness(
    u: UpdateOracle,
    price: u64,
    confidence: u64,
    publish_timestamp: i64,
    now: i64,
)
    requires
        u.oracle_feed@ == u.asset_config.oracle_feed@,
        !u.spoke_state.paused,
        price > 0,
        now - publish_timestamp <= 30,
        confidence * 100 <= price,
    ensures
        u.refusal(price, confidence, publish_timestamp, now) is None,
        u.accepted(price, publish_timestamp).asset_config.last_oracle_price == price,
        u.accepted(price, publish_timestamp).asset_config.last_oracle_timestamp == publish_timestamp,
        u.accepted(price, publish_timestamp).asset_config.total_deposited == u.asset_config.total_deposited,
        u.accepted(price, publish_timestamp).spoke_state == u.spoke_state,
{
}

/// Oracle staleness, refused side: a price published more than 30 seconds
/// before the clock is never cached.
pub proof fn lemma_stale_price_refused(u: UpdateOracle, price: u64, confidence: u64, publish_timestamp: i64, now: i64)
    requires
        now - publish_timestamp > 30,
    ensures
        u.refusal(price, confidence, publish_timestamp, now) is Some,
{
}

/// More collateral is never worth less: where a deposit of `larger` tokens
/// can be valued, so can any smaller one, at no higher a value.
pub proof fn lemma_collateral_value_monotone(asset: AssetConfig, smaller: u64, larger: u64)
    requires
        smaller <= larger,
        asset.spec_collateral_value(larger) is Some,
    ensures
        asset.spec_collateral_value(smaller) is Some,
        asset.spec_collateral_value(smaller).unwrap() <= asset.spec_collateral_value(larger).unwrap(),
{
    let p = asset.last_oracle_price as int;
    let f = asset.collateral_factor_bps as int;
    let d = pow10(asset.decimals as nat) as int;
    lemma_pow10_positive(asset.decimals as nat);
    let vs = (smaller * p) / d;
    let vl = (larger * p) / d;
    assert(vs <= vl) by (nonlinear_arith)
        requires
            vs == (smaller * p) / d,
            vl == (larger * p) / d,
            smaller <= larger,
            p >= 0,
            d >= 1,
    ;
    assert(0 <= vs * f <= vl * f) by (nonlinear_arith)
        requires
            0 <= vs <= vl,
            f >= 0,
    ;
    assert((vs * f) / 10_000 <= (vl * f) / 10_000) by (nonlinear_arith)
        requires
            vs * f <= vl * f,
    ;
}

/// The collateral factor only discounts: with a factor of at most 100%,
/// the collateral value of a deposit is at most its market value,
/// `amount * price / 10^decimals`, and at least that value times the
/// factor, less one unit.
pub proof fn lemma_collateral_value_discounts_market_value(asset: AssetConfig, amount: u64)
    requires
        asset.collateral_factor_bps <= 10_000,
        asset.spec_collateral_value(amount) is Some,
    ensures
        ({
            let market = (amount * asset.last_oracle_price) / (pow10(asset.decimals as nat) as int);
            let v = asset.spec_collateral_value(amount).unwrap() as int;
            &&& v <= market
            &&& v * 10_000 <= market * asset.collateral_factor_bps
            &&& market * asset.collateral_factor_bps < (v + 1) * 10_000
        }),
{
    lemma_pow10_positive(asset.decimals as nat);
    let market = (amount * asset.last_oracle_price) / (pow10(asset.decimals as nat) as int);
    let f = asset.collateral_factor_bps as int;
    assert(market >= 0) by (nonlinear_arith)
        requires
            market == (amount * asset.last_oracle_price) / (pow10(asset.decimals as nat) as int),
            pow10(asset.decimals as nat) >= 1,
            amount >= 0,
            asset.last_oracle_price >= 0,
    ;
    let v = (market * f) / 10_000;
    assert(v <= market && v * 10_000 <= market * f && market * f < (v + 1) * 10_000) by (nonlinear_arith)
        requires
            v == (market * f) / 10_000,
            0 <= f <= 10_000,
            market >= 0,
    ;
}

/// No borrows means infinite health and no liquidation.
pub proof fn lemma_no_debt_is_safe(user: UserDeposit, collateral_value_usd: u64, liquidation_threshold_bps: u16)
    requires
        user.borrowed_amount == 0,
    ensures
        user.spec_health_factor(collateral_value_usd) == u64::MAX,
        !user.spec_is_liquidatable(collateral_value_usd, liquidation_threshold_bps),
{
}

/// Higher is safer: with debt outstanding, more collateral never gives a
/// lower health factor.
pub proof fn lemma_health_factor_monotone(user: UserDeposit, lower: u64, higher: u64)
    requires
        lower <= higher,
    ensures
        user.spec_health_factor(lower) <= user.spec_health_factor(higher),
{
    if user.borrowed_amount > 0 {
        let b = user.borrowed_amount as int;
        assert((lower * 100) / b <= (higher * 100) / b) by (nonlinear_arith)
            requires
                lower <= higher,
                b > 0,
        ;
    }
}

/// Asset registration: the authority can register an asset on a running
/// spoke with fewer than 16 assets, whenever the collateral factor is at
/// most 9500 bps, the liquidation threshold lies above it and the bonus is
/// at most 2000 bps; the spoke then counts one asset more, up to 16. With
/// 16 assets a registration by the authority is refused as the limit.
pub proof fn lemma_register_asset_completeness(
    r: RegisterAsset,
    max_deposit: u64,
    collateral_factor_bps: u16,
    liquidation_threshold_bps: u16,
    liquidation_bonus_bps: u16,
)
    ensures
        ({
            &&& r.spoke_state.authority@ == r.authority@
            &&& r.spoke_state.supported_assets < 16
            &&& !r.spoke_state.paused
            &&& collateral_factor_bps <= 9500
            &&& collateral_factor_bps < liquidation_threshold_bps
            &&& liquidation_bonus_bps <= 2000
        }) ==> {
            &&& r.refusal(collateral_factor_bps, liquidation_threshold_bps, liquidation_bonus_bps) is None
            &&& r.accepted(
                max_deposit,
                collateral_factor_bps,
                liquidation_threshold_bps,
                liquidation_bonus_bps,
            ).spoke_state.supported_assets == r.spoke_state.supported_assets + 1
        },
        r.spoke_state.authority@ == r.authority@ && r.spoke_state.supported_assets >= 16 ==> r.refusal(
            collateral_factor_bps,
            liquidation_threshold_bps,
            liquidation_bonus_bps,
        ) == Some(SpokeError::MaxAssetsReached),
{
}

// ---------------------------------------------------------------------------
// Reachable-state invariant: at most 16 assets, each registered within its
// bounds. Initialization sets it up, and every instruction that goes
// through keeps it.
// ---------------------------------------------------------------------------

pub proof fn lemma_initialize_sets_up_invariant(i: InitializeSpoke, hub_chain_id: u16, hub_emitter: [u8; 32], now: i64)
    ensures
        i.accepted(hub_chain_id, hub_emitter, now).spoke_state.within_asset_limit(),
{
}

pub proof fn lemma_register_asset_keeps_invariant(
    r: RegisterAsset,
    max_deposit: u64,
    collateral_factor_bps: u16,
    liquidation_threshold_bps: u16,
    liquidation_bonus_bps: u16,
)
    requires
        r.refusal(collateral_factor_bps, liquidation_threshold_bps, liquidation_bonus_bps) is None,
    ensures
        ({
            let after = r.accepted(max_deposit, collateral_factor_bps, liquidation_threshold_bps, liquidation_bonus_bps);
            &&& after.spoke_state.within_asset_limit()
            &&& after.asset_config.within_registration_bounds()
        }),
{
}

pub proof fn lemma_deposit_keeps_invariant(d: Deposit, amount: u64, now: i64)
    requires
        d.spoke_state.within_asset_limit(),
        d.asset_config.within_registration_bounds(),
    ensures
        d.accepted(amount, now).spoke_state.within_asset_limit(),
        d.accepted(amount, now).asset_config.within_registration_bounds(),
{
}

pub proof fn lemma_withdraw_keeps_invariant(w: Withdraw, amount: u64)
    requires
        w.spoke_state.within_asset_limit(),
        w.asset_config.within_registration_bounds(),
    ensures
        w.accepted(amount).spoke_state.within_asset_limit(),
        w.accepted(amount).asset_config.within_registration_bounds(),
{
}

pub proof fn lemma_liquidate_keeps_invariant(l: Liquidate, amount: u64)
    requires
        l.spoke_state.within_asset_limit(),
        l.asset_config.within_registration_bounds(),
    ensures
        l.accepted(amount).spoke_state.within_asset_limit(),
        l.accepted(amount).asset_config.within_registration_bounds(),
{
}

pub proof fn lemma_update_oracle_keeps_invariant(u: UpdateOracle, price: u64, publish_timestamp: i64)
    requires
        u.spoke_state.within_asset_limit(),
        u.asset_config.within_registration_bounds(),
    ensures
        u.accepted(price, publish_timestamp).spoke_state.within_asset_limit(),
        u.accepted(price, publish_timestamp).asset_config.within_registration_bounds(),
{
}

pub proof fn lemma_spoke_instructions_keep_invariant(p: ProcessHubMessage, now: i64, a: AdminAction, keeper: Pubkey)
    requires
        p.spoke_state.within_asset_limit(),
        a.spoke_state.within_asset_limit(),
    ensures
        p.accepted(now).spoke_state.within_asset_limit(),
        a.with_paused(true).spoke_state.within_asset_limit(),
        a.with_paused(false).spoke_state.within_asset_limit(),
        a.with_keeper(keeper).spoke_state.within_asset_limit(),
{
}

} // verus!
