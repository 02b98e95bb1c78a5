use spoke_lending::errors::SpokeError;
use spoke_lending::instructions::{
    admin, deposit, initialize, liquidate, process_hub_message, register_asset, update_oracle, withdraw,
};
use spoke_lending::instructions::{
    AdminAction, ApplyBorrowApproval, Deposit, InitializeSpoke, Liquidate, ProcessHubMessage, RegisterAsset,
    UpdateOracle, Withdraw,
};
use spoke_lending::pubkey::Pubkey;
use spoke_lending::state::{AssetConfig, SpokeState, UserDeposit, MAX_SUPPORTED_ASSETS};
use spoke_lending::wormhole::HubToSpokeMessage;

fn key(b: u8) -> Pubkey {
    Pubkey::new_from_array([b; 32])
}

fn same(a: &Pubkey, b: &Pubkey) -> bool {
    a.to_bytes() == b.to_bytes()
}

const AUTHORITY: u8 = 1;
const KEEPER: u8 = 2;
const MINT: u8 = 3;
const VAULT: u8 = 4;
const FEED: u8 = 5;
const USER: u8 = 6;
const ASSET_KEY: u8 = 7;
const SPOKE_KEY: u8 = 8;
const STRANGER: u8 = 9;

fn spoke() -> SpokeState {
    SpokeState {
        authority: key(AUTHORITY),
        keeper: key(KEEPER),
        hub_chain_id: 2,
        hub_emitter: [0xaa; 32],
        paused: false,
        supported_assets: 1,
        message_sequence: 0,
        last_hub_sequence: 10,
        last_hub_sync: 0,
        bump: 255,
    }
}

fn asset() -> AssetConfig {
    AssetConfig {
        mint: key(MINT),
        vault: key(VAULT),
        oracle_feed: key(FEED),
        max_deposit: 1_000_000_000_000,
        deposit_enabled: true,
        total_deposited: 2_000_000_000,
        decimals: 6,
        interest_rate_bps: 0,
        last_oracle_price: 1_000_000,
        last_oracle_timestamp: 0,
        collateral_factor_bps: 8000,
        liquidation_threshold_bps: 8500,
        liquidation_bonus_bps: 500,
        bump: 254,
    }
}

fn position(deposited: u64, borrowed: u64) -> UserDeposit {
    UserDeposit {
        owner: key(USER),
        asset_config: key(ASSET_KEY),
        deposited_amount: deposited,
        deposit_timestamp: 100,
        last_hub_sync_slot: 0,
        hub_approved_borrow: 0,
        borrowed_amount: borrowed,
        pending_withdrawal: 0,
        withdrawal_pending: false,
        bump: 253,
    }
}

fn empty_position() -> UserDeposit {
    UserDeposit {
        owner: Pubkey::default(),
        asset_config: Pubkey::default(),
        deposited_amount: 0,
        deposit_timestamp: 0,
        last_hub_sync_slot: 0,
        hub_approved_borrow: 0,
        borrowed_amount: 0,
        pending_withdrawal: 0,
        withdrawal_pending: false,
        bump: 0,
    }
}

// ---------------------------------------------------------------- initialize

#[test]
fn initialize_sets_up_the_spoke() {
    let mut ctx = InitializeSpoke {
        spoke_state: SpokeState { paused: true, supported_assets: 5, ..spoke() },
        spoke_state_key: key(SPOKE_KEY),
        spoke_state_bump: 250,
        authority: key(STRANGER),
    };
    let event = initialize::handler(&mut ctx, 30, [0x11; 32], 1_700_000_000);
    let s = ctx.spoke_state;
    assert!(same(&s.authority, &key(STRANGER)));
    assert!(same(&s.keeper, &key(STRANGER)));
    assert_eq!(s.hub_chain_id, 30);
    assert_eq!(s.hub_emitter, [0x11; 32]);
    assert!(!s.paused);
    assert_eq!(s.supported_assets, 0);
    assert_eq!(s.message_sequence, 0);
    assert_eq!(s.last_hub_sequence, 0);
    assert_eq!(s.last_hub_sync, 1_700_000_000);
    assert_eq!(s.bump, 250);
    assert!(same(&event.spoke, &key(SPOKE_KEY)));
    assert_eq!(event.hub_chain_id, 30);
}

#[test]
fn next_sequence_counts_up_and_saturates() {
    let mut s = spoke();
    assert_eq!(s.next_sequence(), 0);
    assert_eq!(s.next_sequence(), 1);
    assert_eq!(s.message_sequence, 2);
    s.message_sequence = u64::MAX;
    assert_eq!(s.next_sequence(), u64::MAX);
    assert_eq!(s.message_sequence, u64::MAX);
}

// ------------------------------------------------------------ register_asset

fn register_ctx() -> RegisterAsset {
    RegisterAsset {
        spoke_state: spoke(),
        spoke_state_key: key(SPOKE_KEY),
        asset_config: AssetConfig {
            mint: Pubkey::default(),
            vault: Pubkey::default(),
            oracle_feed: Pubkey::default(),
            max_deposit: 0,
            deposit_enabled: false,
            total_deposited: 0,
            decimals: 0,
            interest_rate_bps: 0,
            last_oracle_price: 0,
            last_oracle_timestamp: 0,
            collateral_factor_bps: 0,
            liquidation_threshold_bps: 0,
            liquidation_bonus_bps: 0,
            bump: 0,
        },
        asset_config_key: key(ASSET_KEY),
        asset_config_bump: 201,
        mint: key(MINT),
        mint_decimals: 9,
        vault: key(VAULT),
        oracle_feed: key(FEED),
        authority: key(AUTHORITY),
    }
}

#[test]
fn register_asset_records_parameters() {
    let mut ctx = register_ctx();
    let event = register_asset::handler(&mut ctx, 5_000, 8000, 8500, 500).unwrap();
    let a = ctx.asset_config;
    assert!(same(&a.mint, &key(MINT)) && same(&a.vault, &key(VAULT)) && same(&a.oracle_feed, &key(FEED)));
    assert_eq!(a.max_deposit, 5_000);
    assert!(a.deposit_enabled);
    assert_eq!(a.decimals, 9);
    assert_eq!((a.collateral_factor_bps, a.liquidation_threshold_bps, a.liquidation_bonus_bps), (8000, 8500, 500));
    assert_eq!(a.bump, 201);
    assert_eq!(ctx.spoke_state.supported_assets, 2);
    assert_eq!(event.max_deposit, 5_000);
    assert!(same(&event.asset_config, &key(ASSET_KEY)));
}

#[test]
fn register_asset_refusals() {
    let check = |ctx: RegisterAsset, cf: u16, lt: u16, lb: u16, expected: SpokeError| {
        let mut c = ctx;
        let res = register_asset::handler(&mut c, 1, cf, lt, lb);
        assert_eq!(res.unwrap_err(), expected);
        assert_eq!(c.spoke_state.supported_assets, ctx.spoke_state.supported_assets);
        assert!(!c.asset_config.deposit_enabled);
    };
    check(RegisterAsset { authority: key(KEEPER), ..register_ctx() }, 8000, 8500, 500, SpokeError::Unauthorized);
    let full = RegisterAsset {
        spoke_state: SpokeState { supported_assets: MAX_SUPPORTED_ASSETS, ..spoke() },
        ..register_ctx()
    };
    check(full, 8000, 8500, 500, SpokeError::MaxAssetsReached);
    let paused = RegisterAsset { spoke_state: SpokeState { paused: true, ..spoke() }, ..register_ctx() };
    check(paused, 8000, 8500, 500, SpokeError::ProtocolPaused);
    check(register_ctx(), 9501, 9600, 500, SpokeError::MathOverflow);
    check(register_ctx(), 8000, 8000, 500, SpokeError::MathOverflow);
    check(register_ctx(), 8000, 8500, 2001, SpokeError::MathOverflow);
    let mut ok = register_ctx();
    assert!(register_asset::handler(&mut ok, 1, 9500, 9501, 2000).is_ok());
}

// ------------------------------------------------------------------- deposit

fn deposit_ctx(user_deposit: UserDeposit) -> Deposit {
    Deposit {
        spoke_state: spoke(),
        asset_config: asset(),
        asset_config_key: key(ASSET_KEY),
        user_deposit,
        user_deposit_bump: 199,
        asset_vault: key(VAULT),
        user_token_mint: key(MINT),
        depositor: key(USER),
    }
}

#[test]
fn first_deposit_sets_up_the_position() {
    let mut ctx = deposit_ctx(empty_position());
    let event = deposit::handler(&mut ctx, 1_000_000, 777).unwrap();
    let u = ctx.user_deposit;
    assert!(same(&u.owner, &key(USER)));
    assert!(same(&u.asset_config, &key(ASSET_KEY)));
    assert_eq!(u.deposited_amount, 1_000_000);
    assert_eq!(u.deposit_timestamp, 777);
    assert_eq!(u.bump, 199);
    assert_eq!(ctx.asset_config.total_deposited, 2_001_000_000);
    assert_eq!(event.total_deposited, 1_000_000);
    assert_eq!(event.oracle_price, 1_000_000);
    assert_eq!(event.timestamp, 777);
}

#[test]
fn later_deposit_adds_to_the_position() {
    let mut ctx = deposit_ctx(position(500, 40));
    let event = deposit::handler(&mut ctx, 250, 9).unwrap();
    let u = ctx.user_deposit;
    assert_eq!(u.deposited_amount, 750);
    assert_eq!(u.deposit_timestamp, 100);
    assert_eq!(u.borrowed_amount, 40);
    assert_eq!(u.bump, 253);
    assert_eq!(event.total_deposited, 750);
}

#[test]
fn deposit_refusals_change_nothing() {
    let check = |ctx: Deposit, amount: u64, expected: SpokeError| {
        let mut c = ctx;
        assert_eq!(deposit::handler(&mut c, amount, 1).unwrap_err(), expected);
        assert_eq!(c.user_deposit.deposited_amount, ctx.user_deposit.deposited_amount);
        assert_eq!(c.asset_config.total_deposited, ctx.asset_config.total_deposited);
    };
    check(Deposit { asset_vault: key(STRANGER), ..deposit_ctx(position(5, 0)) }, 1, SpokeError::Unauthorized);
    check(Deposit { user_token_mint: key(STRANGER), ..deposit_ctx(position(5, 0)) }, 1, SpokeError::AssetNotRegistered);
    check(deposit_ctx(position(5, 0)), 0, SpokeError::ZeroDeposit);
    let paused = Deposit { spoke_state: SpokeState { paused: true, ..spoke() }, ..deposit_ctx(position(5, 0)) };
    check(paused, 1, SpokeError::ProtocolPaused);
    let disabled = Deposit { asset_config: AssetConfig { deposit_enabled: false, ..asset() }, ..deposit_ctx(position(5, 0)) };
    check(disabled, 1, SpokeError::DepositCapExceeded);
    check(deposit_ctx(position(5, 0)), 1_000_000_000_000 - 2_000_000_000 + 1, SpokeError::DepositCapExceeded);
    let big = Deposit {
        asset_config: AssetConfig { max_deposit: u64::MAX, total_deposited: 0, ..asset() },
        ..deposit_ctx(position(u64::MAX, 0))
    };
    check(big, 1, SpokeError::MathOverflow);
}

// ------------------------------------------------------------------ withdraw

fn withdraw_ctx(user_deposit: UserDeposit) -> Withdraw {
    Withdraw {
        spoke_state: spoke(),
        asset_config: asset(),
        user_deposit,
        asset_vault: key(VAULT),
        user_token_mint: key(MINT),
        withdrawer: key(USER),
    }
}

#[test]
fn withdraw_without_debt() {
    let mut ctx = withdraw_ctx(position(1_000, 0));
    let event = withdraw::handler(&mut ctx, 1_000, 55).unwrap();
    assert_eq!(ctx.user_deposit.deposited_amount, 0);
    assert_eq!(ctx.asset_config.total_deposited, 2_000_000_000 - 1_000);
    assert_eq!(event.remaining_deposit, 0);
    assert_eq!(event.timestamp, 55);
}

#[test]
fn withdraw_health_check_boundary() {
    // $1000 deposit, $400 debt, 85% threshold: at least $340 of collateral
    // value, i.e. 425 tokens at 80%, must stay.
    let mut ok = withdraw_ctx(position(1_000_000_000, 400_000_000));
    assert!(withdraw::handler(&mut ok, 575_000_000, 0).is_ok());
    assert_eq!(ok.user_deposit.deposited_amount, 425_000_000);

    let mut too_much = withdraw_ctx(position(1_000_000_000, 400_000_000));
    assert_eq!(withdraw::handler(&mut too_much, 575_000_001, 0).unwrap_err(), SpokeError::WithdrawalExceedsApproval);
    assert_eq!(too_much.user_deposit.deposited_amount, 1_000_000_000);
}

#[test]
fn withdraw_is_stopped_by_the_pause() {
    let mut ctx = Withdraw { spoke_state: SpokeState { paused: true, ..spoke() }, ..withdraw_ctx(position(10, 0)) };
    assert_eq!(withdraw::handler(&mut ctx, 10, 0).unwrap_err(), SpokeError::ProtocolPaused);
    assert_eq!(ctx.user_deposit.deposited_amount, 10);
}

#[test]
fn withdraw_respects_the_hub_borrow_limit() {
    // Nothing borrowed, but the hub approved a $400 limit: at least $340
    // of collateral value (425 tokens at 80%) must stay.
    let with_limit = UserDeposit { hub_approved_borrow: 400_000_000, ..position(1_000_000_000, 0) };
    let mut ok = withdraw_ctx(with_limit);
    assert!(withdraw::handler(&mut ok, 575_000_000, 0).is_ok());
    let mut too_much = withdraw_ctx(with_limit);
    assert_eq!(withdraw::handler(&mut too_much, 575_000_001, 0).unwrap_err(), SpokeError::WithdrawalExceedsApproval);
    assert_eq!(too_much.user_deposit.deposited_amount, 1_000_000_000);
    // the larger of debt and limit decides
    let debt_and_limit = UserDeposit { hub_approved_borrow: 200_000_000, ..position(1_000_000_000, 400_000_000) };
    let mut c = withdraw_ctx(debt_and_limit);
    assert_eq!(withdraw::handler(&mut c, 575_000_001, 0).unwrap_err(), SpokeError::WithdrawalExceedsApproval);
}

#[test]
fn withdraw_refusals_change_nothing() {
    let check = |ctx: Withdraw, amount: u64, expected: SpokeError| {
        let mut c = ctx;
        assert_eq!(withdraw::handler(&mut c, amount, 0).unwrap_err(), expected);
        assert_eq!(c.user_deposit.deposited_amount, ctx.user_deposit.deposited_amount);
        assert_eq!(c.asset_config.total_deposited, ctx.asset_config.total_deposited);
    };
    check(Withdraw { withdrawer: key(STRANGER), ..withdraw_ctx(position(10, 0)) }, 1, SpokeError::Unauthorized);
    check(Withdraw { asset_vault: key(STRANGER), ..withdraw_ctx(position(10, 0)) }, 1, SpokeError::Unauthorized);
    check(Withdraw { user_token_mint: key(STRANGER), ..withdraw_ctx(position(10, 0)) }, 1, SpokeError::AssetNotRegistered);
    check(withdraw_ctx(position(10, 0)), 0, SpokeError::ZeroWithdrawal);
    check(withdraw_ctx(position(10, 0)), 11, SpokeError::InsufficientDeposit);
    let overflowing = Withdraw {
        asset_config: AssetConfig { decimals: 0, last_oracle_price: u64::MAX, collateral_factor_bps: u16::MAX, ..asset() },
        ..withdraw_ctx(position(u64::MAX, 1))
    };
    check(overflowing, 1, SpokeError::MathOverflow);
    let short_total = Withdraw { asset_config: AssetConfig { total_deposited: 5, ..asset() }, ..withdraw_ctx(position(10, 0)) };
    check(short_total, 6, SpokeError::MathOverflow);
}

// ----------------------------------------------------------------- liquidate

fn liquidate_ctx(user_deposit: UserDeposit) -> Liquidate {
    Liquidate {
        spoke_state: spoke(),
        asset_config: asset(),
        asset_config_key: key(ASSET_KEY),
        user_deposit,
        asset_vault: key(VAULT),
        liquidator: key(STRANGER),
    }
}

#[test]
fn liquidation_seizes_bonus_and_writes_off_debt() {
    // $800 of collateral value against $1000 of debt: under the 85% threshold.
    let mut ctx = liquidate_ctx(position(1_000_000_000, 1_000_000_000));
    let event = liquidate::handler(&mut ctx, 100_000_000).unwrap();
    assert_eq!(event.liquidator_reward, 5_000_000);
    assert_eq!(event.amount_liquidated, 105_000_000);
    assert!(same(&event.liquidator, &key(STRANGER)));
    assert_eq!(ctx.user_deposit.deposited_amount, 895_000_000);
    // 10% of the deposit liquidated: 10% of the debt written off
    assert_eq!(ctx.user_deposit.borrowed_amount, 900_000_000);
    // the seized collateral leaves the asset's total too
    assert_eq!(ctx.asset_config.total_deposited, 2_000_000_000 - 105_000_000);
}

#[test]
fn liquidation_seizure_is_capped_at_the_deposit() {
    let mut ctx = liquidate_ctx(position(1_000_000_000, 2_000_000_000));
    let event = liquidate::handler(&mut ctx, 1_000_000_000).unwrap();
    assert_eq!(event.liquidator_reward, 50_000_000);
    assert_eq!(event.amount_liquidated, 1_000_000_000);
    assert_eq!(ctx.user_deposit.deposited_amount, 0);
    assert_eq!(ctx.user_deposit.borrowed_amount, 0);
}

#[test]
fn liquidation_refusals_change_nothing() {
    let check = |ctx: Liquidate, amount: u64, expected: SpokeError| {
        let mut c = ctx;
        assert_eq!(liquidate::handler(&mut c, amount).unwrap_err(), expected);
        assert_eq!(c.user_deposit.deposited_amount, ctx.user_deposit.deposited_amount);
        assert_eq!(c.user_deposit.borrowed_amount, ctx.user_deposit.borrowed_amount);
    };
    let under = position(1_000_000_000, 1_000_000_000);
    check(Liquidate { asset_config_key: key(STRANGER), ..liquidate_ctx(under) }, 1, SpokeError::AssetNotRegistered);
    check(Liquidate { asset_vault: key(STRANGER), ..liquidate_ctx(under) }, 1, SpokeError::Unauthorized);
    check(Liquidate { spoke_state: SpokeState { paused: true, ..spoke() }, ..liquidate_ctx(under) }, 1, SpokeError::ProtocolPaused);
    let overflowing = Liquidate {
        asset_config: AssetConfig { decimals: 0, last_oracle_price: u64::MAX, collateral_factor_bps: u16::MAX, ..asset() },
        ..liquidate_ctx(position(u64::MAX, 1))
    };
    check(overflowing, 1, SpokeError::MathOverflow);
    check(liquidate_ctx(position(1_000_000_000, 400_000_000)), 1, SpokeError::PositionHealthy);
    check(liquidate_ctx(position(1_000_000_000, 0)), 1, SpokeError::PositionHealthy);
    check(liquidate_ctx(under), 1_000_000_001, SpokeError::LiquidationTooLarge);
    let big_bonus = Liquidate {
        asset_config: AssetConfig { liquidation_bonus_bps: 20_000, ..asset() },
        ..liquidate_ctx(position(u64::MAX, u64::MAX))
    };
    check(big_bonus, u64::MAX / 2, SpokeError::LiquidationRewardOverflow);
    let short_total = Liquidate { asset_config: AssetConfig { total_deposited: 1, ..asset() }, ..liquidate_ctx(under) };
    check(short_total, 1_000, SpokeError::MathOverflow);
}

#[test]
fn withdrawal_then_liquidation_is_refused() {
    let mut w = withdraw_ctx(position(1_000_000_000, 400_000_000));
    withdraw::handler(&mut w, 575_000_000, 0).unwrap();
    let mut l = Liquidate { asset_config: w.asset_config, user_deposit: w.user_deposit, ..liquidate_ctx(w.user_deposit) };
    assert_eq!(liquidate::handler(&mut l, 1).unwrap_err(), SpokeError::PositionHealthy);
}

// ------------------------------------------------------------- update_oracle

fn oracle_ctx() -> UpdateOracle {
    UpdateOracle { spoke_state: spoke(), asset_config: asset(), oracle_feed: key(FEED), updater: key(STRANGER) }
}

#[test]
fn oracle_update_caches_price() {
    let mut ctx = oracle_ctx();
    let event = update_oracle::handler(&mut ctx, 2_000_000, 20_000, 1_000, 1_030).unwrap();
    assert_eq!(ctx.asset_config.last_oracle_price, 2_000_000);
    assert_eq!(ctx.asset_config.last_oracle_timestamp, 1_000);
    assert_eq!(event.price, 2_000_000);
    assert_eq!(event.confidence, 20_000);
    assert_eq!(event.timestamp, 1_000);
}

#[test]
fn oracle_update_refusals() {
    let check = |ctx: UpdateOracle, price: u64, conf: u64, ts: i64, now: i64, expected: SpokeError| {
        let mut c = ctx;
        assert_eq!(update_oracle::handler(&mut c, price, conf, ts, now).unwrap_err(), expected);
        assert_eq!(c.asset_config.last_oracle_price, ctx.asset_config.last_oracle_price);
    };
    check(UpdateOracle { oracle_feed: key(STRANGER), ..oracle_ctx() }, 1, 0, 0, 0, SpokeError::OracleInvalidPrice);
    check(oracle_ctx(), 0, 0, 0, 0, SpokeError::OracleInvalidPrice);
    // 31 seconds old
    check(oracle_ctx(), 1_000_000, 0, 1_000, 1_031, SpokeError::OracleStale);
    check(oracle_ctx(), 1_000_000, 0, i64::MIN, i64::MAX, SpokeError::OracleStale);
    // confidence of 1.01% of the price
    check(oracle_ctx(), 1_000_000, 10_100, 1_000, 1_000, SpokeError::OracleConfidenceTooWide);
    // just over 1%: compared exactly
    check(oracle_ctx(), 1_000_000, 10_001, 1_000, 1_000, SpokeError::OracleConfidenceTooWide);
    let paused = UpdateOracle { spoke_state: SpokeState { paused: true, ..spoke() }, ..oracle_ctx() };
    check(paused, 1_000_000, 0, 1_000, 1_000, SpokeError::ProtocolPaused);
    // exactly 1%, and a price published in the future, are accepted
    let mut future = oracle_ctx();
    assert!(update_oracle::handler(&mut future, 1_000_000, 10_000, 5_000, 1_000).is_ok());
}

// ------------------------------------------------------- process_hub_message

fn hub_bytes(msg: &HubToSpokeMessage) -> Vec<u8> {
    let mut buf = Vec::new();
    msg.serialize(&mut buf);
    buf
}

#[test]
fn hub_message_from_keeper_advances_the_sequence() {
    let mut ctx = ProcessHubMessage { spoke_state: spoke(), spoke_state_key: key(SPOKE_KEY), relayer: key(KEEPER) };
    let msg = HubToSpokeMessage::InterestRateUpdate { asset_mint: key(MINT), rate_bps: 300 };
    let event = process_hub_message::handler(&mut ctx, hub_bytes(&msg), 4_242).unwrap();
    assert_eq!(event.message_type, "InterestRateUpdate");
    assert_eq!(event.sequence, 11);
    assert_eq!(ctx.spoke_state.last_hub_sequence, 11);
    assert_eq!(ctx.spoke_state.last_hub_sync, 4_242);
}

#[test]
fn hub_message_sequence_saturates() {
    let mut ctx = ProcessHubMessage {
        spoke_state: SpokeState { last_hub_sequence: u64::MAX, ..spoke() },
        spoke_state_key: key(SPOKE_KEY),
        relayer: key(AUTHORITY),
    };
    let msg = HubToSpokeMessage::BorrowApproval { user: key(USER), asset_mint: key(MINT), approved_amount: 1 };
    let event = process_hub_message::handler(&mut ctx, hub_bytes(&msg), 1).unwrap();
    assert_eq!(event.sequence, u64::MAX);
}

#[test]
fn hub_message_refusals_change_nothing() {
    let msg = hub_bytes(&HubToSpokeMessage::BorrowApproval { user: key(USER), asset_mint: key(MINT), approved_amount: 1 });
    let check = |ctx: ProcessHubMessage, data: Vec<u8>, expected: SpokeError| {
        let mut c = ctx;
        assert_eq!(process_hub_message::handler(&mut c, data, 99).unwrap_err(), expected);
        assert_eq!(c.spoke_state.last_hub_sequence, ctx.spoke_state.last_hub_sequence);
        assert_eq!(c.spoke_state.last_hub_sync, ctx.spoke_state.last_hub_sync);
    };
    let base = ProcessHubMessage { spoke_state: spoke(), spoke_state_key: key(SPOKE_KEY), relayer: key(KEEPER) };
    check(ProcessHubMessage { relayer: key(STRANGER), ..base }, msg.clone(), SpokeError::UnauthorizedKeeper);
    check(
        ProcessHubMessage { spoke_state: SpokeState { paused: true, ..spoke() }, ..base },
        msg.clone(),
        SpokeError::ProtocolPaused,
    );
    check(base, msg[..10].to_vec(), SpokeError::InvalidHubMessage);
    check(base, vec![9, 1, 2, 3], SpokeError::InvalidHubMessage);
}

#[test]
fn borrow_approval_by_keeper_or_authority() {
    for signer in [KEEPER, AUTHORITY] {
        let mut ctx = ApplyBorrowApproval {
            spoke_state: spoke(),
            user_deposit: position(10, 0),
            authority: key(signer),
        };
        let event = process_hub_message::apply_borrow_approval(&mut ctx, 123, 456).unwrap();
        assert_eq!(ctx.user_deposit.hub_approved_borrow, 123);
        assert_eq!(ctx.user_deposit.last_hub_sync_slot, 456);
        assert_eq!(event.new_limit, 123);
        assert!(same(&event.user, &key(USER)));
        assert!(same(&event.asset, &key(ASSET_KEY)));
    }
    let mut refused =
        ApplyBorrowApproval { spoke_state: spoke(), user_deposit: position(10, 0), authority: key(STRANGER) };
    assert_eq!(
        process_hub_message::apply_borrow_approval(&mut refused, 123, 456).unwrap_err(),
        SpokeError::UnauthorizedKeeper
    );
    assert_eq!(refused.user_deposit.hub_approved_borrow, 0);
    let mut paused = ApplyBorrowApproval {
        spoke_state: SpokeState { paused: true, ..spoke() },
        user_deposit: position(10, 0),
        authority: key(KEEPER),
    };
    assert_eq!(
        process_hub_message::apply_borrow_approval(&mut paused, 123, 456).unwrap_err(),
        SpokeError::ProtocolPaused
    );
    assert_eq!(paused.user_deposit.hub_approved_borrow, 0);
}

// --------------------------------------------------------------------- admin

fn admin_ctx(signer: u8) -> AdminAction {
    AdminAction { spoke_state: spoke(), spoke_state_key: key(SPOKE_KEY), authority: key(signer) }
}

#[test]
fn pause_and_unpause_by_authority() {
    let mut ctx = admin_ctx(AUTHORITY);
    let event = admin::pause(&mut ctx).unwrap();
    assert!(ctx.spoke_state.paused);
    assert!(same(&event.authority, &key(AUTHORITY)));
    // paused spoke refuses deposits
    let mut d = Deposit { spoke_state: ctx.spoke_state, ..deposit_ctx(position(1, 0)) };
    assert_eq!(deposit::handler(&mut d, 1, 0).unwrap_err(), SpokeError::ProtocolPaused);
    admin::unpause(&mut ctx).unwrap();
    assert!(!ctx.spoke_state.paused);
    let mut d = Deposit { spoke_state: ctx.spoke_state, ..deposit_ctx(position(1, 0)) };
    assert!(deposit::handler(&mut d, 1, 0).is_ok());
}

#[test]
fn admin_actions_refuse_the_keeper() {
    let mut ctx = admin_ctx(KEEPER);
    assert_eq!(admin::pause(&mut ctx).unwrap_err(), SpokeError::Unauthorized);
    assert!(!ctx.spoke_state.paused);
    assert_eq!(admin::unpause(&mut ctx).unwrap_err(), SpokeError::Unauthorized);
    assert_eq!(admin::update_keeper(&mut ctx, key(STRANGER)).unwrap_err(), SpokeError::Unauthorized);
    assert!(same(&ctx.spoke_state.keeper, &key(KEEPER)));
}

#[test]
fn update_keeper_by_authority() {
    let mut ctx = admin_ctx(AUTHORITY);
    admin::update_keeper(&mut ctx, key(STRANGER)).unwrap();
    assert!(same(&ctx.spoke_state.keeper, &key(STRANGER)));
    assert!(same(&ctx.spoke_state.authority, &key(AUTHORITY)));
}

// -------------------------------------------------------------------- errors

#[test]
fn error_codes_start_at_the_offset() {
    assert_eq!(SpokeError::Unauthorized.code(), 6000);
    assert_eq!(SpokeError::InvalidHubMessage.code(), 6016);
    assert_eq!(SpokeError::MathOverflow.code(), 6024);
    assert_eq!(SpokeError::TimelockNotElapsed.code(), 6026);
}

#[test]
fn pubkey_equality() {
    assert!(key(1).key_eq(&key(1)));
    assert!(!key(1).key_eq(&key(2)));
    let mut bytes = [0u8; 32];
    bytes[31] = 1;
    assert!(!Pubkey::new_from_array(bytes).key_eq(&Pubkey::default()));
}

// ------------------------------------------------------- checked edge cases

#[test]
fn too_many_decimals_is_an_overflow() {
    let huge = AssetConfig { decimals: 39, ..asset() };
    let mut w = Withdraw { asset_config: huge, ..withdraw_ctx(position(10, 5)) };
    assert_eq!(withdraw::handler(&mut w, 1, 0).unwrap_err(), SpokeError::MathOverflow);
    // no debt and no limit: the valuation is never reached
    let mut w = Withdraw { asset_config: huge, ..withdraw_ctx(position(10, 0)) };
    assert!(withdraw::handler(&mut w, 1, 0).is_ok());
    let mut l = Liquidate { asset_config: huge, ..liquidate_ctx(position(10, 5)) };
    assert_eq!(liquidate::handler(&mut l, 1).unwrap_err(), SpokeError::MathOverflow);
}

#[test]
fn liquidating_an_empty_position_is_a_division_by_zero() {
    // nothing deposited, debt outstanding: liquidatable, and the debt share
    // of a zero-sized position would divide by zero
    let mut l = liquidate_ctx(position(0, 1_000_000));
    assert_eq!(liquidate::handler(&mut l, 0).unwrap_err(), SpokeError::DivisionByZero);
    assert_eq!(l.user_deposit.borrowed_amount, 1_000_000);
    // asking for more than the empty deposit is refused before that
    let mut l = liquidate_ctx(position(0, 1_000_000));
    assert_eq!(liquidate::handler(&mut l, 1).unwrap_err(), SpokeError::LiquidationTooLarge);
}

#[test]
fn liquidating_zero_of_a_position_changes_nothing_but_succeeds() {
    let mut ctx = liquidate_ctx(position(1_000_000_000, 1_000_000_000));
    let event = liquidate::handler(&mut ctx, 0).unwrap();
    assert_eq!(event.amount_liquidated, 0);
    assert_eq!(event.liquidator_reward, 0);
    assert_eq!(ctx.user_deposit.deposited_amount, 1_000_000_000);
    assert_eq!(ctx.user_deposit.borrowed_amount, 1_000_000_000);
}
