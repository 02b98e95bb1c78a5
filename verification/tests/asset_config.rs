use spoke_lending::pubkey::Pubkey;
use spoke_lending::state::AssetConfig;

fn mock_config() -> AssetConfig {
    AssetConfig {
        mint: Pubkey::default(),
        vault: Pubkey::default(),
        oracle_feed: Pubkey::default(),
        max_deposit: 1_000_000_000_000, // 1M tokens (6 decimals)
        deposit_enabled: true,
        total_deposited: 0,
        decimals: 6,
        interest_rate_bps: 500,       // 5%
        last_oracle_price: 1_000_000, // $1.00 (6 decimals)
        last_oracle_timestamp: 0,
        collateral_factor_bps: 8000, // 80%
        liquidation_threshold_bps: 8500,
        liquidation_bonus_bps: 500,
        bump: 0,
    }
}

#[test]
fn test_collateral_value() {
    let config = mock_config();
    // 1000 tokens at $1.00, 80% collateral factor = $800
    let value = config.calculate_collateral_value(1_000_000_000).unwrap();
    assert_eq!(value, 800_000_000); // $800 in 6 decimals
}

#[test]
fn test_can_deposit() {
    let mut config = mock_config();
    assert!(config.can_deposit(100_000_000));

    config.deposit_enabled = false;
    assert!(!config.can_deposit(100_000_000));

    config.deposit_enabled = true;
    config.total_deposited = config.max_deposit;
    assert!(!config.can_deposit(1));
}

#[test]
fn collateral_value_rounds_down_through_decimals() {
    let mut config = mock_config();
    config.decimals = 9;
    config.last_oracle_price = 2_500_000; // $2.50
    // 1.5 tokens: 1_500_000_000 * 2_500_000 / 10^9 = 3_750_000, times 80% = 3_000_000
    assert_eq!(config.calculate_collateral_value(1_500_000_000), Some(3_000_000));
    // 1 base unit is worth less than one micro-dollar: rounds to zero
    assert_eq!(config.calculate_collateral_value(1), Some(0));
}

#[test]
fn collateral_value_overflow_is_none() {
    let mut config = mock_config();
    config.decimals = 0;
    config.last_oracle_price = u64::MAX;
    config.collateral_factor_bps = u16::MAX;
    // (2^64 - 1)^2 * 65535 does not fit in 128 bits
    assert_eq!(config.calculate_collateral_value(u64::MAX), None);
}

#[test]
fn collateral_value_beyond_u64_is_none() {
    let mut config = mock_config();
    config.decimals = 0;
    config.last_oracle_price = u64::MAX;
    config.collateral_factor_bps = 10_000;
    // value = 2 * (2^64 - 1) does not fit in a u64
    assert_eq!(config.calculate_collateral_value(2), None);
    assert_eq!(config.calculate_collateral_value(1), Some(u64::MAX));
    // 2^40 tokens at 2^40 with 80%: about 9.7 * 10^23
    config.last_oracle_price = 1 << 40;
    config.collateral_factor_bps = 8000;
    assert_eq!(config.calculate_collateral_value(1 << 40), None);
}

#[test]
fn collateral_value_with_too_many_decimals_is_none() {
    let mut config = mock_config();
    config.decimals = 39;
    assert_eq!(config.calculate_collateral_value(1_000_000_000), None);
    config.decimals = 38;
    assert_eq!(config.calculate_collateral_value(u64::MAX), Some(0));
}

#[test]
fn can_deposit_exactly_to_the_cap_and_not_past_overflow() {
    let mut config = mock_config();
    config.total_deposited = config.max_deposit - 10;
    assert!(config.can_deposit(10));
    assert!(!config.can_deposit(11));
    config.max_deposit = u64::MAX;
    config.total_deposited = u64::MAX;
    assert!(!config.can_deposit(1));
    assert!(config.can_deposit(0));
}
