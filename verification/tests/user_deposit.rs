use spoke_lending::pubkey::Pubkey;
use spoke_lending::state::UserDeposit;

fn mock_deposit() -> UserDeposit {
    UserDeposit {
        owner: Pubkey::default(),
        asset_config: Pubkey::default(),
        deposited_amount: 1_000_000_000, // 1000 tokens
        deposit_timestamp: 0,
        last_hub_sync_slot: 0,
        hub_approved_borrow: 800_000_000, // $800
        borrowed_amount: 0,
        pending_withdrawal: 0,
        withdrawal_pending: false,
        bump: 0,
    }
}

#[test]
fn test_health_factor_no_borrows() {
    let deposit = mock_deposit();
    assert_eq!(deposit.calculate_health_factor(800_000_000), u64::MAX);
}

#[test]
fn test_health_factor_with_borrows() {
    let mut deposit = mock_deposit();
    deposit.borrowed_amount = 400_000_000; // $400
    // Collateral $800, borrowed $400 → health = 200%
    assert_eq!(deposit.calculate_health_factor(800_000_000), 200);
}

#[test]
fn test_not_liquidatable_healthy() {
    let mut deposit = mock_deposit();
    deposit.borrowed_amount = 400_000_000;
    // Collateral $800, threshold 85% → threshold_value = $340
    // $800 > $340 → not liquidatable
    assert!(!deposit.is_liquidatable(800_000_000, 8500));
}

#[test]
fn test_liquidatable_underwater() {
    let mut deposit = mock_deposit();
    deposit.borrowed_amount = 1_000_000_000; // $1000
    // Collateral $800, threshold 85% → threshold_value = $850
    // $800 < $850 → liquidatable
    assert!(deposit.is_liquidatable(800_000_000, 8500));
}

#[test]
fn health_factor_saturates() {
    let mut deposit = mock_deposit();
    deposit.borrowed_amount = 1;
    assert_eq!(deposit.calculate_health_factor(1), 100);
    assert_eq!(deposit.calculate_health_factor(1 << 63), u64::MAX);
    assert_eq!(deposit.calculate_health_factor(u64::MAX), u64::MAX);
}

#[test]
fn no_debt_is_never_liquidatable() {
    let deposit = mock_deposit();
    assert!(!deposit.is_liquidatable(0, 10_000));
}

#[test]
fn liquidatable_exactly_below_threshold() {
    let mut deposit = mock_deposit();
    deposit.borrowed_amount = 1_000_000;
    // threshold value 850_000
    assert!(deposit.is_liquidatable(849_999, 8500));
    assert!(!deposit.is_liquidatable(850_000, 8500));
}
