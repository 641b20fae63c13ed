use paradox_token::account_id::AccountId;
use paradox_token::errors::ParadoxError;
use paradox_token::lp_growth::LpGrowthManager;

fn fresh_manager(threshold: u64, cooldown: i64) -> LpGrowthManager {
    LpGrowthManager::initialize(
        AccountId { hi: 1, lo: 1 },
        AccountId { hi: 2, lo: 2 },
        AccountId { hi: 3, lo: 3 },
        AccountId { hi: 4, lo: 4 },
        threshold,
        cooldown,
    )
}

#[test]
fn growth_releases_accumulated_fees() {
    let mut manager = fresh_manager(1000, 3600);
    manager.accumulated_fees = 5000;
    let released = manager.execute_growth(3600).unwrap();
    assert_eq!(released, 5000);
    assert_eq!(manager.accumulated_fees, 0);
    assert_eq!(manager.last_growth_time, 3600);
    assert_eq!(manager.total_sol_added, 5000);
}

#[test]
fn growth_waits_out_the_cooldown() {
    let mut manager = fresh_manager(1000, 3600);
    manager.accumulated_fees = 5000;
    manager.last_growth_time = 3600;
    assert!(!manager.can_execute_growth(7199));
    let r = manager.execute_growth(7199);
    assert_eq!(r.unwrap_err(), ParadoxError::CooldownNotPassed);
    assert_eq!(manager.accumulated_fees, 5000);
    assert!(manager.can_execute_growth(7200));
    manager.execute_growth(7200).unwrap();
}

#[test]
fn growth_needs_the_fee_threshold() {
    let mut manager = fresh_manager(1000, 0);
    manager.accumulated_fees = 999;
    assert!(!manager.has_enough_fees());
    assert_eq!(manager.execute_growth(10).unwrap_err(), ParadoxError::InsufficientFees);
    manager.accumulated_fees = 1000;
    assert!(manager.has_enough_fees());
    manager.execute_growth(10).unwrap();
}

#[test]
fn lock_blocks_growth_until_unlocked() {
    let mut manager = fresh_manager(0, 0);
    manager.accumulated_fees = 100;
    manager.lock_growth();
    assert!(manager.is_locked);
    assert!(!manager.can_execute_growth(100));
    assert_eq!(manager.execute_growth(100).unwrap_err(), ParadoxError::LpGrowthLocked);
    manager.unlock_growth();
    assert!(!manager.is_locked);
    assert_eq!(manager.execute_growth(100).unwrap(), 100);
}

#[test]
fn tokens_to_mint_is_checked_product() {
    let manager = fresh_manager(0, 0);
    assert_eq!(manager.calculate_tokens_to_mint(2, 3).unwrap(), 6);
    assert_eq!(manager.calculate_tokens_to_mint(0, u64::MAX).unwrap(), 0);
    let r = manager.calculate_tokens_to_mint(u64::MAX, 2);
    assert_eq!(r.unwrap_err(), ParadoxError::MathOverflow);
}
