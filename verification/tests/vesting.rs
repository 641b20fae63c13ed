use paradox_token::account_id::AccountId;
use paradox_token::errors::ParadoxError;
use paradox_token::vesting::{DevVestingVault, SECONDS_PER_MONTH};
use paradox_token::{DEFAULT_COOLDOWN_SECONDS, DEFAULT_TIMELOCK_SECONDS};

/// A realistic epoch instant at which the vaults under test are created.
const BASE: i64 = 1_000_000_000;

fn dev() -> AccountId {
    AccountId { hi: 7, lo: 7 }
}

fn fresh_vault(total: u64, liquid: u64, cliff: i64, vesting: i64) -> DevVestingVault {
    DevVestingVault::initialize(
        dev(),
        AccountId { hi: 1, lo: 1 },
        AccountId { hi: 2, lo: 2 },
        total,
        liquid,
        cliff,
        vesting,
        BASE,
    )
    .unwrap()
}

#[test]
fn initialize_locks_everything_but_liquid_part() {
    let vault = fresh_vault(1_000_000, 100_000, 600, 3600);
    assert_eq!(vault.total_locked, 900_000);
    assert_eq!(vault.locked_amount, 900_000);
    assert_eq!(vault.pending_amount, 0);
    assert_eq!(vault.unlock_rate_bps, 500);
    assert_eq!(vault.initialized_at, BASE);
    assert_eq!(vault.cooldown_seconds, DEFAULT_COOLDOWN_SECONDS);
    assert_eq!(vault.timelock_seconds, DEFAULT_TIMELOCK_SECONDS);
}

#[test]
fn initialize_rejects_liquid_above_allocation() {
    let r = DevVestingVault::initialize(
        dev(),
        AccountId { hi: 1, lo: 1 },
        AccountId { hi: 2, lo: 2 },
        100,
        101,
        0,
        0,
        BASE,
    );
    assert_eq!(r.unwrap_err(), ParadoxError::MathOverflow);
}

#[test]
fn unlock_rate_escalates_at_month_18() {
    let mut vault = fresh_vault(1_000_000, 0, 0, 36 * SECONDS_PER_MONTH);
    vault.update_unlock_rate(BASE + 17 * SECONDS_PER_MONTH);
    assert_eq!(vault.unlock_rate_bps, 500);
    vault.update_unlock_rate(BASE + 18 * SECONDS_PER_MONTH - 1);
    assert_eq!(vault.unlock_rate_bps, 500);
    vault.update_unlock_rate(BASE + 18 * SECONDS_PER_MONTH);
    assert_eq!(vault.unlock_rate_bps, 1000);
    vault.update_unlock_rate(BASE + 40 * SECONDS_PER_MONTH);
    assert_eq!(vault.unlock_rate_bps, 1000);
}

#[test]
fn max_unlockable_is_rate_share_of_locked() {
    let mut vault = fresh_vault(1_000_000, 0, 0, 3600);
    assert_eq!(vault.max_unlockable(), 50_000);
    vault.unlock_rate_bps = 1000;
    assert_eq!(vault.max_unlockable(), 100_000);
}

#[test]
fn request_rejects_amount_above_rate() {
    let mut vault = fresh_vault(1_000_000, 0, 100, 3600);
    // At the cliff end, in month 0, the rate is 5%: 50,000 at most.
    let r = vault.request_unlock(50_001, BASE + 100);
    assert_eq!(r.unwrap_err(), ParadoxError::UnlockRateExceeded);
    assert_eq!(vault.pending_amount, 0);
    vault.request_unlock(50_000, BASE + 100).unwrap();
    assert_eq!(vault.pending_amount, 50_000);
    assert_eq!(vault.last_request_time, BASE + 100);
    assert_eq!(vault.unlock_time, BASE + 100 + DEFAULT_TIMELOCK_SECONDS);
}

#[test]
fn request_applies_escalated_rate_after_month_18() {
    let mut vault = fresh_vault(1_000_000, 0, 0, 36 * SECONDS_PER_MONTH);
    let t = BASE + 18 * SECONDS_PER_MONTH;
    vault.request_unlock(100_000, t).unwrap();
    assert_eq!(vault.unlock_rate_bps, 1000);
    assert_eq!(vault.pending_amount, 100_000);
}

#[test]
fn request_rejects_dust_cliff_and_cooldown() {
    let mut vault = fresh_vault(1_000_000, 0, 1000, 3600);
    let cliff_end = BASE + 1000;
    assert_eq!(
        vault.request_unlock(33, cliff_end + 10).unwrap_err(),
        ParadoxError::AmountBelowMinimum
    );
    assert_eq!(
        vault.request_unlock(100, cliff_end - 1).unwrap_err(),
        ParadoxError::CliffNotPassed
    );
    vault.request_unlock(100, cliff_end).unwrap();
    let too_soon = vault.request_unlock(100, cliff_end + DEFAULT_COOLDOWN_SECONDS - 1);
    assert_eq!(too_soon.unwrap_err(), ParadoxError::CooldownNotPassed);
    vault.request_unlock(100, cliff_end + DEFAULT_COOLDOWN_SECONDS).unwrap();
}

#[test]
fn execute_unlock_waits_for_timelock() {
    let mut vault = fresh_vault(1_000_000, 0, 0, 3600);
    vault.request_unlock(40_000, BASE).unwrap();
    let r = vault.execute_unlock(BASE + DEFAULT_TIMELOCK_SECONDS - 1);
    assert_eq!(r.unwrap_err(), ParadoxError::TimelockNotExpired);
    assert_eq!(vault.locked_amount, 1_000_000);
    let amount = vault.execute_unlock(BASE + DEFAULT_TIMELOCK_SECONDS).unwrap();
    assert_eq!(amount, 40_000);
    assert_eq!(vault.locked_amount, 960_000);
    assert_eq!(vault.pending_amount, 0);
    assert_eq!(vault.total_unlocked, 40_000);
}

#[test]
fn execute_unlock_without_pending_fails() {
    let mut vault = fresh_vault(1_000_000, 0, 0, 3600);
    assert_eq!(vault.execute_unlock(BASE).unwrap_err(), ParadoxError::InsufficientFees);
}

#[test]
fn vesting_is_linear_between_cliff_and_end() {
    let vault = fresh_vault(1000, 0, 100, 1100);
    assert_eq!(vault.vested_amount(BASE + 99), 0);
    assert_eq!(vault.vested_amount(BASE + 100), 0);
    assert_eq!(vault.vested_amount(BASE + 350), 250);
    assert_eq!(vault.vested_amount(BASE + 600), 500);
    assert_eq!(vault.vested_amount(BASE + 1100), 1000);
    assert_eq!(vault.vested_amount(BASE + 5000), 1000);
}

#[test]
fn cliff_cooldown_timelock_predicates() {
    let mut vault = fresh_vault(1000, 0, 500, 1000);
    assert!(!vault.cliff_passed(BASE + 499));
    assert!(vault.cliff_passed(BASE + 500));
    vault.last_request_time = BASE + 100;
    vault.cooldown_seconds = 50;
    assert!(!vault.cooldown_passed(BASE + 149));
    assert!(vault.cooldown_passed(BASE + 150));
    vault.unlock_time = BASE + 700;
    assert!(!vault.timelock_expired(BASE + 699));
    assert!(vault.timelock_expired(BASE + 700));
}
