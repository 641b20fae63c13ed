use paradox_token::account_id::AccountId;
use paradox_token::errors::ParadoxError;
use paradox_token::treasury::{DaoTreasuryVault, TREASURY_TIMELOCK_SECONDS};

const DAY: i64 = 24 * 60 * 60;

fn governance() -> AccountId {
    AccountId { hi: 9, lo: 9 }
}

fn payee() -> AccountId {
    AccountId { hi: 11, lo: 11 }
}

fn fresh_treasury(balance: u64, cap_bps: u16, period: i64) -> DaoTreasuryVault {
    let mut treasury = DaoTreasuryVault::initialize(
        governance(),
        AccountId { hi: 1, lo: 1 },
        AccountId { hi: 2, lo: 2 },
        cap_bps,
        period,
        0,
    );
    treasury.balance = balance;
    treasury
}

#[test]
fn initialize_defaults() {
    let treasury = fresh_treasury(0, 1000, 30 * DAY);
    assert_eq!(treasury.timelock_seconds, TREASURY_TIMELOCK_SECONDS);
    assert_eq!(treasury.pending_amount, 0);
    assert_eq!(treasury.spent_this_period, 0);
}

#[test]
fn max_spendable_is_cap_minus_spent() {
    let mut treasury = fresh_treasury(1_000_000, 1000, 30 * DAY);
    assert_eq!(treasury.max_spendable(), 100_000);
    treasury.spent_this_period = 30_000;
    assert_eq!(treasury.max_spendable(), 70_000);
    treasury.spent_this_period = 200_000;
    assert_eq!(treasury.max_spendable(), 0);
}

#[test]
fn propose_rejects_above_cap() {
    let mut treasury = fresh_treasury(1_000_000, 1000, 30 * DAY);
    let r = treasury.propose_withdrawal(150_000, payee(), b"grant".to_vec(), 0);
    assert_eq!(r.unwrap_err(), ParadoxError::DaoSpendingLimitExceeded);
    assert_eq!(treasury.pending_amount, 0);
}

#[test]
fn propose_rejects_dust() {
    let mut treasury = fresh_treasury(1_000_000, 1000, 30 * DAY);
    let r = treasury.propose_withdrawal(33, payee(), b"dust".to_vec(), 0);
    assert_eq!(r.unwrap_err(), ParadoxError::AmountBelowMinimum);
}

#[test]
fn second_propose_replaces_pending() {
    // The treasury holds a single pending slot; proposing again before the
    // first request was executed overwrites it, and the cap is judged
    // against what was actually spent this period (nothing yet).
    let mut treasury = fresh_treasury(1_000_000, 1000, 30 * DAY);
    treasury.propose_withdrawal(90_000, payee(), b"first".to_vec(), 0).unwrap();
    assert_eq!(treasury.pending_amount, 90_000);
    treasury.propose_withdrawal(50_000, payee(), b"second".to_vec(), 100).unwrap();
    assert_eq!(treasury.pending_amount, 50_000);
    assert_eq!(treasury.pending_reason, b"second".to_vec());
    assert_eq!(treasury.pending_execute_after, 100 + TREASURY_TIMELOCK_SECONDS);
}

#[test]
fn execute_counts_spend_against_period() {
    let mut treasury = fresh_treasury(1_000_000, 1000, 30 * DAY);
    treasury.propose_withdrawal(90_000, payee(), b"ops".to_vec(), 0).unwrap();
    let too_early = treasury.execute_withdrawal(TREASURY_TIMELOCK_SECONDS - 1);
    assert_eq!(too_early.unwrap_err(), ParadoxError::TimelockNotExpired);
    let (amount, to) = treasury.execute_withdrawal(TREASURY_TIMELOCK_SECONDS).unwrap();
    assert_eq!(amount, 90_000);
    assert_eq!(to, payee());
    assert_eq!(treasury.balance, 910_000);
    assert_eq!(treasury.spent_this_period, 90_000);
    assert_eq!(treasury.total_withdrawn, 90_000);
    assert_eq!(treasury.pending_amount, 0);
    // Another proposal in the same period is judged against the spend and
    // the reduced balance: the cap is now 91,000 of which 90,000 is spent.
    let over = treasury.propose_withdrawal(1_001, payee(), b"more".to_vec(), 3 * DAY);
    assert_eq!(over.unwrap_err(), ParadoxError::DaoSpendingLimitExceeded);
    treasury.propose_withdrawal(1_000, payee(), b"more".to_vec(), 3 * DAY).unwrap();
}

#[test]
fn period_reset_restores_the_cap() {
    let mut treasury = fresh_treasury(1_000_000, 1000, 30 * DAY);
    treasury.spent_this_period = 100_000;
    // Inside the period the cap is exhausted.
    let r = treasury.propose_withdrawal(40_000, payee(), b"x".to_vec(), 29 * DAY);
    assert_eq!(r.unwrap_err(), ParadoxError::DaoSpendingLimitExceeded);
    assert!(!treasury.should_reset_period(29 * DAY));
    // Once the window elapses the period resets as part of proposing.
    assert!(treasury.should_reset_period(30 * DAY));
    treasury.propose_withdrawal(40_000, payee(), b"x".to_vec(), 30 * DAY).unwrap();
    assert_eq!(treasury.period_start, 30 * DAY);
    assert_eq!(treasury.spent_this_period, 0);
}

#[test]
fn rejected_proposal_leaves_elapsed_window_untouched() {
    let mut treasury = fresh_treasury(1_000_000, 1000, 30 * DAY);
    treasury.spent_this_period = 100_000;
    // Over the cap even after the notional reset: nothing changes.
    let r = treasury.propose_withdrawal(150_000, payee(), b"x".to_vec(), 31 * DAY);
    assert_eq!(r.unwrap_err(), ParadoxError::DaoSpendingLimitExceeded);
    assert_eq!(treasury.period_start, 0);
    assert_eq!(treasury.spent_this_period, 100_000);
}

#[test]
fn treasury_execute_without_pending_fails() {
    let mut treasury = fresh_treasury(1_000_000, 1000, 30 * DAY);
    let r = treasury.execute_withdrawal(10 * DAY);
    assert_eq!(r.unwrap_err(), ParadoxError::TimelockNotExpired);
}

#[test]
fn proposal_reason_is_truncated_to_capacity() {
    let mut treasury = fresh_treasury(1_000_000, 10000, 30 * DAY);
    let long = vec![1u8; 200];
    treasury.propose_withdrawal(1000, payee(), long.clone(), 0).unwrap();
    assert_eq!(treasury.pending_reason.len(), 128);
    assert_eq!(treasury.pending_reason[..], long[..128]);
}

#[test]
fn reset_period_zeroes_tracking() {
    let mut treasury = fresh_treasury(500, 5000, 100);
    treasury.spent_this_period = 77;
    treasury.reset_period(250);
    assert_eq!(treasury.period_start, 250);
    assert_eq!(treasury.spent_this_period, 0);
}

#[test]
fn propose_near_clock_end_fails_closed() {
    let mut treasury = fresh_treasury(1_000_000, 10000, 30 * DAY);
    let r = treasury.propose_withdrawal(1000, payee(), b"late".to_vec(), i64::MAX - 100);
    assert_eq!(r.unwrap_err(), ParadoxError::MathOverflow);
    assert_eq!(treasury.pending_amount, 0);
}
