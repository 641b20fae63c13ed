use paradox_token::account_id::AccountId;
use paradox_token::errors::ParadoxError;
use paradox_token::lp_lock::{LpLock, LpLockPhase, LpLockStatus};
use paradox_token::lp_lock::{
    PHASE1_TIMELOCK_SECONDS,
    PHASE2_TIMELOCK_SECONDS,
    PHASE3_TIMELOCK_SECONDS,
};

const DAY: i64 = 24 * 60 * 60;

fn admin() -> AccountId {
    AccountId { hi: 10, lo: 10 }
}

fn recipient() -> AccountId {
    AccountId { hi: 20, lo: 20 }
}

fn fresh_lock(lp_amount: u64) -> LpLock {
    LpLock::initialize(
        AccountId { hi: 1, lo: 1 },
        AccountId { hi: 2, lo: 2 },
        AccountId { hi: 3, lo: 3 },
        AccountId { hi: 4, lo: 4 },
        admin(),
        AccountId { hi: 5, lo: 5 },
        lp_amount,
        0,
    )
}

#[test]
fn phase_schedule_and_boundaries() {
    let lock = fresh_lock(1_000_000);
    assert_eq!(lock.get_current_phase(0), LpLockPhase::Emergency);
    assert_eq!(lock.get_current_phase(3 * DAY - 1), LpLockPhase::Emergency);
    assert_eq!(lock.get_current_phase(3 * DAY), LpLockPhase::Stabilization);
    assert_eq!(lock.get_current_phase(15 * DAY - 1), LpLockPhase::Stabilization);
    assert_eq!(lock.get_current_phase(15 * DAY), LpLockPhase::Permanent);
    assert_eq!(lock.get_required_timelock(0), PHASE1_TIMELOCK_SECONDS);
    assert_eq!(lock.get_required_timelock(3 * DAY), PHASE2_TIMELOCK_SECONDS);
    assert_eq!(lock.get_required_timelock(200 * DAY), PHASE3_TIMELOCK_SECONDS);
}

#[test]
fn required_notice_is_nondecreasing_in_age() {
    let lock = fresh_lock(1_000_000);
    let instants =
        [0, DAY, 3 * DAY - 1, 3 * DAY, 10 * DAY, 15 * DAY - 1, 15 * DAY, 100 * DAY];
    let mut previous = lock.get_required_timelock(0);
    for &t in instants.iter() {
        let notice = lock.get_required_timelock(t);
        assert!(notice >= previous);
        previous = notice;
    }
}

#[test]
fn phase_names() {
    let lock = fresh_lock(1);
    assert_eq!(lock.get_phase_name(0), "EMERGENCY (12h notice)");
    assert_eq!(lock.get_phase_name(4 * DAY), "STABILIZATION (15d notice)");
    assert_eq!(lock.get_phase_name(20 * DAY), "PERMANENT (30d notice)");
}

#[test]
fn days_until_next_phase_counts_down() {
    let lock = fresh_lock(1);
    assert_eq!(lock.days_until_next_phase(0), Some(3));
    assert_eq!(lock.days_until_next_phase(DAY), Some(2));
    assert_eq!(lock.days_until_next_phase(3 * DAY), Some(12));
    assert_eq!(lock.days_until_next_phase(20 * DAY), None);
}

#[test]
fn announcement_commits_notice_at_announce_time() {
    // A request announced in the emergency phase keeps its short notice even
    // after the lock has moved into stricter phases.
    let mut lock = fresh_lock(1_000_000);
    let (slot, _) = lock
        .announce_withdrawal_with_snapshot(1000, recipient(), b"early".to_vec(), DAY)
        .unwrap();
    let committed = lock.pending_withdrawals[slot].execute_after;
    assert_eq!(committed, DAY + PHASE1_TIMELOCK_SECONDS);
    // Later, in the permanent phase, announce another request.
    let (slot2, _) = lock
        .announce_withdrawal_with_snapshot(1000, recipient(), b"late".to_vec(), 20 * DAY)
        .unwrap();
    assert_eq!(
        lock.pending_withdrawals[slot2].execute_after,
        20 * DAY + PHASE3_TIMELOCK_SECONDS
    );
    // The first request's committed instant is untouched.
    assert_eq!(lock.pending_withdrawals[slot].execute_after, committed);
}

#[test]
fn no_early_execution() {
    let mut lock = fresh_lock(1_000_000);
    let (slot, _) = lock
        .announce_withdrawal_with_snapshot(1000, recipient(), b"r".to_vec(), 0)
        .unwrap();
    let after = lock.pending_withdrawals[slot].execute_after;
    for &t in [0, 1, after - 2, after - 1].iter() {
        assert!(!lock.can_execute_withdrawal(slot, t));
        let r = lock.execute_withdrawal(slot, t);
        assert_eq!(r.unwrap_err(), ParadoxError::TimelockNotExpired);
        assert_eq!(lock.lp_tokens_locked, 1_000_000);
    }
    assert!(lock.can_execute_withdrawal(slot, after));
    let (amount, to) = lock.execute_withdrawal(slot, after).unwrap();
    assert_eq!(amount, 1000);
    assert_eq!(to, recipient());
}

#[test]
fn slot_capacity_is_three_and_cancel_frees() {
    let mut lock = fresh_lock(1_000_000);
    for _ in 0..3 {
        lock.announce_withdrawal_with_snapshot(10, recipient(), b"x".to_vec(), 0).unwrap();
    }
    let r = lock.announce_withdrawal_with_snapshot(10, recipient(), b"x".to_vec(), 0);
    assert_eq!(r.unwrap_err(), ParadoxError::TooManyPendingWithdrawals);
    assert_eq!(lock.pending_count, 3);
    lock.cancel_withdrawal(1).unwrap();
    assert_eq!(lock.pending_count, 2);
    let (slot, _) = lock
        .announce_withdrawal_with_snapshot(10, recipient(), b"x".to_vec(), 0)
        .unwrap();
    assert_eq!(slot, 1);
}

#[test]
fn announce_rejects_amount_above_locked() {
    let mut lock = fresh_lock(500);
    let r = lock.announce_withdrawal_with_snapshot(501, recipient(), b"r".to_vec(), 0);
    assert_eq!(r.unwrap_err(), ParadoxError::InsufficientLpTokens);
    assert_eq!(lock.snapshot_counter, 0);
}

#[test]
fn announce_takes_provenance_snapshot() {
    let mut lock = fresh_lock(1_000_000);
    let (slot, snapshot_id) = lock
        .announce_withdrawal_with_snapshot(77, recipient(), b"why".to_vec(), 0)
        .unwrap();
    assert_eq!(snapshot_id, 1);
    assert_eq!(lock.pending_withdrawals[slot].snapshot_id, 1);
    let snap = lock.get_snapshot(1).unwrap();
    assert_eq!(snap.reason, b"PRE_WITHDRAWAL__".to_vec());
    assert_eq!(snap.lp_tokens, 1_000_000);
    assert_eq!(lock.status, LpLockStatus::WithdrawalPending);
}

#[test]
fn execute_and_cancel_errors() {
    let mut lock = fresh_lock(1_000_000);
    assert_eq!(
        lock.execute_withdrawal(3, 0).unwrap_err(),
        ParadoxError::InvalidWithdrawalSlot
    );
    assert_eq!(lock.execute_withdrawal(0, 0).unwrap_err(), ParadoxError::NoActiveWithdrawal);
    assert_eq!(
        lock.cancel_withdrawal(9).unwrap_err(),
        ParadoxError::InvalidWithdrawalSlot
    );
    assert_eq!(lock.cancel_withdrawal(2).unwrap_err(), ParadoxError::NoActiveWithdrawal);
}

#[test]
fn time_until_executable_reports_remaining_wait() {
    let mut lock = fresh_lock(1000);
    assert_eq!(lock.time_until_executable(0, 0), i64::MAX);
    let (slot, _) = lock
        .announce_withdrawal_with_snapshot(10, recipient(), b"r".to_vec(), 0)
        .unwrap();
    assert_eq!(lock.time_until_executable(slot, 0), PHASE1_TIMELOCK_SECONDS);
    assert_eq!(lock.time_until_executable(slot, PHASE1_TIMELOCK_SECONDS + 5), 0);
    assert_eq!(lock.time_until_executable(5, 0), i64::MAX);
}

#[test]
fn snapshot_ring_keeps_last_five() {
    let mut lock = fresh_lock(1000);
    for i in 0..6u64 {
        let id = lock.take_snapshot(b"manual".to_vec(), i, i, i, i as u32, i as i64);
        assert_eq!(id, i + 1);
    }
    assert!(lock.get_snapshot(1).is_none());
    for id in 2..=6u64 {
        assert_eq!(lock.get_snapshot(id).unwrap().id, id);
    }
    let r = lock.restore_snapshot_by_id(1, 500, 10);
    assert_eq!(r.unwrap_err(), ParadoxError::InvalidWithdrawalSlot);
}

#[test]
fn snapshot_reason_is_truncated_to_capacity() {
    let mut lock = fresh_lock(1000);
    let long = vec![7u8; 40];
    lock.take_snapshot(long.clone(), 0, 0, 0, 0, 0);
    let snap = lock.get_snapshot(1).unwrap();
    assert_eq!(snap.reason.len(), 32);
    assert_eq!(snap.reason[..], long[..32]);
}

#[test]
fn restore_same_snapshot_twice_fails() {
    let mut lock = fresh_lock(1000);
    let id = lock.take_snapshot(b"before".to_vec(), 1, 2, 3, 4, 0);
    lock.restore_snapshot_by_id(id, 900, 5).unwrap();
    assert_eq!(lock.lp_tokens_locked, 900);
    assert_eq!(lock.status, LpLockStatus::Restored);
    // The ring still reports the snapshot as present...
    assert!(lock.get_snapshot(id).is_some());
    // ...but a second restore of the same id is refused.
    let again = lock.restore_snapshot_by_id(id, 900, 6);
    assert_eq!(again.unwrap_err(), ParadoxError::AlreadyFinalized);
}

#[test]
fn custody_lock_end_to_end() {
    // Created at t=0 with 1,000,000 locked units; at t=1 day (phase 1) a
    // withdrawal of 100,000 is announced, executable 12 hours later.
    let mut lock = fresh_lock(1_000_000);
    let (slot, _) = lock
        .announce_withdrawal_with_snapshot(100_000, recipient(), b"ops".to_vec(), DAY)
        .unwrap();
    assert_eq!(lock.pending_withdrawals[slot].execute_after, DAY + 12 * 60 * 60);
    // 6 hours after announcing: too early.
    let early = lock.execute_withdrawal(slot, DAY + 6 * 60 * 60);
    assert_eq!(early.unwrap_err(), ParadoxError::TimelockNotExpired);
    assert_eq!(lock.lp_tokens_locked, 1_000_000);
    assert_eq!(lock.status, LpLockStatus::WithdrawalPending);
    // 13 hours after announcing: the notice has been served.
    let (amount, to) = lock.execute_withdrawal(slot, DAY + 13 * 60 * 60).unwrap();
    assert_eq!(amount, 100_000);
    assert_eq!(to, recipient());
    assert_eq!(lock.lp_tokens_locked, 900_000);
    assert_eq!(lock.total_withdrawn, 100_000);
    assert_eq!(lock.status, LpLockStatus::Active);
    assert_eq!(lock.pending_count, 0);
}

#[test]
fn full_withdrawal_finalizes_lock() {
    let mut lock = fresh_lock(5000);
    let (slot, _) = lock
        .announce_withdrawal_with_snapshot(5000, recipient(), b"all".to_vec(), 0)
        .unwrap();
    let after = lock.pending_withdrawals[slot].execute_after;
    lock.execute_withdrawal(slot, after).unwrap();
    assert_eq!(lock.lp_tokens_locked, 0);
    assert_eq!(lock.status, LpLockStatus::Withdrawn);
}

#[test]
fn transfer_admin_hands_over_role() {
    let mut lock = fresh_lock(1);
    let new_admin = AccountId { hi: 99, lo: 99 };
    lock.transfer_admin(new_admin);
    assert_eq!(lock.admin, new_admin);
    assert_eq!(lock.governance, admin());
}

#[test]
fn announce_near_clock_end_fails_closed() {
    // With the clock near its maximum the committed execute-after instant
    // would overflow; the announcement is rejected and nothing changes.
    let mut lock = fresh_lock(1_000_000);
    let r = lock.announce_withdrawal_with_snapshot(
        10,
        recipient(),
        b"late".to_vec(),
        i64::MAX - 1000,
    );
    assert_eq!(r.unwrap_err(), ParadoxError::MathOverflow);
    assert_eq!(lock.snapshot_counter, 0);
    assert_eq!(lock.pending_count, 0);
}

#[test]
fn status_stays_pending_while_other_slots_active() {
    let mut lock = fresh_lock(1_000_000);
    let (slot_a, _) = lock
        .announce_withdrawal_with_snapshot(10, recipient(), b"a".to_vec(), 0)
        .unwrap();
    lock.announce_withdrawal_with_snapshot(20, recipient(), b"b".to_vec(), 0).unwrap();
    let after = lock.pending_withdrawals[slot_a].execute_after;
    lock.execute_withdrawal(slot_a, after).unwrap();
    // One request is still pending, so the lock is not back to idle yet.
    assert_eq!(lock.status, LpLockStatus::WithdrawalPending);
    assert_eq!(lock.pending_count, 1);
}
