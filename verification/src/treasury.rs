use vstd::prelude::*;
use crate::account_id::AccountId;
use crate::errors::ParadoxError;
use crate::{bps_of, lemma_bps_part_le_whole, truncate_bytes, MIN_TRANSFER_AMOUNT};

verus! {

/// Default timelock on treasury withdrawals: 48 hours.
pub const TREASURY_TIMELOCK_SECONDS: i64 = 48 * 60 * 60;

/// Capacity of a proposal's free-text reason.
pub const TREASURY_REASON_CAPACITY: usize = 128;

/// Governance-controlled treasury: a single-slot proposal/execute timelock
/// bounded by a rolling per-period spending cap.
#[derive(Clone, Debug)]
pub struct DaoTreasuryVault {
    /// Governance address (multisig or DAO program).
    pub governance: AccountId,
    /// Token mint.
    pub mint: AccountId,
    /// Token account holding the treasury tokens.
    pub token_account: AccountId,
    /// Total tokens held.
    pub balance: u64,
    /// Maximum spend per period, in bps of the balance (at most 10000).
    pub max_spend_bps_per_period: u16,
    /// Period length in seconds.
    pub period_seconds: i64,
    /// Start of the current period.
    pub period_start: i64,
    /// Amount spent in the current period.
    pub spent_this_period: u64,
    /// Pending withdrawal amount (inside the timelock); 0 when none.
    pub pending_amount: u64,
    /// Pending withdrawal recipient.
    pub pending_recipient: AccountId,
    /// Pending withdrawal reason, truncated to `TREASURY_REASON_CAPACITY`.
    pub pending_reason: Vec<u8>,
    /// Timestamp when the pending withdrawal can be executed.
    pub pending_execute_after: i64,
    /// Timelock duration for withdrawals, in seconds.
    pub timelock_seconds: i64,
    /// Total withdrawn (lifetime).
    pub total_withdrawn: u64,
}

/// Mathematical model of a `DaoTreasuryVault`.
#[verifier::ext_equal]
pub ghost struct DaoTreasuryVaultView {
    pub governance: AccountId,
    pub mint: AccountId,
    pub token_account: AccountId,
    pub balance: u64,
    pub max_spend_bps_per_period: u16,
    pub period_seconds: i64,
    pub period_start: i64,
    pub spent_this_period: u64,
    pub pending_amount: u64,
    pub pending_recipient: AccountId,
    pub pending_reason: Seq<u8>,
    pub pending_execute_after: i64,
    pub timelock_seconds: i64,
    pub total_withdrawn: u64,
}

impl View for DaoTreasuryVault {
    type V = DaoTreasuryVaultView;

    open spec fn view(&self) -> DaoTreasuryVaultView {
        DaoTreasuryVaultView {
            governance: self.governance,
            mint: self.mint,
            token_account: self.token_account,
            balance: self.balance,
            max_spend_bps_per_period: self.max_spend_bps_per_period,
            period_seconds: self.period_seconds,
            period_start: self.period_start,
            spent_this_period: self.spent_this_period,
            pending_amount: self.pending_amount,
            pending_recipient: self.pending_recipient,
            pending_reason: self.pending_reason@,
            pending_execute_after: self.pending_execute_after,
            timelock_seconds: self.timelock_seconds,
            total_withdrawn: self.total_withdrawn,
        }
    }
}

impl DaoTreasuryVaultView {
    /// Whether the current period window has elapsed at `now`.
    pub open spec fn period_elapsed(&self, now: i64) -> bool {
        now >= self.period_start + self.period_seconds
    }

    /// What counts as spent this period when a proposal at `now` is judged:
    /// 0 once the window has elapsed (the reset happens first), otherwise
    /// the recorded amount.
    pub open spec fn effective_spent(&self, now: i64) -> int {
        if self.period_elapsed(now) {
            0
        } else {
            self.spent_this_period as int
        }
    }

    /// The most a proposal at `now` may ask for: the cap's share of the
    /// balance, minus what already counts as spent (never below zero).
    pub open spec fn max_proposable(&self, now: i64) -> int {
        let cap = bps_of(self.balance, self.max_spend_bps_per_period);
        if self.effective_spent(now) <= cap {
            cap - self.effective_spent(now)
        } else {
            0
        }
    }

    /// Whether the pending withdrawal may execute at `now`.
    pub open spec fn can_execute(&self, now: i64) -> bool {
        self.pending_amount > 0 && now >= self.pending_execute_after
    }

    /// Well-formedness: a cap of at most 100%, non-negative times, and a
    /// cleared pending record whenever no withdrawal is pending.
    pub open spec fn wf(&self) -> bool {
        &&& self.max_spend_bps_per_period <= 10000
        &&& 0 <= self.period_start
        &&& 0 <= self.pending_execute_after
        &&& 0 <= self.timelock_seconds
        &&& self.pending_reason.len() <= TREASURY_REASON_CAPACITY
        &&& self.pending_amount == 0 ==> (self.pending_recipient == AccountId::zero_spec()
            && self.pending_reason.len() == 0 && self.pending_execute_after == 0)
    }
}

impl DaoTreasuryVault {
    /// Well-formedness (see `DaoTreasuryVaultView::wf`).
    pub open spec fn wf(&self) -> bool {
        self@.wf()
    }

    /// Build a fresh treasury at time `now`, with an empty balance, no
    /// pending withdrawal, and the default 48-hour withdrawal timelock.
    /// The spending cap is a fraction of the balance, at most 100%.
    pub fn initialize(
        governance: AccountId,
        mint: AccountId,
        token_account: AccountId,
        max_spend_bps_per_period: u16,
        period_seconds: i64,
        now: i64,
    ) -> (r: DaoTreasuryVault)
        requires
            0 <= now,
            max_spend_bps_per_period <= 10000,
        ensures
            r.wf(),
            r@ == (DaoTreasuryVaultView {
                governance,
                mint,
                token_account,
                balance: 0,
                max_spend_bps_per_period,
                period_seconds,
                period_start: now,
                spent_this_period: 0,
                pending_amount: 0,
                pending_recipient: AccountId::zero_spec(),
                pending_reason: Seq::empty(),
                pending_execute_after: 0,
                timelock_seconds: TREASURY_TIMELOCK_SECONDS,
                total_withdrawn: 0,
            }),
    {
        let r = DaoTreasuryVault {
            governance,
            mint,
            token_account,
            balance: 0,
            max_spend_bps_per_period,
            period_seconds,
            period_start: now,
            spent_this_period: 0,
            pending_amount: 0,
            pending_recipient: AccountId::zero(),
            pending_reason: Vec::new(),
            pending_execute_after: 0,
            timelock_seconds: TREASURY_TIMELOCK_SECONDS,
            total_withdrawn: 0,
        };
        proof {
            assert(r@ =~= (DaoTreasuryVaultView {
                governance,
                mint,
                token_account,
                balance: 0,
                max_spend_bps_per_period,
                period_seconds,
                period_start: now,
                spent_this_period: 0,
                pending_amount: 0,
                pending_recipient: AccountId::zero_spec(),
                pending_reason: Seq::empty(),
                pending_execute_after: 0,
                timelock_seconds: TREASURY_TIMELOCK_SECONDS,
                total_withdrawn: 0,
            }));
        }
        r
    }

    /// The most that can still be spent in the current period, against the
    /// recorded `spent_this_period`.
    pub fn max_spendable(&self) -> (r: u64)
        requires
            self@.max_spend_bps_per_period <= 10000,
        ensures
            ({
                let cap = bps_of(self@.balance, self@.max_spend_bps_per_period);
                r == (if self@.spent_this_period <= cap {
                    cap - self@.spent_this_period
                } else {
                    0int
                })
            }),
    {
        proof {
            lemma_bps_part_le_whole(self.balance, self.max_spend_bps_per_period);
        }
        let cap: u64 = ((self.balance as u128) * (self.max_spend_bps_per_period as u128)
            / 10_000) as u64;
        if self.spent_this_period <= cap {
            cap - self.spent_this_period
        } else {
            0
        }
    }

    /// Whether the period window has elapsed at `current_time`.
    pub fn should_reset_period(&self, current_time: i64) -> (r: bool)
        ensures
            r == self@.period_elapsed(current_time),
    {
        (current_time as i128) >= (self.period_start as i128) + (self.period_seconds as i128)
    }

    /// Open a new period window at `current_time` with nothing spent.
    pub fn reset_period(&mut self, current_time: i64)
        requires
            old(self).wf(),
            0 <= current_time,
        ensures
            final(self).wf(),
            final(self)@ == (DaoTreasuryVaultView {
                period_start: current_time,
                spent_this_period: 0,
                ..old(self)@
            }),
    {
        self.period_start = current_time;
        self.spent_this_period = 0;
        proof {
            assert(self@ =~= (DaoTreasuryVaultView {
                period_start: current_time,
                spent_this_period: 0,
                ..old(self)@
            }));
        }
    }

    /// Whether the pending withdrawal may execute at `current_time`.
    pub fn can_execute_withdrawal(&self, current_time: i64) -> (r: bool)
        ensures
            r == self@.can_execute(current_time),
    {
        self.pending_amount > 0 && current_time >= self.pending_execute_after
    }

    /// Propose a withdrawal at time `now`. An elapsed period window is
    /// reset first, and the amount is judged against what the cap still
    /// allows. A proposal made while another is pending replaces it: the
    /// single pending slot is simply overwritten. A rejected proposal
    /// leaves the treasury unchanged, elapsed window included.
    pub fn propose_withdrawal(
        &mut self,
        amount: u64,
        recipient: AccountId,
        reason: Vec<u8>,
        now: i64,
    ) -> (r: Result<(), ParadoxError>)
        requires
            old(self).wf(),
            0 <= now,
        ensures
            final(self).wf(),
            amount < MIN_TRANSFER_AMOUNT ==> r == Err::<(), ParadoxError>(
                ParadoxError::AmountBelowMinimum,
            ) && final(self)@ == old(self)@,
            amount >= MIN_TRANSFER_AMOUNT && amount > old(self)@.max_proposable(now) ==> r
                == Err::<(), ParadoxError>(ParadoxError::DaoSpendingLimitExceeded) && final(self)@
                == old(self)@,
            amount >= MIN_TRANSFER_AMOUNT && amount <= old(self)@.max_proposable(now) && now + old(self)@.timelock_seconds > i64::MAX ==> r == Err::<(), ParadoxError>(
                ParadoxError::MathOverflow,
            ) && final(self)@ == old(self)@,
            amount >= MIN_TRANSFER_AMOUNT && amount <= old(self)@.max_proposable(now) && now + old(self)@.timelock_seconds <= i64::MAX ==> r == Ok::<(), ParadoxError>(()) && final(self)@
                == (DaoTreasuryVaultView {
                period_start: if old(self)@.period_elapsed(now) {
                    now
                } else {
                    old(self)@.period_start
                },
                spent_this_period: if old(self)@.period_elapsed(now) {
                    0u64
                } else {
                    old(self)@.spent_this_period
                },
                pending_amount: amount,
                pending_recipient: recipient,
                pending_reason: truncate_bytes(reason@, TREASURY_REASON_CAPACITY as int),
                pending_execute_after: (now + old(self)@.timelock_seconds) as i64,
                ..old(self)@
            }),
    {
        if amount < MIN_TRANSFER_AMOUNT {
            return Err(ParadoxError::AmountBelowMinimum);
        }
        proof {
            lemma_bps_part_le_whole(self.balance, self.max_spend_bps_per_period);
        }
        let cap: u64 = ((self.balance as u128) * (self.max_spend_bps_per_period as u128)
            / 10_000) as u64;
        let elapsed = self.should_reset_period(now);
        let effective_spent: u64 = if elapsed {
            0
        } else {
            self.spent_this_period
        };
        let available: u64 = if effective_spent <= cap {
            cap - effective_spent
        } else {
            0
        };
        if amount > available {
            return Err(ParadoxError::DaoSpendingLimitExceeded);
        }
        let execute_after = match now.checked_add(self.timelock_seconds) {
            Some(t) => t,
            None => {
                return Err(ParadoxError::MathOverflow);
            },
        };
        if elapsed {
            self.period_start = now;
            self.spent_this_period = 0;
        }
        let mut reason = reason;
        if reason.len() > TREASURY_REASON_CAPACITY {
            reason.truncate(TREASURY_REASON_CAPACITY);
        }
        self.pending_amount = amount;
        self.pending_recipient = recipient;
        self.pending_reason = reason;
        self.pending_execute_after = execute_after;
        proof {
            assert(self@ =~= (DaoTreasuryVaultView {
                period_start: if old(self)@.period_elapsed(now) {
                    now
                } else {
                    old(self)@.period_start
                },
                spent_this_period: if old(self)@.period_elapsed(now) {
                    0u64
                } else {
                    old(self)@.spent_this_period
                },
                pending_amount: amount,
                pending_recipient: recipient,
                pending_reason: truncate_bytes(reason@, TREASURY_REASON_CAPACITY as int),
                pending_execute_after: execute_after,
                ..old(self)@
            }));
        }
        Ok(())
    }

    /// Execute the pending withdrawal at time `now`: only once its timelock
    /// has expired. Returns the amount and recipient for the transfer,
    /// records the spend against the period and the lifetime counter
    /// (rejecting on counter overflow, with no effect), decrements the
    /// balance (saturating), and clears the pending record.
    pub fn execute_withdrawal(&mut self, now: i64) -> (r: Result<(u64, AccountId), ParadoxError>)
        requires
            old(self).wf(),
        ensures
            final(self).wf(),
            !old(self)@.can_execute(now) ==> r == Err::<(u64, AccountId), ParadoxError>(
                ParadoxError::TimelockNotExpired,
            ) && final(self)@ == old(self)@,
            old(self)@.can_execute(now) && old(self)@.spent_this_period + old(self)@.pending_amount
                > u64::MAX ==> r == Err::<(u64, AccountId), ParadoxError>(
                ParadoxError::MathOverflow,
            ) && final(self)@ == old(self)@,
            old(self)@.can_execute(now) && old(self)@.spent_this_period + old(self)@.pending_amount
                <= u64::MAX && old(self)@.total_withdrawn + old(self)@.pending_amount > u64::MAX
                ==> r == Err::<(u64, AccountId), ParadoxError>(ParadoxError::MathOverflow) && final(self)@ == old(self)@,
            old(self)@.can_execute(now) && old(self)@.spent_this_period + old(self)@.pending_amount
                <= u64::MAX && old(self)@.total_withdrawn + old(self)@.pending_amount <= u64::MAX
                ==> r == Ok::<(u64, AccountId), ParadoxError>(
                (old(self)@.pending_amount, old(self)@.pending_recipient),
            ) && final(self)@ == (DaoTreasuryVaultView {
                spent_this_period: (old(self)@.spent_this_period + old(self)@.pending_amount)
                    as u64,
                total_withdrawn: (old(self)@.total_withdrawn + old(self)@.pending_amount) as u64,
                balance: if old(self)@.pending_amount <= old(self)@.balance {
                    (old(self)@.balance - old(self)@.pending_amount) as u64
                } else {
                    0u64
                },
                pending_amount: 0,
                pending_recipient: AccountId::zero_spec(),
                pending_reason: Seq::empty(),
                pending_execute_after: 0,
                ..old(self)@
            }),
    {
        if !self.can_execute_withdrawal(now) {
            return Err(ParadoxError::TimelockNotExpired);
        }
        let amount = self.pending_amount;
        let recipient = self.pending_recipient;
        let new_spent = match self.spent_this_period.checked_add(amount) {
            Some(v) => v,
            None => {
                return Err(ParadoxError::MathOverflow);
            },
        };
        let new_withdrawn = match self.total_withdrawn.checked_add(amount) {
            Some(v) => v,
            None => {
                return Err(ParadoxError::MathOverflow);
            },
        };
        self.spent_this_period = new_spent;
        self.total_withdrawn = new_withdrawn;
        self.balance = if amount <= self.balance {
            self.balance - amount
        } else {
            0
        };
        self.pending_amount = 0;
        self.pending_recipient = AccountId::zero();
        self.pending_reason = Vec::new();
        self.pending_execute_after = 0;
        proof {
            assert(self@ =~= (DaoTreasuryVaultView {
                spent_this_period: (old(self)@.spent_this_period + old(self)@.pending_amount)
                    as u64,
                total_withdrawn: (old(self)@.total_withdrawn + old(self)@.pending_amount) as u64,
                balance: if old(self)@.pending_amount <= old(self)@.balance {
                    (old(self)@.balance - old(self)@.pending_amount) as u64
                } else {
                    0u64
                },
                pending_amount: 0,
                pending_recipient: AccountId::zero_spec(),
                pending_reason: Seq::empty(),
                pending_execute_after: 0,
                ..old(self)@
            }));
        }
        Ok((amount, recipient))
    }

}

} // verus!
