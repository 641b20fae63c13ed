use vstd::prelude::*;
use crate::account_id::AccountId;
use crate::errors::ParadoxError;
use crate::{
    bps_of,
    lemma_bps_part_le_whole,
    DEFAULT_COOLDOWN_SECONDS,
    DEFAULT_TIMELOCK_SECONDS,
    MIN_TRANSFER_AMOUNT,
    YEAR1_UNLOCK_RATE_BPS,
    YEAR2_UNLOCK_RATE_BPS,
};

verus! {

/// The 30-day month the unlock-rate schedule counts in.
pub const SECONDS_PER_MONTH: i64 = 30 * 24 * 60 * 60;

/// The per-request unlock rate the schedule prescribes at time `now` for a
/// vault initialized at `initialized_at`: 5% before month 18, 10% from
/// month 18 on.
pub open spec fn unlock_rate_at(initialized_at: i64, now: i64) -> u16 {
    if (now - initialized_at) / (SECONDS_PER_MONTH as int) >= 18 {
        YEAR2_UNLOCK_RATE_BPS
    } else {
        YEAR1_UNLOCK_RATE_BPS
    }
}

/// Dev vesting vault: a cliff, then rate-limited unlocks, each serving a
/// cooldown and a timelock before the tokens move.
#[derive(Clone, Copy, Debug, PartialEq, Eq, Structural)]
pub struct DevVestingVault {
    /// Dev wallet that owns this vault.
    pub dev: AccountId,
    /// Token mint being vested.
    pub mint: AccountId,
    /// Token account holding the vested tokens.
    pub token_account: AccountId,
    /// Total amount originally allocated.
    pub total_allocation: u64,
    /// Amount liquid at launch (can be 0 for a full cliff).
    pub liquid_at_tge: u64,
    /// Total amount locked: allocation minus the liquid part.
    pub total_locked: u64,
    /// Currently locked amount; decreases as unlocks execute.
    pub locked_amount: u64,
    /// Amount pending unlock (inside the timelock).
    pub pending_amount: u64,
    /// Timestamp when the vault was initialized.
    pub initialized_at: i64,
    /// Cliff length in seconds; no unlocks before it passes.
    pub cliff_seconds: i64,
    /// Total vesting period in seconds.
    pub vesting_seconds: i64,
    /// Timestamp of the last unlock request.
    pub last_request_time: i64,
    /// Timestamp when the pending unlock becomes available.
    pub unlock_time: i64,
    /// Cooldown between unlock requests, in seconds.
    pub cooldown_seconds: i64,
    /// Timelock from request to availability, in seconds.
    pub timelock_seconds: i64,
    /// Current unlock rate in bps; a function of elapsed time, never set
    /// freely.
    pub unlock_rate_bps: u16,
    /// Total amount unlocked (lifetime).
    pub total_unlocked: u64,
}

impl DevVestingVault {
    /// Well-formedness: non-negative times and durations, a rate within
    /// 100%, and accounting that always splits the locked total between the
    /// still-locked remainder and the lifetime-unlocked sum.
    pub open spec fn wf(&self) -> bool {
        &&& 0 <= self.initialized_at
        &&& 0 <= self.cliff_seconds
        &&& 0 <= self.vesting_seconds
        &&& 0 <= self.cooldown_seconds
        &&& 0 <= self.timelock_seconds
        &&& 0 <= self.last_request_time
        &&& 0 <= self.unlock_time
        &&& self.unlock_rate_bps <= 10000
        &&& self.locked_amount + self.total_unlocked == self.total_locked
        &&& self.pending_amount <= self.locked_amount
        &&& self.liquid_at_tge + self.total_locked == self.total_allocation
    }

    /// Build a fresh vault at time `now`, locking everything but the
    /// launch-liquid part. Rejects a liquid part above the allocation.
    pub fn initialize(
        dev: AccountId,
        mint: AccountId,
        token_account: AccountId,
        total_allocation: u64,
        liquid_at_tge: u64,
        cliff_seconds: i64,
        vesting_seconds: i64,
        now: i64,
    ) -> (r: Result<DevVestingVault, ParadoxError>)
        requires
            0 <= now,
            0 <= cliff_seconds,
            0 <= vesting_seconds,
        ensures
            liquid_at_tge > total_allocation ==> r == Err::<DevVestingVault, ParadoxError>(
                ParadoxError::MathOverflow,
            ),
            liquid_at_tge <= total_allocation ==> r == Ok::<DevVestingVault, ParadoxError>(
                DevVestingVault {
                    dev,
                    mint,
                    token_account,
                    total_allocation,
                    liquid_at_tge,
                    total_locked: (total_allocation - liquid_at_tge) as u64,
                    locked_amount: (total_allocation - liquid_at_tge) as u64,
                    pending_amount: 0,
                    initialized_at: now,
                    cliff_seconds,
                    vesting_seconds,
                    last_request_time: 0,
                    unlock_time: 0,
                    cooldown_seconds: DEFAULT_COOLDOWN_SECONDS,
                    timelock_seconds: DEFAULT_TIMELOCK_SECONDS,
                    unlock_rate_bps: YEAR1_UNLOCK_RATE_BPS,
                    total_unlocked: 0,
                },
            ),
            r matches Ok(v) ==> v.wf(),
    {
        let locked_amount = match total_allocation.checked_sub(liquid_at_tge) {
            Some(v) => v,
            None => {
                return Err(ParadoxError::MathOverflow);
            },
        };
        Ok(DevVestingVault {
            dev,
            mint,
            token_account,
            total_allocation,
            liquid_at_tge,
            total_locked: locked_amount,
            locked_amount,
            pending_amount: 0,
            initialized_at: now,
            cliff_seconds,
            vesting_seconds,
            last_request_time: 0,
            unlock_time: 0,
            cooldown_seconds: DEFAULT_COOLDOWN_SECONDS,
            timelock_seconds: DEFAULT_TIMELOCK_SECONDS,
            unlock_rate_bps: YEAR1_UNLOCK_RATE_BPS,
            total_unlocked: 0,
        })
    }

    /// Whether the cliff has passed at `current_time`.
    pub fn cliff_passed(&self, current_time: i64) -> (r: bool)
        ensures
            r == (current_time >= self.initialized_at + self.cliff_seconds),
    {
        (current_time as i128) >= (self.initialized_at as i128) + (self.cliff_seconds as i128)
    }

    /// Whether the cooldown since the last request has passed.
    pub fn cooldown_passed(&self, current_time: i64) -> (r: bool)
        ensures
            r == (current_time >= self.last_request_time + self.cooldown_seconds),
    {
        (current_time as i128) >= (self.last_request_time as i128) + (self.cooldown_seconds
            as i128)
    }

    /// Whether the pending unlock's timelock has expired.
    pub fn timelock_expired(&self, current_time: i64) -> (r: bool)
        ensures
            r == (current_time >= self.unlock_time),
    {
        current_time >= self.unlock_time
    }

    /// The most that one request may currently unlock: the rate's share of
    /// the still-locked balance.
    pub fn max_unlockable(&self) -> (r: u64)
        requires
            self.unlock_rate_bps <= 10000,
        ensures
            r == bps_of(self.locked_amount, self.unlock_rate_bps),
            r <= self.locked_amount,
    {
        proof {
            lemma_bps_part_le_whole(self.locked_amount, self.unlock_rate_bps);
        }
        ((self.locked_amount as u128) * (self.unlock_rate_bps as u128) / 10_000) as u64
    }

    /// The amount vested by `current_time`: nothing before the cliff, the
    /// whole locked total once the vesting period is over, and a linear
    /// share in between.
    pub open spec fn vested_spec(&self, current_time: i64) -> int {
        if current_time < self.initialized_at + self.cliff_seconds {
            0
        } else {
            let t = current_time - (self.initialized_at + self.cliff_seconds);
            let vt = self.vesting_seconds - self.cliff_seconds;
            if t >= vt || vt <= 0 {
                self.total_locked as int
            } else {
                (self.total_locked * t) / vt
            }
        }
    }

    /// Compute the vested amount at `current_time` (see `vested_spec`).
    pub fn vested_amount(&self, current_time: i64) -> (r: u64)
        requires
            self.wf(),
        ensures
            r == self.vested_spec(current_time),
    {
        if !self.cliff_passed(current_time) {
            return 0;
        }
        let cliff_end: i64 = self.initialized_at + self.cliff_seconds;
        let t: i64 = current_time - cliff_end;
        let vt_wide: i128 = (self.vesting_seconds as i128) - (self.cliff_seconds as i128);
        if (t as i128) >= vt_wide || vt_wide <= 0 {
            return self.total_locked;
        }
        let vt: i64 = vt_wide as i64;
        proof {
            vstd::arithmetic::mul::lemma_mul_nonnegative(self.total_locked as int, t as int);
            vstd::arithmetic::mul::lemma_mul_inequality(t as int, vt as int, self.total_locked as int);
            vstd::arithmetic::mul::lemma_mul_is_commutative(self.total_locked as int, t as int);
            vstd::arithmetic::mul::lemma_mul_is_commutative(self.total_locked as int, vt as int);
            vstd::arithmetic::div_mod::lemma_div_is_ordered(
                self.total_locked as int * t as int,
                self.total_locked as int * vt as int,
                vt as int,
            );
            vstd::arithmetic::div_mod::lemma_div_multiples_vanish(
                self.total_locked as int,
                vt as int,
            );
            vstd::arithmetic::mul::lemma_mul_is_commutative(vt as int, self.total_locked as int);
            assert(self.total_locked as int * t as int <= u64::MAX as int * i64::MAX as int) by (
            nonlinear_arith)
                requires
                    0 <= self.total_locked as int <= u64::MAX as int,
                    0 <= t as int <= i64::MAX as int,
            ;
        }
        ((self.total_locked as u128) * (t as u128) / (vt as u128)) as u64
    }

    /// Refresh the unlock rate from the schedule: 5% per request before
    /// month 18 since initialization, 10% from month 18 on. The clock never
    /// runs backwards past the initialization instant.
    pub fn update_unlock_rate(&mut self, current_time: i64)
        requires
            old(self).wf(),
            old(self).initialized_at <= current_time,
        ensures
            final(self).wf(),
            *final(self) == (DevVestingVault {
                unlock_rate_bps: unlock_rate_at(old(self).initialized_at, current_time),
                ..*old(self)
            }),
    {
        let months_since_tge: u64 = ((current_time - self.initialized_at) as u64) / (
        SECONDS_PER_MONTH as u64);
        if months_since_tge >= 18 {
            self.unlock_rate_bps = YEAR2_UNLOCK_RATE_BPS;
        } else {
            self.unlock_rate_bps = YEAR1_UNLOCK_RATE_BPS;
        }
    }

    /// Request an unlock of `amount` at time `now`. The cliff and the
    /// cooldown must have passed, and the amount may not exceed the
    /// schedule's rate applied to the still-locked balance; a rejected
    /// request leaves the vault unchanged.
    pub fn request_unlock(&mut self, amount: u64, now: i64) -> (r: Result<(), ParadoxError>)
        requires
            old(self).wf(),
            0 <= now,
        ensures
            final(self).wf(),
            amount < MIN_TRANSFER_AMOUNT ==> r == Err::<(), ParadoxError>(
                ParadoxError::AmountBelowMinimum,
            ) && *final(self) == *old(self),
            amount >= MIN_TRANSFER_AMOUNT && now < old(self).initialized_at + old(self).cliff_seconds ==> r == Err::<(), ParadoxError>(ParadoxError::CliffNotPassed)
                && *final(self) == *old(self),
            amount >= MIN_TRANSFER_AMOUNT && now >= old(self).initialized_at + old(self).cliff_seconds && now < old(self).last_request_time + old(self).cooldown_seconds ==> r
                == Err::<(), ParadoxError>(ParadoxError::CooldownNotPassed) && *final(self) == *old(self),
            amount >= MIN_TRANSFER_AMOUNT && now >= old(self).initialized_at + old(self).cliff_seconds && now >= old(self).last_request_time + old(self).cooldown_seconds
                && amount > bps_of(
                old(self).locked_amount,
                unlock_rate_at(old(self).initialized_at, now),
            ) ==> r == Err::<(), ParadoxError>(ParadoxError::UnlockRateExceeded) && *final(self)
                == *old(self),
            amount >= MIN_TRANSFER_AMOUNT && now >= old(self).initialized_at + old(self).cliff_seconds && now >= old(self).last_request_time + old(self).cooldown_seconds
                && amount <= bps_of(
                old(self).locked_amount,
                unlock_rate_at(old(self).initialized_at, now),
            ) && now + old(self).timelock_seconds > i64::MAX ==> r == Err::<(), ParadoxError>(
                ParadoxError::MathOverflow,
            ) && *final(self) == *old(self),
            amount >= MIN_TRANSFER_AMOUNT && now >= old(self).initialized_at + old(self).cliff_seconds && now >= old(self).last_request_time + old(self).cooldown_seconds
                && amount <= bps_of(
                old(self).locked_amount,
                unlock_rate_at(old(self).initialized_at, now),
            ) && now + old(self).timelock_seconds <= i64::MAX ==> r == Ok::<(), ParadoxError>(())
                && *final(self) == (DevVestingVault {
                unlock_rate_bps: unlock_rate_at(old(self).initialized_at, now),
                pending_amount: amount,
                last_request_time: now,
                unlock_time: (now + old(self).timelock_seconds) as i64,
                ..*old(self)
            }),
    {
        if amount < MIN_TRANSFER_AMOUNT {
            return Err(ParadoxError::AmountBelowMinimum);
        }
        if !self.cliff_passed(now) {
            return Err(ParadoxError::CliffNotPassed);
        }
        if !self.cooldown_passed(now) {
            return Err(ParadoxError::CooldownNotPassed);
        }
        let months_since_tge: u64 = ((now - self.initialized_at) as u64) / (SECONDS_PER_MONTH
            as u64);
        let new_rate: u16 = if months_since_tge >= 18 {
            YEAR2_UNLOCK_RATE_BPS
        } else {
            YEAR1_UNLOCK_RATE_BPS
        };
        proof {
            lemma_bps_part_le_whole(self.locked_amount, new_rate);
        }
        let max_unlockable: u64 = ((self.locked_amount as u128) * (new_rate as u128)
            / 10_000) as u64;
        if amount > max_unlockable {
            return Err(ParadoxError::UnlockRateExceeded);
        }
        let unlock_time = match now.checked_add(self.timelock_seconds) {
            Some(t) => t,
            None => {
                return Err(ParadoxError::MathOverflow);
            },
        };
        self.unlock_rate_bps = new_rate;
        self.pending_amount = amount;
        self.last_request_time = now;
        self.unlock_time = unlock_time;
        Ok(())
    }

    /// Execute the pending unlock at time `now`: only once the timelock has
    /// expired and something is pending. Returns the amount to transfer out
    /// and moves it from the locked balance to the lifetime-unlocked sum.
    pub fn execute_unlock(&mut self, now: i64) -> (r: Result<u64, ParadoxError>)
        requires
            old(self).wf(),
        ensures
            final(self).wf(),
            now < old(self).unlock_time ==> r == Err::<u64, ParadoxError>(
                ParadoxError::TimelockNotExpired,
            ) && *final(self) == *old(self),
            now >= old(self).unlock_time && old(self).pending_amount == 0 ==> r == Err::<
                u64,
                ParadoxError,
            >(ParadoxError::InsufficientFees) && *final(self) == *old(self),
            now >= old(self).unlock_time && old(self).pending_amount > 0 ==> r == Ok::<
                u64,
                ParadoxError,
            >(old(self).pending_amount) && *final(self) == (DevVestingVault {
                locked_amount: (old(self).locked_amount - old(self).pending_amount) as u64,
                pending_amount: 0,
                total_unlocked: (old(self).total_unlocked + old(self).pending_amount) as u64,
                ..*old(self)
            }),
    {
        if !self.timelock_expired(now) {
            return Err(ParadoxError::TimelockNotExpired);
        }
        if self.pending_amount == 0 {
            return Err(ParadoxError::InsufficientFees);
        }
        let amount = self.pending_amount;
        self.locked_amount = self.locked_amount - amount;
        self.pending_amount = 0;
        self.total_unlocked = self.total_unlocked + amount;
        Ok(amount)
    }
}

} // verus!
