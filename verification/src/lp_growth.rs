use vstd::prelude::*;
use crate::account_id::AccountId;
use crate::errors::ParadoxError;

verus! {

/// LP growth manager: accumulates fees and, once a threshold and a
/// cooldown are met, releases them to grow the liquidity pool.
#[derive(Clone, Debug)]
pub struct LpGrowthManager {
    /// Token mint this manager controls.
    pub mint: AccountId,
    /// LP pool address.
    pub lp_pool: AccountId,
    /// Account where fees accumulate.
    pub fee_accumulation_account: AccountId,
    /// Authority that can trigger LP growth.
    pub growth_authority: AccountId,
    /// Minimum accumulated fees required to trigger growth.
    pub min_fee_threshold: u64,
    /// Cooldown between growth executions, in seconds.
    pub cooldown_seconds: i64,
    /// Timestamp of the last growth execution.
    pub last_growth_time: i64,
    /// Total SOL added to the pool (lifetime).
    pub total_sol_added: u64,
    /// Total tokens minted for the pool (lifetime).
    pub total_tokens_minted: u64,
    /// Fees currently accumulated and waiting to be used.
    pub accumulated_fees: u64,
    /// Whether growth is locked (emergency).
    pub is_locked: bool,
    /// Free-text reason for the lock, if any.
    pub lock_reason: Vec<u8>,
}

/// Mathematical model of an `LpGrowthManager`.
#[verifier::ext_equal]
pub ghost struct LpGrowthManagerView {
    pub mint: AccountId,
    pub lp_pool: AccountId,
    pub fee_accumulation_account: AccountId,
    pub growth_authority: AccountId,
    pub min_fee_threshold: u64,
    pub cooldown_seconds: i64,
    pub last_growth_time: i64,
    pub total_sol_added: u64,
    pub total_tokens_minted: u64,
    pub accumulated_fees: u64,
    pub is_locked: bool,
    pub lock_reason: Seq<u8>,
}

impl View for LpGrowthManager {
    type V = LpGrowthManagerView;

    open spec fn view(&self) -> LpGrowthManagerView {
        LpGrowthManagerView {
            mint: self.mint,
            lp_pool: self.lp_pool,
            fee_accumulation_account: self.fee_accumulation_account,
            growth_authority: self.growth_authority,
            min_fee_threshold: self.min_fee_threshold,
            cooldown_seconds: self.cooldown_seconds,
            last_growth_time: self.last_growth_time,
            total_sol_added: self.total_sol_added,
            total_tokens_minted: self.total_tokens_minted,
            accumulated_fees: self.accumulated_fees,
            is_locked: self.is_locked,
            lock_reason: self.lock_reason@,
        }
    }
}

impl LpGrowthManagerView {
    /// Whether a growth execution is allowed at `now`: not locked, and the
    /// cooldown since the last execution has elapsed.
    pub open spec fn growth_allowed(&self, now: i64) -> bool {
        !self.is_locked && now - self.last_growth_time >= self.cooldown_seconds
    }
}

impl LpGrowthManager {
    /// Build a fresh manager with nothing accumulated and growth unlocked.
    pub fn initialize(
        mint: AccountId,
        lp_pool: AccountId,
        fee_accumulation_account: AccountId,
        growth_authority: AccountId,
        min_fee_threshold: u64,
        cooldown_seconds: i64,
    ) -> (r: LpGrowthManager)
        ensures
            r@ == (LpGrowthManagerView {
                mint,
                lp_pool,
                fee_accumulation_account,
                growth_authority,
                min_fee_threshold,
                cooldown_seconds,
                last_growth_time: 0,
                total_sol_added: 0,
                total_tokens_minted: 0,
                accumulated_fees: 0,
                is_locked: false,
                lock_reason: Seq::empty(),
            }),
    {
        let r = LpGrowthManager {
            mint,
            lp_pool,
            fee_accumulation_account,
            growth_authority,
            min_fee_threshold,
            cooldown_seconds,
            last_growth_time: 0,
            total_sol_added: 0,
            total_tokens_minted: 0,
            accumulated_fees: 0,
            is_locked: false,
            lock_reason: Vec::new(),
        };
        proof {
            assert(r@ =~= (LpGrowthManagerView {
                mint,
                lp_pool,
                fee_accumulation_account,
                growth_authority,
                min_fee_threshold,
                cooldown_seconds,
                last_growth_time: 0,
                total_sol_added: 0,
                total_tokens_minted: 0,
                accumulated_fees: 0,
                is_locked: false,
                lock_reason: Seq::empty(),
            }));
        }
        r
    }

    /// Whether a growth execution is allowed at `current_time`.
    pub fn can_execute_growth(&self, current_time: i64) -> (r: bool)
        ensures
            r == self@.growth_allowed(current_time),
    {
        if self.is_locked {
            return false;
        }
        (current_time as i128) - (self.last_growth_time as i128) >= (self.cooldown_seconds
            as i128)
    }

    /// Whether enough fees have accumulated to meet the threshold.
    pub fn has_enough_fees(&self) -> (r: bool)
        ensures
            r == (self@.accumulated_fees >= self@.min_fee_threshold),
    {
        self.accumulated_fees >= self.min_fee_threshold
    }

    /// The tokens to mint to match `sol_amount` at `current_price`:
    /// a checked product, rejecting on overflow.
    pub fn calculate_tokens_to_mint(&self, sol_amount: u64, current_price: u64) -> (r: Result<
        u64,
        ParadoxError,
    >)
        ensures
            sol_amount * current_price > u64::MAX ==> r == Err::<u64, ParadoxError>(
                ParadoxError::MathOverflow,
            ),
            sol_amount * current_price <= u64::MAX ==> r == Ok::<u64, ParadoxError>(
                (sol_amount * current_price) as u64,
            ),
    {
        match sol_amount.checked_mul(current_price) {
            Some(v) => Ok(v),
            None => Err(ParadoxError::MathOverflow),
        }
    }

    /// Release the accumulated fees for a growth execution at time `now`:
    /// only when unlocked, the cooldown has elapsed and the threshold is
    /// met. Returns the amount to add to the pool, zeroes the accumulator,
    /// stamps the execution time and adds to the lifetime counter —
    /// rejecting on counter overflow with no effect.
    pub fn execute_growth(&mut self, now: i64) -> (r: Result<u64, ParadoxError>)
        requires
            0 <= now,
        ensures
            old(self)@.is_locked ==> r == Err::<u64, ParadoxError>(ParadoxError::LpGrowthLocked)
                && final(self)@ == old(self)@,
            !old(self)@.is_locked && !old(self)@.growth_allowed(now) ==> r == Err::<
                u64,
                ParadoxError,
            >(ParadoxError::CooldownNotPassed) && final(self)@ == old(self)@,
            old(self)@.growth_allowed(now) && old(self)@.accumulated_fees < old(self)@.min_fee_threshold ==> r == Err::<u64, ParadoxError>(ParadoxError::InsufficientFees)
                && final(self)@ == old(self)@,
            old(self)@.growth_allowed(now) && old(self)@.accumulated_fees >= old(self)@.min_fee_threshold && old(self)@.total_sol_added + old(self)@.accumulated_fees
                > u64::MAX ==> r == Err::<u64, ParadoxError>(ParadoxError::MathOverflow) && final(self)@ == old(self)@,
            old(self)@.growth_allowed(now) && old(self)@.accumulated_fees >= old(self)@.min_fee_threshold && old(self)@.total_sol_added + old(self)@.accumulated_fees
                <= u64::MAX ==> r == Ok::<u64, ParadoxError>(old(self)@.accumulated_fees) && final(self)@ == (LpGrowthManagerView {
                accumulated_fees: 0,
                last_growth_time: now,
                total_sol_added: (old(self)@.total_sol_added + old(self)@.accumulated_fees) as u64,
                ..old(self)@
            }),
    {
        if self.is_locked {
            return Err(ParadoxError::LpGrowthLocked);
        }
        if !self.can_execute_growth(now) {
            return Err(ParadoxError::CooldownNotPassed);
        }
        if !self.has_enough_fees() {
            return Err(ParadoxError::InsufficientFees);
        }
        let sol_to_add = self.accumulated_fees;
        let new_total = match self.total_sol_added.checked_add(sol_to_add) {
            Some(v) => v,
            None => {
                return Err(ParadoxError::MathOverflow);
            },
        };
        self.accumulated_fees = 0;
        self.last_growth_time = now;
        self.total_sol_added = new_total;
        proof {
            assert(self@ =~= (LpGrowthManagerView {
                accumulated_fees: 0,
                last_growth_time: now,
                total_sol_added: (old(self)@.total_sol_added + old(self)@.accumulated_fees) as u64,
                ..old(self)@
            }));
        }
        Ok(sol_to_add)
    }

    /// Lock growth (emergency).
    pub fn lock_growth(&mut self)
        ensures
            final(self)@ == (LpGrowthManagerView { is_locked: true, ..old(self)@ }),
    {
        self.is_locked = true;
        proof {
            assert(self@ =~= (LpGrowthManagerView { is_locked: true, ..old(self)@ }));
        }
    }

    /// Unlock growth.
    pub fn unlock_growth(&mut self)
        ensures
            final(self)@ == (LpGrowthManagerView { is_locked: false, ..old(self)@ }),
    {
        self.is_locked = false;
        proof {
            assert(self@ =~= (LpGrowthManagerView { is_locked: false, ..old(self)@ }));
        }
    }
}

} // verus!
