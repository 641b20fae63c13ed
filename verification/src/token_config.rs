use vstd::prelude::*;
use vstd::arithmetic::div_mod::{lemma_div_is_ordered, lemma_fundamental_div_mod};
use vstd::arithmetic::mul::{
    lemma_mul_inequality,
    lemma_mul_is_commutative,
    lemma_mul_is_distributive_add,
    lemma_mul_nonnegative,
};
use crate::account_id::AccountId;
use crate::errors::ParadoxError;
use crate::{FEE_CHANGE_TIMELOCK_SECONDS, MAX_TRANSFER_FEE_BPS, MIN_TRANSFER_FEE_BPS};

verus! {

/// The basis-point share of `fee_amount` that one distribution bucket
/// receives.
pub open spec fn fee_share(fee_amount: u64, share_bps: u16) -> int {
    crate::bps_of(fee_amount, share_bps)
}

/// Token configuration: current fee rate, the three distribution shares, and
/// the two-sided timelock on fee-rate changes.
#[derive(Clone, Copy, Debug, PartialEq, Eq, Structural)]
pub struct TokenConfig {
    /// Token mint this config belongs to.
    pub mint: AccountId,
    /// Admin who can update the config (transferable).
    pub admin: AccountId,
    /// Governance address for major changes.
    pub governance: AccountId,
    /// Current transfer fee in basis points (100-300).
    pub transfer_fee_bps: u16,
    /// Share of fees going to LP growth.
    pub lp_share_bps: u16,
    /// Share of fees to burn.
    pub burn_share_bps: u16,
    /// Share of fees to treasury.
    pub treasury_share_bps: u16,
    /// Fee vault where collected fees accumulate.
    pub fee_vault: AccountId,
    /// Total fees collected (lifetime).
    pub total_fees_collected: u64,
    /// Total fees distributed (lifetime).
    pub total_fees_distributed: u64,
    /// Is the token paused (emergency only).
    pub is_paused: bool,
    /// Current emergency override level (0 = normal, 1-3 = escalating).
    pub armageddon_level: u8,
    /// Timestamp of the last fee update.
    pub last_fee_update: i64,
    /// Pending fee change (announced but not executed); 0 when none.
    pub pending_fee_bps: u16,
    /// Timestamp from which the pending fee change can be executed.
    pub pending_fee_activate_time: i64,
    /// Timestamp from which the pending fee change can no longer be executed.
    pub pending_fee_cancel_time: i64,
}

impl TokenConfig {
    /// The three distribution shares cover the whole fee, no more, no less.
    pub open spec fn shares_valid(&self) -> bool {
        self.lp_share_bps + self.burn_share_bps + self.treasury_share_bps == 10000
    }

    /// Well-formedness: established at initialization and preserved by every
    /// operation of the control plane.
    pub open spec fn wf(&self) -> bool {
        &&& self.shares_valid()
        &&& MIN_TRANSFER_FEE_BPS <= self.transfer_fee_bps <= MAX_TRANSFER_FEE_BPS
        &&& self.armageddon_level <= 3
        &&& 0 <= self.last_fee_update
        &&& self.pending_fee_bps == 0 ==> self.pending_fee_activate_time == 0
            && self.pending_fee_cancel_time == 0
        &&& self.pending_fee_bps != 0 ==> MIN_TRANSFER_FEE_BPS <= self.pending_fee_bps
            <= MAX_TRANSFER_FEE_BPS
            && 0 < self.pending_fee_activate_time <= self.pending_fee_cancel_time
    }

    /// Whether a fee change is pending and `now` lies in its execution
    /// window `[activate_time, cancel_time)`.
    pub open spec fn fee_change_executable(&self, now: i64) -> bool {
        self.pending_fee_bps != 0 && self.pending_fee_activate_time <= now
            < self.pending_fee_cancel_time
    }

    /// Whether a new fee change may be announced: no earlier announcement, or
    /// the earlier announcement's window has fully lapsed.
    pub open spec fn fee_change_announceable(&self, now: i64) -> bool {
        self.pending_fee_activate_time == 0 || now >= self.pending_fee_cancel_time
    }

    /// Build a fresh configuration, validating the fee rate and the share
    /// split exactly as announced callers see them rejected.
    pub fn initialize(
        mint: AccountId,
        admin: AccountId,
        fee_vault: AccountId,
        transfer_fee_bps: u16,
        lp_share_bps: u16,
        burn_share_bps: u16,
        treasury_share_bps: u16,
        now: i64,
    ) -> (r: Result<TokenConfig, ParadoxError>)
        requires
            0 <= now,
        ensures
            !(MIN_TRANSFER_FEE_BPS <= transfer_fee_bps <= MAX_TRANSFER_FEE_BPS)
                ==> r == Err::<TokenConfig, ParadoxError>(ParadoxError::InvalidTransferFee),
            MIN_TRANSFER_FEE_BPS <= transfer_fee_bps <= MAX_TRANSFER_FEE_BPS
                && lp_share_bps + burn_share_bps + treasury_share_bps != 10000
                ==> r == Err::<TokenConfig, ParadoxError>(ParadoxError::InvalidFeeShares),
            MIN_TRANSFER_FEE_BPS <= transfer_fee_bps <= MAX_TRANSFER_FEE_BPS
                && lp_share_bps + burn_share_bps + treasury_share_bps == 10000
                ==> r == Ok::<TokenConfig, ParadoxError>(TokenConfig {
                    mint,
                    admin,
                    governance: admin,
                    transfer_fee_bps,
                    lp_share_bps,
                    burn_share_bps,
                    treasury_share_bps,
                    fee_vault,
                    total_fees_collected: 0,
                    total_fees_distributed: 0,
                    is_paused: false,
                    armageddon_level: 0,
                    last_fee_update: now,
                    pending_fee_bps: 0,
                    pending_fee_activate_time: 0,
                    pending_fee_cancel_time: 0,
                }),
            r matches Ok(c) ==> c.wf(),
    {
        if !(MIN_TRANSFER_FEE_BPS <= transfer_fee_bps && transfer_fee_bps
            <= MAX_TRANSFER_FEE_BPS) {
            return Err(ParadoxError::InvalidTransferFee);
        }
        let total_shares: u32 = lp_share_bps as u32 + burn_share_bps as u32
            + treasury_share_bps as u32;
        if total_shares != 10_000 {
            return Err(ParadoxError::InvalidFeeShares);
        }
        Ok(TokenConfig {
            mint,
            admin,
            governance: admin,
            transfer_fee_bps,
            lp_share_bps,
            burn_share_bps,
            treasury_share_bps,
            fee_vault,
            total_fees_collected: 0,
            total_fees_distributed: 0,
            is_paused: false,
            armageddon_level: 0,
            last_fee_update: now,
            pending_fee_bps: 0,
            pending_fee_activate_time: 0,
            pending_fee_cancel_time: 0,
        })
    }

    /// Whether the three shares sum to exactly 100%.
    pub fn validate_shares(&self) -> (r: bool)
        ensures
            r == self.shares_valid(),
    {
        let total: u32 = self.lp_share_bps as u32 + self.burn_share_bps as u32
            + self.treasury_share_bps as u32;
        total == 10_000
    }

    /// Split `fee_amount` into (to_lp, to_burn, to_treasury). The LP and burn
    /// parts are computed with a wide intermediate; the treasury part is the
    /// exact remainder, so the three always sum to `fee_amount`.
    pub fn calculate_distribution(&self, fee_amount: u64) -> (r: Result<
        (u64, u64, u64),
        ParadoxError,
    >)
        requires
            self.shares_valid(),
        ensures
            r matches Ok(parts) && parts.0 == fee_share(fee_amount, self.lp_share_bps)
                && parts.1 == fee_share(fee_amount, self.burn_share_bps) && parts.2 == fee_amount
                - parts.0 - parts.1,
            r matches Ok(parts) ==> parts.0 + parts.1 + parts.2 == fee_amount,
    {
        proof {
            lemma_fee_split_preserves_sum(
                fee_amount,
                self.lp_share_bps,
                self.burn_share_bps,
                self.treasury_share_bps,
            );
        }
        let to_lp: u64 = ((fee_amount as u128) * (self.lp_share_bps as u128) / 10_000) as u64;
        let to_burn: u64 = ((fee_amount as u128) * (self.burn_share_bps as u128) / 10_000) as u64;
        let to_treasury: u64 = fee_amount - to_lp - to_burn;
        Ok((to_lp, to_burn, to_treasury))
    }

    /// Split `total_fees` and record them as distributed. A zero amount is a
    /// no-op; a counter overflow rejects the operation unchanged.
    pub fn distribute_fees(&mut self, total_fees: u64) -> (r: Result<(u64, u64, u64), ParadoxError>)
        requires
            old(self).shares_valid(),
        ensures
            total_fees == 0 ==> r == Ok::<(u64, u64, u64), ParadoxError>((0, 0, 0)) && *final(self)
                == *old(self),
            total_fees != 0 && old(self).total_fees_distributed + total_fees > u64::MAX ==> r
                == Err::<(u64, u64, u64), ParadoxError>(ParadoxError::MathOverflow) && *final(self)
                == *old(self),
            total_fees != 0 && old(self).total_fees_distributed + total_fees <= u64::MAX ==> ({
                &&& r matches Ok(parts)
                &&& parts.0 == fee_share(total_fees, old(self).lp_share_bps)
                &&& parts.1 == fee_share(total_fees, old(self).burn_share_bps)
                &&& parts.0 + parts.1 + parts.2 == total_fees
                &&& *final(self) == (TokenConfig {
                    total_fees_distributed: (old(self).total_fees_distributed + total_fees) as u64,
                    ..*old(self)
                })
            }),
    {
        if total_fees == 0 {
            return Ok((0, 0, 0));
        }
        let parts = match self.calculate_distribution(total_fees) {
            Ok(parts) => parts,
            Err(e) => {
                return Err(e);
            },
        };
        self.total_fees_distributed = match self.total_fees_distributed.checked_add(total_fees) {
            Some(v) => v,
            None => {
                return Err(ParadoxError::MathOverflow);
            },
        };
        Ok(parts)
    }

    /// Announce a fee-rate change: validates the new rate, refuses while an
    /// earlier announcement is still inside its window, then opens the
    /// two-sided window `[now + T, now + 2T)` with T the fee-change timelock.
    pub fn announce_fee_change(&mut self, new_fee_bps: u16, now: i64) -> (r: Result<
        (),
        ParadoxError,
    >)
        requires
            old(self).wf(),
            0 <= now,
        ensures
            final(self).wf(),
            !(MIN_TRANSFER_FEE_BPS <= new_fee_bps <= MAX_TRANSFER_FEE_BPS)
                ==> r == Err::<(), ParadoxError>(ParadoxError::InvalidTransferFee)
                    && *final(self) == *old(self),
            MIN_TRANSFER_FEE_BPS <= new_fee_bps <= MAX_TRANSFER_FEE_BPS
                && !old(self).fee_change_announceable(now)
                ==> r == Err::<(), ParadoxError>(ParadoxError::FeeChangeTimelockNotExpired)
                    && *final(self) == *old(self),
            MIN_TRANSFER_FEE_BPS <= new_fee_bps <= MAX_TRANSFER_FEE_BPS
                && old(self).fee_change_announceable(now)
                && now + 2 * FEE_CHANGE_TIMELOCK_SECONDS > i64::MAX
                ==> r == Err::<(), ParadoxError>(ParadoxError::MathOverflow)
                    && *final(self) == *old(self),
            MIN_TRANSFER_FEE_BPS <= new_fee_bps <= MAX_TRANSFER_FEE_BPS
                && old(self).fee_change_announceable(now)
                && now + 2 * FEE_CHANGE_TIMELOCK_SECONDS <= i64::MAX
                ==> r == Ok::<(), ParadoxError>(())
                    && *final(self) == (TokenConfig {
                        pending_fee_bps: new_fee_bps,
                        pending_fee_activate_time: (now + FEE_CHANGE_TIMELOCK_SECONDS) as i64,
                        pending_fee_cancel_time: (now + 2 * FEE_CHANGE_TIMELOCK_SECONDS) as i64,
                        ..*old(self)
                    }),
    {
        if !(MIN_TRANSFER_FEE_BPS <= new_fee_bps && new_fee_bps <= MAX_TRANSFER_FEE_BPS) {
            return Err(ParadoxError::InvalidTransferFee);
        }
        if !(self.pending_fee_activate_time == 0 || now >= self.pending_fee_cancel_time) {
            return Err(ParadoxError::FeeChangeTimelockNotExpired);
        }
        let activate_time = match now.checked_add(FEE_CHANGE_TIMELOCK_SECONDS) {
            Some(t) => t,
            None => {
                return Err(ParadoxError::MathOverflow);
            },
        };
        let cancel_time = match activate_time.checked_add(FEE_CHANGE_TIMELOCK_SECONDS) {
            Some(t) => t,
            None => {
                return Err(ParadoxError::MathOverflow);
            },
        };
        self.pending_fee_bps = new_fee_bps;
        self.pending_fee_activate_time = activate_time;
        self.pending_fee_cancel_time = cancel_time;
        Ok(())
    }

    /// Execute an announced fee change. Succeeds only inside the window
    /// `[activate_time, cancel_time)`; returns the (old, new) rates.
    pub fn execute_fee_change(&mut self, now: i64) -> (r: Result<(u16, u16), ParadoxError>)
        requires
            old(self).wf(),
        ensures
            final(self).wf(),
            old(self).pending_fee_bps == 0
                ==> r == Err::<(u16, u16), ParadoxError>(ParadoxError::NoPendingFeeChange)
                    && *final(self) == *old(self),
            old(self).pending_fee_bps != 0 && !old(self).fee_change_executable(now)
                ==> r == Err::<(u16, u16), ParadoxError>(ParadoxError::FeeChangeTimelockNotExpired)
                    && *final(self) == *old(self),
            old(self).fee_change_executable(now)
                ==> r == Ok::<(u16, u16), ParadoxError>(
                    (old(self).transfer_fee_bps, old(self).pending_fee_bps),
                ) && *final(self) == (TokenConfig {
                    transfer_fee_bps: old(self).pending_fee_bps,
                    last_fee_update: now,
                    pending_fee_bps: 0,
                    pending_fee_activate_time: 0,
                    pending_fee_cancel_time: 0,
                    ..*old(self)
                }),
    {
        if self.pending_fee_bps == 0 {
            return Err(ParadoxError::NoPendingFeeChange);
        }
        if now < self.pending_fee_activate_time {
            return Err(ParadoxError::FeeChangeTimelockNotExpired);
        }
        if now >= self.pending_fee_cancel_time {
            return Err(ParadoxError::FeeChangeTimelockNotExpired);
        }
        let old_fee = self.transfer_fee_bps;
        let new_fee = self.pending_fee_bps;
        self.transfer_fee_bps = new_fee;
        self.last_fee_update = now;
        self.pending_fee_bps = 0;
        self.pending_fee_activate_time = 0;
        self.pending_fee_cancel_time = 0;
        Ok((old_fee, new_fee))
    }

    /// Cancel an announced fee change. Allowed only outside the execution
    /// window: before commitment or after the window lapsed. Returns the
    /// cancelled rate.
    pub fn cancel_fee_change(&mut self, now: i64) -> (r: Result<u16, ParadoxError>)
        requires
            old(self).wf(),
        ensures
            final(self).wf(),
            old(self).pending_fee_bps == 0
                ==> r == Err::<u16, ParadoxError>(ParadoxError::NoPendingFeeChange)
                    && *final(self) == *old(self),
            old(self).pending_fee_bps != 0 && old(self).fee_change_executable(now)
                ==> r == Err::<u16, ParadoxError>(ParadoxError::FeeChangeTimelockNotExpired)
                    && *final(self) == *old(self),
            old(self).pending_fee_bps != 0 && !old(self).fee_change_executable(now)
                ==> r == Ok::<u16, ParadoxError>(old(self).pending_fee_bps)
                    && *final(self) == (TokenConfig {
                        pending_fee_bps: 0,
                        pending_fee_activate_time: 0,
                        pending_fee_cancel_time: 0,
                        ..*old(self)
                    }),
    {
        if self.pending_fee_bps == 0 {
            return Err(ParadoxError::NoPendingFeeChange);
        }
        if !(now < self.pending_fee_activate_time || now >= self.pending_fee_cancel_time) {
            return Err(ParadoxError::FeeChangeTimelockNotExpired);
        }
        let cancelled = self.pending_fee_bps;
        self.pending_fee_bps = 0;
        self.pending_fee_activate_time = 0;
        self.pending_fee_cancel_time = 0;
        Ok(cancelled)
    }
}

/// Law: for every fee amount and every share triple summing to 10000 bps,
/// the LP and burn parts fit below the fee amount, so the treasury remainder
/// is well defined and the three parts add up to the fee amount exactly.
pub proof fn lemma_fee_split_preserves_sum(
    fee_amount: u64,
    lp_bps: u16,
    burn_bps: u16,
    treasury_bps: u16,
)
    requires
        lp_bps + burn_bps + treasury_bps == 10000,
    ensures
        0 <= fee_share(fee_amount, lp_bps),
        0 <= fee_share(fee_amount, burn_bps),
        fee_share(fee_amount, lp_bps) + fee_share(fee_amount, burn_bps) <= fee_amount,
        fee_share(fee_amount, lp_bps) + fee_share(fee_amount, burn_bps) + (fee_amount - fee_share(
            fee_amount,
            lp_bps,
        ) - fee_share(fee_amount, burn_bps)) == fee_amount,
{
    let fa = fee_amount as int * lp_bps as int;
    let fb = fee_amount as int * burn_bps as int;
    lemma_mul_nonnegative(fee_amount as int, lp_bps as int);
    lemma_mul_nonnegative(fee_amount as int, burn_bps as int);
    lemma_mul_is_distributive_add(fee_amount as int, lp_bps as int, burn_bps as int);
    lemma_mul_inequality(lp_bps as int + burn_bps as int, 10000, fee_amount as int);
    lemma_mul_is_commutative(fee_amount as int, lp_bps as int + burn_bps as int);
    lemma_mul_is_commutative(fee_amount as int, 10000);
    lemma_div_is_ordered(fa + fb, fee_amount as int * 10000, 10000);
    lemma_fundamental_div_mod(fa, 10000);
    lemma_fundamental_div_mod(fb, 10000);
    lemma_fundamental_div_mod(fa + fb, 10000);
}

} // verus!
