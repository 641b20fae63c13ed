//! Custody and fund-release control plane for a token's treasury-like
//! reserves: a liquidity-pool lock with a progressive timelock and a
//! snapshot/restore ring, a dev vesting vault with cliff and rate limits, a
//! DAO treasury with a rolling spending cap, an emergency override layer, and
//! the fee-split arithmetic that feeds them.
//!
//! Every state machine here works over plain values and an externally
//! supplied clock reading; account wiring, token transfers and event
//! emission are left to the surrounding platform code.

use vstd::prelude::*;

pub mod account_id;
pub mod armageddon;
pub mod errors;
pub mod lp_growth;
pub mod lp_lock;
pub mod token_config;
pub mod treasury;
pub mod vesting;

verus! {

/// Basis points denominator (10000 = 100%).
pub const BPS_DENOMINATOR: u64 = 10_000;

/// Default transfer fee: 3% (300 bps).
pub const DEFAULT_TRANSFER_FEE_BPS: u16 = 300;

/// Minimum transfer fee: 1% (100 bps).
pub const MIN_TRANSFER_FEE_BPS: u16 = 100;

/// Maximum transfer fee: 3% (300 bps).
pub const MAX_TRANSFER_FEE_BPS: u16 = 300;

/// Minimum transfer amount, so that a 300 bps fee is at least 1 raw unit.
pub const MIN_TRANSFER_AMOUNT: u64 = 34;

/// Fee change timelock: 24 hours.
pub const FEE_CHANGE_TIMELOCK_SECONDS: i64 = 24 * 60 * 60;

/// Default LP share of collected fees: 70%.
pub const DEFAULT_LP_SHARE_BPS: u16 = 7000;

/// Default burn share of collected fees: 15%.
pub const DEFAULT_BURN_SHARE_BPS: u16 = 1500;

/// Default treasury share of collected fees: 15%.
pub const DEFAULT_TREASURY_SHARE_BPS: u16 = 1500;

/// Default vesting cliff: about 6 months.
pub const DEFAULT_CLIFF_SECONDS: i64 = 6 * 30 * 24 * 60 * 60;

/// Default full vesting period: about 36 months.
pub const DEFAULT_VESTING_SECONDS: i64 = 36 * 30 * 24 * 60 * 60;

/// Default cooldown between unlock requests: 30 days.
pub const DEFAULT_COOLDOWN_SECONDS: i64 = 30 * 24 * 60 * 60;

/// Default timelock from unlock request to withdrawal: 30 days.
pub const DEFAULT_TIMELOCK_SECONDS: i64 = 30 * 24 * 60 * 60;

/// Unlock rate before month 18: 5% per request.
pub const YEAR1_UNLOCK_RATE_BPS: u16 = 500;

/// Unlock rate from month 18 on: 10% per request.
pub const YEAR2_UNLOCK_RATE_BPS: u16 = 1000;

/// What a fixed-capacity text buffer retains of `s`: everything when it
/// fits, else the first `cap` bytes (silent truncation).
pub open spec fn truncate_bytes(s: Seq<u8>, cap: int) -> Seq<u8> {
    if s.len() <= cap {
        s
    } else {
        s.subrange(0, cap)
    }
}

/// The basis-point part of `amount`: a wide multiply, then division by the
/// 10000 bps denominator.
pub open spec fn bps_of(amount: u64, bps: u16) -> int {
    (amount * bps) / 10000
}

/// A basis-point part of at most 100% never exceeds the whole amount.
pub proof fn lemma_bps_part_le_whole(amount: u64, bps: u16)
    requires
        bps <= 10000,
    ensures
        0 <= bps_of(amount, bps) <= amount,
{
    vstd::arithmetic::mul::lemma_mul_nonnegative(amount as int, bps as int);
    vstd::arithmetic::mul::lemma_mul_inequality(bps as int, 10000, amount as int);
    vstd::arithmetic::mul::lemma_mul_is_commutative(amount as int, bps as int);
    vstd::arithmetic::mul::lemma_mul_is_commutative(10000, amount as int);
    vstd::arithmetic::div_mod::lemma_div_is_ordered(
        amount as int * bps as int,
        amount as int * 10000,
        10000,
    );
}

} // verus!
