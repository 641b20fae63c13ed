use vstd::prelude::*;

verus! {

/// Typed failures of the custody control plane.
///
/// Every operation either mutates its state machine atomically or returns one
/// of these and leaves the state untouched.
#[derive(Clone, Copy, Debug, PartialEq, Eq, Structural)]
pub enum ParadoxError {
    /// Transfer fee out of allowed range (100-300 bps).
    InvalidTransferFee,
    /// Fee shares must sum to 10000 bps (100%).
    InvalidFeeShares,
    /// Cliff period not yet passed.
    CliffNotPassed,
    /// Cooldown period not yet passed.
    CooldownNotPassed,
    /// Timelock not yet expired.
    TimelockNotExpired,
    /// Unlock amount exceeds allowed rate.
    UnlockRateExceeded,
    /// Insufficient accumulated fees.
    InsufficientFees,
    /// LP growth is locked.
    LpGrowthLocked,
    /// Armageddon mode is active.
    ArmageddonActive,
    /// Not in Armageddon mode.
    NotInArmageddon,
    /// LP not sufficiently recovered.
    LpNotRecovered,
    /// Caller is not the recorded authority.
    Unauthorized,
    /// DAO spending limit exceeded.
    DaoSpendingLimitExceeded,
    /// Invalid Armageddon level.
    InvalidArmageddonLevel,
    /// Math overflow.
    MathOverflow,
    /// Timelock too short.
    TimelockTooShort,
    /// Withdrawal amount exceeds maximum allowed.
    WithdrawalAmountExceeded,
    /// Insufficient LP tokens locked.
    InsufficientLpTokens,
    /// Too many pending withdrawals.
    TooManyPendingWithdrawals,
    /// Invalid withdrawal slot.
    InvalidWithdrawalSlot,
    /// No active withdrawal in this slot.
    NoActiveWithdrawal,
    /// Invalid vault account.
    InvalidVault,
    /// Already finalized.
    AlreadyFinalized,
    /// Amount is below minimum transfer threshold.
    AmountBelowMinimum,
    /// Fee change timelock not expired.
    FeeChangeTimelockNotExpired,
    /// No pending fee change.
    NoPendingFeeChange,
    /// No fees to harvest.
    NoFeesToHarvest,
}

} // verus!
