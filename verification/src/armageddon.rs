use vstd::prelude::*;
use crate::account_id::AccountId;
use crate::errors::ParadoxError;
use crate::bps_of;
use crate::token_config::TokenConfig;

verus! {

/// Discrete emergency severity tier.
#[derive(Clone, Copy, Debug, PartialEq, Eq, Structural)]
pub enum ArmageddonLevel {
    /// Normal operation.
    Normal,
    /// Defensive measures after a 50% LP drop.
    Defcon3,
    /// Treasury injection after a 75% LP drop.
    Defcon2,
    /// Emergency pause after a 90% LP drop.
    Defcon1,
}

impl Default for ArmageddonLevel {
    /// The controller starts in normal operation.
    fn default() -> (r: Self)
        ensures
            r == ArmageddonLevel::Normal,
    {
        ArmageddonLevel::Normal
    }
}

/// Emergency override controller: a small level state machine that, while
/// triggered, overrides fee and liquidity-share parameters system-wide.
#[derive(Clone, Copy, Debug, PartialEq, Eq, Structural)]
pub struct ArmageddonState {
    /// Token config this state belongs to.
    pub token_config: AccountId,
    /// Current level: 0 = normal, 1-3 = escalating severity.
    pub level: u8,
    /// Timestamp when the emergency was triggered.
    pub triggered_at: i64,
    /// LP value when triggered.
    pub lp_value_at_trigger: u64,
    /// Baseline LP value, for recovery calculation.
    pub baseline_lp_value: u64,
    /// Authority that can trigger the emergency.
    pub trigger_authority: AccountId,
    /// Authority that can recover from the emergency.
    pub recovery_authority: AccountId,
    /// Recovery threshold in bps of the value at trigger time.
    pub recovery_threshold_bps: u16,
    /// Fee rate override while triggered.
    pub emergency_fee_bps: u16,
    /// LP share override while triggered.
    pub emergency_lp_share_bps: u16,
    /// Whether trading is paused (highest severity only).
    pub trading_paused: bool,
    /// Maximum pause duration in seconds.
    pub max_pause_duration: i64,
}

impl ArmageddonState {
    /// Well-formedness: the level stays within the four defined tiers.
    pub open spec fn wf(&self) -> bool {
        &&& self.level <= 3
        &&& 0 <= self.triggered_at
    }

    /// Build the controller in its normal state, with the default recovery
    /// threshold (120% of the value at trigger time), emergency fee (3%)
    /// and emergency LP share (90%), and a 24-hour pause bound.
    pub fn initialize(token_config: AccountId, admin: AccountId) -> (r: ArmageddonState)
        ensures
            r.wf(),
            r == (ArmageddonState {
                token_config,
                level: 0,
                triggered_at: 0,
                lp_value_at_trigger: 0,
                baseline_lp_value: 0,
                trigger_authority: admin,
                recovery_authority: admin,
                recovery_threshold_bps: 12000,
                emergency_fee_bps: 300,
                emergency_lp_share_bps: 9000,
                trading_paused: false,
                max_pause_duration: 86400,
            }),
    {
        ArmageddonState {
            token_config,
            level: 0,
            triggered_at: 0,
            lp_value_at_trigger: 0,
            baseline_lp_value: 0,
            trigger_authority: admin,
            recovery_authority: admin,
            recovery_threshold_bps: 12000,
            emergency_fee_bps: 300,
            emergency_lp_share_bps: 9000,
            trading_paused: false,
            max_pause_duration: 86400,
        }
    }

    /// Whether the LP value has recovered enough to leave the emergency:
    /// only while triggered, and only once the current value reaches the
    /// recovery threshold's share of the value at trigger time.
    pub fn can_recover(&self, current_lp_value: u64) -> (r: bool)
        ensures
            r == (self.level != 0 && current_lp_value >= bps_of(
                self.lp_value_at_trigger,
                self.recovery_threshold_bps,
            )),
    {
        if self.level == 0 {
            return false;
        }
        proof {
            assert(self.lp_value_at_trigger as int * self.recovery_threshold_bps as int
                <= u64::MAX as int * u16::MAX as int) by (nonlinear_arith)
                requires
                    0 <= self.lp_value_at_trigger as int <= u64::MAX as int,
                    0 <= self.recovery_threshold_bps as int <= u16::MAX as int,
            ;
        }
        let recovery_target: u128 = (self.lp_value_at_trigger as u128) * (
        self.recovery_threshold_bps as u128) / 10_000;
        (current_lp_value as u128) >= recovery_target
    }

    /// The LP drop, in percent, that corresponds to each severity level.
    pub fn get_threshold(level: u8) -> (r: u8)
        ensures
            level == 1 ==> r == 50,
            level == 2 ==> r == 75,
            level == 3 ==> r == 90,
            !(1 <= level <= 3) ==> r == 0,
    {
        match level {
            1 => 50,
            2 => 75,
            3 => 90,
            _ => 0,
        }
    }

    /// A display description of each level's response.
    pub fn get_response(level: u8) -> (r: &'static str)
        ensures
            level == 1 ==> r@ =~= "Fee maxed to 3%, LP share to 90%"@,
            level == 2 ==> r@ =~= "Above + Treasury injection initiated"@,
            level == 3 ==> r@ =~= "Above + Trading slowdown active"@,
            !(1 <= level <= 3) ==> r@ =~= "Normal operation"@,
    {
        match level {
            1 => "Fee maxed to 3%, LP share to 90%",
            2 => "Above + Treasury injection initiated",
            3 => "Above + Trading slowdown active",
            _ => "Normal operation",
        }
    }

    /// Trigger the emergency at `level` (1 to 3) at time `now`: records the
    /// level and instant, forces the fee rate to its 3% maximum and the
    /// emergency LP share to 90% on the shared config, and — at the highest
    /// severity only — pauses trading. An invalid level changes nothing.
    pub fn trigger(&mut self, config: &mut TokenConfig, level: u8, now: i64) -> (r: Result<
        (),
        ParadoxError,
    >)
        requires
            old(self).wf(),
            old(config).wf(),
            0 <= now,
        ensures
            final(self).wf(),
            final(config).wf(),
            !(1 <= level <= 3) ==> r == Err::<(), ParadoxError>(
                ParadoxError::InvalidArmageddonLevel,
            ) && *final(self) == *old(self) && *final(config) == *old(config),
            1 <= level <= 3 ==> r == Ok::<(), ParadoxError>(()) && *final(self)
                == (ArmageddonState {
                level,
                triggered_at: now,
                emergency_lp_share_bps: 9000,
                trading_paused: if level == 3 {
                    true
                } else {
                    old(self).trading_paused
                },
                ..*old(self)
            }) && *final(config) == (TokenConfig {
                armageddon_level: level,
                transfer_fee_bps: 300,
                ..*old(config)
            }),
    {
        if !(1 <= level && level <= 3) {
            return Err(ParadoxError::InvalidArmageddonLevel);
        }
        self.level = level;
        self.triggered_at = now;
        config.armageddon_level = level;
        config.transfer_fee_bps = 300;
        self.emergency_lp_share_bps = 9000;
        if level == 3 {
            self.trading_paused = true;
        }
        Ok(())
    }

    /// Leave the emergency: resets the level to normal on the controller
    /// and the shared config and unpauses trading. Fails while not
    /// triggered. Whether the LP value has actually recovered is reported
    /// by `can_recover`; this transition does not re-check it.
    pub fn recover(&mut self, config: &mut TokenConfig) -> (r: Result<u8, ParadoxError>)
        requires
            old(self).wf(),
            old(config).wf(),
        ensures
            final(self).wf(),
            final(config).wf(),
            old(self).level == 0 ==> r == Err::<u8, ParadoxError>(ParadoxError::NotInArmageddon)
                && *final(self) == *old(self) && *final(config) == *old(config),
            old(self).level > 0 ==> r == Ok::<u8, ParadoxError>(old(self).level) && *final(self)
                == (ArmageddonState { level: 0, trading_paused: false, ..*old(self) }) && *final(config) == (TokenConfig { armageddon_level: 0, ..*old(config) }),
    {
        if self.level == 0 {
            return Err(ParadoxError::NotInArmageddon);
        }
        let previous_level = self.level;
        self.level = 0;
        self.trading_paused = false;
        config.armageddon_level = 0;
        Ok(previous_level)
    }
}

} // verus!
