use paradox_token::account_id::AccountId;
use paradox_token::armageddon::ArmageddonState;
use paradox_token::errors::ParadoxError;
use paradox_token::token_config::TokenConfig;

fn fresh_pair() -> (ArmageddonState, TokenConfig) {
    let admin = AccountId { hi: 2, lo: 2 };
    let config = TokenConfig::initialize(
        AccountId { hi: 1, lo: 1 },
        admin,
        AccountId { hi: 3, lo: 3 },
        150,
        7000,
        1500,
        1500,
        0,
    )
    .unwrap();
    let state = ArmageddonState::initialize(AccountId { hi: 4, lo: 4 }, admin);
    (state, config)
}

#[test]
fn initialize_is_normal_operation() {
    let (state, _) = fresh_pair();
    assert_eq!(state.level, 0);
    assert_eq!(state.recovery_threshold_bps, 12000);
    assert_eq!(state.emergency_fee_bps, 300);
    assert_eq!(state.emergency_lp_share_bps, 9000);
    assert!(!state.trading_paused);
    assert_eq!(state.max_pause_duration, 24 * 60 * 60);
}

#[test]
fn trigger_applies_emergency_parameters() {
    let (mut state, mut config) = fresh_pair();
    state.trigger(&mut config, 1, 500).unwrap();
    assert_eq!(state.level, 1);
    assert_eq!(state.triggered_at, 500);
    assert_eq!(config.armageddon_level, 1);
    assert_eq!(config.transfer_fee_bps, 300);
    assert!(!state.trading_paused);
}

#[test]
fn highest_level_pauses_trading() {
    let (mut state, mut config) = fresh_pair();
    state.trigger(&mut config, 3, 500).unwrap();
    assert_eq!(state.level, 3);
    assert!(state.trading_paused);
}

#[test]
fn trigger_rejects_invalid_levels() {
    let (mut state, mut config) = fresh_pair();
    assert_eq!(
        state.trigger(&mut config, 0, 0).unwrap_err(),
        ParadoxError::InvalidArmageddonLevel
    );
    assert_eq!(
        state.trigger(&mut config, 4, 0).unwrap_err(),
        ParadoxError::InvalidArmageddonLevel
    );
    assert_eq!(state.level, 0);
    assert_eq!(config.transfer_fee_bps, 150);
}

#[test]
fn recover_resets_to_normal() {
    let (mut state, mut config) = fresh_pair();
    state.trigger(&mut config, 3, 500).unwrap();
    let previous = state.recover(&mut config).unwrap();
    assert_eq!(previous, 3);
    assert_eq!(state.level, 0);
    assert!(!state.trading_paused);
    assert_eq!(config.armageddon_level, 0);
    // Recovering again is refused: nothing is triggered.
    assert_eq!(state.recover(&mut config).unwrap_err(), ParadoxError::NotInArmageddon);
}

#[test]
fn can_recover_needs_threshold_share_of_trigger_value() {
    let (mut state, mut config) = fresh_pair();
    assert!(!state.can_recover(u64::MAX));
    state.trigger(&mut config, 2, 0).unwrap();
    state.lp_value_at_trigger = 1000;
    // Threshold is 12000 bps: 120% of the value at trigger time.
    assert!(!state.can_recover(1199));
    assert!(state.can_recover(1200));
}

#[test]
fn level_thresholds_and_responses() {
    assert_eq!(ArmageddonState::get_threshold(1), 50);
    assert_eq!(ArmageddonState::get_threshold(2), 75);
    assert_eq!(ArmageddonState::get_threshold(3), 90);
    assert_eq!(ArmageddonState::get_threshold(0), 0);
    assert_eq!(ArmageddonState::get_threshold(9), 0);
    assert_eq!(ArmageddonState::get_response(1), "Fee maxed to 3%, LP share to 90%");
    assert_eq!(ArmageddonState::get_response(2), "Above + Treasury injection initiated");
    assert_eq!(ArmageddonState::get_response(3), "Above + Trading slowdown active");
    assert_eq!(ArmageddonState::get_response(0), "Normal operation");
}
