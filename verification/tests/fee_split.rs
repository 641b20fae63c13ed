use paradox_token::account_id::AccountId;
use paradox_token::errors::ParadoxError;
use paradox_token::token_config::TokenConfig;

fn test_config(fee: u16, lp: u16, burn: u16, treasury: u16) -> TokenConfig {
    TokenConfig::initialize(
        AccountId { hi: 1, lo: 1 },
        AccountId { hi: 2, lo: 2 },
        AccountId { hi: 3, lo: 3 },
        fee,
        lp,
        burn,
        treasury,
        0,
    )
    .unwrap()
}

#[test]
fn split_default_shares_exact() {
    let config = test_config(300, 7000, 1500, 1500);
    let (to_lp, to_burn, to_treasury) = config.calculate_distribution(10_000_000).unwrap();
    assert_eq!(to_lp, 7_000_000);
    assert_eq!(to_burn, 1_500_000);
    assert_eq!(to_treasury, 1_500_000);
}

#[test]
fn split_remainder_goes_to_treasury() {
    let config = test_config(300, 3333, 3333, 3334);
    let (to_lp, to_burn, to_treasury) = config.calculate_distribution(9999).unwrap();
    assert_eq!(to_lp, 3332);
    assert_eq!(to_burn, 3332);
    assert_eq!(to_treasury, 3335);
    assert_eq!(to_lp + to_burn + to_treasury, 9999);
}

#[test]
fn split_sum_preserved_across_amounts_and_shares() {
    let shares = [
        (7000u16, 1500u16, 1500u16),
        (3333, 3333, 3334),
        (10000, 0, 0),
        (0, 0, 10000),
        (1, 2, 9997),
    ];
    let amounts = [0u64, 1, 33, 34, 9999, 10_000, 123_456_789, u64::MAX];
    for &(lp, burn, treasury) in shares.iter() {
        let config = test_config(300, lp, burn, treasury);
        for &amount in amounts.iter() {
            let (a, b, c) = config.calculate_distribution(amount).unwrap();
            assert_eq!(a as u128 + b as u128 + c as u128, amount as u128);
        }
    }
}

#[test]
fn split_of_zero_is_zero() {
    let config = test_config(100, 7000, 1500, 1500);
    assert_eq!(config.calculate_distribution(0).unwrap(), (0, 0, 0));
}

#[test]
fn validate_shares_accepts_exact_sum_only() {
    let config = test_config(300, 7000, 1500, 1500);
    assert!(config.validate_shares());
    let mut bad = config.clone();
    bad.burn_share_bps = 1501;
    assert!(!bad.validate_shares());
}

#[test]
fn initialize_rejects_fee_out_of_range() {
    let admin = AccountId { hi: 2, lo: 2 };
    let mint = AccountId { hi: 1, lo: 1 };
    let vault = AccountId { hi: 3, lo: 3 };
    let low = TokenConfig::initialize(mint, admin, vault, 99, 7000, 1500, 1500, 0);
    assert_eq!(low.unwrap_err(), ParadoxError::InvalidTransferFee);
    let high = TokenConfig::initialize(mint, admin, vault, 301, 7000, 1500, 1500, 0);
    assert_eq!(high.unwrap_err(), ParadoxError::InvalidTransferFee);
}

#[test]
fn initialize_rejects_shares_not_summing() {
    let admin = AccountId { hi: 2, lo: 2 };
    let mint = AccountId { hi: 1, lo: 1 };
    let vault = AccountId { hi: 3, lo: 3 };
    let r = TokenConfig::initialize(mint, admin, vault, 300, 7000, 1500, 1499, 0);
    assert_eq!(r.unwrap_err(), ParadoxError::InvalidFeeShares);
}

#[test]
fn distribute_fees_updates_lifetime_counter() {
    let mut config = test_config(300, 7000, 1500, 1500);
    let (a, b, c) = config.distribute_fees(1000).unwrap();
    assert_eq!((a, b, c), (700, 150, 150));
    assert_eq!(config.total_fees_distributed, 1000);
    assert_eq!(config.distribute_fees(0).unwrap(), (0, 0, 0));
    assert_eq!(config.total_fees_distributed, 1000);
}

#[test]
fn distribute_fees_rejects_counter_overflow() {
    let mut config = test_config(300, 7000, 1500, 1500);
    config.total_fees_distributed = u64::MAX;
    assert_eq!(config.distribute_fees(1).unwrap_err(), ParadoxError::MathOverflow);
    assert_eq!(config.total_fees_distributed, u64::MAX);
}
