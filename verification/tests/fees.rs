use stellar_trust::fees::{
    BlockVolume, FeeContract, FeeEnv, FeeError, FeeEvent, FeeKey, FeeResult, FeeStorage,
    BASE_FEE_BPS, FLASH_LOAN_MULTIPLIER, FLASH_LOAN_THRESHOLD_BPS, MAX_FEE_BPS,
    VOLUME_WINDOW_BLOCKS,
};
use stellar_trust::host::{Address, AddressKind, Effect, Env, Ledger};

fn env_at(sequence: u32) -> FeeEnv {
    let contract = Address { kind: AddressKind::Contract, hi: 0, lo: 1 };
    Env::new(Ledger { sequence, timestamp: 0 }, contract, FeeStorage::new())
}

fn setup() -> FeeEnv {
    let mut env = env_at(0);
    FeeContract::init(&mut env, BASE_FEE_BPS).unwrap();
    env
}

#[test]
fn test_normal_fee_no_multiplier() {
    let mut env = setup();
    // The pool is empty: no flash loan is detected.
    let result = FeeContract::calculate_fee(&mut env, 1000).unwrap();
    assert_eq!(result.multiplier, 1);
    assert!(!result.flash_loan_detected);
    // 1000 * 100 / 10_000 = 10
    assert_eq!(result.fee, 10);
}

#[test]
fn test_flash_loan_multiplier_applied() {
    let mut env = setup();
    FeeContract::record_deposit(&mut env, 1000).unwrap();
    // 600 exceeds half of 1000.
    let result = FeeContract::calculate_fee(&mut env, 600).unwrap();
    assert!(result.flash_loan_detected);
    assert_eq!(result.multiplier, 2);
    // 600 * 100 * 2 / 10_000 = 12
    assert_eq!(result.fee, 12);
}

#[test]
fn test_below_threshold_no_multiplier() {
    let mut env = setup();
    FeeContract::record_deposit(&mut env, 1000).unwrap();
    // 400 does not exceed 500.
    let result = FeeContract::calculate_fee(&mut env, 400).unwrap();
    assert!(!result.flash_loan_detected);
    assert_eq!(result.multiplier, 1);
}

#[test]
fn test_window_volume_accumulation_triggers_multiplier() {
    let mut env = setup();
    FeeContract::record_deposit(&mut env, 1000).unwrap();
    FeeContract::record_withdrawal(&mut env, 300).unwrap();
    // 300 withdrawn and 300 more exceed half of the pool.
    let result = FeeContract::calculate_fee(&mut env, 300).unwrap();
    assert!(result.flash_loan_detected);
    assert_eq!(result.multiplier, 2);
}

#[test]
fn test_pool_volume_tracks_deposits_and_withdrawals() {
    let mut env = setup();
    FeeContract::record_deposit(&mut env, 500).unwrap();
    assert_eq!(FeeContract::pool_volume(&env), 500);
    FeeContract::record_withdrawal(&mut env, 200).unwrap();
    assert_eq!(FeeContract::pool_volume(&env), 300);
}

#[test]
fn test_invalid_amount_rejected() {
    let mut env = setup();
    assert_eq!(FeeContract::calculate_fee(&mut env, 0), Err(FeeError::InvalidAmount));
    assert_eq!(FeeContract::calculate_fee(&mut env, -1), Err(FeeError::InvalidAmount));
}

#[test]
fn fee_constants() {
    assert_eq!(BASE_FEE_BPS, 100);
    assert_eq!(FLASH_LOAN_MULTIPLIER, 2);
    assert_eq!(VOLUME_WINDOW_BLOCKS, 5);
    assert_eq!(FLASH_LOAN_THRESHOLD_BPS, 5000);
}

#[test]
fn fee_error_codes() {
    assert_eq!(FeeError::InvalidAmount.code(), 1);
    assert_eq!(FeeError::InvalidFeeBps.code(), 2);
}

#[test]
fn fee_rate_range() {
    let mut env = env_at(9);
    assert_eq!(FeeContract::init(&mut env, 0), Err(FeeError::InvalidFeeBps));
    assert_eq!(FeeContract::init(&mut env, MAX_FEE_BPS + 1), Err(FeeError::InvalidFeeBps));
    assert_eq!(env.storage.fee_config, None);
    assert_eq!(env.effects, vec![]);
    assert_eq!(FeeContract::init(&mut env, MAX_FEE_BPS), Ok(()));
    assert_eq!(env.storage.fee_config, Some(10_000));
    assert_eq!(
        env.effects,
        vec![Effect::Write(FeeKey::FeeConfig), Effect::Write(FeeKey::PoolVolume)]
    );
    // At the largest rate the fee is the whole amount.
    assert_eq!(FeeContract::calculate_fee(&mut env, 777).unwrap().fee, 777);
}

#[test]
fn base_rate_without_configuration() {
    let mut env = env_at(9);
    assert_eq!(FeeContract::pool_volume(&env), 0);
    assert_eq!(FeeContract::window_volume(&env), 0);
    assert_eq!(FeeContract::calculate_fee(&mut env, 25_000).unwrap().fee, 250);
}

#[test]
fn init_empties_the_pool() {
    let mut env = env_at(9);
    FeeContract::record_deposit(&mut env, 1_000).unwrap();
    FeeContract::init(&mut env, 50).unwrap();
    assert_eq!(FeeContract::pool_volume(&env), 0);
    assert_eq!(FeeContract::window_volume(&env), 1_000);
}

#[test]
fn movements_must_be_positive() {
    let mut env = env_at(9);
    assert_eq!(FeeContract::record_deposit(&mut env, 0), Err(FeeError::InvalidAmount));
    assert_eq!(FeeContract::record_deposit(&mut env, -5), Err(FeeError::InvalidAmount));
    assert_eq!(FeeContract::record_withdrawal(&mut env, 0), Err(FeeError::InvalidAmount));
    assert_eq!(FeeContract::record_withdrawal(&mut env, i128::MIN), Err(FeeError::InvalidAmount));
    assert_eq!(env.effects, vec![]);
}

#[test]
fn movement_effects_in_order() {
    let mut env = env_at(12);
    FeeContract::record_deposit(&mut env, 80).unwrap();
    FeeContract::record_withdrawal(&mut env, 30).unwrap();
    assert_eq!(
        env.effects,
        vec![
            Effect::Write(FeeKey::PoolVolume),
            Effect::Publish(FeeEvent::VolumeUpdated { pool_volume: 80 }),
            Effect::Write(FeeKey::BlockVolume(12)),
            Effect::Write(FeeKey::PoolVolume),
            Effect::Publish(FeeEvent::VolumeUpdated { pool_volume: 50 }),
            Effect::Write(FeeKey::BlockVolume(12)),
        ]
    );
    assert_eq!(
        env.storage.block_volumes.get(&12),
        Some(&BlockVolume { total: 110, withdrawn: 30 })
    );
}

#[test]
fn fee_event_carries_the_calculation() {
    let mut env = env_at(12);
    FeeContract::record_deposit(&mut env, 1_000).unwrap();
    env.effects.clear();
    let result = FeeContract::calculate_fee(&mut env, 600).unwrap();
    assert_eq!(result, FeeResult { fee: 12, multiplier: 2, flash_loan_detected: true });
    assert_eq!(
        env.effects,
        vec![Effect::Publish(FeeEvent::FeeCalculated {
            amount: 600,
            fee: 12,
            multiplier: 2,
            flash_loan_detected: true,
            pool_volume: 1_000,
            window_volume: 1_000,
        })]
    );
}

#[test]
fn pool_never_falls_below_zero() {
    let mut env = setup();
    FeeContract::record_deposit(&mut env, 100).unwrap();
    FeeContract::record_withdrawal(&mut env, 250).unwrap();
    assert_eq!(FeeContract::pool_volume(&env), 0);
    // An empty pool detects nothing.
    assert!(!FeeContract::calculate_fee(&mut env, 1_000_000).unwrap().flash_loan_detected);
}

#[test]
fn withdrawal_undoes_deposit_in_the_pool() {
    let mut env = setup();
    FeeContract::record_deposit(&mut env, 700).unwrap();
    FeeContract::record_deposit(&mut env, 42).unwrap();
    FeeContract::record_withdrawal(&mut env, 42).unwrap();
    assert_eq!(FeeContract::pool_volume(&env), 700);
}

#[test]
fn threshold_is_half_of_the_pool() {
    assert!(!FeeContract::is_flash_loan(500, 1_000, 0));
    assert!(FeeContract::is_flash_loan(501, 1_000, 0));
    assert!(!FeeContract::is_flash_loan(200, 1_000, 300));
    assert!(FeeContract::is_flash_loan(201, 1_000, 300));
    // Half of an odd pool is rounded down.
    assert!(!FeeContract::is_flash_loan(500, 1_001, 0));
    assert!(FeeContract::is_flash_loan(501, 1_001, 0));
    assert!(!FeeContract::is_flash_loan(5, 0, 5));
    assert!(!FeeContract::is_flash_loan(5, -10, 5));
}

#[test]
fn huge_volumes_saturate() {
    let mut env = setup();
    FeeContract::record_deposit(&mut env, i128::MAX).unwrap();
    FeeContract::record_deposit(&mut env, i128::MAX).unwrap();
    assert_eq!(FeeContract::pool_volume(&env), i128::MAX);
    assert_eq!(FeeContract::window_volume(&env), i128::MAX);
    // The fee is exact although amount times rate cannot be represented.
    let result = FeeContract::calculate_fee(&mut env, i128::MAX).unwrap();
    assert!(result.flash_loan_detected);
    assert_eq!(result.fee, i128::MAX / 50);
    // Only a fee that cannot be represented itself stops at the largest amount.
    FeeContract::init(&mut env, MAX_FEE_BPS).unwrap();
    FeeContract::record_deposit(&mut env, 1).unwrap();
    let result = FeeContract::calculate_fee(&mut env, i128::MAX).unwrap();
    assert!(result.flash_loan_detected);
    assert_eq!(result.fee, i128::MAX);
}

#[test]
fn threshold_of_a_huge_pool_is_half_of_it() {
    let pool = 100_000_000_000_000_000_000_000_000_000_000_000_000;
    assert!(!FeeContract::is_flash_loan(20_000_000_000_000_000_000_000_000_000_000_000, pool, 0));
    assert!(!FeeContract::is_flash_loan(pool / 2, pool, 0));
    assert!(FeeContract::is_flash_loan(pool / 2 + 1, pool, 0));
    assert!(FeeContract::is_flash_loan(1, pool, pool / 2));
    assert!(!FeeContract::is_flash_loan(i128::MAX / 2, i128::MAX, 0));
    assert!(FeeContract::is_flash_loan(i128::MAX / 2 + 1, i128::MAX, 0));
    assert!(FeeContract::is_flash_loan(i128::MAX, i128::MAX, i128::MAX));
}

#[test]
fn window_is_the_sum_of_its_movements() {
    let mut env = env_at(0);
    FeeContract::init(&mut env, 100).unwrap();
    FeeContract::record_deposit(&mut env, 100).unwrap();
    assert_eq!(FeeContract::window_volume(&env), 100);
    env.ledger.sequence = 3;
    FeeContract::record_withdrawal(&mut env, 40).unwrap();
    FeeContract::record_deposit(&mut env, 5).unwrap();
    assert_eq!(FeeContract::record_deposit(&mut env, -5), Err(FeeError::InvalidAmount));
    FeeContract::calculate_fee(&mut env, 9).unwrap();
    env.ledger.sequence = 4;
    assert_eq!(FeeContract::window_volume(&env), 145);
    env.ledger.sequence = 5;
    assert_eq!(FeeContract::window_volume(&env), 45);
}

#[test]
fn window_remembers_five_blocks_and_forgets() {
    let mut env = env_at(100);
    FeeContract::record_deposit(&mut env, 1_000).unwrap();
    FeeContract::record_withdrawal(&mut env, 300).unwrap();
    env.ledger.sequence = 104;
    assert_eq!(FeeContract::window_volume(&env), 1_300);
    assert!(FeeContract::calculate_fee(&mut env, 300).unwrap().flash_loan_detected);
    env.ledger.sequence = 105;
    assert_eq!(FeeContract::window_volume(&env), 0);
    assert!(!FeeContract::calculate_fee(&mut env, 300).unwrap().flash_loan_detected);
}

#[test]
fn window_adds_up_its_blocks() {
    let mut env = env_at(10);
    for sequence in 10..16 {
        env.ledger.sequence = sequence;
        FeeContract::record_deposit(&mut env, 1 + sequence as i128).unwrap();
    }
    // Blocks 11 to 15.
    assert_eq!(FeeContract::window_volume(&env), 12 + 13 + 14 + 15 + 16);
}

#[test]
fn first_blocks_are_counted_once() {
    let mut env = env_at(0);
    FeeContract::record_deposit(&mut env, 7).unwrap();
    assert_eq!(FeeContract::window_volume(&env), 7);
    env.ledger.sequence = 2;
    assert_eq!(FeeContract::window_volume(&env), 7);
}

#[test]
fn deposits_do_not_trigger_detection() {
    let mut env = env_at(50);
    FeeContract::record_deposit(&mut env, 1_000).unwrap();
    assert!(!FeeContract::calculate_fee(&mut env, 450).unwrap().flash_loan_detected);
    FeeContract::record_deposit(&mut env, 5_000).unwrap();
    assert!(!FeeContract::calculate_fee(&mut env, 450).unwrap().flash_loan_detected);
}

#[test]
fn fee_grows_with_amount_and_doubles_for_flash_loans() {
    let mut env = env_at(50);
    FeeContract::record_deposit(&mut env, 1_000_000).unwrap();
    let plain = FeeContract::calculate_fee(&mut env, 500_000).unwrap();
    let flash = FeeContract::calculate_fee(&mut env, 500_001).unwrap();
    assert_eq!(plain, FeeResult { fee: 5_000, multiplier: 1, flash_loan_detected: false });
    assert_eq!(flash, FeeResult { fee: 10_000, multiplier: 2, flash_loan_detected: true });
}
