use stellar_trust::host::{Address, AddressKind, Effect, Env, Ledger, Transfer};
use stellar_trust::staking::{
    StakeEnv, StakeError, StakeEvent, StakeKey, StakingContract, StakingStorage,
    MAX_WEIGHT_BPS, REBATE_INTERVAL_SECS, REBATE_RATE_PER_GAS,
};

fn account(n: u128) -> Address {
    Address { kind: AddressKind::Account, hi: 0, lo: n }
}

fn asset(n: u128) -> Address {
    Address { kind: AddressKind::Contract, hi: 1, lo: n }
}

fn contract() -> Address {
    Address { kind: AddressKind::Contract, hi: 0, lo: 1 }
}

fn admin() -> Address {
    account(1)
}

fn staker() -> Address {
    account(2)
}

fn new_env() -> StakeEnv {
    Env::new(Ledger { sequence: 0, timestamp: 0 }, contract(), StakingStorage::new())
}

/// An initialized contract with a token of weight one and a token of weight 0.8.
fn setup() -> (StakeEnv, Address, Address) {
    let (token_a, token_b) = (asset(1), asset(2));
    let mut env = new_env();
    StakingContract::initialize(&mut env, admin()).unwrap();
    StakingContract::add_token(&mut env, admin(), token_a, 10_000).unwrap();
    StakingContract::add_token(&mut env, admin(), token_b, 8_000).unwrap();
    env.effects.clear();
    (env, token_a, token_b)
}

#[test]
fn test_deposit_and_stake_balance() {
    let (mut env, token_a, _) = setup();
    StakingContract::deposit(&mut env, staker(), token_a, 1000).unwrap();
    assert_eq!(StakingContract::stake_of(&env, staker(), token_a), 1000);
}

#[test]
fn test_withdraw_reduces_stake() {
    let (mut env, token_a, _) = setup();
    StakingContract::deposit(&mut env, staker(), token_a, 1000).unwrap();
    StakingContract::withdraw(&mut env, staker(), token_a, 400).unwrap();
    assert_eq!(StakingContract::stake_of(&env, staker(), token_a), 600);
}

#[test]
fn test_voting_power_multi_token() {
    let (mut env, token_a, token_b) = setup();
    // 1000 * 10_000 / 10_000 = 1000
    StakingContract::deposit(&mut env, staker(), token_a, 1000).unwrap();
    // 1000 * 8_000 / 10_000 = 800
    StakingContract::deposit(&mut env, staker(), token_b, 1000).unwrap();
    let tokens = vec![token_a, token_b];
    assert_eq!(StakingContract::voting_power(&env, staker(), tokens), 1800);
}

#[test]
fn test_gas_recording_and_rebate() {
    let (mut env, _, _) = setup();
    let xlm = asset(9);
    StakingContract::record_gas(&mut env, admin(), staker(), 500).unwrap();
    assert_eq!(StakingContract::gas_used(&env, staker()), 500);
    StakingContract::fund_rebate_pool(&mut env, admin(), xlm, 1_000_000).unwrap();
    // 500 * 100 = 50_000
    let rebate = StakingContract::distribute_rebate(&mut env, staker(), xlm).unwrap();
    assert_eq!(rebate, 50_000);
    assert_eq!(StakingContract::gas_used(&env, staker()), 0);
    assert_eq!(StakingContract::rebate_pool(&env), 950_000);
}

#[test]
fn test_rebate_too_soon_rejected() {
    let (mut env, _, _) = setup();
    let xlm = asset(9);
    StakingContract::record_gas(&mut env, admin(), staker(), 100).unwrap();
    StakingContract::fund_rebate_pool(&mut env, admin(), xlm, 1_000_000).unwrap();
    StakingContract::distribute_rebate(&mut env, staker(), xlm).unwrap();
    // A second request right after the first one fails.
    StakingContract::record_gas(&mut env, admin(), staker(), 100).unwrap();
    assert_eq!(
        StakingContract::distribute_rebate(&mut env, staker(), xlm),
        Err(StakeError::RebateTooSoon)
    );
}

#[test]
fn test_unsupported_token_rejected() {
    let (mut env, _, _) = setup();
    let unknown = asset(7);
    assert_eq!(
        StakingContract::deposit(&mut env, staker(), unknown, 100),
        Err(StakeError::UnsupportedToken)
    );
}

#[test]
fn test_insufficient_stake_withdrawal_rejected() {
    let (mut env, token_a, _) = setup();
    StakingContract::deposit(&mut env, staker(), token_a, 100).unwrap();
    assert_eq!(
        StakingContract::withdraw(&mut env, staker(), token_a, 200),
        Err(StakeError::InsufficientStake)
    );
}

#[test]
fn staking_constants() {
    assert_eq!(REBATE_INTERVAL_SECS, 30 * 24 * 3600);
    assert_eq!(REBATE_RATE_PER_GAS, 100);
    assert_eq!(MAX_WEIGHT_BPS, 20_000);
}

#[test]
fn stake_error_codes() {
    assert_eq!(StakeError::AlreadyInitialized.code(), 1);
    assert_eq!(StakeError::NotInitialized.code(), 2);
    assert_eq!(StakeError::Unauthorized.code(), 3);
    assert_eq!(StakeError::UnsupportedToken.code(), 4);
    assert_eq!(StakeError::InvalidAmount.code(), 5);
    assert_eq!(StakeError::InsufficientStake.code(), 6);
    assert_eq!(StakeError::RebateTooSoon.code(), 7);
    assert_eq!(StakeError::InsufficientRebatePool.code(), 8);
    assert_eq!(StakeError::NoGasToRebate.code(), 9);
}

#[test]
fn initialization_happens_once() {
    let mut env = new_env();
    assert_eq!(StakingContract::initialize(&mut env, admin()), Ok(()));
    assert_eq!(
        env.effects,
        vec![
            Effect::RequireAuth(admin()),
            Effect::Write(StakeKey::Admin),
            Effect::Write(StakeKey::RebatePool),
        ]
    );
    env.effects.clear();
    assert_eq!(
        StakingContract::initialize(&mut env, account(9)),
        Err(StakeError::AlreadyInitialized)
    );
    assert_eq!(env.storage.admin, Some(admin()));
    assert_eq!(env.effects, vec![]);
}

#[test]
fn token_registration_refusals() {
    let token = asset(3);
    let mut env = new_env();
    assert_eq!(
        StakingContract::add_token(&mut env, admin(), token, 1),
        Err(StakeError::NotInitialized)
    );
    StakingContract::initialize(&mut env, admin()).unwrap();
    assert_eq!(
        StakingContract::add_token(&mut env, account(9), token, 1),
        Err(StakeError::Unauthorized)
    );
    assert_eq!(
        StakingContract::add_token(&mut env, admin(), token, 0),
        Err(StakeError::InvalidAmount)
    );
    assert_eq!(
        StakingContract::add_token(&mut env, admin(), token, 20_001),
        Err(StakeError::InvalidAmount)
    );
    env.effects.clear();
    assert_eq!(StakingContract::add_token(&mut env, admin(), token, 20_000), Ok(()));
    assert_eq!(
        env.effects,
        vec![Effect::RequireAuth(admin()), Effect::Write(StakeKey::TokenConfig(token))]
    );
    assert_eq!(env.storage.token_configs.get(&token), Some(&20_000));
}

#[test]
fn movements_of_stake_must_be_positive() {
    let (mut env, token_a, _) = setup();
    assert_eq!(
        StakingContract::deposit(&mut env, staker(), asset(7), 0),
        Err(StakeError::InvalidAmount)
    );
    assert_eq!(
        StakingContract::withdraw(&mut env, staker(), token_a, -1),
        Err(StakeError::InvalidAmount)
    );
    assert_eq!(
        StakingContract::withdraw(&mut env, staker(), asset(7), 1),
        Err(StakeError::UnsupportedToken)
    );
    assert_eq!(
        StakingContract::fund_rebate_pool(&mut env, staker(), token_a, 0),
        Err(StakeError::InvalidAmount)
    );
    assert_eq!(
        env.effects,
        vec![
            Effect::RequireAuth(staker()),
            Effect::RequireAuth(staker()),
            Effect::RequireAuth(staker()),
            Effect::RequireAuth(staker()),
        ]
    );
}

#[test]
fn books_match_transfers() {
    let (mut env, token_a, _) = setup();
    StakingContract::deposit(&mut env, staker(), token_a, 70).unwrap();
    assert_eq!(
        env.effects,
        vec![
            Effect::RequireAuth(staker()),
            Effect::Transfer(Transfer {
                token: token_a,
                from: staker(),
                to: contract(),
                amount: 70,
            }),
            Effect::Write(StakeKey::Stake(staker(), token_a)),
            Effect::Publish(StakeEvent::Deposited {
                staker: staker(),
                token: token_a,
                amount: 70,
            }),
        ]
    );
    env.effects.clear();
    StakingContract::withdraw(&mut env, staker(), token_a, 70).unwrap();
    assert_eq!(
        env.effects,
        vec![
            Effect::RequireAuth(staker()),
            Effect::Write(StakeKey::Stake(staker(), token_a)),
            Effect::Transfer(Transfer {
                token: token_a,
                from: contract(),
                to: staker(),
                amount: 70,
            }),
            Effect::Publish(StakeEvent::Withdrawn {
                staker: staker(),
                token: token_a,
                amount: 70,
            }),
        ]
    );
    assert_eq!(StakingContract::stake_of(&env, staker(), token_a), 0);
}

#[test]
fn stakes_are_kept_apart() {
    let (mut env, token_a, token_b) = setup();
    StakingContract::deposit(&mut env, staker(), token_a, 5).unwrap();
    StakingContract::deposit(&mut env, account(3), token_a, 6).unwrap();
    StakingContract::deposit(&mut env, staker(), token_b, 7).unwrap();
    StakingContract::deposit(&mut env, staker(), token_a, 10).unwrap();
    StakingContract::withdraw(&mut env, staker(), token_a, 1).unwrap();
    assert_eq!(StakingContract::stake_of(&env, staker(), token_a), 14);
    assert_eq!(StakingContract::stake_of(&env, account(3), token_a), 6);
    assert_eq!(StakingContract::stake_of(&env, staker(), token_b), 7);
}

#[test]
fn voting_power_rounds_each_token_down() {
    let (mut env, token_a, token_b) = setup();
    StakingContract::deposit(&mut env, staker(), token_a, 3).unwrap();
    StakingContract::deposit(&mut env, staker(), token_b, 3).unwrap();
    // 3 * 8_000 / 10_000 = 2
    assert_eq!(StakingContract::voting_power(&env, staker(), vec![token_b]), 2);
    assert_eq!(StakingContract::voting_power(&env, staker(), vec![token_b, token_a]), 5);
    // Unsupported tokens add nothing, and neither does an empty list.
    assert_eq!(StakingContract::voting_power(&env, staker(), vec![asset(7)]), 0);
    assert_eq!(StakingContract::voting_power(&env, staker(), vec![]), 0);
    // A token that is named twice counts twice.
    assert_eq!(StakingContract::voting_power(&env, staker(), vec![token_a, token_a]), 6);
}

#[test]
fn voting_power_saturates() {
    let (mut env, token_a, _) = setup();
    StakingContract::deposit(&mut env, staker(), token_a, i128::MAX).unwrap();
    // The power is exact although stake times weight cannot be represented.
    assert_eq!(StakingContract::voting_power(&env, staker(), vec![token_a]), i128::MAX);
    assert_eq!(StakingContract::voting_power(&env, staker(), vec![token_a, token_a]), i128::MAX);
    StakingContract::add_token(&mut env, admin(), token_a, 8_000).unwrap();
    assert_eq!(
        StakingContract::voting_power(&env, staker(), vec![token_a]),
        i128::MAX / 5 * 4 + i128::MAX % 5 * 4 / 5
    );
    // Only a power that cannot be represented itself stops at the largest amount.
    StakingContract::add_token(&mut env, admin(), token_a, 20_000).unwrap();
    assert_eq!(StakingContract::voting_power(&env, staker(), vec![token_a]), i128::MAX);
}

#[test]
fn gas_recording() {
    let (mut env, _, _) = setup();
    assert_eq!(
        StakingContract::record_gas(&mut env, account(9), staker(), 1),
        Err(StakeError::Unauthorized)
    );
    env.effects.clear();
    StakingContract::record_gas(&mut env, admin(), staker(), 30).unwrap();
    StakingContract::record_gas(&mut env, admin(), staker(), 12).unwrap();
    assert_eq!(StakingContract::gas_used(&env, staker()), 42);
    assert_eq!(StakingContract::gas_used(&env, account(3)), 0);
    assert_eq!(
        env.effects[2],
        Effect::Publish(StakeEvent::GasRecorded { staker: staker(), gas_units: 30 })
    );
    assert_eq!(
        StakingContract::record_gas(&mut new_env(), admin(), staker(), 1),
        Err(StakeError::NotInitialized)
    );
}

#[test]
fn rebate_refusals() {
    let (mut env, _, _) = setup();
    let xlm = asset(9);
    assert_eq!(
        StakingContract::distribute_rebate(&mut env, staker(), xlm),
        Err(StakeError::NoGasToRebate)
    );
    StakingContract::record_gas(&mut env, admin(), staker(), 10).unwrap();
    StakingContract::fund_rebate_pool(&mut env, admin(), xlm, 999).unwrap();
    assert_eq!(
        StakingContract::distribute_rebate(&mut env, staker(), xlm),
        Err(StakeError::InsufficientRebatePool)
    );
    StakingContract::fund_rebate_pool(&mut env, admin(), xlm, 1).unwrap();
    assert_eq!(StakingContract::distribute_rebate(&mut env, staker(), xlm), Ok(1_000));
    assert_eq!(StakingContract::rebate_pool(&env), 0);
}

#[test]
fn rebate_effects_in_order() {
    let (mut env, _, _) = setup();
    let xlm = asset(9);
    StakingContract::fund_rebate_pool(&mut env, account(5), xlm, 400).unwrap();
    assert_eq!(
        env.effects,
        vec![
            Effect::RequireAuth(account(5)),
            Effect::Transfer(Transfer {
                token: xlm,
                from: account(5),
                to: contract(),
                amount: 400,
            }),
            Effect::Write(StakeKey::RebatePool),
        ]
    );
    StakingContract::record_gas(&mut env, admin(), staker(), 3).unwrap();
    env.effects.clear();
    StakingContract::distribute_rebate(&mut env, staker(), xlm).unwrap();
    assert_eq!(
        env.effects,
        vec![
            Effect::RequireAuth(staker()),
            Effect::Write(StakeKey::RebatePool),
            Effect::Write(StakeKey::GasUsed(staker())),
            Effect::Write(StakeKey::LastRebate(staker())),
            Effect::Transfer(Transfer {
                token: xlm,
                from: contract(),
                to: staker(),
                amount: 300,
            }),
            Effect::Publish(StakeEvent::RebateDistributed { staker: staker(), rebate: 300 }),
        ]
    );
}

#[test]
fn rebates_keep_their_distance() {
    let (mut env, _, _) = setup();
    let xlm = asset(9);
    StakingContract::fund_rebate_pool(&mut env, admin(), xlm, 1_000_000).unwrap();
    StakingContract::record_gas(&mut env, admin(), staker(), 1).unwrap();
    env.ledger.timestamp = 50;
    StakingContract::distribute_rebate(&mut env, staker(), xlm).unwrap();
    StakingContract::record_gas(&mut env, admin(), staker(), 2).unwrap();
    StakingContract::record_gas(&mut env, admin(), account(3), 5).unwrap();
    env.ledger.timestamp = 50 + REBATE_INTERVAL_SECS - 1;
    assert_eq!(
        StakingContract::distribute_rebate(&mut env, staker(), xlm),
        Err(StakeError::RebateTooSoon)
    );
    // Another staker is not concerned.
    assert_eq!(StakingContract::distribute_rebate(&mut env, account(3), xlm), Ok(500));
    env.ledger.timestamp = 50 + REBATE_INTERVAL_SECS;
    assert_eq!(StakingContract::distribute_rebate(&mut env, staker(), xlm), Ok(200));
}
