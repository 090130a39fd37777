use stellar_trust::host::{Address, AddressKind, Effect, Env, Ledger};
use stellar_trust::penalties::{
    clear_penalties, get_penalty_record, get_reward_bps, record_penalty, record_resolution,
    DataKey, GovError, PenaltyEnv, PenaltyEvent, PenaltyReason, PenaltyRecord, PenaltyStorage,
    BASE_REWARD_BPS, MAX_PENALTY_POINTS, PENALTY_REDUCTION_BPS,
};

fn account(n: u128) -> Address {
    Address { kind: AddressKind::Account, hi: 0, lo: n }
}

fn admin() -> Address {
    account(1)
}

fn arbitrator() -> Address {
    account(2)
}

fn setup() -> PenaltyEnv {
    let mut storage = PenaltyStorage::new(Some(admin()));
    storage.arbitrators.set(arbitrator(), true);
    let contract = Address { kind: AddressKind::Contract, hi: 0, lo: 1 };
    Env::new(Ledger { sequence: 1, timestamp: 700 }, contract, storage)
}

fn penalize(env: &mut PenaltyEnv, times: u32) -> PenaltyRecord {
    let mut record = get_penalty_record(env, &arbitrator());
    for _ in 0..times {
        record =
            record_penalty(env, &admin(), &arbitrator(), PenaltyReason::MissedDeadline).unwrap();
    }
    record
}

#[test]
fn reward_bps_no_penalties() {
    assert_eq!(BASE_REWARD_BPS, 10_000);
    let reduction = 0u32.saturating_mul(PENALTY_REDUCTION_BPS);
    assert_eq!(BASE_REWARD_BPS.saturating_sub(reduction), 10_000);
    assert_eq!(get_reward_bps(&mut setup(), &arbitrator()), 10_000);
}

#[test]
fn reward_bps_one_penalty() {
    let reduction = 1u32.saturating_mul(PENALTY_REDUCTION_BPS);
    assert_eq!(BASE_REWARD_BPS.saturating_sub(reduction), 9_985);
    let mut env = setup();
    penalize(&mut env, 1);
    assert_eq!(get_reward_bps(&mut env, &arbitrator()), 9_985);
}

#[test]
fn reward_bps_saturates_at_zero() {
    let reduction = MAX_PENALTY_POINTS.saturating_mul(PENALTY_REDUCTION_BPS);
    // 100 * 15 = 1500, and 10_000 - 1500 = 8_500
    assert_eq!(BASE_REWARD_BPS.saturating_sub(reduction), 8_500);
    let mut env = setup();
    penalize(&mut env, MAX_PENALTY_POINTS);
    assert_eq!(get_reward_bps(&mut env, &arbitrator()), 8_500);
}

#[test]
fn penalty_points_cap_at_max() {
    let mut env = setup();
    let mut points = penalize(&mut env, MAX_PENALTY_POINTS - 1).penalty_points;
    assert_eq!(points, MAX_PENALTY_POINTS - 1);
    points = penalize(&mut env, 1).penalty_points;
    assert_eq!(points, MAX_PENALTY_POINTS);
    // More penalties do not exceed the cap.
    points = penalize(&mut env, 5).penalty_points;
    assert_eq!(points, MAX_PENALTY_POINTS);
}

#[test]
fn suspension_triggers_at_max_points() {
    let mut env = setup();
    assert!(!penalize(&mut env, MAX_PENALTY_POINTS - 1).suspended);
    let suspended = penalize(&mut env, 1).suspended;
    assert!(suspended);
}

#[test]
fn penalty_reason_variants_distinct() {
    assert_ne!(
        PenaltyReason::MissedDeadline as u32,
        PenaltyReason::OverturnedByAppeal as u32
    );
    assert_eq!(PenaltyReason::MissedDeadline.code(), 0);
    assert_eq!(PenaltyReason::OverturnedByAppeal.code(), 1);
}

#[test]
fn default_record_not_suspended() {
    let record = PenaltyRecord {
        penalty_points: 0,
        resolved_on_time: 0,
        overturned_decisions: 0,
        missed_deadlines: 0,
        last_penalty_at: 0,
        suspended: false,
    };
    assert!(!record.suspended);
    assert_eq!(record.penalty_points, 0);
    assert_eq!(get_penalty_record(&setup(), &arbitrator()), record);
}

#[test]
fn penalties_are_counted_by_reason() {
    let mut env = setup();
    penalize(&mut env, 2);
    env.ledger.timestamp = 900;
    let record =
        record_penalty(&mut env, &admin(), &arbitrator(), PenaltyReason::OverturnedByAppeal)
            .unwrap();
    assert_eq!(
        record,
        PenaltyRecord {
            penalty_points: 3,
            resolved_on_time: 0,
            overturned_decisions: 1,
            missed_deadlines: 2,
            last_penalty_at: 900,
            suspended: false,
        }
    );
    assert_eq!(get_penalty_record(&env, &arbitrator()), record);
}

#[test]
fn penalty_effects() {
    let mut env = setup();
    record_penalty(&mut env, &admin(), &arbitrator(), PenaltyReason::OverturnedByAppeal).unwrap();
    assert_eq!(
        env.effects,
        vec![
            Effect::Write(DataKey::ArbitratorPenalty(arbitrator())),
            Effect::ExtendTtl(DataKey::ArbitratorPenalty(arbitrator())),
            Effect::Publish(PenaltyEvent::PenaltyRecorded {
                arbitrator: arbitrator(),
                penalty_points: 1,
                reason: 1,
                suspended: false,
            }),
        ]
    );
}

#[test]
fn reward_query_is_published() {
    let mut env = setup();
    penalize(&mut env, 4);
    env.effects.clear();
    assert_eq!(get_reward_bps(&mut env, &arbitrator()), 9_940);
    assert_eq!(
        env.effects,
        vec![Effect::Publish(PenaltyEvent::RewardQueried {
            arbitrator: arbitrator(),
            reward_bps: 9_940,
        })]
    );
}

#[test]
fn reward_of_an_extreme_record_is_zero() {
    let mut env = setup();
    let mut record = get_penalty_record(&env, &arbitrator());
    record.penalty_points = 667;
    env.storage.penalties.set(arbitrator(), record);
    assert_eq!(get_reward_bps(&mut env, &arbitrator()), 0);
    record.penalty_points = u32::MAX;
    env.storage.penalties.set(arbitrator(), record);
    assert_eq!(get_reward_bps(&mut env, &arbitrator()), 0);
}

#[test]
fn penalty_refusals() {
    let reason = PenaltyReason::MissedDeadline;
    let mut env = setup();
    assert_eq!(
        record_penalty(&mut env, &account(9), &arbitrator(), reason),
        Err(GovError::Unauthorized)
    );
    assert_eq!(
        record_penalty(&mut env, &admin(), &account(9), reason),
        Err(GovError::NotArbitrator)
    );
    env.storage.arbitrators.set(arbitrator(), false);
    assert_eq!(
        record_penalty(&mut env, &admin(), &arbitrator(), reason),
        Err(GovError::NotArbitrator)
    );
    env.storage.admin = None;
    assert_eq!(
        record_penalty(&mut env, &admin(), &arbitrator(), reason),
        Err(GovError::NotInitialized)
    );
    assert_eq!(record_resolution(&mut env, &admin(), &arbitrator()), Err(GovError::NotInitialized));
    assert_eq!(clear_penalties(&mut env, &admin(), &arbitrator()), Err(GovError::NotInitialized));
    assert_eq!(env.effects, vec![]);
}

#[test]
fn resolution_is_no_penalty() {
    let mut env = setup();
    penalize(&mut env, 1);
    env.effects.clear();
    assert_eq!(
        record_resolution(&mut env, &account(9), &arbitrator()),
        Err(GovError::Unauthorized)
    );
    record_resolution(&mut env, &admin(), &arbitrator()).unwrap();
    let record = get_penalty_record(&env, &arbitrator());
    assert_eq!(record.resolved_on_time, 1);
    assert_eq!(record.penalty_points, 1);
    assert_eq!(
        env.effects,
        vec![
            Effect::Write(DataKey::ArbitratorPenalty(arbitrator())),
            Effect::ExtendTtl(DataKey::ArbitratorPenalty(arbitrator())),
        ]
    );
}

#[test]
fn clearing_restores_the_reward_and_keeps_the_history() {
    let mut env = setup();
    penalize(&mut env, MAX_PENALTY_POINTS);
    assert_eq!(clear_penalties(&mut env, &account(9), &arbitrator()), Err(GovError::Unauthorized));
    clear_penalties(&mut env, &admin(), &arbitrator()).unwrap();
    assert_eq!(get_reward_bps(&mut env, &arbitrator()), 10_000);
    assert_eq!(
        get_penalty_record(&env, &arbitrator()),
        PenaltyRecord {
            penalty_points: 0,
            resolved_on_time: 0,
            overturned_decisions: 0,
            missed_deadlines: 100,
            last_penalty_at: 700,
            suspended: false,
        }
    );
}

#[test]
fn records_of_arbitrators_are_independent() {
    let mut env = setup();
    env.storage.arbitrators.set(account(3), true);
    penalize(&mut env, 3);
    record_penalty(&mut env, &admin(), &account(3), PenaltyReason::OverturnedByAppeal).unwrap();
    assert_eq!(get_penalty_record(&env, &arbitrator()).penalty_points, 3);
    assert_eq!(get_penalty_record(&env, &account(3)).penalty_points, 1);
}
