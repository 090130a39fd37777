use stellar_trust::host::{Address, AddressKind, Effect, Env, Ledger};
use stellar_trust::subscription::{
    authorize_subscription, dispute_subscription_interval, get_subscription_config,
    load_subscription_config, save_subscription_config, subscription_key,
    update_subscription_tier, DataKey, EscrowAccess, EscrowError, EscrowMeta, EscrowStatus,
    SubscriptionConfig, SubscriptionEnv, SubscriptionEvent, SubscriptionStorage,
    SubscriptionTier, MAX_AUTHORIZED_INTERVALS, MIN_INTERVAL_SECONDS, MONTHLY_INTERVAL_SECONDS,
};

const ID: u64 = 8;

fn account(n: u128) -> Address {
    Address { kind: AddressKind::Account, hi: 0, lo: n }
}

fn client() -> Address {
    account(1)
}

fn freelancer() -> Address {
    account(2)
}

fn make_env() -> SubscriptionEnv {
    let contract = Address { kind: AddressKind::Contract, hi: 0, lo: 1 };
    Env::new(Ledger { sequence: 3, timestamp: 5_000 }, contract, SubscriptionStorage::new())
}

fn active_escrow() -> EscrowAccess {
    EscrowAccess {
        not_paused: Ok(()),
        meta: Ok(EscrowMeta {
            client: client(),
            freelancer: freelancer(),
            status: EscrowStatus::Active,
        }),
        recurring: Ok(()),
        live: Ok(()),
    }
}

fn running_config() -> SubscriptionConfig {
    SubscriptionConfig {
        tier: SubscriptionTier::Flexible,
        authorized_intervals: 6,
        consumed_intervals: 3,
        buyer_authorized: true,
        authorized_at: 1000,
        max_payment_cap: 40,
        disputed_interval: None,
    }
}

#[test]
fn subscription_config_defaults() {
    let cfg = SubscriptionConfig {
        tier: SubscriptionTier::Fixed,
        authorized_intervals: 0,
        consumed_intervals: 0,
        buyer_authorized: false,
        authorized_at: 0,
        max_payment_cap: 0,
        disputed_interval: None,
    };
    assert!(!cfg.buyer_authorized);
    assert_eq!(cfg.authorized_intervals, 0);
    assert!(cfg.disputed_interval.is_none());
}

#[test]
fn subscription_tier_variants() {
    assert_ne!(SubscriptionTier::Fixed, SubscriptionTier::Flexible);
    assert_ne!(SubscriptionTier::Flexible, SubscriptionTier::Dynamic);
    assert_eq!(SubscriptionTier::Fixed.code(), 0);
    assert_eq!(SubscriptionTier::Flexible.code(), 1);
    assert_eq!(SubscriptionTier::Dynamic.code(), 2);
}

#[test]
fn max_authorized_intervals_constant() {
    assert_eq!(MAX_AUTHORIZED_INTERVALS, 120);
}

#[test]
fn monthly_interval_seconds_constant() {
    assert_eq!(MONTHLY_INTERVAL_SECONDS, 30 * 24 * 3600);
    assert_eq!(MIN_INTERVAL_SECONDS, 24 * 3600);
}

#[test]
fn saturating_add_does_not_overflow() {
    let current: u32 = MAX_AUTHORIZED_INTERVALS - 1;
    let result = current.saturating_add(10).min(MAX_AUTHORIZED_INTERVALS);
    assert_eq!(result, MAX_AUTHORIZED_INTERVALS);

    let mut env = make_env();
    let escrow = active_escrow();
    authorize_subscription(&mut env, &escrow, client(), ID, current, 0).unwrap();
    authorize_subscription(&mut env, &escrow, client(), ID, 10, 0).unwrap();
    let cfg = load_subscription_config(&env, ID).unwrap();
    assert_eq!(cfg.authorized_intervals, MAX_AUTHORIZED_INTERVALS);
}

#[test]
fn disputed_interval_tracks_correctly() {
    let mut cfg = SubscriptionConfig {
        tier: SubscriptionTier::Flexible,
        authorized_intervals: 6,
        consumed_intervals: 3,
        buyer_authorized: true,
        authorized_at: 1000,
        max_payment_cap: 0,
        disputed_interval: None,
    };
    assert!(cfg.disputed_interval.is_none());

    let mut env = make_env();
    save_subscription_config(&mut env, ID, &cfg);
    dispute_subscription_interval(&mut env, &active_escrow(), client(), ID, 2).unwrap();
    assert_eq!(load_subscription_config(&env, ID).unwrap().disputed_interval, Some(2));

    cfg.disputed_interval = Some(2);
    assert_eq!(cfg.disputed_interval, Some(2));
    assert_eq!(load_subscription_config(&env, ID), Ok(cfg));
}

#[test]
fn load_gives_back_what_was_saved() {
    let mut env = make_env();
    assert_eq!(load_subscription_config(&env, ID), Err(EscrowError::RecurringNotFound));
    save_subscription_config(&mut env, ID, &running_config());
    assert_eq!(load_subscription_config(&env, ID), Ok(running_config()));
    assert_eq!(load_subscription_config(&env, ID + 1), Err(EscrowError::RecurringNotFound));
    assert_eq!(subscription_key(ID), DataKey::SubscriptionConfig(ID));
    assert_eq!(
        env.effects,
        vec![
            Effect::Write(DataKey::SubscriptionConfig(ID)),
            Effect::ExtendTtl(DataKey::SubscriptionConfig(ID)),
        ]
    );
}

#[test]
fn first_authorization() {
    let mut env = make_env();
    authorize_subscription(&mut env, &active_escrow(), client(), ID, 12, 900).unwrap();
    assert_eq!(
        get_subscription_config(&env, &active_escrow(), ID),
        Ok(SubscriptionConfig {
            tier: SubscriptionTier::Fixed,
            authorized_intervals: 12,
            consumed_intervals: 0,
            buyer_authorized: true,
            authorized_at: 5_000,
            max_payment_cap: 900,
            disputed_interval: None,
        })
    );
    assert_eq!(
        env.effects,
        vec![
            Effect::RequireAuth(client()),
            Effect::Write(DataKey::SubscriptionConfig(ID)),
            Effect::ExtendTtl(DataKey::SubscriptionConfig(ID)),
            Effect::Publish(SubscriptionEvent::Authorized {
                escrow_id: ID,
                caller: client(),
                intervals: 12,
                authorized_intervals: 12,
            }),
        ]
    );
}

#[test]
fn authorizations_add_up_and_keep_the_rest() {
    let mut env = make_env();
    save_subscription_config(&mut env, ID, &running_config());
    let escrow = active_escrow();
    authorize_subscription(&mut env, &escrow, client(), ID, 4, 0).unwrap();
    authorize_subscription(&mut env, &escrow, client(), ID, 5, -7).unwrap();
    let expected =
        SubscriptionConfig { authorized_intervals: 15, authorized_at: 5_000, ..running_config() };
    assert_eq!(load_subscription_config(&env, ID), Ok(expected));
}

#[test]
fn authorization_refusals_in_order() {
    let escrow = active_escrow();
    let cases = vec![
        (
            EscrowAccess { not_paused: Err(EscrowError::Other(17)), ..escrow },
            account(9),
            0,
            EscrowError::Other(17),
        ),
        (
            EscrowAccess { meta: Err(EscrowError::EscrowNotFound), ..escrow },
            account(9),
            0,
            EscrowError::EscrowNotFound,
        ),
        (
            EscrowAccess { recurring: Err(EscrowError::RecurringNotFound), ..escrow },
            freelancer(),
            0,
            EscrowError::Unauthorized,
        ),
        (inactive_escrow(), client(), 0, EscrowError::EscrowNotActive),
        (
            EscrowAccess { recurring: Err(EscrowError::RecurringNotFound), ..escrow },
            client(),
            0,
            EscrowError::InvalidRecurring,
        ),
        (escrow, client(), MAX_AUTHORIZED_INTERVALS + 1, EscrowError::InvalidRecurring),
        (
            EscrowAccess { recurring: Err(EscrowError::RecurringNotFound), ..escrow },
            client(),
            1,
            EscrowError::RecurringNotFound,
        ),
    ];
    for (access, caller, intervals, error) in cases {
        let mut env = make_env();
        assert_eq!(
            authorize_subscription(&mut env, &access, caller, ID, intervals, 1),
            Err(error)
        );
        assert_eq!(env.effects, vec![Effect::RequireAuth(caller)]);
        assert_eq!(load_subscription_config(&env, ID), Err(EscrowError::RecurringNotFound));
    }
}

fn inactive_escrow() -> EscrowAccess {
    EscrowAccess {
        meta: Ok(EscrowMeta {
            client: client(),
            freelancer: freelancer(),
            status: EscrowStatus::Inactive,
        }),
        ..active_escrow()
    }
}

#[test]
fn tier_update_changes_tier_and_cap() {
    let mut env = make_env();
    let escrow = active_escrow();
    save_subscription_config(&mut env, ID, &running_config());
    env.effects.clear();
    update_subscription_tier(&mut env, &escrow, client(), ID, SubscriptionTier::Dynamic, 0)
        .unwrap();
    assert_eq!(
        load_subscription_config(&env, ID),
        Ok(SubscriptionConfig {
            tier: SubscriptionTier::Dynamic,
            max_payment_cap: 0,
            ..running_config()
        })
    );
    assert_eq!(
        env.effects,
        vec![
            Effect::RequireAuth(client()),
            Effect::Write(DataKey::SubscriptionConfig(ID)),
            Effect::ExtendTtl(DataKey::SubscriptionConfig(ID)),
            Effect::Publish(SubscriptionEvent::TierUpdated {
                escrow_id: ID,
                caller: client(),
                tier: 2,
                max_cap: 0,
            }),
        ]
    );
}

#[test]
fn negative_cap_is_ignored_by_tier_update() {
    let mut env = make_env();
    let escrow = active_escrow();
    save_subscription_config(&mut env, ID, &running_config());
    update_subscription_tier(&mut env, &escrow, client(), ID, SubscriptionTier::Fixed, -1)
        .unwrap();
    assert_eq!(load_subscription_config(&env, ID).unwrap().max_payment_cap, 40);
}

#[test]
fn tier_update_refusals() {
    let tier = SubscriptionTier::Dynamic;
    let mut env = make_env();
    assert_eq!(
        update_subscription_tier(&mut env, &active_escrow(), client(), ID, tier, 1),
        Err(EscrowError::RecurringNotFound)
    );
    save_subscription_config(&mut env, ID, &running_config());
    assert_eq!(
        update_subscription_tier(&mut env, &active_escrow(), freelancer(), ID, tier, 1),
        Err(EscrowError::Unauthorized)
    );
    assert_eq!(
        update_subscription_tier(&mut env, &inactive_escrow(), client(), ID, tier, 1),
        Err(EscrowError::EscrowNotActive)
    );
    assert_eq!(load_subscription_config(&env, ID), Ok(running_config()));
}

#[test]
fn dispute_by_either_party() {
    for caller in vec![client(), freelancer()] {
        let mut env = make_env();
        save_subscription_config(&mut env, ID, &running_config());
        env.effects.clear();
        dispute_subscription_interval(&mut env, &active_escrow(), caller, ID, 0).unwrap();
        assert_eq!(
            env.effects,
            vec![
                Effect::RequireAuth(caller),
                Effect::Write(DataKey::SubscriptionConfig(ID)),
                Effect::ExtendTtl(DataKey::SubscriptionConfig(ID)),
                Effect::Publish(SubscriptionEvent::IntervalDisputed {
                    escrow_id: ID,
                    caller,
                    interval_index: 0,
                }),
            ]
        );
    }
}

#[test]
fn dispute_refusals() {
    let escrow = active_escrow();
    let mut env = make_env();
    assert_eq!(
        dispute_subscription_interval(&mut env, &escrow, client(), ID, 0),
        Err(EscrowError::RecurringNotFound)
    );
    save_subscription_config(&mut env, ID, &running_config());
    assert_eq!(
        dispute_subscription_interval(&mut env, &escrow, account(9), ID, 0),
        Err(EscrowError::Unauthorized)
    );
    assert_eq!(
        dispute_subscription_interval(&mut env, &inactive_escrow(), client(), ID, 0),
        Err(EscrowError::EscrowNotActive)
    );
    // Interval 3 was not processed yet.
    assert_eq!(
        dispute_subscription_interval(&mut env, &escrow, client(), ID, 3),
        Err(EscrowError::InvalidRecurring)
    );
    dispute_subscription_interval(&mut env, &escrow, freelancer(), ID, 2).unwrap();
    assert_eq!(
        dispute_subscription_interval(&mut env, &escrow, client(), ID, 1),
        Err(EscrowError::InvalidRecurring)
    );
}

#[test]
fn dispute_survives_authorization_and_tier_update() {
    let escrow = active_escrow();
    let mut env = make_env();
    save_subscription_config(&mut env, ID, &running_config());
    dispute_subscription_interval(&mut env, &escrow, client(), ID, 1).unwrap();
    authorize_subscription(&mut env, &escrow, client(), ID, 2, 3).unwrap();
    update_subscription_tier(&mut env, &escrow, client(), ID, SubscriptionTier::Fixed, 3)
        .unwrap();
    assert_eq!(load_subscription_config(&env, ID).unwrap().disputed_interval, Some(1));
}

#[test]
fn lapsed_escrow_shows_no_subscription() {
    let mut env = make_env();
    save_subscription_config(&mut env, ID, &running_config());
    let lapsed = EscrowAccess { live: Err(EscrowError::EscrowNotFound), ..active_escrow() };
    assert_eq!(get_subscription_config(&env, &lapsed, ID), Err(EscrowError::EscrowNotFound));
    assert_eq!(get_subscription_config(&env, &active_escrow(), ID), Ok(running_config()));
}
