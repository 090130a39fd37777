//! Subscription-based escrow agreements.
//!
//! A client authorizes recurring withdrawals from an escrow ahead of time, chooses the tier that
//! governs the payment amounts, and either party can put an interval that was already paid under
//! dispute.

use crate::host::Address;
use crate::host::Effect;
use crate::host::Env;
use crate::table::Table;
use vstd::prelude::*;

verus! {

/// Largest number of intervals that can be authorized (10 years of monthly payments).
pub const MAX_AUTHORIZED_INTERVALS: u32 = 120;

/// Least duration of an interval, in seconds (1 day).
pub const MIN_INTERVAL_SECONDS: u64 = 86_400;

/// A 30-day interval, in seconds.
pub const MONTHLY_INTERVAL_SECONDS: u64 = 2_592_000;

/// Why an escrow call was refused.
#[derive(Clone, Copy, Debug, PartialEq, Eq, Structural)]
pub enum EscrowError {
    /// There is no such escrow.
    EscrowNotFound,
    /// The escrow is not active.
    EscrowNotActive,
    /// The escrow has no recurring schedule, or no subscription.
    RecurringNotFound,
    /// The number of intervals, or the interval, is out of range, or a dispute is open.
    InvalidRecurring,
    /// The caller may not do this.
    Unauthorized,
    /// Another refusal of the escrow contract, by its number.
    Other(u32),
}

/// Names of the stored entries.
#[derive(Clone, Copy, Debug, PartialEq, Eq, Structural)]
pub enum DataKey {
    /// The recurring schedule of an escrow.
    RecurringConfig(u64),
    /// The subscription of an escrow.
    SubscriptionConfig(u64),
}

/// Whether an escrow is active.
#[derive(Clone, Copy, Debug, PartialEq, Eq, Structural)]
pub enum EscrowStatus {
    Active,
    /// Any other status.
    Inactive,
}

/// What subscriptions need to know of an escrow.
#[derive(Clone, Copy, Debug, PartialEq, Eq, Structural)]
pub struct EscrowMeta {
    pub client: Address,
    pub freelancer: Address,
    pub status: EscrowStatus,
}

/// What the escrow contract answers about one escrow.
#[derive(Clone, Copy, Debug, PartialEq, Eq)]
pub struct EscrowAccess {
    /// Whether the contract is running, or the error with which it refuses while it is paused.
    pub not_paused: Result<(), EscrowError>,
    /// The parties and the status of the escrow.
    pub meta: Result<EscrowMeta, EscrowError>,
    /// Whether the escrow has a recurring schedule.
    pub recurring: Result<(), EscrowError>,
    /// Whether the escrow exists and has not lapsed.
    pub live: Result<(), EscrowError>,
}

/// Subscription tier: how payment amounts may change.
#[derive(Clone, Copy, Debug, PartialEq, Eq, Structural)]
pub enum SubscriptionTier {
    /// Fixed amount per interval.
    Fixed,
    /// The client may change the amount before each interval.
    Flexible,
    /// The amount follows a price feed.
    Dynamic,
}

impl SubscriptionTier {
    /// The number published for this tier.
    pub open spec fn spec_code(self) -> u32 {
        match self {
            SubscriptionTier::Fixed => 0,
            SubscriptionTier::Flexible => 1,
            SubscriptionTier::Dynamic => 2,
        }
    }

    /// The number published for this tier.
    pub fn code(self) -> (code: u32)
        ensures
            code == self.spec_code(),
    {
        match self {
            SubscriptionTier::Fixed => 0,
            SubscriptionTier::Flexible => 1,
            SubscriptionTier::Dynamic => 2,
        }
    }
}

/// The subscription of one escrow.
#[derive(Clone, Copy, Debug, PartialEq, Eq)]
pub struct SubscriptionConfig {
    /// Tier of the subscription.
    pub tier: SubscriptionTier,
    /// Number of intervals that the client has authorized.
    pub authorized_intervals: u32,
    /// Number of intervals already processed.
    pub consumed_intervals: u32,
    /// Whether the client has authorized recurring withdrawals.
    pub buyer_authorized: bool,
    /// Timestamp of the last authorization.
    pub authorized_at: u64,
    /// Largest payment per interval, in stroops; `0` means no cap.
    pub max_payment_cap: i128,
    /// The interval under dispute, if there is one.
    pub disputed_interval: Option<u32>,
}

/// Events of subscriptions.
#[derive(Clone, Copy, Debug, PartialEq, Eq, Structural)]
pub enum SubscriptionEvent {
    /// `sub_auth`: intervals were authorized.
    Authorized { escrow_id: u64, caller: Address, intervals: u32, authorized_intervals: u32 },
    /// `sub_tier`: the tier was changed.
    TierUpdated { escrow_id: u64, caller: Address, tier: u32, max_cap: i128 },
    /// `sub_disp`: an interval was put under dispute.
    IntervalDisputed { escrow_id: u64, caller: Address, interval_index: u32 },
}

/// The stored subscriptions, by escrow id.
pub struct SubscriptionStorage {
    pub configs: Table<u64, SubscriptionConfig>,
}

/// The environment of a subscription call.
pub type SubscriptionEnv = Env<SubscriptionStorage, DataKey, SubscriptionEvent>;

impl View for SubscriptionStorage {
    type V = Map<u64, SubscriptionConfig>;

    open spec fn view(&self) -> Map<u64, SubscriptionConfig> {
        self.configs@
    }
}

impl SubscriptionStorage {
    /// Storage without subscriptions.
    pub fn new() -> (storage: Self)
        ensures
            storage@ == Map::<u64, SubscriptionConfig>::empty(),
    {
        SubscriptionStorage { configs: Table::new() }
    }
}

/// The subscription of an escrow for which nothing was authorized yet.
pub open spec fn unauthorized_config() -> SubscriptionConfig {
    SubscriptionConfig {
        tier: SubscriptionTier::Fixed,
        authorized_intervals: 0,
        consumed_intervals: 0,
        buyer_authorized: false,
        authorized_at: 0,
        max_payment_cap: 0,
        disputed_interval: None,
    }
}

/// The smaller of a number of intervals and the largest that can be authorized.
pub open spec fn capped_intervals(intervals: int) -> u32 {
    if intervals < MAX_AUTHORIZED_INTERVALS {
        intervals as u32
    } else {
        MAX_AUTHORIZED_INTERVALS
    }
}

impl SubscriptionConfig {
    /// At most the largest number of intervals is authorized, the cap is not negative, and only
    /// an interval that was processed is under dispute.
    pub open spec fn wf(self) -> bool {
        &&& self.authorized_intervals <= MAX_AUTHORIZED_INTERVALS
        &&& self.max_payment_cap >= 0
        &&& self.disputed_interval is Some ==> self.disputed_interval->0 < self.consumed_intervals
    }

    /// The subscription after `intervals` more were authorized at time `now`. A positive cap
    /// replaces the old one.
    pub open spec fn authorized(
        self,
        intervals: u32,
        max_payment_cap: i128,
        now: u64,
    ) -> SubscriptionConfig {
        SubscriptionConfig {
            buyer_authorized: true,
            authorized_intervals: capped_intervals(self.authorized_intervals + intervals),
            authorized_at: now,
            max_payment_cap: if max_payment_cap > 0 {
                max_payment_cap
            } else {
                self.max_payment_cap
            },
            ..self
        }
    }

    /// The subscription with another tier. A cap that is not negative replaces the old one.
    pub open spec fn with_tier(self, tier: SubscriptionTier, max_cap: i128) -> SubscriptionConfig {
        SubscriptionConfig {
            tier,
            max_payment_cap: if max_cap >= 0 {
                max_cap
            } else {
                self.max_payment_cap
            },
            ..self
        }
    }

    /// The subscription with an interval under dispute.
    pub open spec fn disputed(self, interval_index: u32) -> SubscriptionConfig {
        SubscriptionConfig { disputed_interval: Some(interval_index), ..self }
    }
}

/// All stored subscriptions are well formed.
pub open spec fn all_wf(configs: Map<u64, SubscriptionConfig>) -> bool {
    forall|id: u64| #[trigger] configs.contains_key(id) ==> configs[id].wf()
}

/// What `load_subscription_config` answers.
pub open spec fn loaded(configs: Map<u64, SubscriptionConfig>, escrow_id: u64) -> Result<
    SubscriptionConfig,
    EscrowError,
> {
    if configs.contains_key(escrow_id) {
        Ok(configs[escrow_id])
    } else {
        Err(EscrowError::RecurringNotFound)
    }
}

impl EscrowAccess {
    /// Why a call is refused because the contract is paused, the escrow cannot be loaded, the
    /// caller is not one of the parties who may make it, or the escrow is not active.
    pub open spec fn party_error(self, caller: Address, freelancer_too: bool) -> Option<
        EscrowError,
    > {
        match self.not_paused {
            Err(error) => Some(error),
            Ok(_) => match self.meta {
                Err(error) => Some(error),
                Ok(meta) => if caller != meta.client && !(freelancer_too && caller
                    == meta.freelancer) {
                    Some(EscrowError::Unauthorized)
                } else if meta.status != EscrowStatus::Active {
                    Some(EscrowError::EscrowNotActive)
                } else {
                    None
                },
            },
        }
    }

    /// Why `authorize_subscription` refuses, if it does.
    pub open spec fn authorize_error(self, caller: Address, intervals: u32) -> Option<EscrowError> {
        if self.party_error(caller, false) is Some {
            self.party_error(caller, false)
        } else if intervals == 0 || intervals > MAX_AUTHORIZED_INTERVALS {
            Some(EscrowError::InvalidRecurring)
        } else {
            match self.recurring {
                Err(error) => Some(error),
                Ok(_) => None,
            }
        }
    }

    /// Why `update_subscription_tier` refuses, if it does.
    pub open spec fn tier_error(
        self,
        configs: Map<u64, SubscriptionConfig>,
        caller: Address,
        escrow_id: u64,
    ) -> Option<EscrowError> {
        if self.party_error(caller, false) is Some {
            self.party_error(caller, false)
        } else if !configs.contains_key(escrow_id) {
            Some(EscrowError::RecurringNotFound)
        } else {
            None
        }
    }

    /// Why `dispute_subscription_interval` refuses, if it does.
    pub open spec fn dispute_error(
        self,
        configs: Map<u64, SubscriptionConfig>,
        caller: Address,
        escrow_id: u64,
        interval_index: u32,
    ) -> Option<EscrowError> {
        if self.party_error(caller, true) is Some {
            self.party_error(caller, true)
        } else if !configs.contains_key(escrow_id) {
            Some(EscrowError::RecurringNotFound)
        } else if configs[escrow_id].disputed_interval is Some {
            Some(EscrowError::InvalidRecurring)
        } else if interval_index >= configs[escrow_id].consumed_intervals {
            Some(EscrowError::InvalidRecurring)
        } else {
            None
        }
    }
}

/// The subscription that an authorization starts from.
pub open spec fn current_config(
    configs: Map<u64, SubscriptionConfig>,
    escrow_id: u64,
) -> SubscriptionConfig {
    if configs.contains_key(escrow_id) {
        configs[escrow_id]
    } else {
        unauthorized_config()
    }
}

/// The effects of storing a subscription.
pub open spec fn save_effects(escrow_id: u64) -> Seq<Effect<DataKey, SubscriptionEvent>> {
    seq![
        Effect::Write(DataKey::SubscriptionConfig(escrow_id)),
        Effect::ExtendTtl(DataKey::SubscriptionConfig(escrow_id)),
    ]
}

/// The key of a subscription.
pub fn subscription_key(escrow_id: u64) -> (key: DataKey)
    ensures
        key == DataKey::SubscriptionConfig(escrow_id),
{
    DataKey::SubscriptionConfig(escrow_id)
}

/// Stores the subscription of an escrow and extends its lifetime.
pub fn save_subscription_config(env: &mut SubscriptionEnv, escrow_id: u64, cfg: &SubscriptionConfig)
    ensures
        final(env).same_place(*old(env)),
        final(env).storage@ == old(env).storage@.insert(escrow_id, *cfg),
        final(env).effects@ == old(env).effects@ + save_effects(escrow_id),
{
    env.storage.configs.set(escrow_id, *cfg);
    env.emit(Effect::Write(subscription_key(escrow_id)));
    env.emit(Effect::ExtendTtl(subscription_key(escrow_id)));
}

/// Loads the subscription of an escrow; `RecurringNotFound` if there is none.
pub fn load_subscription_config(env: &SubscriptionEnv, escrow_id: u64) -> (res: Result<
    SubscriptionConfig,
    EscrowError,
>)
    ensures
        res == loaded(env.storage@, escrow_id),
{
    match env.storage.configs.get(&escrow_id) {
        Some(cfg) => Ok(*cfg),
        None => Err(EscrowError::RecurringNotFound),
    }
}

/// Checks that the contract runs, that the escrow can be loaded and is active, and that the
/// caller is its client or, where that is enough, its freelancer.
fn require_party(escrow: &EscrowAccess, caller: &Address, freelancer_too: bool) -> (res: Result<
    (),
    EscrowError,
>)
    ensures
        res == (match escrow.party_error(*caller, freelancer_too) {
            Some(error) => Err::<(), EscrowError>(error),
            None => Ok(()),
        }),
{
    match escrow.not_paused {
        Err(error) => {
            return Err(error);
        },
        Ok(_) => {},
    }
    match escrow.meta {
        Err(error) => Err(error),
        Ok(meta) => {
            if *caller != meta.client && !(freelancer_too && *caller == meta.freelancer) {
                return Err(EscrowError::Unauthorized);
            }
            if meta.status != EscrowStatus::Active {
                return Err(EscrowError::EscrowNotActive);
            }
            Ok(())
        },
    }
}

/// Authorizes `intervals` recurring withdrawals. Calling it again extends the authorization, up
/// to the largest number of intervals.
///
/// Errors: those of the escrow, `Unauthorized` where the caller is not the client,
/// `EscrowNotActive`, `InvalidRecurring` where `intervals` is zero or too large, and
/// `RecurringNotFound` where the escrow has no recurring schedule.
pub fn authorize_subscription(
    env: &mut SubscriptionEnv,
    escrow: &EscrowAccess,
    caller: Address,
    escrow_id: u64,
    intervals: u32,
    max_payment_cap: i128,
) -> (res: Result<(), EscrowError>)
    ensures
        final(env).same_place(*old(env)),
        all_wf(old(env).storage@) ==> all_wf(final(env).storage@),
        match escrow.authorize_error(caller, intervals) {
            Some(error) => {
                &&& res == Err::<(), EscrowError>(error)
                &&& final(env).storage@ == old(env).storage@
                &&& final(env).effects@ == old(env).effects@.push(Effect::RequireAuth(caller))
            },
            None => {
                let cfg = current_config(old(env).storage@, escrow_id).authorized(
                    intervals,
                    max_payment_cap,
                    old(env).ledger.timestamp,
                );
                &&& res == Ok::<(), EscrowError>(())
                &&& final(env).storage@ == old(env).storage@.insert(escrow_id, cfg)
                &&& final(env).effects@ == old(env).effects@ + (seq![
                    Effect::RequireAuth(caller),
                ] + save_effects(escrow_id)).push(
                    Effect::Publish(
                        SubscriptionEvent::Authorized {
                            escrow_id,
                            caller,
                            intervals,
                            authorized_intervals: cfg.authorized_intervals,
                        },
                    ),
                )
            },
        },
{
    env.emit(Effect::RequireAuth(caller));
    match require_party(escrow, &caller, false) {
        Err(error) => {
            return Err(error);
        },
        Ok(_) => {},
    }
    if intervals == 0 || intervals > MAX_AUTHORIZED_INTERVALS {
        return Err(EscrowError::InvalidRecurring);
    }
    match escrow.recurring {
        Err(error) => {
            return Err(error);
        },
        Ok(_) => {},
    }
    let now: u64 = env.ledger.timestamp;
    let mut cfg = match load_subscription_config(env, escrow_id) {
        Ok(cfg) => cfg,
        Err(_) => SubscriptionConfig {
            tier: SubscriptionTier::Fixed,
            authorized_intervals: 0,
            consumed_intervals: 0,
            buyer_authorized: false,
            authorized_at: 0,
            max_payment_cap: 0,
            disputed_interval: None,
        },
    };
    cfg.buyer_authorized = true;
    let extended: u32 = cfg.authorized_intervals.saturating_add(intervals);
    cfg.authorized_intervals =
    if extended < MAX_AUTHORIZED_INTERVALS {
        extended
    } else {
        MAX_AUTHORIZED_INTERVALS
    };
    cfg.authorized_at = now;
    if max_payment_cap > 0 {
        cfg.max_payment_cap = max_payment_cap;
    }
    save_subscription_config(env, escrow_id, &cfg);
    env.emit(
        Effect::Publish(
            SubscriptionEvent::Authorized {
                escrow_id,
                caller,
                intervals,
                authorized_intervals: cfg.authorized_intervals,
            },
        ),
    );
    Ok(())
}

/// Changes the tier and, unless `new_max_cap` is negative, the payment cap of a subscription.
///
/// Errors: those of the escrow, `Unauthorized` where the caller is not the client,
/// `EscrowNotActive`, and `RecurringNotFound` where there is no subscription.
pub fn update_subscription_tier(
    env: &mut SubscriptionEnv,
    escrow: &EscrowAccess,
    caller: Address,
    escrow_id: u64,
    new_tier: SubscriptionTier,
    new_max_cap: i128,
) -> (res: Result<(), EscrowError>)
    ensures
        final(env).same_place(*old(env)),
        all_wf(old(env).storage@) ==> all_wf(final(env).storage@),
        match escrow.tier_error(old(env).storage@, caller, escrow_id) {
            Some(error) => {
                &&& res == Err::<(), EscrowError>(error)
                &&& final(env).storage@ == old(env).storage@
                &&& final(env).effects@ == old(env).effects@.push(Effect::RequireAuth(caller))
            },
            None => {
                &&& res == Ok::<(), EscrowError>(())
                &&& final(env).storage@ == old(env).storage@.insert(
                    escrow_id,
                    old(env).storage@[escrow_id].with_tier(new_tier, new_max_cap),
                )
                &&& final(env).effects@ == old(env).effects@ + (seq![
                    Effect::RequireAuth(caller),
                ] + save_effects(escrow_id)).push(
                    Effect::Publish(
                        SubscriptionEvent::TierUpdated {
                            escrow_id,
                            caller,
                            tier: new_tier.spec_code(),
                            max_cap: new_max_cap,
                        },
                    ),
                )
            },
        },
{
    env.emit(Effect::RequireAuth(caller));
    match require_party(escrow, &caller, false) {
        Err(error) => {
            return Err(error);
        },
        Ok(_) => {},
    }
    let mut cfg = match load_subscription_config(env, escrow_id) {
        Ok(cfg) => cfg,
        Err(error) => {
            return Err(error);
        },
    };
    cfg.tier = new_tier;
    if new_max_cap >= 0 {
        cfg.max_payment_cap = new_max_cap;
    }
    save_subscription_config(env, escrow_id, &cfg);
    env.emit(
        Effect::Publish(
            SubscriptionEvent::TierUpdated {
                escrow_id,
                caller,
                tier: new_tier.code(),
                max_cap: new_max_cap,
            },
        ),
    );
    Ok(())
}

/// Puts a processed interval under dispute. The client and the freelancer can both do so.
///
/// Errors: those of the escrow, `Unauthorized` where the caller is neither, `EscrowNotActive`,
/// `RecurringNotFound` where there is no subscription, and `InvalidRecurring` where the interval
/// was not processed yet or a dispute is open.
pub fn dispute_subscription_interval(
    env: &mut SubscriptionEnv,
    escrow: &EscrowAccess,
    caller: Address,
    escrow_id: u64,
    interval_index: u32,
) -> (res: Result<(), EscrowError>)
    ensures
        final(env).same_place(*old(env)),
        all_wf(old(env).storage@) ==> all_wf(final(env).storage@),
        match escrow.dispute_error(old(env).storage@, caller, escrow_id, interval_index) {
            Some(error) => {
                &&& res == Err::<(), EscrowError>(error)
                &&& final(env).storage@ == old(env).storage@
                &&& final(env).effects@ == old(env).effects@.push(Effect::RequireAuth(caller))
            },
            None => {
                &&& res == Ok::<(), EscrowError>(())
                &&& final(env).storage@ == old(env).storage@.insert(
                    escrow_id,
                    old(env).storage@[escrow_id].disputed(interval_index),
                )
                &&& final(env).effects@ == old(env).effects@ + (seq![
                    Effect::RequireAuth(caller),
                ] + save_effects(escrow_id)).push(
                    Effect::Publish(
                        SubscriptionEvent::IntervalDisputed { escrow_id, caller, interval_index },
                    ),
                )
            },
        },
{
    env.emit(Effect::RequireAuth(caller));
    match require_party(escrow, &caller, true) {
        Err(error) => {
            return Err(error);
        },
        Ok(_) => {},
    }
    let mut cfg = match load_subscription_config(env, escrow_id) {
        Ok(cfg) => cfg,
        Err(error) => {
            return Err(error);
        },
    };
    if cfg.disputed_interval.is_some() {
        return Err(EscrowError::InvalidRecurring);
    }
    if interval_index >= cfg.consumed_intervals {
        return Err(EscrowError::InvalidRecurring);
    }
    cfg.disputed_interval = Some(interval_index);
    save_subscription_config(env, escrow_id, &cfg);
    env.emit(
        Effect::Publish(
            SubscriptionEvent::IntervalDisputed { escrow_id, caller, interval_index },
        ),
    );
    Ok(())
}

/// The subscription of a live escrow.
pub fn get_subscription_config(
    env: &SubscriptionEnv,
    escrow: &EscrowAccess,
    escrow_id: u64,
) -> (res: Result<SubscriptionConfig, EscrowError>)
    ensures
        res == (match escrow.live {
            Err(error) => Err::<SubscriptionConfig, EscrowError>(error),
            Ok(_) => loaded(env.storage@, escrow_id),
        }),
{
    match escrow.live {
        Err(error) => Err(error),
        Ok(_) => load_subscription_config(env, escrow_id),
    }
}

// Laws

/// A subscription that was stored is what is loaded, and every other subscription is loaded as
/// before.
pub proof fn law_load_returns_what_was_saved(
    configs: Map<u64, SubscriptionConfig>,
    escrow_id: u64,
    cfg: SubscriptionConfig,
    other: u64,
)
    ensures
        loaded(configs.insert(escrow_id, cfg), escrow_id) == Ok::<SubscriptionConfig, EscrowError>(
            cfg,
        ),
        other != escrow_id ==> loaded(configs.insert(escrow_id, cfg), other) == loaded(
            configs,
            other,
        ),
{
}

/// Authorizing, changing the tier and raising a dispute keep a subscription well formed.
pub proof fn law_subscriptions_stay_well_formed(
    cfg: SubscriptionConfig,
    intervals: u32,
    cap: i128,
    now: u64,
    tier: SubscriptionTier,
    interval_index: u32,
)
    requires
        cfg.wf(),
    ensures
        unauthorized_config().wf(),
        cfg.authorized(intervals, cap, now).wf(),
        cfg.with_tier(tier, cap).wf(),
        interval_index < cfg.consumed_intervals ==> cfg.disputed(interval_index).wf(),
{
}

/// Authorizing again extends the authorization by the given number of intervals, up to the
/// largest number, and never shortens it.
pub proof fn law_authorizing_extends(
    cfg: SubscriptionConfig,
    intervals: u32,
    cap: i128,
    now: u64,
)
    requires
        cfg.wf(),
    ensures
        cfg.authorized_intervals <= cfg.authorized(intervals, cap, now).authorized_intervals
            <= MAX_AUTHORIZED_INTERVALS,
        cfg.authorized_intervals + intervals <= MAX_AUTHORIZED_INTERVALS ==> cfg.authorized(
            intervals,
            cap,
            now,
        ).authorized_intervals == cfg.authorized_intervals + intervals,
        cfg.authorized(intervals, cap, now).buyer_authorized,
{
}

/// Authorizing twice authorizes as many intervals as authorizing the sum once.
pub proof fn law_authorizations_add_up(
    cfg: SubscriptionConfig,
    first: u32,
    second: u32,
    first_cap: i128,
    second_cap: i128,
    first_at: u64,
    second_at: u64,
)
    requires
        first + second <= u32::MAX,
    ensures
        cfg.authorized(first, first_cap, first_at).authorized(
            second,
            second_cap,
            second_at,
        ).authorized_intervals == cfg.authorized(
            (first + second) as u32,
            second_cap,
            second_at,
        ).authorized_intervals,
{
}

/// An open dispute bars every further one, whoever raises it and on whichever interval, and
/// neither an authorization nor a change of tier removes it.
pub proof fn law_dispute_stays_open(
    escrow: EscrowAccess,
    configs: Map<u64, SubscriptionConfig>,
    escrow_id: u64,
    disputed: u32,
    caller: Address,
    interval_index: u32,
    intervals: u32,
    cap: i128,
    now: u64,
    tier: SubscriptionTier,
)
    requires
        configs.contains_key(escrow_id),
        configs[escrow_id].disputed_interval == Some(disputed),
    ensures
        escrow.dispute_error(configs, caller, escrow_id, interval_index) is Some,
        escrow.party_error(caller, true) is None ==> escrow.dispute_error(
            configs,
            caller,
            escrow_id,
            interval_index,
        ) == Some(EscrowError::InvalidRecurring),
        configs[escrow_id].authorized(intervals, cap, now).disputed_interval == Some(disputed),
        configs[escrow_id].with_tier(tier, cap).disputed_interval == Some(disputed),
{
}

/// Only the client authorizes a subscription or changes its tier, and only a party to the escrow
/// raises a dispute.
pub proof fn law_only_parties_act(
    escrow: EscrowAccess,
    meta: EscrowMeta,
    configs: Map<u64, SubscriptionConfig>,
    caller: Address,
    escrow_id: u64,
    intervals: u32,
    interval_index: u32,
)
    requires
        escrow.meta == Ok::<EscrowMeta, EscrowError>(meta),
    ensures
        caller != meta.client ==> escrow.authorize_error(caller, intervals) is Some,
        caller != meta.client ==> escrow.tier_error(configs, caller, escrow_id) is Some,
        caller != meta.client && caller != meta.freelancer ==> escrow.dispute_error(
            configs,
            caller,
            escrow_id,
            interval_index,
        ) is Some,
{
}

/// Nothing is authorized, changed or disputed while the contract is paused or the escrow is not
/// active.
pub proof fn law_inactive_escrow_is_closed(
    escrow: EscrowAccess,
    configs: Map<u64, SubscriptionConfig>,
    caller: Address,
    escrow_id: u64,
    intervals: u32,
    interval_index: u32,
)
    requires
        escrow.not_paused is Err || escrow.meta is Err || escrow.meta->Ok_0.status
            != EscrowStatus::Active,
    ensures
        escrow.authorize_error(caller, intervals) is Some,
        escrow.tier_error(configs, caller, escrow_id) is Some,
        escrow.dispute_error(configs, caller, escrow_id, interval_index) is Some,
{
}

/// A party may act exactly while the contract runs, the escrow can be loaded and is active: the
/// client always, the freelancer where that is enough, nobody else. Errors of the escrow contract
/// are handed on.
pub proof fn law_party_conditions(escrow: EscrowAccess, caller: Address, freelancer_too: bool)
    ensures
        ({
            let error = escrow.party_error(caller, freelancer_too);
            &&& escrow.not_paused matches Err(refusal) ==> error == Some(refusal)
            &&& escrow.not_paused is Ok && escrow.meta is Err ==> error == Some(
                escrow.meta->Err_0,
            )
            &&& escrow.not_paused is Ok && escrow.meta is Ok ==> {
                let meta = escrow.meta->Ok_0;
                let party = caller == meta.client || (freelancer_too && caller
                    == meta.freelancer);
                &&& error is None <==> party && meta.status is Active
                &&& error == Some(EscrowError::Unauthorized) <==> !party
                &&& error == Some(EscrowError::EscrowNotActive) <==> party
                    && meta.status !is Active
            }
        }),
{
}

/// The client of an active escrow with a recurring schedule can authorize every number of intervals
/// from one to one hundred and twenty, and no other number.
pub proof fn law_authorization_conditions(
    escrow: EscrowAccess,
    meta: EscrowMeta,
    caller: Address,
    intervals: u32,
)
    requires
        escrow.not_paused is Ok,
        escrow.meta == Ok::<EscrowMeta, EscrowError>(meta),
    ensures
        ({
            let entitled = caller == meta.client && meta.status is Active;
            let in_range = 1 <= intervals <= 120;
            let error = escrow.authorize_error(caller, intervals);
            &&& error is None <==> entitled && in_range && escrow.recurring is Ok
            &&& caller != meta.client ==> error == Some(EscrowError::Unauthorized)
            &&& caller == meta.client && meta.status !is Active ==> error == Some(
                EscrowError::EscrowNotActive,
            )
            &&& entitled && !in_range ==> error == Some(EscrowError::InvalidRecurring)
            &&& entitled && in_range ==> (escrow.recurring matches Err(refusal) ==> error == Some(
                refusal,
            ))
        }),
{
}

/// An authorization marks the subscription as authorized at the time it came, adds its intervals
/// up to one hundred and twenty, takes over a positive cap, and changes nothing else.
pub proof fn law_authorization_is_stored(
    cfg: SubscriptionConfig,
    intervals: u32,
    cap: i128,
    now: u64,
)
    ensures
        ({
            let after = cfg.authorized(intervals, cap, now);
            let sum = cfg.authorized_intervals + intervals;
            &&& after.buyer_authorized
            &&& sum <= 120 ==> after.authorized_intervals == sum
            &&& sum > 120 ==> after.authorized_intervals == 120
            &&& after.authorized_at == now
            &&& cap > 0 ==> after.max_payment_cap == cap
            &&& cap <= 0 ==> after.max_payment_cap == cfg.max_payment_cap
            &&& after.tier == cfg.tier
            &&& after.consumed_intervals == cfg.consumed_intervals
            &&& after.disputed_interval == cfg.disputed_interval
        }),
{
}

/// The first authorization starts from a subscription of the fixed tier with nothing authorized,
/// processed, capped or disputed; a later one from what is stored.
pub proof fn law_authorization_starts_from_what_is_stored(
    configs: Map<u64, SubscriptionConfig>,
    escrow_id: u64,
)
    ensures
        configs.contains_key(escrow_id) ==> current_config(configs, escrow_id)
            == configs[escrow_id],
        !configs.contains_key(escrow_id) ==> {
            let fresh = current_config(configs, escrow_id);
            &&& fresh.tier is Fixed
            &&& fresh.authorized_intervals == 0
            &&& fresh.consumed_intervals == 0
            &&& !fresh.buyer_authorized
            &&& fresh.authorized_at == 0
            &&& fresh.max_payment_cap == 0
            &&& fresh.disputed_interval is None
        },
        configs.contains_key(escrow_id) ==> loaded(configs, escrow_id) == Ok::<
            SubscriptionConfig,
            EscrowError,
        >(configs[escrow_id]),
        !configs.contains_key(escrow_id) ==> loaded(configs, escrow_id) == Err::<
            SubscriptionConfig,
            EscrowError,
        >(EscrowError::RecurringNotFound),
{
}

/// The client of an active escrow can change the tier of its subscription to every tier, wherever
/// there is a subscription.
pub proof fn law_tier_update_conditions(
    escrow: EscrowAccess,
    meta: EscrowMeta,
    configs: Map<u64, SubscriptionConfig>,
    caller: Address,
    escrow_id: u64,
)
    requires
        escrow.not_paused is Ok,
        escrow.meta == Ok::<EscrowMeta, EscrowError>(meta),
    ensures
        ({
            let entitled = caller == meta.client && meta.status is Active;
            let error = escrow.tier_error(configs, caller, escrow_id);
            &&& error is None <==> entitled && configs.contains_key(escrow_id)
            &&& caller != meta.client ==> error == Some(EscrowError::Unauthorized)
            &&& caller == meta.client && meta.status !is Active ==> error == Some(
                EscrowError::EscrowNotActive,
            )
            &&& entitled && !configs.contains_key(escrow_id) ==> error == Some(
                EscrowError::RecurringNotFound,
            )
        }),
{
}

/// After a tier update the subscription that is loaded has exactly the tier that was asked for, and
/// the cap that was asked for unless that is negative. All its other fields, and every other
/// subscription, are as before.
pub proof fn law_tier_update_is_stored(
    configs: Map<u64, SubscriptionConfig>,
    escrow_id: u64,
    tier: SubscriptionTier,
    cap: i128,
    other: u64,
)
    requires
        configs.contains_key(escrow_id),
    ensures
        ({
            let before = configs[escrow_id];
            let stored = configs.insert(escrow_id, before.with_tier(tier, cap));
            let after = before.with_tier(tier, cap);
            &&& loaded(stored, escrow_id) == Ok::<SubscriptionConfig, EscrowError>(after)
            &&& after.tier == tier
            &&& cap >= 0 ==> after.max_payment_cap == cap
            &&& cap < 0 ==> after.max_payment_cap == before.max_payment_cap
            &&& after.authorized_intervals == before.authorized_intervals
            &&& after.consumed_intervals == before.consumed_intervals
            &&& after.buyer_authorized == before.buyer_authorized
            &&& after.authorized_at == before.authorized_at
            &&& after.disputed_interval == before.disputed_interval
            &&& other != escrow_id ==> loaded(stored, other) == loaded(configs, other)
        }),
{
}

/// Of two tier updates the later one counts, and tiers that differ stay different once stored.
pub proof fn law_later_tier_counts(
    cfg: SubscriptionConfig,
    first: SubscriptionTier,
    first_cap: i128,
    second: SubscriptionTier,
    second_cap: i128,
)
    ensures
        cfg.with_tier(first, first_cap).with_tier(second, second_cap).tier == second,
        second_cap >= 0 ==> cfg.with_tier(first, first_cap).with_tier(second, second_cap)
            == cfg.with_tier(second, second_cap),
        first != second ==> cfg.with_tier(first, first_cap).tier != cfg.with_tier(
            second,
            second_cap,
        ).tier,
{
}

/// Both parties of an active escrow can dispute every processed interval of its subscription while
/// no dispute is open, and nobody can dispute anything else.
pub proof fn law_dispute_conditions(
    escrow: EscrowAccess,
    meta: EscrowMeta,
    configs: Map<u64, SubscriptionConfig>,
    caller: Address,
    escrow_id: u64,
    interval_index: u32,
)
    requires
        escrow.not_paused is Ok,
        escrow.meta == Ok::<EscrowMeta, EscrowError>(meta),
    ensures
        ({
            let party = caller == meta.client || caller == meta.freelancer;
            let entitled = party && meta.status is Active;
            let known = configs.contains_key(escrow_id);
            let disputable = configs[escrow_id].disputed_interval is None && interval_index
                < configs[escrow_id].consumed_intervals;
            let error = escrow.dispute_error(configs, caller, escrow_id, interval_index);
            &&& error is None <==> entitled && known && disputable
            &&& !party ==> error == Some(EscrowError::Unauthorized)
            &&& party && meta.status !is Active ==> error == Some(EscrowError::EscrowNotActive)
            &&& entitled && !known ==> error == Some(EscrowError::RecurringNotFound)
            &&& entitled && known && !disputable ==> error == Some(EscrowError::InvalidRecurring)
        }),
{
}

/// A dispute names exactly the interval that was disputed and changes nothing else of the
/// subscription.
pub proof fn law_dispute_is_stored(cfg: SubscriptionConfig, interval_index: u32)
    ensures
        cfg.disputed(interval_index).disputed_interval == Some(interval_index),
        (SubscriptionConfig {
            disputed_interval: cfg.disputed_interval,
            ..cfg.disputed(interval_index)
        }) == cfg,
{
}

/// While the contract is paused or the escrow cannot be loaded, every call is refused with the
/// error of the escrow contract.
pub proof fn law_escrow_errors_are_handed_on(
    escrow: EscrowAccess,
    refusal: EscrowError,
    configs: Map<u64, SubscriptionConfig>,
    caller: Address,
    escrow_id: u64,
    intervals: u32,
    interval_index: u32,
)
    requires
        escrow.not_paused == Err::<(), EscrowError>(refusal) || (escrow.not_paused is Ok
            && escrow.meta == Err::<EscrowMeta, EscrowError>(refusal)),
    ensures
        escrow.authorize_error(caller, intervals) == Some(refusal),
        escrow.tier_error(configs, caller, escrow_id) == Some(refusal),
        escrow.dispute_error(configs, caller, escrow_id, interval_index) == Some(refusal),
{
}

/// Storing a subscription writes it and keeps it alive.
pub proof fn law_subscription_is_kept_alive(escrow_id: u64)
    ensures
        save_effects(escrow_id).len() == 2,
        save_effects(escrow_id)[0] == Effect::<DataKey, SubscriptionEvent>::Write(
            DataKey::SubscriptionConfig(escrow_id),
        ),
        save_effects(escrow_id)[1] == Effect::<DataKey, SubscriptionEvent>::ExtendTtl(
            DataKey::SubscriptionConfig(escrow_id),
        ),
{
}

/// The tiers are published under different numbers: zero, one and two.
pub proof fn law_tiers_are_told_apart(a: SubscriptionTier, b: SubscriptionTier)
    ensures
        a.spec_code() == b.spec_code() <==> a == b,
        a.spec_code() == 0 <==> a is Fixed,
        a.spec_code() == 1 <==> a is Flexible,
        a.spec_code() == 2 <==> a is Dynamic,
{
}

} // verus!
