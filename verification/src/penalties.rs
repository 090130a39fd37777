//! Arbitrator penalty ledger.
//!
//! Arbitrators collect penalty points for missed deadlines and for decisions overturned on
//! appeal. Each point takes 15 basis points off the arbitrator's reward share; an arbitrator who
//! reaches the maximum is suspended.

use crate::host::Address;
use crate::host::Effect;
use crate::host::Env;
use crate::table::Table;
use vstd::prelude::*;

verus! {

/// Reward reduction per penalty point, in basis points.
pub const PENALTY_REDUCTION_BPS: u32 = 15;

/// Penalty points at which an arbitrator is suspended. Points do not rise beyond it.
pub const MAX_PENALTY_POINTS: u32 = 100;

/// Reward share of an arbitrator without penalties, in basis points.
pub const BASE_REWARD_BPS: u32 = 10_000;

/// Why a penalty ledger call was refused.
#[derive(Clone, Copy, Debug, PartialEq, Eq, Structural)]
pub enum GovError {
    /// The contract has no admin yet.
    NotInitialized,
    /// The caller is not the admin.
    Unauthorized,
    /// The penalized address is not a registered arbitrator.
    NotArbitrator,
}

/// Names of the stored entries.
#[derive(Clone, Copy, Debug, PartialEq, Eq, Structural)]
pub enum DataKey {
    /// The contract admin.
    Admin,
    /// Whether this address is a registered arbitrator.
    Arbitrator(Address),
    /// The penalty record of this arbitrator.
    ArbitratorPenalty(Address),
}

/// Penalty record of one arbitrator.
#[derive(Clone, Copy, Debug, PartialEq, Eq, Structural)]
pub struct PenaltyRecord {
    /// Cumulative penalty points.
    pub penalty_points: u32,
    /// Number of disputes resolved on time.
    pub resolved_on_time: u32,
    /// Number of decisions overturned by appeal.
    pub overturned_decisions: u32,
    /// Number of missed deadlines.
    pub missed_deadlines: u32,
    /// Timestamp of the last penalty.
    pub last_penalty_at: u64,
    /// Whether the arbitrator is suspended.
    pub suspended: bool,
}

/// Reason for which a penalty point was issued.
#[derive(Clone, Copy, Debug, PartialEq, Eq, Structural)]
pub enum PenaltyReason {
    /// The arbitrator did not vote within the dispute window.
    MissedDeadline,
    /// The arbitrator's decision was overturned by a governance appeal.
    OverturnedByAppeal,
}

impl PenaltyReason {
    /// The number published for this reason.
    pub open spec fn spec_code(self) -> u32 {
        match self {
            PenaltyReason::MissedDeadline => 0,
            PenaltyReason::OverturnedByAppeal => 1,
        }
    }

    /// The number published for this reason.
    pub fn code(self) -> (code: u32)
        ensures
            code == self.spec_code(),
    {
        match self {
            PenaltyReason::MissedDeadline => 0,
            PenaltyReason::OverturnedByAppeal => 1,
        }
    }
}

/// Events of the penalty ledger.
#[derive(Clone, Copy, Debug, PartialEq, Eq, Structural)]
pub enum PenaltyEvent {
    /// `arb_pen`: a penalty was recorded.
    PenaltyRecorded { arbitrator: Address, penalty_points: u32, reason: u32, suspended: bool },
    /// `arb_rwrd`: an adjusted reward share was queried.
    RewardQueried { arbitrator: Address, reward_bps: u32 },
}

/// The stored entries of the penalty ledger.
pub struct PenaltyStorage {
    pub admin: Option<Address>,
    pub arbitrators: Table<Address, bool>,
    pub penalties: Table<Address, PenaltyRecord>,
}

/// The environment of a penalty ledger call.
pub type PenaltyEnv = Env<PenaltyStorage, DataKey, PenaltyEvent>;

/// The stored entries of the penalty ledger as mathematical maps.
#[verifier::ext_equal]
pub struct PenaltyState {
    pub admin: Option<Address>,
    pub arbitrators: Map<Address, bool>,
    pub penalties: Map<Address, PenaltyRecord>,
}

impl View for PenaltyStorage {
    type V = PenaltyState;

    open spec fn view(&self) -> PenaltyState {
        PenaltyState {
            admin: self.admin,
            arbitrators: self.arbitrators@,
            penalties: self.penalties@,
        }
    }
}

impl PenaltyStorage {
    /// Storage of a ledger administered by `admin`, with no arbitrator registered.
    pub fn new(admin: Option<Address>) -> (storage: Self)
        ensures
            storage@ == (PenaltyState {
                admin,
                arbitrators: Map::empty(),
                penalties: Map::empty(),
            }),
    {
        PenaltyStorage { admin, arbitrators: Table::new(), penalties: Table::new() }
    }
}

/// The record of an arbitrator of whom nothing is recorded.
pub open spec fn clean_record() -> PenaltyRecord {
    PenaltyRecord {
        penalty_points: 0,
        resolved_on_time: 0,
        overturned_decisions: 0,
        missed_deadlines: 0,
        last_penalty_at: 0,
        suspended: false,
    }
}

/// Points after one more penalty.
pub open spec fn next_points(points: u32) -> u32 {
    if points < MAX_PENALTY_POINTS {
        (points + 1) as u32
    } else {
        MAX_PENALTY_POINTS
    }
}

/// The reward share, in basis points, that is left at this number of points.
pub open spec fn reward_at(points: u32) -> u32 {
    if points * PENALTY_REDUCTION_BPS < BASE_REWARD_BPS {
        (BASE_REWARD_BPS - points * PENALTY_REDUCTION_BPS) as u32
    } else {
        0
    }
}

impl PenaltyRecord {
    /// Points are within the cap, and the arbitrator is suspended exactly at the cap.
    pub open spec fn wf(self) -> bool {
        &&& self.penalty_points <= MAX_PENALTY_POINTS
        &&& self.suspended == (self.penalty_points >= MAX_PENALTY_POINTS)
    }

    /// The counter that a penalty for `reason` raises is not at its limit.
    pub open spec fn has_room(self, reason: PenaltyReason) -> bool {
        match reason {
            PenaltyReason::MissedDeadline => self.missed_deadlines < u32::MAX,
            PenaltyReason::OverturnedByAppeal => self.overturned_decisions < u32::MAX,
        }
    }

    /// The record after one more penalty for `reason` at time `now`.
    pub open spec fn penalized(self, reason: PenaltyReason, now: u64) -> PenaltyRecord {
        PenaltyRecord {
            penalty_points: next_points(self.penalty_points),
            resolved_on_time: self.resolved_on_time,
            overturned_decisions: if reason == PenaltyReason::OverturnedByAppeal {
                (self.overturned_decisions + 1) as u32
            } else {
                self.overturned_decisions
            },
            missed_deadlines: if reason == PenaltyReason::MissedDeadline {
                (self.missed_deadlines + 1) as u32
            } else {
                self.missed_deadlines
            },
            last_penalty_at: now,
            suspended: next_points(self.penalty_points) >= MAX_PENALTY_POINTS,
        }
    }

    /// The record after one more dispute resolved on time.
    pub open spec fn with_resolution(self) -> PenaltyRecord {
        PenaltyRecord { resolved_on_time: (self.resolved_on_time + 1) as u32, ..self }
    }

    /// The record with its points taken back and the suspension lifted.
    pub open spec fn cleared(self) -> PenaltyRecord {
        PenaltyRecord { penalty_points: 0, suspended: false, ..self }
    }
}

impl PenaltyState {
    /// Every record is well formed.
    pub open spec fn wf(self) -> bool {
        forall|a: Address| #[trigger] self.penalties.contains_key(a) ==> self.penalties[a].wf()
    }

    /// The record of `arbitrator`.
    pub open spec fn record(self, arbitrator: Address) -> PenaltyRecord {
        if self.penalties.contains_key(arbitrator) {
            self.penalties[arbitrator]
        } else {
            clean_record()
        }
    }

    /// `arbitrator` is registered.
    pub open spec fn is_arbitrator(self, arbitrator: Address) -> bool {
        self.arbitrators.contains_key(arbitrator) && self.arbitrators[arbitrator]
    }

    /// Why a call that only the admin may make is refused, if it is.
    pub open spec fn admin_error(self, caller: Address) -> Option<GovError> {
        if self.admin is None {
            Some(GovError::NotInitialized)
        } else if self.admin != Some(caller) {
            Some(GovError::Unauthorized)
        } else {
            None
        }
    }

    /// Why `record_penalty` refuses, if it does.
    pub open spec fn penalty_error(self, caller: Address, arbitrator: Address) -> Option<
        GovError,
    > {
        if self.admin_error(caller) is Some {
            self.admin_error(caller)
        } else if !self.is_arbitrator(arbitrator) {
            Some(GovError::NotArbitrator)
        } else {
            None
        }
    }

    /// The state in which `record` is the record of `arbitrator`.
    pub open spec fn with_record(self, arbitrator: Address, record: PenaltyRecord) -> PenaltyState {
        PenaltyState { penalties: self.penalties.insert(arbitrator, record), ..self }
    }
}

/// The effects of storing a record.
pub open spec fn save_effects(arbitrator: Address) -> Seq<Effect<DataKey, PenaltyEvent>> {
    seq![
        Effect::Write(DataKey::ArbitratorPenalty(arbitrator)),
        Effect::ExtendTtl(DataKey::ArbitratorPenalty(arbitrator)),
    ]
}

/// The key of an arbitrator's record.
fn penalty_key(arbitrator: &Address) -> (key: DataKey)
    ensures
        key == DataKey::ArbitratorPenalty(*arbitrator),
{
    DataKey::ArbitratorPenalty(*arbitrator)
}

/// The stored record of an arbitrator, or a clean one.
fn load_record(env: &PenaltyEnv, arbitrator: &Address) -> (record: PenaltyRecord)
    ensures
        record == env.storage@.record(*arbitrator),
{
    env.storage.penalties.get_or(
        arbitrator,
        PenaltyRecord {
            penalty_points: 0,
            resolved_on_time: 0,
            overturned_decisions: 0,
            missed_deadlines: 0,
            last_penalty_at: 0,
            suspended: false,
        },
    )
}

/// Stores the record of an arbitrator and extends its lifetime.
fn save_record(env: &mut PenaltyEnv, arbitrator: &Address, record: &PenaltyRecord)
    ensures
        final(env).same_place(*old(env)),
        final(env).storage@ == old(env).storage@.with_record(*arbitrator, *record),
        final(env).effects@ == old(env).effects@ + save_effects(*arbitrator),
{
    env.storage.penalties.set(*arbitrator, *record);
    env.emit(Effect::Write(penalty_key(arbitrator)));
    env.emit(Effect::ExtendTtl(penalty_key(arbitrator)));
}

/// Checks that the caller is the admin.
fn require_admin(env: &PenaltyEnv, caller: &Address) -> (res: Result<(), GovError>)
    ensures
        res == (match env.storage@.admin_error(*caller) {
            Some(error) => Err::<(), GovError>(error),
            None => Ok(()),
        }),
{
    match env.storage.admin {
        None => Err(GovError::NotInitialized),
        Some(admin) => if *caller != admin {
            Err(GovError::Unauthorized)
        } else {
            Ok(())
        },
    }
}

/// Records a penalty point against `arbitrator` for `reason` and returns the new record.
///
/// Errors: `Unauthorized` where the caller is not the admin, `NotArbitrator` where `arbitrator`
/// is not registered.
pub fn record_penalty(
    env: &mut PenaltyEnv,
    caller: &Address,
    arbitrator: &Address,
    reason: PenaltyReason,
) -> (res: Result<PenaltyRecord, GovError>)
    requires
        old(env).storage@.penalty_error(*caller, *arbitrator) is None ==> old(env).storage@.record(
            *arbitrator,
        ).has_room(reason),
    ensures
        final(env).same_place(*old(env)),
        old(env).storage@.wf() ==> final(env).storage@.wf(),
        match old(env).storage@.penalty_error(*caller, *arbitrator) {
            Some(error) => {
                &&& res == Err::<PenaltyRecord, GovError>(error)
                &&& final(env).storage@ == old(env).storage@
                &&& final(env).effects@ == old(env).effects@
            },
            None => {
                let record = old(env).storage@.record(*arbitrator).penalized(
                    reason,
                    old(env).ledger.timestamp,
                );
                &&& res == Ok::<PenaltyRecord, GovError>(record)
                &&& final(env).storage@ == old(env).storage@.with_record(*arbitrator, record)
                &&& final(env).effects@ == old(env).effects@ + save_effects(*arbitrator).push(
                    Effect::Publish(
                        PenaltyEvent::PenaltyRecorded {
                            arbitrator: *arbitrator,
                            penalty_points: record.penalty_points,
                            reason: reason.spec_code(),
                            suspended: record.suspended,
                        },
                    ),
                )
            },
        },
{
    match require_admin(env, caller) {
        Err(error) => {
            return Err(error);
        },
        Ok(_) => {},
    }
    let is_arbitrator: bool = env.storage.arbitrators.get_or(arbitrator, false);
    if !is_arbitrator {
        return Err(GovError::NotArbitrator);
    }
    let mut record = load_record(env, arbitrator);
    record.penalty_points =
    if record.penalty_points < MAX_PENALTY_POINTS {
        record.penalty_points + 1
    } else {
        MAX_PENALTY_POINTS
    };
    record.last_penalty_at = env.ledger.timestamp;
    match reason {
        PenaltyReason::MissedDeadline => {
            record.missed_deadlines = record.missed_deadlines + 1;
        },
        PenaltyReason::OverturnedByAppeal => {
            record.overturned_decisions = record.overturned_decisions + 1;
        },
    }
    record.suspended = record.penalty_points >= MAX_PENALTY_POINTS;
    save_record(env, arbitrator, &record);
    env.emit(
        Effect::Publish(
            PenaltyEvent::PenaltyRecorded {
                arbitrator: *arbitrator,
                penalty_points: record.penalty_points,
                reason: reason.code(),
                suspended: record.suspended,
            },
        ),
    );
    Ok(record)
}

/// Records a dispute that `arbitrator` resolved on time. Only the admin may do so.
pub fn record_resolution(env: &mut PenaltyEnv, caller: &Address, arbitrator: &Address) -> (res:
    Result<(), GovError>)
    requires
        old(env).storage@.admin_error(*caller) is None ==> old(env).storage@.record(
            *arbitrator,
        ).resolved_on_time < u32::MAX,
    ensures
        final(env).same_place(*old(env)),
        old(env).storage@.wf() ==> final(env).storage@.wf(),
        match old(env).storage@.admin_error(*caller) {
            Some(error) => {
                &&& res == Err::<(), GovError>(error)
                &&& final(env).storage@ == old(env).storage@
                &&& final(env).effects@ == old(env).effects@
            },
            None => {
                &&& res == Ok::<(), GovError>(())
                &&& final(env).storage@ == old(env).storage@.with_record(
                    *arbitrator,
                    old(env).storage@.record(*arbitrator).with_resolution(),
                )
                &&& final(env).effects@ == old(env).effects@ + save_effects(*arbitrator)
            },
        },
{
    match require_admin(env, caller) {
        Err(error) => {
            return Err(error);
        },
        Ok(_) => {},
    }
    let mut record = load_record(env, arbitrator);
    record.resolved_on_time = record.resolved_on_time + 1;
    save_record(env, arbitrator, &record);
    Ok(())
}

/// The reward share of `arbitrator` in basis points: the base share less the reduction for each
/// penalty point, and never below zero. The query is published.
pub fn get_reward_bps(env: &mut PenaltyEnv, arbitrator: &Address) -> (reward_bps: u32)
    ensures
        reward_bps == reward_at(old(env).storage@.record(*arbitrator).penalty_points),
        final(env).same_place(*old(env)),
        final(env).storage == old(env).storage,
        final(env).effects@ == old(env).effects@.push(
            Effect::Publish(PenaltyEvent::RewardQueried { arbitrator: *arbitrator, reward_bps }),
        ),
{
    let record = load_record(env, arbitrator);
    let reduction: u32 = match record.penalty_points.checked_mul(PENALTY_REDUCTION_BPS) {
        Some(product) => product,
        None => u32::MAX,
    };
    let reward_bps: u32 = BASE_REWARD_BPS.saturating_sub(reduction);
    env.emit(
        Effect::Publish(PenaltyEvent::RewardQueried { arbitrator: *arbitrator, reward_bps }),
    );
    reward_bps
}

/// The penalty record of `arbitrator`.
pub fn get_penalty_record(env: &PenaltyEnv, arbitrator: &Address) -> (record: PenaltyRecord)
    ensures
        record == env.storage@.record(*arbitrator),
{
    load_record(env, arbitrator)
}

/// Takes back all penalty points of `arbitrator` and lifts the suspension. Only the admin may do
/// so.
pub fn clear_penalties(env: &mut PenaltyEnv, caller: &Address, arbitrator: &Address) -> (res:
    Result<(), GovError>)
    ensures
        final(env).same_place(*old(env)),
        old(env).storage@.wf() ==> final(env).storage@.wf(),
        match old(env).storage@.admin_error(*caller) {
            Some(error) => {
                &&& res == Err::<(), GovError>(error)
                &&& final(env).storage@ == old(env).storage@
                &&& final(env).effects@ == old(env).effects@
            },
            None => {
                &&& res == Ok::<(), GovError>(())
                &&& final(env).storage@ == old(env).storage@.with_record(
                    *arbitrator,
                    old(env).storage@.record(*arbitrator).cleared(),
                )
                &&& final(env).effects@ == old(env).effects@ + save_effects(*arbitrator)
            },
        },
{
    match require_admin(env, caller) {
        Err(error) => {
            return Err(error);
        },
        Ok(_) => {},
    }
    let mut record = load_record(env, arbitrator);
    record.penalty_points = 0;
    record.suspended = false;
    save_record(env, arbitrator, &record);
    Ok(())
}

// Laws

/// The record after `n` penalties for `reason` at time `now`.
pub open spec fn after_penalties(
    record: PenaltyRecord,
    reason: PenaltyReason,
    now: u64,
    n: nat,
) -> PenaltyRecord
    decreases n,
{
    if n == 0 {
        record
    } else {
        after_penalties(record, reason, now, (n - 1) as nat).penalized(reason, now)
    }
}

/// Each penalty point costs `PENALTY_REDUCTION_BPS` of the reward, up to the cap; at the cap
/// further penalties cost nothing.
pub proof fn law_penalty_costs_reward(record: PenaltyRecord, reason: PenaltyReason, now: u64)
    requires
        record.wf(),
    ensures
        record.penalty_points < MAX_PENALTY_POINTS ==> reward_at(
            record.penalized(reason, now).penalty_points,
        ) == reward_at(record.penalty_points) - PENALTY_REDUCTION_BPS,
        record.penalty_points == MAX_PENALTY_POINTS ==> reward_at(
            record.penalized(reason, now).penalty_points,
        ) == reward_at(record.penalty_points),
{
}

/// The reward share of a well-formed record lies between what the cap leaves and the base share.
pub proof fn law_reward_range(record: PenaltyRecord)
    requires
        record.wf(),
    ensures
        BASE_REWARD_BPS - MAX_PENALTY_POINTS * PENALTY_REDUCTION_BPS <= reward_at(
            record.penalty_points,
        ) <= BASE_REWARD_BPS,
{
}

/// More points never mean a higher reward.
pub proof fn law_reward_falls_with_points(fewer: u32, more: u32)
    requires
        fewer <= more,
    ensures
        reward_at(more) <= reward_at(fewer),
{
}

/// After `n` penalties a clean record has `n` points, or the maximum if that is less, and the
/// arbitrator is suspended exactly from the maximum on.
pub proof fn law_points_count_penalties(reason: PenaltyReason, now: u64, n: nat)
    ensures
        after_penalties(clean_record(), reason, now, n).wf(),
        after_penalties(clean_record(), reason, now, n).penalty_points == (if n
            < MAX_PENALTY_POINTS {
            n as int
        } else {
            MAX_PENALTY_POINTS as int
        }),
        after_penalties(clean_record(), reason, now, n).suspended <==> n >= MAX_PENALTY_POINTS,
    decreases n,
{
    if n > 0 {
        law_points_count_penalties(reason, now, (n - 1) as nat);
    }
}

/// Every operation keeps records well formed.
pub proof fn law_records_stay_well_formed(record: PenaltyRecord, reason: PenaltyReason, now: u64)
    ensures
        clean_record().wf(),
        record.penalized(reason, now).wf(),
        record.cleared().wf(),
        record.wf() ==> record.with_resolution().wf(),
{
}

/// Clearing restores the full reward share and keeps the history of the arbitrator.
pub proof fn law_clearing_restores_reward(record: PenaltyRecord)
    ensures
        reward_at(record.cleared().penalty_points) == BASE_REWARD_BPS,
        !record.cleared().suspended,
        record.cleared().missed_deadlines == record.missed_deadlines,
        record.cleared().overturned_decisions == record.overturned_decisions,
        record.cleared().resolved_on_time == record.resolved_on_time,
        record.cleared().last_penalty_at == record.last_penalty_at,
{
}

/// Resolving a dispute on time changes neither points nor suspension.
pub proof fn law_resolution_is_no_penalty(record: PenaltyRecord)
    ensures
        record.with_resolution().penalty_points == record.penalty_points,
        record.with_resolution().suspended == record.suspended,
{
}

/// Storing the record of one arbitrator gives that record back and leaves every other
/// arbitrator's record as it was.
pub proof fn law_records_are_independent(
    state: PenaltyState,
    arbitrator: Address,
    record: PenaltyRecord,
    other: Address,
)
    ensures
        state.with_record(arbitrator, record).record(arbitrator) == record,
        other != arbitrator ==> state.with_record(arbitrator, record).record(other)
            == state.record(other),
{
}

/// The admin can penalize every registered arbitrator, and nobody can penalize anyone else. What
/// else only the admin may do is accepted from the stored admin alone.
pub proof fn law_penalty_conditions(state: PenaltyState, caller: Address, arbitrator: Address)
    ensures
        ({
            let by_admin = state.admin == Some(caller);
            let registered = state.arbitrators.contains_key(arbitrator)
                && state.arbitrators[arbitrator];
            let error = state.penalty_error(caller, arbitrator);
            &&& error is None <==> by_admin && registered
            &&& error == Some(GovError::NotInitialized) <==> state.admin is None
            &&& error == Some(GovError::Unauthorized) <==> state.admin is Some && !by_admin
            &&& error == Some(GovError::NotArbitrator) <==> by_admin && !registered
            &&& state.admin_error(caller) is None <==> by_admin
            &&& state.admin_error(caller) == Some(GovError::NotInitialized) <==> state.admin is None
            &&& state.admin_error(caller) == Some(GovError::Unauthorized) <==> state.admin is Some
                && !by_admin
        }),
{
}

/// A penalty adds one point, up to one hundred, counts under its own reason alone, remembers its
/// time, and suspends exactly at one hundred points. Disputes resolved on time stay as they were.
pub proof fn law_penalty_counts(record: PenaltyRecord, reason: PenaltyReason, now: u64)
    requires
        record.missed_deadlines < u32::MAX,
        record.overturned_decisions < u32::MAX,
    ensures
        ({
            let after = record.penalized(reason, now);
            &&& record.penalty_points < 100 ==> after.penalty_points == record.penalty_points + 1
            &&& record.penalty_points >= 100 ==> after.penalty_points == 100
            &&& after.suspended <==> after.penalty_points >= 100
            &&& after.last_penalty_at == now
            &&& after.resolved_on_time == record.resolved_on_time
            &&& reason is MissedDeadline ==> {
                &&& after.missed_deadlines == record.missed_deadlines + 1
                &&& after.overturned_decisions == record.overturned_decisions
            }
            &&& reason is OverturnedByAppeal ==> {
                &&& after.missed_deadlines == record.missed_deadlines
                &&& after.overturned_decisions == record.overturned_decisions + 1
            }
            &&& record.has_room(reason)
        }),
{
}

/// A resolution adds one to the disputes resolved on time and changes nothing else of the record.
pub proof fn law_resolution_counts(record: PenaltyRecord)
    requires
        record.resolved_on_time < u32::MAX,
    ensures
        ({
            let after = record.with_resolution();
            &&& after.resolved_on_time == record.resolved_on_time + 1
            &&& PenaltyRecord { resolved_on_time: record.resolved_on_time, ..after } == record
        }),
{
}

/// The reward is ten thousand basis points less fifteen for each point, and nothing once that would
/// fall below zero.
pub proof fn law_reward_formula(points: u32)
    ensures
        points <= 666 ==> reward_at(points) == 10_000 - 15 * points,
        points > 666 ==> reward_at(points) == 0,
{
}

/// Clearing takes back the points and the suspension and changes nothing else of the record.
pub proof fn law_clearing(record: PenaltyRecord)
    ensures
        record.cleared().penalty_points == 0,
        !record.cleared().suspended,
        (PenaltyRecord {
            penalty_points: record.penalty_points,
            suspended: record.suspended,
            ..record.cleared()
        }) == record,
{
}

/// What is read is what is stored, and an arbitrator of whom nothing is stored has a clean record:
/// no points, no counts, no suspension. Storing a record touches nothing else.
pub proof fn law_records(
    state: PenaltyState,
    arbitrator: Address,
    record: PenaltyRecord,
    other: Address,
)
    ensures
        state.penalties.contains_key(arbitrator) ==> state.record(arbitrator)
            == state.penalties[arbitrator],
        !state.penalties.contains_key(arbitrator) ==> {
            let clean = state.record(arbitrator);
            &&& clean.penalty_points == 0
            &&& clean.resolved_on_time == 0
            &&& clean.overturned_decisions == 0
            &&& clean.missed_deadlines == 0
            &&& clean.last_penalty_at == 0
            &&& !clean.suspended
        },
        ({
            let after = state.with_record(arbitrator, record);
            &&& after.penalties.contains_key(arbitrator)
            &&& after.penalties[arbitrator] == record
            &&& other != arbitrator ==> {
                &&& after.penalties.contains_key(other) == state.penalties.contains_key(other)
                &&& after.penalties[other] == state.penalties[other]
            }
            &&& after.admin == state.admin
            &&& after.arbitrators == state.arbitrators
        }),
{
}

/// Storing a record writes it and keeps it alive.
pub proof fn law_record_is_kept_alive(arbitrator: Address)
    ensures
        save_effects(arbitrator).len() == 2,
        save_effects(arbitrator)[0] == Effect::<DataKey, PenaltyEvent>::Write(
            DataKey::ArbitratorPenalty(arbitrator),
        ),
        save_effects(arbitrator)[1] == Effect::<DataKey, PenaltyEvent>::ExtendTtl(
            DataKey::ArbitratorPenalty(arbitrator),
        ),
{
}

/// A penalty can be counted exactly while the counter of its own reason is not at its limit.
pub proof fn law_room_for_penalties(record: PenaltyRecord)
    ensures
        record.has_room(PenaltyReason::MissedDeadline) <==> record.missed_deadlines < u32::MAX,
        record.has_room(PenaltyReason::OverturnedByAppeal) <==> record.overturned_decisions
            < u32::MAX,
{
}

/// The two reasons are published under different numbers, zero for a missed deadline and one for an
/// overturned decision.
pub proof fn law_reasons_are_told_apart(a: PenaltyReason, b: PenaltyReason)
    ensures
        a.spec_code() == b.spec_code() <==> a == b,
        a.spec_code() == 0 <==> a is MissedDeadline,
        a.spec_code() == 1 <==> a is OverturnedByAppeal,
{
}

} // verus!
