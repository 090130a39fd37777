//! Multi-token staking and gas rebates for governance.
//!
//! Stakers deposit supported tokens; each token has a weight with which its stakes count toward
//! voting power. Gas that a staker spends on governance votes is recorded, and paid back from a
//! rebate pool at most once per rebate interval.

use crate::arith::bps_of;
use crate::arith::saturating_add;
use crate::arith::saturating_mul;
use crate::host::Address;
use crate::host::Effect;
use crate::host::Env;
use crate::host::Transfer;
use crate::table::Table;
use vstd::prelude::*;

verus! {

/// Least number of seconds between two rebates to one staker (30 days).
pub const REBATE_INTERVAL_SECS: u64 = 2_592_000;

/// Rebate per gas unit, in stroops.
pub const REBATE_RATE_PER_GAS: i128 = 100;

/// Largest weight that a token can have, in basis points.
pub const MAX_WEIGHT_BPS: u32 = 20_000;

/// Names of the stored entries.
#[derive(Clone, Copy, Debug, PartialEq, Eq, Structural)]
pub enum StakeKey {
    /// The contract admin.
    Admin,
    /// Weight of a supported token, in basis points.
    TokenConfig(Address),
    /// Staked amount: staker and token.
    Stake(Address, Address),
    /// Gas units recorded for a staker since the last rebate.
    GasUsed(Address),
    /// Amount available for rebates.
    RebatePool,
    /// Timestamp of the last rebate to a staker.
    LastRebate(Address),
}

/// Why a staking call was refused.
#[derive(Clone, Copy, Debug, PartialEq, Eq, Structural)]
pub enum StakeError {
    AlreadyInitialized,
    NotInitialized,
    Unauthorized,
    UnsupportedToken,
    InvalidAmount,
    InsufficientStake,
    RebateTooSoon,
    InsufficientRebatePool,
    NoGasToRebate,
}

impl StakeError {
    /// The number under which callers of the contract see this error.
    pub open spec fn spec_code(self) -> u32 {
        match self {
            StakeError::AlreadyInitialized => 1,
            StakeError::NotInitialized => 2,
            StakeError::Unauthorized => 3,
            StakeError::UnsupportedToken => 4,
            StakeError::InvalidAmount => 5,
            StakeError::InsufficientStake => 6,
            StakeError::RebateTooSoon => 7,
            StakeError::InsufficientRebatePool => 8,
            StakeError::NoGasToRebate => 9,
        }
    }

    /// The number under which callers of the contract see this error.
    pub fn code(self) -> (code: u32)
        ensures
            code == self.spec_code(),
    {
        match self {
            StakeError::AlreadyInitialized => 1,
            StakeError::NotInitialized => 2,
            StakeError::Unauthorized => 3,
            StakeError::UnsupportedToken => 4,
            StakeError::InvalidAmount => 5,
            StakeError::InsufficientStake => 6,
            StakeError::RebateTooSoon => 7,
            StakeError::InsufficientRebatePool => 8,
            StakeError::NoGasToRebate => 9,
        }
    }
}

/// Events of the staking contract.
#[derive(Clone, Copy, Debug, PartialEq, Eq, Structural)]
pub enum StakeEvent {
    /// `stk_dep`: tokens were deposited.
    Deposited { staker: Address, token: Address, amount: i128 },
    /// `stk_wdw`: tokens were withdrawn.
    Withdrawn { staker: Address, token: Address, amount: i128 },
    /// `gas_rec`: gas was recorded.
    GasRecorded { staker: Address, gas_units: u64 },
    /// `reb_dist`: a rebate was paid.
    RebateDistributed { staker: Address, rebate: i128 },
}

/// The stored entries of the staking contract.
pub struct StakingStorage {
    pub admin: Option<Address>,
    pub rebate_pool: Option<i128>,
    pub token_configs: Table<Address, u32>,
    /// Staked amounts by staker and token.
    pub stakes: Table<(Address, Address), i128>,
    pub gas_used: Table<Address, u64>,
    pub last_rebates: Table<Address, u64>,
}

/// The environment of a staking call.
pub type StakeEnv = Env<StakingStorage, StakeKey, StakeEvent>;

/// The stored entries of the staking contract as mathematical maps.
#[verifier::ext_equal]
pub struct StakingState {
    pub admin: Option<Address>,
    pub rebate_pool: Option<i128>,
    pub token_configs: Map<Address, u32>,
    pub stakes: Map<(Address, Address), i128>,
    pub gas_used: Map<Address, u64>,
    pub last_rebates: Map<Address, u64>,
}

impl View for StakingStorage {
    type V = StakingState;

    open spec fn view(&self) -> StakingState {
        StakingState {
            admin: self.admin,
            rebate_pool: self.rebate_pool,
            token_configs: self.token_configs@,
            stakes: self.stakes@,
            gas_used: self.gas_used@,
            last_rebates: self.last_rebates@,
        }
    }
}

impl StakingStorage {
    /// Storage of a contract that was not initialized yet.
    pub fn new() -> (storage: Self)
        ensures
            storage@ == empty_state(),
    {
        StakingStorage {
            admin: None,
            rebate_pool: None,
            token_configs: Table::new(),
            stakes: Table::new(),
            gas_used: Table::new(),
            last_rebates: Table::new(),
        }
    }
}

/// The state of a contract that was not initialized yet.
pub open spec fn empty_state() -> StakingState {
    StakingState {
        admin: None,
        rebate_pool: None,
        token_configs: Map::empty(),
        stakes: Map::empty(),
        gas_used: Map::empty(),
        last_rebates: Map::empty(),
    }
}

impl StakingState {
    /// No stake and no pool is negative, and every weight lies in the range that weights have.
    pub open spec fn wf(self) -> bool {
        &&& self.pool() >= 0
        &&& forall|p: (Address, Address)|
            #[trigger] self.stakes.contains_key(p) ==> self.stakes[p] >= 0
        &&& forall|t: Address|
            #[trigger] self.token_configs.contains_key(t) ==> 1 <= self.token_configs[t]
                <= MAX_WEIGHT_BPS
    }

    /// What `staker` has staked of `token`.
    pub open spec fn stake(self, staker: Address, token: Address) -> i128 {
        if self.stakes.contains_key((staker, token)) {
            self.stakes[(staker, token)]
        } else {
            0
        }
    }

    /// The token can be staked.
    pub open spec fn supported(self, token: Address) -> bool {
        self.token_configs.contains_key(token)
    }

    /// The weight of a token, in basis points; zero for an unsupported one.
    pub open spec fn weight(self, token: Address) -> u32 {
        if self.token_configs.contains_key(token) {
            self.token_configs[token]
        } else {
            0
        }
    }

    /// Gas recorded for `staker` since the last rebate.
    pub open spec fn gas(self, staker: Address) -> u64 {
        if self.gas_used.contains_key(staker) {
            self.gas_used[staker]
        } else {
            0
        }
    }

    /// What is available for rebates.
    pub open spec fn pool(self) -> i128 {
        match self.rebate_pool {
            Some(amount) => amount,
            None => 0,
        }
    }

    /// The rebate due for the gas recorded for `staker`.
    pub open spec fn rebate(self, staker: Address) -> int {
        self.gas(staker) * REBATE_RATE_PER_GAS
    }

    /// The staker had a rebate less than a rebate interval before `now`.
    pub open spec fn too_soon(self, staker: Address, now: u64) -> bool {
        &&& self.last_rebates.contains_key(staker)
        &&& now < self.last_rebates[staker] + REBATE_INTERVAL_SECS
    }

    /// Why a call that only the admin may make is refused, if it is.
    pub open spec fn admin_error(self, caller: Address) -> Option<StakeError> {
        if self.admin is None {
            Some(StakeError::NotInitialized)
        } else if self.admin != Some(caller) {
            Some(StakeError::Unauthorized)
        } else {
            None
        }
    }

    /// Why `initialize` refuses, if it does.
    pub open spec fn initialize_error(self) -> Option<StakeError> {
        if self.admin is Some {
            Some(StakeError::AlreadyInitialized)
        } else {
            None
        }
    }

    /// Why `add_token` refuses, if it does.
    pub open spec fn add_token_error(self, caller: Address, weight_bps: u32) -> Option<StakeError> {
        if self.admin_error(caller) is Some {
            self.admin_error(caller)
        } else if weight_bps == 0 || weight_bps > MAX_WEIGHT_BPS {
            Some(StakeError::InvalidAmount)
        } else {
            None
        }
    }

    /// Why `deposit` refuses, if it does.
    pub open spec fn deposit_error(self, token: Address, amount: i128) -> Option<StakeError> {
        if amount <= 0 {
            Some(StakeError::InvalidAmount)
        } else if !self.supported(token) {
            Some(StakeError::UnsupportedToken)
        } else {
            None
        }
    }

    /// Why `withdraw` refuses, if it does.
    pub open spec fn withdraw_error(self, staker: Address, token: Address, amount: i128) -> Option<
        StakeError,
    > {
        if self.deposit_error(token, amount) is Some {
            self.deposit_error(token, amount)
        } else if self.stake(staker, token) < amount {
            Some(StakeError::InsufficientStake)
        } else {
            None
        }
    }

    /// Why `distribute_rebate` refuses, if it does.
    pub open spec fn rebate_error(self, staker: Address, now: u64) -> Option<StakeError> {
        if self.too_soon(staker, now) {
            Some(StakeError::RebateTooSoon)
        } else if self.gas(staker) == 0 {
            Some(StakeError::NoGasToRebate)
        } else if self.pool() < self.rebate(staker) {
            Some(StakeError::InsufficientRebatePool)
        } else {
            None
        }
    }

    /// The state after initialization by `admin`.
    pub open spec fn after_initialize(self, admin: Address) -> StakingState {
        StakingState { admin: Some(admin), rebate_pool: Some(0i128), ..self }
    }

    /// The state in which `token` is supported with this weight.
    pub open spec fn with_token(self, token: Address, weight_bps: u32) -> StakingState {
        StakingState { token_configs: self.token_configs.insert(token, weight_bps), ..self }
    }

    /// The state in which `staker` has staked `amount` of `token`.
    pub open spec fn with_stake(
        self,
        staker: Address,
        token: Address,
        amount: int,
    ) -> StakingState {
        StakingState { stakes: self.stakes.insert((staker, token), amount as i128), ..self }
    }

    /// The state in which `gas` is recorded for `staker`.
    pub open spec fn with_gas(self, staker: Address, gas: int) -> StakingState {
        StakingState { gas_used: self.gas_used.insert(staker, gas as u64), ..self }
    }

    /// The state in which `amount` is available for rebates.
    pub open spec fn with_pool(self, amount: int) -> StakingState {
        StakingState { rebate_pool: Some(amount as i128), ..self }
    }

    /// The state after a deposit.
    pub open spec fn after_deposit(
        self,
        staker: Address,
        token: Address,
        amount: i128,
    ) -> StakingState {
        self.with_stake(staker, token, self.stake(staker, token) + amount)
    }

    /// The state after a withdrawal.
    pub open spec fn after_withdraw(
        self,
        staker: Address,
        token: Address,
        amount: i128,
    ) -> StakingState {
        self.with_stake(staker, token, self.stake(staker, token) - amount)
    }

    /// The state after a rebate to `staker` at time `now`: the pool is less by the rebate, the gas
    /// counter starts anew, and the time is remembered.
    pub open spec fn after_rebate(self, staker: Address, now: u64) -> StakingState {
        StakingState {
            rebate_pool: Some((self.pool() - self.rebate(staker)) as i128),
            gas_used: self.gas_used.insert(staker, 0u64),
            last_rebates: self.last_rebates.insert(staker, now),
            ..self
        }
    }

    /// What the stake in `token` adds to the voting power of `staker`: the weighted stake,
    /// stopping at the bounds of `i128`.
    pub open spec fn token_power(self, staker: Address, token: Address) -> int {
        crate::arith::clamp(
            crate::arith::share(self.stake(staker, token) as int, self.weight(token) as int),
        )
    }

    /// Voting power of `staker` over a list of tokens: the sum of what each of them adds,
    /// stopping at the bounds of `i128`.
    pub open spec fn power(self, staker: Address, tokens: Seq<Address>) -> int
        decreases tokens.len(),
    {
        if tokens.len() == 0 {
            0
        } else {
            crate::arith::clamp(
                self.power(staker, tokens.drop_last()) + self.token_power(staker, tokens.last()),
            )
        }
    }
}

/// The effects of a deposit.
pub open spec fn deposit_effects(
    staker: Address,
    contract: Address,
    token: Address,
    amount: i128,
) -> Seq<Effect<StakeKey, StakeEvent>> {
    seq![
        Effect::RequireAuth(staker),
        Effect::Transfer(Transfer { token, from: staker, to: contract, amount }),
        Effect::Write(StakeKey::Stake(staker, token)),
        Effect::Publish(StakeEvent::Deposited { staker, token, amount }),
    ]
}

/// The effects of a withdrawal.
pub open spec fn withdraw_effects(
    staker: Address,
    contract: Address,
    token: Address,
    amount: i128,
) -> Seq<Effect<StakeKey, StakeEvent>> {
    seq![
        Effect::RequireAuth(staker),
        Effect::Write(StakeKey::Stake(staker, token)),
        Effect::Transfer(Transfer { token, from: contract, to: staker, amount }),
        Effect::Publish(StakeEvent::Withdrawn { staker, token, amount }),
    ]
}

/// The effects of adding to the rebate pool.
pub open spec fn fund_effects(
    funder: Address,
    contract: Address,
    token: Address,
    amount: i128,
) -> Seq<Effect<StakeKey, StakeEvent>> {
    seq![
        Effect::RequireAuth(funder),
        Effect::Transfer(Transfer { token, from: funder, to: contract, amount }),
        Effect::Write(StakeKey::RebatePool),
    ]
}

/// The effects of paying a rebate.
pub open spec fn rebate_effects(
    staker: Address,
    contract: Address,
    token: Address,
    rebate: i128,
) -> Seq<Effect<StakeKey, StakeEvent>> {
    seq![
        Effect::RequireAuth(staker),
        Effect::Write(StakeKey::RebatePool),
        Effect::Write(StakeKey::GasUsed(staker)),
        Effect::Write(StakeKey::LastRebate(staker)),
        Effect::Transfer(Transfer { token, from: contract, to: staker, amount: rebate }),
        Effect::Publish(StakeEvent::RebateDistributed { staker, rebate }),
    ]
}

/// The staking contract.
pub struct StakingContract;

impl StakingContract {
    /// Initializes the contract with its admin. This can be done once.
    pub fn initialize(env: &mut StakeEnv, admin: Address) -> (res: Result<(), StakeError>)
        ensures
            final(env).same_place(*old(env)),
            old(env).storage@.wf() ==> final(env).storage@.wf(),
            match old(env).storage@.initialize_error() {
                Some(error) => {
                    &&& res == Err::<(), StakeError>(error)
                    &&& final(env).storage@ == old(env).storage@
                    &&& final(env).effects@ == old(env).effects@
                },
                None => {
                    &&& res == Ok::<(), StakeError>(())
                    &&& final(env).storage@ == old(env).storage@.after_initialize(admin)
                    &&& final(env).effects@ == old(env).effects@ + seq![
                        Effect::RequireAuth(admin),
                        Effect::Write(StakeKey::Admin),
                        Effect::Write(StakeKey::RebatePool),
                    ]
                },
            },
    {
        if env.storage.admin.is_some() {
            return Err(StakeError::AlreadyInitialized);
        }
        env.emit(Effect::RequireAuth(admin));
        env.storage.admin = Some(admin);
        env.emit(Effect::Write(StakeKey::Admin));
        env.storage.rebate_pool = Some(0);
        env.emit(Effect::Write(StakeKey::RebatePool));
        Ok(())
    }

    /// Registers a supported token with its voting-power weight in basis points. Only the admin
    /// may do so.
    pub fn add_token(env: &mut StakeEnv, admin: Address, token: Address, weight_bps: u32) -> (res:
        Result<(), StakeError>)
        ensures
            final(env).same_place(*old(env)),
            old(env).storage@.wf() ==> final(env).storage@.wf(),
            match old(env).storage@.add_token_error(admin, weight_bps) {
                Some(error) => {
                    &&& res == Err::<(), StakeError>(error)
                    &&& final(env).storage@ == old(env).storage@
                    &&& final(env).effects@ == old(env).effects@.push(Effect::RequireAuth(admin))
                },
                None => {
                    &&& res == Ok::<(), StakeError>(())
                    &&& final(env).storage@ == old(env).storage@.with_token(token, weight_bps)
                    &&& final(env).effects@ == old(env).effects@ + seq![
                        Effect::RequireAuth(admin),
                        Effect::Write(StakeKey::TokenConfig(token)),
                    ]
                },
            },
    {
        env.emit(Effect::RequireAuth(admin));
        match Self::assert_admin(env, &admin) {
            Err(error) => {
                return Err(error);
            },
            Ok(_) => {},
        }
        if weight_bps == 0 || weight_bps > MAX_WEIGHT_BPS {
            return Err(StakeError::InvalidAmount);
        }
        env.storage.token_configs.set(token, weight_bps);
        env.emit(Effect::Write(StakeKey::TokenConfig(token)));
        Ok(())
    }

    /// Deposits `amount` of `token` into the staking pool.
    pub fn deposit(env: &mut StakeEnv, staker: Address, token: Address, amount: i128) -> (res:
        Result<(), StakeError>)
        requires
            old(env).storage@.deposit_error(token, amount) is None ==> old(env).storage@.stake(
                staker,
                token,
            ) + amount <= i128::MAX,
        ensures
            final(env).same_place(*old(env)),
            old(env).storage@.wf() ==> final(env).storage@.wf(),
            match old(env).storage@.deposit_error(token, amount) {
                Some(error) => {
                    &&& res == Err::<(), StakeError>(error)
                    &&& final(env).storage@ == old(env).storage@
                    &&& final(env).effects@ == old(env).effects@.push(Effect::RequireAuth(staker))
                },
                None => {
                    &&& res == Ok::<(), StakeError>(())
                    &&& final(env).storage@ == old(env).storage@.after_deposit(
                        staker,
                        token,
                        amount,
                    )
                    &&& final(env).effects@ == old(env).effects@ + deposit_effects(
                        staker,
                        old(env).contract,
                        token,
                        amount,
                    )
                },
            },
    {
        env.emit(Effect::RequireAuth(staker));
        if amount <= 0 {
            return Err(StakeError::InvalidAmount);
        }
        match Self::assert_supported_token(env, &token) {
            Err(error) => {
                return Err(error);
            },
            Ok(_) => {},
        }
        let contract = env.contract;
        env.emit(Effect::Transfer(Transfer { token, from: staker, to: contract, amount }));
        let current: i128 = env.storage.stakes.get_or(&(staker, token), 0);
        env.storage.stakes.set((staker, token), current + amount);
        env.emit(Effect::Write(StakeKey::Stake(staker, token)));
        env.emit(Effect::Publish(StakeEvent::Deposited { staker, token, amount }));
        Ok(())
    }

    /// Withdraws `amount` of `token` from the staking pool.
    pub fn withdraw(env: &mut StakeEnv, staker: Address, token: Address, amount: i128) -> (res:
        Result<(), StakeError>)
        ensures
            final(env).same_place(*old(env)),
            old(env).storage@.wf() ==> final(env).storage@.wf(),
            match old(env).storage@.withdraw_error(staker, token, amount) {
                Some(error) => {
                    &&& res == Err::<(), StakeError>(error)
                    &&& final(env).storage@ == old(env).storage@
                    &&& final(env).effects@ == old(env).effects@.push(Effect::RequireAuth(staker))
                },
                None => {
                    &&& res == Ok::<(), StakeError>(())
                    &&& final(env).storage@ == old(env).storage@.after_withdraw(
                        staker,
                        token,
                        amount,
                    )
                    &&& final(env).effects@ == old(env).effects@ + withdraw_effects(
                        staker,
                        old(env).contract,
                        token,
                        amount,
                    )
                },
            },
    {
        env.emit(Effect::RequireAuth(staker));
        if amount <= 0 {
            return Err(StakeError::InvalidAmount);
        }
        match Self::assert_supported_token(env, &token) {
            Err(error) => {
                return Err(error);
            },
            Ok(_) => {},
        }
        let current: i128 = env.storage.stakes.get_or(&(staker, token), 0);
        if current < amount {
            return Err(StakeError::InsufficientStake);
        }
        env.storage.stakes.set((staker, token), current - amount);
        env.emit(Effect::Write(StakeKey::Stake(staker, token)));
        let contract = env.contract;
        env.emit(Effect::Transfer(Transfer { token, from: contract, to: staker, amount }));
        env.emit(Effect::Publish(StakeEvent::Withdrawn { staker, token, amount }));
        Ok(())
    }

    /// Voting power of a staker across the given tokens: the sum of the stakes, each weighted
    /// with its token's weight.
    pub fn voting_power(env: &StakeEnv, staker: Address, tokens: Vec<Address>) -> (power: i128)
        ensures
            power == env.storage@.power(staker, tokens@),
    {
        let ghost state = env.storage@;
        let mut power: i128 = 0;
        let mut i: usize = 0;
        while i < tokens.len()
            invariant
                i <= tokens@.len(),
                state == env.storage@,
                power == state.power(staker, tokens@.take(i as int)),
            decreases tokens@.len() - i,
        {
            let token = tokens[i];
            assert(tokens@.take(i + 1).drop_last() =~= tokens@.take(i as int));
            let weight_bps: u32 = env.storage.token_configs.get_or(&token, 0);
            if weight_bps != 0 {
                let stake: i128 = env.storage.stakes.get_or(&(staker, token), 0);
                power = saturating_add(power, bps_of(stake, weight_bps as u64));
            } else {
                let ghost stake = state.stake(staker, token);
                assert(stake * 0 == 0) by (nonlinear_arith);
            }
            i += 1;
        }
        assert(tokens@.take(i as int) =~= tokens@);
        power
    }

    /// Records gas units that a staker spent on a governance vote. Only the admin may do so.
    pub fn record_gas(env: &mut StakeEnv, admin: Address, staker: Address, gas_units: u64) -> (res:
        Result<(), StakeError>)
        requires
            old(env).storage@.admin_error(admin) is None ==> old(env).storage@.gas(staker)
                + gas_units <= u64::MAX,
        ensures
            final(env).same_place(*old(env)),
            old(env).storage@.wf() ==> final(env).storage@.wf(),
            match old(env).storage@.admin_error(admin) {
                Some(error) => {
                    &&& res == Err::<(), StakeError>(error)
                    &&& final(env).storage@ == old(env).storage@
                    &&& final(env).effects@ == old(env).effects@.push(Effect::RequireAuth(admin))
                },
                None => {
                    &&& res == Ok::<(), StakeError>(())
                    &&& final(env).storage@ == old(env).storage@.with_gas(
                        staker,
                        old(env).storage@.gas(staker) + gas_units,
                    )
                    &&& final(env).effects@ == old(env).effects@ + seq![
                        Effect::RequireAuth(admin),
                        Effect::Write(StakeKey::GasUsed(staker)),
                        Effect::Publish(StakeEvent::GasRecorded { staker, gas_units }),
                    ]
                },
            },
    {
        env.emit(Effect::RequireAuth(admin));
        match Self::assert_admin(env, &admin) {
            Err(error) => {
                return Err(error);
            },
            Ok(_) => {},
        }
        let current: u64 = env.storage.gas_used.get_or(&staker, 0);
        env.storage.gas_used.set(staker, current + gas_units);
        env.emit(Effect::Write(StakeKey::GasUsed(staker)));
        env.emit(Effect::Publish(StakeEvent::GasRecorded { staker, gas_units }));
        Ok(())
    }

    /// Adds `amount` of `xlm_token` to the rebate pool.
    pub fn fund_rebate_pool(
        env: &mut StakeEnv,
        funder: Address,
        xlm_token: Address,
        amount: i128,
    ) -> (res: Result<(), StakeError>)
        requires
            amount > 0 ==> old(env).storage@.pool() + amount <= i128::MAX,
        ensures
            final(env).same_place(*old(env)),
            old(env).storage@.wf() ==> final(env).storage@.wf(),
            if amount <= 0 {
                &&& res == Err::<(), StakeError>(StakeError::InvalidAmount)
                &&& final(env).storage@ == old(env).storage@
                &&& final(env).effects@ == old(env).effects@.push(Effect::RequireAuth(funder))
            } else {
                &&& res == Ok::<(), StakeError>(())
                &&& final(env).storage@ == old(env).storage@.with_pool(
                    old(env).storage@.pool() + amount,
                )
                &&& final(env).effects@ == old(env).effects@ + fund_effects(
                    funder,
                    old(env).contract,
                    xlm_token,
                    amount,
                )
            },
    {
        env.emit(Effect::RequireAuth(funder));
        if amount <= 0 {
            return Err(StakeError::InvalidAmount);
        }
        let contract = env.contract;
        env.emit(
            Effect::Transfer(Transfer { token: xlm_token, from: funder, to: contract, amount }),
        );
        let current: i128 = Self::rebate_pool(env);
        env.storage.rebate_pool = Some(current + amount);
        env.emit(Effect::Write(StakeKey::RebatePool));
        Ok(())
    }

    /// Pays a staker the rebate for the recorded gas and returns it. A staker who had a rebate
    /// before must let a rebate interval pass first.
    pub fn distribute_rebate(env: &mut StakeEnv, staker: Address, xlm_token: Address) -> (res:
        Result<i128, StakeError>)
        requires
            old(env).storage@.last_rebates.contains_key(staker) ==> old(
                env,
            ).storage@.last_rebates[staker] + REBATE_INTERVAL_SECS <= u64::MAX,
        ensures
            final(env).same_place(*old(env)),
            old(env).storage@.wf() ==> final(env).storage@.wf(),
            match old(env).storage@.rebate_error(staker, old(env).ledger.timestamp) {
                Some(error) => {
                    &&& res == Err::<i128, StakeError>(error)
                    &&& final(env).storage@ == old(env).storage@
                    &&& final(env).effects@ == old(env).effects@.push(Effect::RequireAuth(staker))
                },
                None => {
                    let rebate = old(env).storage@.rebate(staker) as i128;
                    &&& res == Ok::<i128, StakeError>(rebate)
                    &&& rebate == old(env).storage@.rebate(staker)
                    &&& final(env).storage@ == old(env).storage@.after_rebate(
                        staker,
                        old(env).ledger.timestamp,
                    )
                    &&& final(env).effects@ == old(env).effects@ + rebate_effects(
                        staker,
                        old(env).contract,
                        xlm_token,
                        rebate,
                    )
                },
            },
    {
        env.emit(Effect::RequireAuth(staker));
        let now: u64 = env.ledger.timestamp;
        match env.storage.last_rebates.get(&staker) {
            Some(last) => {
                if now < *last + REBATE_INTERVAL_SECS {
                    return Err(StakeError::RebateTooSoon);
                }
            },
            None => {},
        }
        let gas: u64 = Self::gas_used(env, staker);
        if gas == 0 {
            return Err(StakeError::NoGasToRebate);
        }
        let rebate: i128 = saturating_mul(gas as i128, REBATE_RATE_PER_GAS);
        let pool: i128 = Self::rebate_pool(env);
        if pool < rebate {
            return Err(StakeError::InsufficientRebatePool);
        }
        env.storage.rebate_pool = Some(pool - rebate);
        env.emit(Effect::Write(StakeKey::RebatePool));
        env.storage.gas_used.set(staker, 0);
        env.emit(Effect::Write(StakeKey::GasUsed(staker)));
        env.storage.last_rebates.set(staker, now);
        env.emit(Effect::Write(StakeKey::LastRebate(staker)));
        let contract = env.contract;
        env.emit(
            Effect::Transfer(
                Transfer { token: xlm_token, from: contract, to: staker, amount: rebate },
            ),
        );
        env.emit(Effect::Publish(StakeEvent::RebateDistributed { staker, rebate }));
        Ok(rebate)
    }

    /// What `staker` has staked of `token`.
    pub fn stake_of(env: &StakeEnv, staker: Address, token: Address) -> (stake: i128)
        ensures
            stake == env.storage@.stake(staker, token),
    {
        env.storage.stakes.get_or(&(staker, token), 0)
    }

    /// Gas recorded for `staker` since the last rebate.
    pub fn gas_used(env: &StakeEnv, staker: Address) -> (gas: u64)
        ensures
            gas == env.storage@.gas(staker),
    {
        env.storage.gas_used.get_or(&staker, 0)
    }

    /// What is available for rebates.
    pub fn rebate_pool(env: &StakeEnv) -> (amount: i128)
        ensures
            amount == env.storage@.pool(),
    {
        match env.storage.rebate_pool {
            Some(amount) => amount,
            None => 0,
        }
    }

    fn assert_admin(env: &StakeEnv, caller: &Address) -> (res: Result<(), StakeError>)
        ensures
            res == (match env.storage@.admin_error(*caller) {
                Some(error) => Err::<(), StakeError>(error),
                None => Ok(()),
            }),
    {
        match env.storage.admin {
            None => Err(StakeError::NotInitialized),
            Some(admin) => if *caller != admin {
                Err(StakeError::Unauthorized)
            } else {
                Ok(())
            },
        }
    }

    fn assert_supported_token(env: &StakeEnv, token: &Address) -> (res: Result<(), StakeError>)
        ensures
            res == (if env.storage@.supported(*token) {
                Ok::<(), StakeError>(())
            } else {
                Err(StakeError::UnsupportedToken)
            }),
    {
        if env.storage.token_configs.get(token).is_none() {
            return Err(StakeError::UnsupportedToken);
        }
        Ok(())
    }
}

// Laws

/// A contract is initialized once: after that every attempt is refused, and nothing that the
/// contract does later takes the admin away.
pub proof fn law_initialized_once(
    before: StakingState,
    state: StakingState,
    admin: Address,
    who: Address,
    token: Address,
    weight_bps: u32,
    amount: int,
    now: u64,
)
    requires
        state.admin == Some(admin),
    ensures
        before.after_initialize(admin).admin == Some(admin),
        state.initialize_error() == Some(StakeError::AlreadyInitialized),
        state.with_token(token, weight_bps).admin == Some(admin),
        state.with_stake(who, token, amount).admin == Some(admin),
        state.with_gas(who, amount).admin == Some(admin),
        state.with_pool(amount).admin == Some(admin),
        state.after_rebate(who, now).admin == Some(admin),
{
}

/// A new contract is well formed.
pub proof fn law_empty_state_well_formed()
    ensures
        empty_state().wf(),
{
}

/// The books match the holdings: a deposit brings the contract exactly what it adds to the stake,
/// a withdrawal takes exactly what it takes off the stake, and the same holds of the rebate pool
/// in the token that is used for rebates.
pub proof fn law_books_match_holdings(
    state: StakingState,
    who: Address,
    contract: Address,
    token: Address,
    amount: i128,
    now: u64,
)
    requires
        who != contract,
    ensures
        state.deposit_error(token, amount) is None && state.stake(who, token) + amount
            <= i128::MAX ==> crate::host::net_inflow(
            deposit_effects(who, contract, token, amount),
            contract,
            token,
        ) == state.after_deposit(who, token, amount).stake(who, token) - state.stake(who, token),
        state.withdraw_error(who, token, amount) is None ==> crate::host::net_inflow(
            withdraw_effects(who, contract, token, amount),
            contract,
            token,
        ) == state.after_withdraw(who, token, amount).stake(who, token) - state.stake(who, token),
        0 < amount && state.pool() + amount <= i128::MAX ==> crate::host::net_inflow(
            fund_effects(who, contract, token, amount),
            contract,
            token,
        ) == state.with_pool(state.pool() + amount).pool() - state.pool(),
        state.rebate_error(who, now) is None ==> crate::host::net_inflow(
            rebate_effects(who, contract, token, state.rebate(who) as i128),
            contract,
            token,
        ) == state.after_rebate(who, now).pool() - state.pool(),
{
    reveal_with_fuel(crate::host::net_inflow, 7);
}

/// A deposit raises the staker's stake in the token by the amount, and a withdrawal lowers it by
/// the amount. No other stake changes.
pub proof fn law_stakes_follow_movements(
    state: StakingState,
    staker: Address,
    token: Address,
    amount: i128,
    other_staker: Address,
    other_token: Address,
)
    ensures
        state.deposit_error(token, amount) is None && state.stake(staker, token) + amount
            <= i128::MAX ==> state.after_deposit(staker, token, amount).stake(staker, token)
            == state.stake(staker, token) + amount,
        state.withdraw_error(staker, token, amount) is None ==> state.after_withdraw(
            staker,
            token,
            amount,
        ).stake(staker, token) == state.stake(staker, token) - amount,
        (other_staker, other_token) != (staker, token) ==> {
            &&& state.after_deposit(staker, token, amount).stake(other_staker, other_token)
                == state.stake(other_staker, other_token)
            &&& state.after_withdraw(staker, token, amount).stake(other_staker, other_token)
                == state.stake(other_staker, other_token)
        },
{
}

/// What was deposited can be withdrawn, and every stake is then what it was before.
pub proof fn law_withdrawal_undoes_deposit(
    state: StakingState,
    staker: Address,
    token: Address,
    amount: i128,
    any_staker: Address,
    any_token: Address,
)
    requires
        state.wf(),
        state.deposit_error(token, amount) is None,
        state.stake(staker, token) + amount <= i128::MAX,
    ensures
        ({
            let deposited = state.after_deposit(staker, token, amount);
            &&& deposited.withdraw_error(staker, token, amount) is None
            &&& deposited.after_withdraw(staker, token, amount).stake(any_staker, any_token)
                == state.stake(any_staker, any_token)
        }),
{
}

/// Nobody can withdraw more than their stake.
pub proof fn law_withdrawals_are_covered(
    state: StakingState,
    staker: Address,
    token: Address,
    amount: i128,
)
    requires
        state.withdraw_error(staker, token, amount) is None,
    ensures
        amount <= state.stake(staker, token),
        state.after_withdraw(staker, token, amount).stake(staker, token) >= 0,
{
}

/// The sum of the weighted stakes, without bounds.
pub open spec fn weighted_sum(state: StakingState, staker: Address, tokens: Seq<Address>) -> int
    decreases tokens.len(),
{
    if tokens.len() == 0 {
        0
    } else {
        weighted_sum(state, staker, tokens.drop_last()) + (state.stake(staker, tokens.last())
            * state.weight(tokens.last())) / 10_000
    }
}

proof fn lemma_weighted_stake(state: StakingState, staker: Address, token: Address)
    requires
        state.wf(),
    ensures
        (state.stake(staker, token) * state.weight(token)) / 10_000 >= 0,
        state.token_power(staker, token) == crate::arith::clamp(
            (state.stake(staker, token) * state.weight(token)) / 10_000,
        ),
{
    let stake = state.stake(staker, token);
    let weight = state.weight(token);
    assert(stake >= 0);
    assert(stake * weight >= 0) by (nonlinear_arith)
        requires
            stake >= 0,
            weight >= 0,
    ;
}

/// Voting power is the sum of the stakes, each weighted with its token's weight and rounded down,
/// or the largest amount where the sum exceeds it. It is never negative.
pub proof fn law_power_is_weighted_sum(state: StakingState, staker: Address, tokens: Seq<Address>)
    requires
        state.wf(),
    ensures
        state.power(staker, tokens) == crate::arith::clamp(weighted_sum(state, staker, tokens)),
        weighted_sum(state, staker, tokens) >= 0,
        state.power(staker, tokens) >= 0,
    decreases tokens.len(),
{
    if tokens.len() > 0 {
        law_power_is_weighted_sum(state, staker, tokens.drop_last());
        lemma_weighted_stake(state, staker, tokens.last());
    }
}

/// A token without a weight adds nothing to voting power.
pub proof fn law_unsupported_token_has_no_power(
    state: StakingState,
    staker: Address,
    token: Address,
)
    requires
        !state.supported(token),
    ensures
        state.token_power(staker, token) == 0,
{
    let stake = state.stake(staker, token);
    assert(stake * 0 == 0) by (nonlinear_arith);
}

/// A deposit never lowers the depositor's voting power.
pub proof fn law_deposit_never_lowers_power(
    state: StakingState,
    staker: Address,
    token: Address,
    amount: i128,
    tokens: Seq<Address>,
)
    requires
        state.wf(),
        state.deposit_error(token, amount) is None,
        state.stake(staker, token) + amount <= i128::MAX,
    ensures
        state.power(staker, tokens) <= state.after_deposit(staker, token, amount).power(
            staker,
            tokens,
        ),
    decreases tokens.len(),
{
    if tokens.len() > 0 {
        let after = state.after_deposit(staker, token, amount);
        law_deposit_never_lowers_power(state, staker, token, amount, tokens.drop_last());
        let t = tokens.last();
        let less = state.stake(staker, t);
        let more = after.stake(staker, t);
        let weight = state.weight(t);
        assert(0 <= less <= more);
        assert(0 <= less * weight <= more * weight) by (nonlinear_arith)
            requires
                0 <= less <= more,
                weight >= 0,
        ;
        assert(state.token_power(staker, t) <= after.token_power(staker, t));
    }
}

/// A staker who never had a rebate is never too soon.
pub proof fn law_first_rebate_is_not_too_soon(state: StakingState, staker: Address, now: u64)
    requires
        !state.last_rebates.contains_key(staker),
    ensures
        state.rebate_error(staker, now) != Some(StakeError::RebateTooSoon),
{
}

/// A rebate comes out of the pool in full, never overdraws it, and pays for the recorded gas
/// once.
pub proof fn law_rebate_is_paid_once(state: StakingState, staker: Address, now: u64, later: u64)
    requires
        state.rebate_error(staker, now) is None,
    ensures
        state.after_rebate(staker, now).pool() == state.pool() - state.rebate(staker),
        state.after_rebate(staker, now).pool() >= 0,
        state.after_rebate(staker, now).gas(staker) == 0,
        state.after_rebate(staker, now).rebate_error(staker, later) is Some,
{
}

/// A rebate to one staker leaves the gas and the rebate times of all others as they were, and
/// every stake.
pub proof fn law_rebate_concerns_one_staker(
    state: StakingState,
    staker: Address,
    now: u64,
    other: Address,
)
    requires
        other != staker,
    ensures
        state.after_rebate(staker, now).gas(other) == state.gas(other),
        state.after_rebate(staker, now).last_rebates.contains_key(other)
            == state.last_rebates.contains_key(other),
        state.after_rebate(staker, now).last_rebates[other] == state.last_rebates[other],
        state.after_rebate(staker, now).stakes == state.stakes,
{
}

/// A call of the staking contract by someone who authorized it.
pub enum StakeCall {
    Initialize { admin: Address },
    AddToken { admin: Address, token: Address, weight_bps: u32 },
    Deposit { staker: Address, token: Address, amount: i128 },
    Withdraw { staker: Address, token: Address, amount: i128 },
    RecordGas { admin: Address, staker: Address, gas_units: u64 },
    FundRebatePool { amount: i128 },
    DistributeRebate { staker: Address },
}

impl StakingState {
    /// The call is accepted at time `now`: it is not refused, and its result can be represented.
    pub open spec fn accepts(self, call: StakeCall, now: u64) -> bool {
        match call {
            StakeCall::Initialize { admin } => self.initialize_error() is None,
            StakeCall::AddToken { admin, token, weight_bps } => self.add_token_error(
                admin,
                weight_bps,
            ) is None,
            StakeCall::Deposit { staker, token, amount } => {
                &&& self.deposit_error(token, amount) is None
                &&& self.stake(staker, token) + amount <= i128::MAX
            },
            StakeCall::Withdraw { staker, token, amount } => self.withdraw_error(
                staker,
                token,
                amount,
            ) is None,
            StakeCall::RecordGas { admin, staker, gas_units } => {
                &&& self.admin_error(admin) is None
                &&& self.gas(staker) + gas_units <= u64::MAX
            },
            StakeCall::FundRebatePool { amount } => {
                &&& amount > 0
                &&& self.pool() + amount <= i128::MAX
            },
            StakeCall::DistributeRebate { staker } => self.rebate_error(staker, now) is None,
        }
    }

    /// The state after a call at time `now`. A call that is not accepted changes nothing.
    pub open spec fn after_call(self, call: StakeCall, now: u64) -> StakingState {
        if !self.accepts(call, now) {
            self
        } else {
            match call {
                StakeCall::Initialize { admin } => self.after_initialize(admin),
                StakeCall::AddToken { admin, token, weight_bps } => self.with_token(
                    token,
                    weight_bps,
                ),
                StakeCall::Deposit { staker, token, amount } => self.after_deposit(
                    staker,
                    token,
                    amount,
                ),
                StakeCall::Withdraw { staker, token, amount } => self.after_withdraw(
                    staker,
                    token,
                    amount,
                ),
                StakeCall::RecordGas { admin, staker, gas_units } => self.with_gas(
                    staker,
                    self.gas(staker) + gas_units,
                ),
                StakeCall::FundRebatePool { amount } => self.with_pool(self.pool() + amount),
                StakeCall::DistributeRebate { staker } => self.after_rebate(staker, now),
            }
        }
    }

    /// The state after a history of calls, each with the time at which it came.
    pub open spec fn after_calls(self, calls: Seq<(StakeCall, u64)>) -> StakingState
        decreases calls.len(),
    {
        if calls.len() == 0 {
            self
        } else {
            self.after_calls(calls.drop_last()).after_call(calls.last().0, calls.last().1)
        }
    }

    /// What a call at time `now` adds to the stake of `staker` in `token`.
    pub open spec fn staked_by(
        self,
        call: StakeCall,
        now: u64,
        staker: Address,
        token: Address,
    ) -> int {
        if !self.accepts(call, now) {
            0
        } else {
            match call {
                StakeCall::Deposit { staker: who, token: what, amount } => if who == staker && what
                    == token {
                    amount as int
                } else {
                    0
                },
                StakeCall::Withdraw { staker: who, token: what, amount } => if who == staker && what
                    == token {
                    -amount
                } else {
                    0
                },
                _ => 0,
            }
        }
    }

    /// What a history of calls adds to the stake of `staker` in `token`: the accepted deposits
    /// less the accepted withdrawals.
    pub open spec fn net_staked(
        self,
        calls: Seq<(StakeCall, u64)>,
        staker: Address,
        token: Address,
    ) -> int
        decreases calls.len(),
    {
        if calls.len() == 0 {
            0
        } else {
            self.net_staked(calls.drop_last(), staker, token) + self.after_calls(
                calls.drop_last(),
            ).staked_by(calls.last().0, calls.last().1, staker, token)
        }
    }
}

/// Every history of calls keeps a well-formed contract well formed: no stake and no pool is ever
/// negative.
pub proof fn law_history_keeps_well_formed(state: StakingState, calls: Seq<(StakeCall, u64)>)
    requires
        state.wf(),
    ensures
        state.after_calls(calls).wf(),
    decreases calls.len(),
{
    if calls.len() > 0 {
        law_history_keeps_well_formed(state, calls.drop_last());
    }
}

/// A stake is what was deposited less what was withdrawn, through every history of calls.
pub proof fn law_stake_is_net_of_movements(
    state: StakingState,
    calls: Seq<(StakeCall, u64)>,
    staker: Address,
    token: Address,
)
    ensures
        state.after_calls(calls).stake(staker, token) == state.stake(staker, token)
            + state.net_staked(calls, staker, token),
    decreases calls.len(),
{
    if calls.len() > 0 {
        law_stake_is_net_of_movements(state, calls.drop_last(), staker, token);
    }
}

/// Two rebates to one staker are at least a rebate interval apart: after a rebate, whatever is
/// called within the interval, the next request within it is too soon.
pub proof fn law_rebates_keep_their_distance(
    state: StakingState,
    staker: Address,
    first_at: u64,
    calls: Seq<(StakeCall, u64)>,
    second_at: u64,
)
    requires
        state.rebate_error(staker, first_at) is None,
        forall|i: int|
            0 <= i < calls.len() ==> (#[trigger] calls[i]).1 < first_at + REBATE_INTERVAL_SECS,
        second_at < first_at + REBATE_INTERVAL_SECS,
    ensures
        state.after_rebate(staker, first_at).after_calls(calls).rebate_error(staker, second_at)
            == Some(StakeError::RebateTooSoon),
{
    lemma_rebate_time_is_kept(state.after_rebate(staker, first_at), staker, first_at, calls);
}

proof fn lemma_rebate_time_is_kept(
    state: StakingState,
    staker: Address,
    first_at: u64,
    calls: Seq<(StakeCall, u64)>,
)
    requires
        state.last_rebates.contains_key(staker),
        state.last_rebates[staker] == first_at,
        forall|i: int|
            0 <= i < calls.len() ==> (#[trigger] calls[i]).1 < first_at + REBATE_INTERVAL_SECS,
    ensures
        state.after_calls(calls).last_rebates.contains_key(staker),
        state.after_calls(calls).last_rebates[staker] == first_at,
    decreases calls.len(),
{
    if calls.len() > 0 {
        let front = calls.drop_last();
        assert forall|i: int| 0 <= i < front.len() implies (#[trigger] front[i]).1 < first_at
            + REBATE_INTERVAL_SECS by {
            assert(calls[i].1 < first_at + REBATE_INTERVAL_SECS);
        }
        lemma_rebate_time_is_kept(state, staker, first_at, front);
        assert(calls[calls.len() - 1].1 < first_at + REBATE_INTERVAL_SECS);
    }
}

/// Initialization is accepted exactly while there is no admin. It stores the admin and an empty
/// rebate pool and touches nothing else.
pub proof fn law_initialization(state: StakingState, admin: Address)
    ensures
        state.initialize_error() is None <==> state.admin is None,
        state.initialize_error() is Some ==> state.initialize_error() == Some(
            StakeError::AlreadyInitialized,
        ),
        state.after_initialize(admin).admin == Some(admin),
        state.after_initialize(admin).rebate_pool == Some(0i128),
        state.after_initialize(admin).token_configs == state.token_configs,
        state.after_initialize(admin).stakes == state.stakes,
        state.after_initialize(admin).gas_used == state.gas_used,
        state.after_initialize(admin).last_rebates == state.last_rebates,
{
}

/// What only the admin may do is accepted from the stored admin alone.
pub proof fn law_admin_calls(state: StakingState, caller: Address)
    ensures
        state.admin_error(caller) is None <==> state.admin == Some(caller),
        state.admin_error(caller) == Some(StakeError::NotInitialized) <==> state.admin is None,
        state.admin_error(caller) == Some(StakeError::Unauthorized) <==> state.admin is Some
            && state.admin != Some(caller),
{
}

/// The admin can register every token with every weight from one to twenty thousand basis points,
/// and nobody else can. The token then has exactly that weight, whatever weight it had before, and
/// every other token is as it was.
pub proof fn law_token_registration(
    state: StakingState,
    caller: Address,
    token: Address,
    weight_bps: u32,
    other: Address,
)
    ensures
        state.add_token_error(caller, weight_bps) is None <==> state.admin == Some(caller) && 1
            <= weight_bps <= 20_000,
        state.add_token_error(caller, weight_bps) == Some(StakeError::NotInitialized)
            <==> state.admin is None,
        state.add_token_error(caller, weight_bps) == Some(StakeError::Unauthorized)
            <==> state.admin is Some && state.admin != Some(caller),
        state.add_token_error(caller, weight_bps) == Some(StakeError::InvalidAmount)
            <==> state.admin == Some(caller) && !(1 <= weight_bps <= 20_000),
        ({
            let after = state.with_token(token, weight_bps);
            &&& after.supported(token)
            &&& after.weight(token) == weight_bps
            &&& after.token_configs.contains_key(token)
            &&& after.token_configs[token] == weight_bps
            &&& other != token ==> {
                &&& after.token_configs.contains_key(other) == state.token_configs.contains_key(
                    other,
                )
                &&& after.token_configs[other] == state.token_configs[other]
            }
            &&& after.admin == state.admin
            &&& after.rebate_pool == state.rebate_pool
            &&& after.stakes == state.stakes
            &&& after.gas_used == state.gas_used
            &&& after.last_rebates == state.last_rebates
        }),
{
}

/// What is read is what is stored, and nothing stored reads as zero.
pub proof fn law_reads(state: StakingState, staker: Address, token: Address)
    ensures
        state.stakes.contains_key((staker, token)) ==> state.stake(staker, token)
            == state.stakes[(staker, token)],
        !state.stakes.contains_key((staker, token)) ==> state.stake(staker, token) == 0,
        state.token_configs.contains_key(token) ==> state.weight(token)
            == state.token_configs[token],
        !state.token_configs.contains_key(token) ==> state.weight(token) == 0,
        state.supported(token) <==> state.token_configs.contains_key(token),
        state.gas_used.contains_key(staker) ==> state.gas(staker) == state.gas_used[staker],
        !state.gas_used.contains_key(staker) ==> state.gas(staker) == 0,
        state.rebate_pool matches Some(amount) ==> state.pool() == amount,
        state.rebate_pool is None ==> state.pool() == 0,
{
}

/// Every positive deposit of a supported token is accepted, and no other. It raises the depositor's
/// stake in that token by exactly its amount and leaves every other entry as it was.
pub proof fn law_deposit(
    state: StakingState,
    staker: Address,
    token: Address,
    amount: i128,
    other: (Address, Address),
)
    ensures
        state.deposit_error(token, amount) is None <==> amount > 0
            && state.token_configs.contains_key(token),
        state.deposit_error(token, amount) == Some(StakeError::InvalidAmount) <==> amount <= 0,
        state.deposit_error(token, amount) == Some(StakeError::UnsupportedToken) <==> amount > 0
            && !state.token_configs.contains_key(token),
        ({
            let before = if state.stakes.contains_key((staker, token)) {
                state.stakes[(staker, token)] as int
            } else {
                0
            };
            let after = state.after_deposit(staker, token, amount);
            &&& i128::MIN <= before + amount <= i128::MAX ==> {
                &&& after.stakes.contains_key((staker, token))
                &&& after.stakes[(staker, token)] == before + amount
            }
            &&& other != (staker, token) ==> {
                &&& after.stakes.contains_key(other) == state.stakes.contains_key(other)
                &&& after.stakes[other] == state.stakes[other]
            }
            &&& after.admin == state.admin
            &&& after.rebate_pool == state.rebate_pool
            &&& after.token_configs == state.token_configs
            &&& after.gas_used == state.gas_used
            &&& after.last_rebates == state.last_rebates
        }),
{
}

/// Every positive withdrawal of a supported token that the stake covers is accepted, and no other.
/// It lowers the staker's stake in that token by exactly its amount and leaves every other entry as
/// it was.
pub proof fn law_withdrawal(
    state: StakingState,
    staker: Address,
    token: Address,
    amount: i128,
    other: (Address, Address),
)
    ensures
        ({
            let before = if state.stakes.contains_key((staker, token)) {
                state.stakes[(staker, token)] as int
            } else {
                0
            };
            let supported = state.token_configs.contains_key(token);
            let error = state.withdraw_error(staker, token, amount);
            let after = state.after_withdraw(staker, token, amount);
            &&& error is None <==> amount > 0 && supported && amount <= before
            &&& error == Some(StakeError::InvalidAmount) <==> amount <= 0
            &&& error == Some(StakeError::UnsupportedToken) <==> amount > 0 && !supported
            &&& error == Some(StakeError::InsufficientStake) <==> amount > 0 && supported && amount
                > before
            &&& i128::MIN <= before - amount <= i128::MAX ==> {
                &&& after.stakes.contains_key((staker, token))
                &&& after.stakes[(staker, token)] == before - amount
            }
            &&& other != (staker, token) ==> {
                &&& after.stakes.contains_key(other) == state.stakes.contains_key(other)
                &&& after.stakes[other] == state.stakes[other]
            }
            &&& after.admin == state.admin
            &&& after.rebate_pool == state.rebate_pool
            &&& after.token_configs == state.token_configs
            &&& after.gas_used == state.gas_used
            &&& after.last_rebates == state.last_rebates
        }),
{
}

/// Recording gas sets the counter of one staker, funding sets the pool, and neither touches
/// anything else.
pub proof fn law_gas_and_pool_are_set(
    state: StakingState,
    staker: Address,
    gas: u64,
    pool: i128,
    other: Address,
)
    ensures
        ({
            let recorded = state.with_gas(staker, gas as int);
            &&& recorded.gas_used.contains_key(staker)
            &&& recorded.gas_used[staker] == gas
            &&& other != staker ==> {
                &&& recorded.gas_used.contains_key(other) == state.gas_used.contains_key(other)
                &&& recorded.gas_used[other] == state.gas_used[other]
            }
            &&& recorded.admin == state.admin
            &&& recorded.rebate_pool == state.rebate_pool
            &&& recorded.token_configs == state.token_configs
            &&& recorded.stakes == state.stakes
            &&& recorded.last_rebates == state.last_rebates
        }),
        ({
            let funded = state.with_pool(pool as int);
            &&& funded.rebate_pool == Some(pool)
            &&& funded.admin == state.admin
            &&& funded.token_configs == state.token_configs
            &&& funded.stakes == state.stakes
            &&& funded.gas_used == state.gas_used
            &&& funded.last_rebates == state.last_rebates
        }),
{
}

/// A rebate is owed: a staker with recorded gas whose rebate the pool covers is paid one hundred
/// stroops per unit of gas at every time from thirty days after the last rebate on, and at any time
/// where there was none. The request is too soon only while the thirty days last, and is refused
/// otherwise only for want of gas or of funds.
pub proof fn law_rebate_is_owed(state: StakingState, staker: Address, now: u64)
    ensures
        ({
            let gas = if state.gas_used.contains_key(staker) {
                state.gas_used[staker] as int
            } else {
                0
            };
            let pool = match state.rebate_pool {
                Some(amount) => amount as int,
                None => 0,
            };
            let waits = state.last_rebates.contains_key(staker) && now
                < state.last_rebates[staker] + 2_592_000;
            let error = state.rebate_error(staker, now);
            &&& error is None <==> !waits && gas > 0 && pool >= 100 * gas
            &&& error == Some(StakeError::RebateTooSoon) <==> waits
            &&& error == Some(StakeError::NoGasToRebate) <==> !waits && gas == 0
            &&& error == Some(StakeError::InsufficientRebatePool) <==> !waits && gas > 0 && pool
                < 100 * gas
            &&& state.rebate(staker) == 100 * gas
        }),
{
}

/// Once a rebate is no longer too soon it never becomes too soon again by waiting: a request that
/// is paid at one time is paid at every later one.
pub proof fn law_waiting_keeps_a_rebate_due(
    state: StakingState,
    staker: Address,
    now: u64,
    later: u64,
)
    requires
        now <= later,
        state.rebate_error(staker, now) is None,
    ensures
        state.rebate_error(staker, later) is None,
{
}

/// A paid rebate takes one hundred stroops per unit of gas from the pool, ends the gas counter of
/// the staker, remembers the time, and touches nothing else.
pub proof fn law_rebate_payment(state: StakingState, staker: Address, now: u64, other: Address)
    requires
        state.rebate_error(staker, now) is None,
    ensures
        ({
            let after = state.after_rebate(staker, now);
            &&& state.rebate_pool is Some
            &&& state.gas_used.contains_key(staker)
            &&& after.rebate_pool is Some
            &&& after.rebate_pool->0 == state.rebate_pool->0 - 100 * state.gas_used[staker]
            &&& after.gas_used.contains_key(staker)
            &&& after.gas_used[staker] == 0
            &&& after.last_rebates.contains_key(staker)
            &&& after.last_rebates[staker] == now
            &&& other != staker ==> {
                &&& after.gas_used.contains_key(other) == state.gas_used.contains_key(other)
                &&& after.gas_used[other] == state.gas_used[other]
                &&& after.last_rebates.contains_key(other) == state.last_rebates.contains_key(
                    other,
                )
                &&& after.last_rebates[other] == state.last_rebates[other]
            }
            &&& after.admin == state.admin
            &&& after.token_configs == state.token_configs
            &&& after.stakes == state.stakes
        }),
{
}

/// The second rebate: from thirty days after a rebate on, at every time, a staker for whom gas was
/// recorded since is paid for exactly that gas, as long as the pool covers it.
pub proof fn law_next_rebate_is_paid(
    state: StakingState,
    staker: Address,
    first_at: u64,
    gas: u64,
    pool: i128,
    second_at: u64,
)
    requires
        state.rebate_error(staker, first_at) is None,
        gas > 0,
        pool >= 100 * gas,
        second_at >= first_at + 2_592_000,
    ensures
        ({
            let paid = state.after_rebate(staker, first_at);
            let before = paid.with_gas(staker, gas as int).with_pool(pool as int);
            &&& before.rebate_error(staker, second_at) is None
            &&& before.rebate(staker) == 100 * gas
        }),
{
}

/// One stake counts toward voting power with its weight: the power over one token is the stake
/// times the weight in basis points, rounded down, or the largest amount where that exceeds it, and
/// the power over a longer list is the sum over its parts wherever that can be represented.
pub proof fn law_power_adds_up(
    state: StakingState,
    staker: Address,
    token: Address,
    tokens: Seq<Address>,
)
    requires
        state.wf(),
    ensures
        ({
            let stake = if state.stakes.contains_key((staker, token)) {
                state.stakes[(staker, token)] as int
            } else {
                0
            };
            let weight = if state.token_configs.contains_key(token) {
                state.token_configs[token] as int
            } else {
                0
            };
            let exact = (stake * weight) / 10_000;
            let one = state.power(staker, seq![token]);
            let sum = state.power(staker, tokens) + one;
            &&& one == (if exact <= i128::MAX {
                exact
            } else {
                i128::MAX as int
            })
            &&& state.power(staker, Seq::empty()) == 0
            &&& state.power(staker, tokens.push(token)) == (if sum <= i128::MAX {
                sum
            } else {
                i128::MAX as int
            })
        }),
{
    lemma_weighted_stake(state, staker, token);
    law_power_is_weighted_sum(state, staker, tokens);
    assert(seq![token].drop_last() =~= Seq::<Address>::empty());
    assert(seq![token].last() == token);
    assert(state.power(staker, Seq::<Address>::empty()) == 0);
    assert(tokens.push(token).drop_last() =~= tokens);
    assert(tokens.push(token).last() == token);
}

/// A deposit asks the depositor, moves the amount to the contract, and is published; a withdrawal
/// asks the staker, moves the amount back to the staker, and is published. Both write the stake.
pub proof fn law_stake_movements_are_performed(
    staker: Address,
    contract: Address,
    token: Address,
    amount: i128,
)
    ensures
        ({
            let deposit = deposit_effects(staker, contract, token, amount);
            &&& deposit.len() == 4
            &&& deposit[0] == Effect::<StakeKey, StakeEvent>::RequireAuth(staker)
            &&& deposit[1] == Effect::<StakeKey, StakeEvent>::Transfer(
                Transfer { token, from: staker, to: contract, amount },
            )
            &&& deposit[2] == Effect::<StakeKey, StakeEvent>::Write(StakeKey::Stake(staker, token))
            &&& deposit[3] == Effect::<StakeKey, StakeEvent>::Publish(
                StakeEvent::Deposited { staker, token, amount },
            )
        }),
        ({
            let withdrawal = withdraw_effects(staker, contract, token, amount);
            &&& withdrawal.len() == 4
            &&& withdrawal[0] == Effect::<StakeKey, StakeEvent>::RequireAuth(staker)
            &&& withdrawal[1] == Effect::<StakeKey, StakeEvent>::Write(
                StakeKey::Stake(staker, token),
            )
            &&& withdrawal[2] == Effect::<StakeKey, StakeEvent>::Transfer(
                Transfer { token, from: contract, to: staker, amount },
            )
            &&& withdrawal[3] == Effect::<StakeKey, StakeEvent>::Publish(
                StakeEvent::Withdrawn { staker, token, amount },
            )
        }),
{
}

/// Funding asks the funder and moves the amount to the contract; a rebate asks the staker, writes
/// the three entries that it changes, moves the rebate to the staker, and is published.
pub proof fn law_rebate_movements_are_performed(
    who: Address,
    contract: Address,
    token: Address,
    amount: i128,
)
    ensures
        ({
            let funding = fund_effects(who, contract, token, amount);
            &&& funding.len() == 3
            &&& funding[0] == Effect::<StakeKey, StakeEvent>::RequireAuth(who)
            &&& funding[1] == Effect::<StakeKey, StakeEvent>::Transfer(
                Transfer { token, from: who, to: contract, amount },
            )
            &&& funding[2] == Effect::<StakeKey, StakeEvent>::Write(StakeKey::RebatePool)
        }),
        ({
            let rebate = rebate_effects(who, contract, token, amount);
            &&& rebate.len() == 6
            &&& rebate[0] == Effect::<StakeKey, StakeEvent>::RequireAuth(who)
            &&& rebate[1] == Effect::<StakeKey, StakeEvent>::Write(StakeKey::RebatePool)
            &&& rebate[2] == Effect::<StakeKey, StakeEvent>::Write(StakeKey::GasUsed(who))
            &&& rebate[3] == Effect::<StakeKey, StakeEvent>::Write(StakeKey::LastRebate(who))
            &&& rebate[4] == Effect::<StakeKey, StakeEvent>::Transfer(
                Transfer { token, from: contract, to: who, amount },
            )
            &&& rebate[5] == Effect::<StakeKey, StakeEvent>::Publish(
                StakeEvent::RebateDistributed { staker: who, rebate: amount },
            )
        }),
{
}

/// A new contract has nothing stored.
pub proof fn law_new_contract_is_empty(staker: Address, token: Address)
    ensures
        empty_state().admin is None,
        empty_state().rebate_pool is None,
        !empty_state().token_configs.contains_key(token),
        !empty_state().stakes.contains_key((staker, token)),
        !empty_state().gas_used.contains_key(staker),
        !empty_state().last_rebates.contains_key(staker),
{
}

/// Errors are seen under different numbers.
pub proof fn law_errors_are_told_apart(a: StakeError, b: StakeError)
    ensures
        1 <= a.spec_code() <= 9,
        a.spec_code() == b.spec_code() <==> a == b,
{
}

} // verus!
