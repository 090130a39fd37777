//! Dynamic fees against flash loans.
//!
//! Deposits and withdrawals are tracked per ledger block. A transaction that would, together with
//! what was withdrawn within the last five blocks, exceed half of the active pool is charged
//! twice the normal fee.

use crate::arith::bps_of;
use crate::arith::saturating_add;
use crate::host::Effect;
use crate::host::Env;
use crate::table::Table;
use vstd::prelude::*;

verus! {

/// Fee rate in basis points where none was configured.
pub const BASE_FEE_BPS: u32 = 100;

/// Fee multiplier of a transaction that exceeds the threshold.
pub const FLASH_LOAN_MULTIPLIER: u32 = 2;

/// Number of ledger blocks over which volume is tracked.
pub const VOLUME_WINDOW_BLOCKS: u32 = 5;

/// Share of the pool, in basis points, that a transaction must exceed to count as a flash loan.
pub const FLASH_LOAN_THRESHOLD_BPS: u32 = 5000;

/// Largest fee rate, in basis points.
pub const MAX_FEE_BPS: u32 = 10_000;

/// Names of the stored entries.
#[derive(Clone, Copy, Debug, PartialEq, Eq, Structural)]
pub enum FeeKey {
    /// Fee rate in basis points.
    FeeConfig,
    /// Volume recorded at a ledger block.
    BlockVolume(u32),
    /// Active pool volume.
    PoolVolume,
}

/// Result of a fee calculation.
#[derive(Clone, Copy, Debug, PartialEq, Eq, Structural)]
pub struct FeeResult {
    /// The fee charged.
    pub fee: i128,
    /// The multiplier applied: 1 normally, 2 for a flash loan.
    pub multiplier: u32,
    /// Whether the transaction counts as a flash loan.
    pub flash_loan_detected: bool,
}

/// Why a fee call was refused.
#[derive(Clone, Copy, Debug, PartialEq, Eq, Structural)]
pub enum FeeError {
    InvalidAmount,
    InvalidFeeBps,
}

impl FeeError {
    /// The number under which callers of the contract see this error.
    pub open spec fn spec_code(self) -> u32 {
        match self {
            FeeError::InvalidAmount => 1,
            FeeError::InvalidFeeBps => 2,
        }
    }

    /// The number under which callers of the contract see this error.
    pub fn code(self) -> (code: u32)
        ensures
            code == self.spec_code(),
    {
        match self {
            FeeError::InvalidAmount => 1,
            FeeError::InvalidFeeBps => 2,
        }
    }
}

/// Volume recorded at one ledger block, or over several.
#[derive(Clone, Copy, Debug, PartialEq, Eq, Structural)]
pub struct BlockVolume {
    /// Deposits and withdrawals together.
    pub total: i128,
    /// Withdrawals alone.
    pub withdrawn: i128,
}

/// Events of the fee contract.
#[derive(Clone, Copy, Debug, PartialEq, Eq, Structural)]
pub enum FeeEvent {
    /// `vol_upd`: volume was recorded; carries the pool volume.
    VolumeUpdated { pool_volume: i128 },
    /// `fee_calc`: a fee was calculated.
    FeeCalculated {
        amount: i128,
        fee: i128,
        multiplier: u32,
        flash_loan_detected: bool,
        pool_volume: i128,
        window_volume: i128,
    },
}

/// The stored entries of the fee contract.
pub struct FeeStorage {
    pub fee_config: Option<u32>,
    pub pool_volume: Option<i128>,
    pub block_volumes: Table<u32, BlockVolume>,
}

/// The environment of a fee call.
pub type FeeEnv = Env<FeeStorage, FeeKey, FeeEvent>;

/// The stored entries of the fee contract as mathematical values.
#[verifier::ext_equal]
pub struct FeeState {
    pub fee_config: Option<u32>,
    pub pool_volume: Option<i128>,
    pub blocks: Map<u32, BlockVolume>,
}

impl View for FeeStorage {
    type V = FeeState;

    open spec fn view(&self) -> FeeState {
        FeeState {
            fee_config: self.fee_config,
            pool_volume: self.pool_volume,
            blocks: self.block_volumes@,
        }
    }
}

impl FeeStorage {
    /// Storage of a contract with no configuration and no volume.
    pub fn new() -> (storage: Self)
        ensures
            storage@ == empty_state(),
    {
        FeeStorage { fee_config: None, pool_volume: None, block_volumes: Table::new() }
    }
}

/// The state of a contract with no configuration and no volume.
pub open spec fn empty_state() -> FeeState {
    FeeState { fee_config: None, pool_volume: None, blocks: Map::empty() }
}

/// The amount that a transaction must exceed to count as a flash loan: half of the pool, rounded
/// down.
pub open spec fn flash_threshold(pool: int) -> int {
    pool / 2
}

/// A transaction of `amount` counts as a flash loan: the pool is not empty, and the amount alone,
/// or together with what was withdrawn within the window, exceeds half of it.
pub open spec fn flash_loan(amount: int, pool: int, withdrawn: int) -> bool {
    &&& pool > 0
    &&& amount > flash_threshold(pool) || withdrawn + amount > flash_threshold(pool)
}

/// The multiplier of a transaction.
pub open spec fn multiplier_of(detected: bool) -> u32 {
    if detected {
        FLASH_LOAN_MULTIPLIER
    } else {
        1
    }
}

/// The fee for `amount` at `rate` basis points, at twice the rate for a flash loan, stopping at
/// the bounds of `i128`.
pub open spec fn fee_of(amount: int, rate: int, detected: bool) -> int {
    let product = amount * rate;
    crate::arith::clamp(
        crate::arith::from_bps(
            if detected {
                2 * product
            } else {
                product
            },
        ),
    )
}

impl FeeState {
    /// The pool is not negative, the rate lies in the range that rates have, and every block has
    /// withdrawals within its total.
    pub open spec fn wf(self) -> bool {
        &&& self.pool() >= 0
        &&& 1 <= self.rate() <= MAX_FEE_BPS
        &&& forall|b: u32| #[trigger]
            self.blocks.contains_key(b) ==> 0 <= self.blocks[b].withdrawn <= self.blocks[b].total
    }

    /// The fee rate in basis points.
    pub open spec fn rate(self) -> u32 {
        match self.fee_config {
            Some(rate) => rate,
            None => BASE_FEE_BPS,
        }
    }

    /// The active pool volume.
    pub open spec fn pool(self) -> i128 {
        match self.pool_volume {
            Some(volume) => volume,
            None => 0,
        }
    }

    /// The volume recorded at a block.
    pub open spec fn volume_at(self, block: u32) -> BlockVolume {
        if self.blocks.contains_key(block) {
            self.blocks[block]
        } else {
            BlockVolume { total: 0, withdrawn: 0 }
        }
    }

    /// The volume recorded at the block `offset` before `sequence`. There are no blocks before
    /// block zero.
    pub open spec fn volume_before(self, sequence: u32, offset: int) -> BlockVolume {
        if offset <= sequence {
            self.volume_at((sequence - offset) as u32)
        } else {
            BlockVolume { total: 0, withdrawn: 0 }
        }
    }

    /// Total volume of the `n` blocks up to `sequence`, stopping at the bounds of `i128`.
    pub open spec fn total_over(self, sequence: u32, n: nat) -> int
        decreases n,
    {
        if n == 0 {
            0
        } else {
            crate::arith::clamp(
                self.total_over(sequence, (n - 1) as nat) + self.volume_before(
                    sequence,
                    n - 1,
                ).total,
            )
        }
    }

    /// What was withdrawn over the `n` blocks up to `sequence`, stopping at the bounds of `i128`.
    pub open spec fn withdrawn_over(self, sequence: u32, n: nat) -> int
        decreases n,
    {
        if n == 0 {
            0
        } else {
            crate::arith::clamp(
                self.withdrawn_over(sequence, (n - 1) as nat) + self.volume_before(
                    sequence,
                    n - 1,
                ).withdrawn,
            )
        }
    }

    /// Total volume of the window that ends at `sequence`.
    pub open spec fn window_total(self, sequence: u32) -> int {
        self.total_over(sequence, VOLUME_WINDOW_BLOCKS as nat)
    }

    /// What was withdrawn within the window that ends at `sequence`.
    pub open spec fn window_withdrawn(self, sequence: u32) -> int {
        self.withdrawn_over(sequence, VOLUME_WINDOW_BLOCKS as nat)
    }

    /// A transaction of `amount` at `sequence` counts as a flash loan.
    pub open spec fn detects(self, amount: i128, sequence: u32) -> bool {
        flash_loan(amount as int, self.pool() as int, self.window_withdrawn(sequence))
    }

    /// The result of the fee calculation for `amount` at `sequence`.
    pub open spec fn fee_result(self, amount: i128, sequence: u32) -> FeeResult {
        let detected = self.detects(amount, sequence);
        FeeResult {
            fee: fee_of(amount as int, self.rate() as int, detected) as i128,
            multiplier: multiplier_of(detected),
            flash_loan_detected: detected,
        }
    }

    /// The pool volume after `delta` was added: never below zero.
    pub open spec fn moved_pool(self, delta: int) -> int {
        let moved = crate::arith::clamp(self.pool() + delta);
        if moved > 0 {
            moved
        } else {
            0
        }
    }

    /// The state after the pool moved by `delta` and the block `sequence` recorded `amount`, of
    /// which `withdrawn` left the pool.
    pub open spec fn after_movement(
        self,
        sequence: u32,
        delta: int,
        amount: int,
        withdrawn: int,
    ) -> FeeState {
        FeeState {
            pool_volume: Some(self.moved_pool(delta) as i128),
            blocks: self.blocks.insert(
                sequence,
                BlockVolume {
                    total: crate::arith::clamp(self.volume_at(sequence).total + amount) as i128,
                    withdrawn: crate::arith::clamp(
                        self.volume_at(sequence).withdrawn + withdrawn,
                    ) as i128,
                },
            ),
            ..self
        }
    }

    /// The state after a deposit at `sequence`.
    pub open spec fn after_deposit(self, sequence: u32, amount: i128) -> FeeState {
        self.after_movement(sequence, amount as int, amount as int, 0)
    }

    /// The state after a withdrawal at `sequence`.
    pub open spec fn after_withdrawal(self, sequence: u32, amount: i128) -> FeeState {
        self.after_movement(sequence, -amount, amount as int, amount as int)
    }
}

/// The effects of recording a movement at `sequence` that leaves the pool at `pool_volume`.
pub open spec fn movement_effects(sequence: u32, pool_volume: i128) -> Seq<
    Effect<FeeKey, FeeEvent>,
> {
    seq![
        Effect::Write(FeeKey::PoolVolume),
        Effect::Publish(FeeEvent::VolumeUpdated { pool_volume }),
        Effect::Write(FeeKey::BlockVolume(sequence)),
    ]
}

/// The fee contract.
pub struct FeeContract;

impl FeeContract {
    /// Sets the fee rate and empties the pool.
    pub fn init(env: &mut FeeEnv, fee_bps: u32) -> (res: Result<(), FeeError>)
        ensures
            final(env).same_place(*old(env)),
            old(env).storage@.wf() ==> final(env).storage@.wf(),
            if fee_bps == 0 || fee_bps > MAX_FEE_BPS {
                &&& res == Err::<(), FeeError>(FeeError::InvalidFeeBps)
                &&& final(env).storage@ == old(env).storage@
                &&& final(env).effects@ == old(env).effects@
            } else {
                &&& res == Ok::<(), FeeError>(())
                &&& final(env).storage@ == (FeeState {
                    fee_config: Some(fee_bps),
                    pool_volume: Some(0i128),
                    ..old(env).storage@
                })
                &&& final(env).effects@ == old(env).effects@ + seq![
                    Effect::Write(FeeKey::FeeConfig),
                    Effect::Write(FeeKey::PoolVolume),
                ]
            },
    {
        if fee_bps == 0 || fee_bps > MAX_FEE_BPS {
            return Err(FeeError::InvalidFeeBps);
        }
        env.storage.fee_config = Some(fee_bps);
        env.emit(Effect::Write(FeeKey::FeeConfig));
        env.storage.pool_volume = Some(0);
        env.emit(Effect::Write(FeeKey::PoolVolume));
        Ok(())
    }

    /// Records a deposit into the pool, updating pool and block volumes.
    pub fn record_deposit(env: &mut FeeEnv, amount: i128) -> (res: Result<(), FeeError>)
        ensures
            final(env).same_place(*old(env)),
            old(env).storage@.wf() ==> final(env).storage@.wf(),
            if amount <= 0 {
                &&& res == Err::<(), FeeError>(FeeError::InvalidAmount)
                &&& final(env).storage@ == old(env).storage@
                &&& final(env).effects@ == old(env).effects@
            } else {
                &&& res == Ok::<(), FeeError>(())
                &&& final(env).storage@ == old(env).storage@.after_deposit(
                    old(env).ledger.sequence,
                    amount,
                )
                &&& final(env).effects@ == old(env).effects@ + movement_effects(
                    old(env).ledger.sequence,
                    final(env).storage@.pool(),
                )
            },
    {
        if amount <= 0 {
            return Err(FeeError::InvalidAmount);
        }
        Self::update_pool_volume(env, amount);
        Self::update_block_volume(env, amount, 0);
        Ok(())
    }

    /// Records a withdrawal from the pool.
    pub fn record_withdrawal(env: &mut FeeEnv, amount: i128) -> (res: Result<(), FeeError>)
        ensures
            final(env).same_place(*old(env)),
            old(env).storage@.wf() ==> final(env).storage@.wf(),
            if amount <= 0 {
                &&& res == Err::<(), FeeError>(FeeError::InvalidAmount)
                &&& final(env).storage@ == old(env).storage@
                &&& final(env).effects@ == old(env).effects@
            } else {
                &&& res == Ok::<(), FeeError>(())
                &&& final(env).storage@ == old(env).storage@.after_withdrawal(
                    old(env).ledger.sequence,
                    amount,
                )
                &&& final(env).effects@ == old(env).effects@ + movement_effects(
                    old(env).ledger.sequence,
                    final(env).storage@.pool(),
                )
            },
    {
        if amount <= 0 {
            return Err(FeeError::InvalidAmount);
        }
        Self::update_pool_volume(env, -amount);
        Self::update_block_volume(env, amount, amount);
        Ok(())
    }

    /// Calculates the fee for a transaction of `amount`. The fee is doubled if the transaction
    /// exceeds half of the active pool within the current window.
    pub fn calculate_fee(env: &mut FeeEnv, amount: i128) -> (res: Result<FeeResult, FeeError>)
        ensures
            final(env).same_place(*old(env)),
            final(env).storage == old(env).storage,
            if amount <= 0 {
                &&& res == Err::<FeeResult, FeeError>(FeeError::InvalidAmount)
                &&& final(env).effects@ == old(env).effects@
            } else {
                let result = old(env).storage@.fee_result(amount, old(env).ledger.sequence);
                &&& res == Ok::<FeeResult, FeeError>(result)
                &&& final(env).effects@ == old(env).effects@.push(
                    Effect::Publish(
                        FeeEvent::FeeCalculated {
                            amount,
                            fee: result.fee,
                            multiplier: result.multiplier,
                            flash_loan_detected: result.flash_loan_detected,
                            pool_volume: old(env).storage@.pool(),
                            window_volume: old(env).storage@.window_total(
                                old(env).ledger.sequence,
                            ) as i128,
                        },
                    ),
                )
            },
    {
        if amount <= 0 {
            return Err(FeeError::InvalidAmount);
        }
        let fee_bps: u32 = match env.storage.fee_config {
            Some(rate) => rate,
            None => BASE_FEE_BPS,
        };
        let pool_volume: i128 = Self::pool_volume(env);
        let window = Self::get_window_volume(env);
        let flash_loan_detected: bool = Self::is_flash_loan(
            amount,
            pool_volume,
            window.withdrawn,
        );
        let multiplier: u32 = if flash_loan_detected {
            FLASH_LOAN_MULTIPLIER
        } else {
            1
        };
        assert(fee_bps * multiplier == (if multiplier == 2 {
            2 * fee_bps
        } else {
            fee_bps as int
        })) by (nonlinear_arith)
            requires
                multiplier == 1 || multiplier == 2,
        ;
        assert(amount * (2 * fee_bps) == 2 * (amount * fee_bps)) by (nonlinear_arith);
        let fee: i128 = bps_of(amount, fee_bps as u64 * multiplier as u64);
        env.emit(
            Effect::Publish(
                FeeEvent::FeeCalculated {
                    amount,
                    fee,
                    multiplier,
                    flash_loan_detected,
                    pool_volume,
                    window_volume: window.total,
                },
            ),
        );
        Ok(FeeResult { fee, multiplier, flash_loan_detected })
    }

    /// The active pool volume.
    pub fn pool_volume(env: &FeeEnv) -> (volume: i128)
        ensures
            volume == env.storage@.pool(),
    {
        match env.storage.pool_volume {
            Some(volume) => volume,
            None => 0,
        }
    }

    /// The cumulative volume of the current window.
    pub fn window_volume(env: &FeeEnv) -> (volume: i128)
        ensures
            volume == env.storage@.window_total(env.ledger.sequence),
    {
        Self::get_window_volume(env).total
    }

    /// Whether a transaction of `amount` counts as a flash loan: the amount, or the amount
    /// together with `window_volume`, exceeds half of `pool_volume`.
    pub fn is_flash_loan(amount: i128, pool_volume: i128, window_volume: i128) -> (detected: bool)
        ensures
            detected == flash_loan(amount as int, pool_volume as int, window_volume as int),
    {
        if pool_volume <= 0 {
            return false;
        }
        let threshold: i128 = bps_of(pool_volume, FLASH_LOAN_THRESHOLD_BPS as u64);
        if amount > threshold {
            return true;
        }
        if saturating_add(window_volume, amount) > threshold {
            return true;
        }
        false
    }

    /// Adds up the volumes of the blocks in the current window.
    fn get_window_volume(env: &FeeEnv) -> (window: BlockVolume)
        ensures
            window.total == env.storage@.window_total(env.ledger.sequence),
            window.withdrawn == env.storage@.window_withdrawn(env.ledger.sequence),
    {
        let current: u32 = env.ledger.sequence;
        let mut total: i128 = 0;
        let mut withdrawn: i128 = 0;
        let mut offset: u32 = 0;
        while offset < VOLUME_WINDOW_BLOCKS
            invariant
                offset <= VOLUME_WINDOW_BLOCKS,
                current == env.ledger.sequence,
                total == env.storage@.total_over(current, offset as nat),
                withdrawn == env.storage@.withdrawn_over(current, offset as nat),
            decreases VOLUME_WINDOW_BLOCKS - offset,
        {
            let volume: BlockVolume = if offset <= current {
                Self::block_volume(env, current - offset)
            } else {
                BlockVolume { total: 0, withdrawn: 0 }
            };
            total = saturating_add(total, volume.total);
            withdrawn = saturating_add(withdrawn, volume.withdrawn);
            offset += 1;
        }
        BlockVolume { total, withdrawn }
    }

    /// The volume recorded at a block.
    fn block_volume(env: &FeeEnv, block: u32) -> (volume: BlockVolume)
        ensures
            volume == env.storage@.volume_at(block),
    {
        env.storage.block_volumes.get_or(&block, BlockVolume { total: 0, withdrawn: 0 })
    }

    fn update_pool_volume(env: &mut FeeEnv, delta: i128)
        ensures
            final(env).same_place(*old(env)),
            final(env).storage@ == (FeeState {
                pool_volume: Some(old(env).storage@.moved_pool(delta as int) as i128),
                ..old(env).storage@
            }),
            final(env).effects@ == old(env).effects@ + seq![
                Effect::Write(FeeKey::PoolVolume),
                Effect::Publish(
                    FeeEvent::VolumeUpdated { pool_volume: final(env).storage@.pool() },
                ),
            ],
    {
        let moved: i128 = saturating_add(Self::pool_volume(env), delta);
        let updated: i128 = if moved > 0 {
            moved
        } else {
            0
        };
        env.storage.pool_volume = Some(updated);
        env.emit(Effect::Write(FeeKey::PoolVolume));
        env.emit(Effect::Publish(FeeEvent::VolumeUpdated { pool_volume: updated }));
    }

    fn update_block_volume(env: &mut FeeEnv, amount: i128, withdrawn: i128)
        ensures
            final(env).same_place(*old(env)),
            final(env).storage@ == (FeeState {
                blocks: old(env).storage@.blocks.insert(
                    old(env).ledger.sequence,
                    BlockVolume {
                        total: crate::arith::clamp(
                            old(env).storage@.volume_at(old(env).ledger.sequence).total + amount,
                        ) as i128,
                        withdrawn: crate::arith::clamp(
                            old(env).storage@.volume_at(old(env).ledger.sequence).withdrawn
                                + withdrawn,
                        ) as i128,
                    },
                ),
                ..old(env).storage@
            }),
            final(env).effects@ == old(env).effects@.push(
                Effect::Write(FeeKey::BlockVolume(old(env).ledger.sequence)),
            ),
    {
        let slot: u32 = env.ledger.sequence;
        let current: BlockVolume = Self::block_volume(env, slot);
        let updated = BlockVolume {
            total: saturating_add(current.total, amount),
            withdrawn: saturating_add(current.withdrawn, withdrawn),
        };
        env.storage.block_volumes.set(slot, updated);
        env.emit(Effect::Write(FeeKey::BlockVolume(slot)));
    }
}

// Laws

/// A new contract is well formed.
pub proof fn law_empty_state_well_formed()
    ensures
        empty_state().wf(),
{
}

/// Recording movements keeps the contract well formed; in particular the pool never falls below
/// zero.
pub proof fn law_movements_keep_well_formed(state: FeeState, sequence: u32, amount: i128)
    requires
        state.wf(),
        amount > 0,
    ensures
        state.after_deposit(sequence, amount).wf(),
        state.after_withdrawal(sequence, amount).wf(),
        state.after_deposit(sequence, amount).pool() >= 0,
        state.after_withdrawal(sequence, amount).pool() >= 0,
{
}

/// The pool follows the movements: a deposit adds its amount where the sum can be represented,
/// and a withdrawal takes its amount, as far as the pool has it.
pub proof fn law_pool_follows_movements(state: FeeState, sequence: u32, amount: i128)
    requires
        state.wf(),
        amount > 0,
    ensures
        state.pool() + amount <= i128::MAX ==> state.after_deposit(sequence, amount).pool()
            == state.pool() + amount,
        state.after_withdrawal(sequence, amount).pool() == (if amount <= state.pool() {
            state.pool() - amount
        } else {
            0
        }),
{
}

/// A withdrawal of what was just deposited brings the pool back to where it was.
pub proof fn law_withdrawal_undoes_deposit(
    state: FeeState,
    deposited_at: u32,
    withdrawn_at: u32,
    amount: i128,
)
    requires
        state.wf(),
        amount > 0,
        state.pool() + amount <= i128::MAX,
    ensures
        state.after_deposit(deposited_at, amount).after_withdrawal(withdrawn_at, amount).pool()
            == state.pool(),
{
}

/// The threshold is half of the pool: a transaction counts as a flash loan exactly when twice the
/// amount, or twice the amount together with what was withdrawn within the window, exceeds the
/// pool.
pub proof fn law_threshold_is_half_of_pool(amount: i128, pool: i128, withdrawn: i128)
    ensures
        pool > 0 ==> flash_threshold(pool as int) == crate::arith::share(
            pool as int,
            FLASH_LOAN_THRESHOLD_BPS as int,
        ),
        flash_loan(amount as int, pool as int, withdrawn as int) <==> pool > 0 && (2 * amount
            > pool || 2 * (withdrawn + amount) > pool),
{
}

/// While the pool is empty nothing counts as a flash loan, and the plain fee is charged.
pub proof fn law_empty_pool_detects_nothing(state: FeeState, amount: i128, sequence: u32)
    requires
        state.pool() <= 0,
    ensures
        !state.detects(amount, sequence),
        state.fee_result(amount, sequence).multiplier == 1,
{
}

/// A larger transaction, or more withdrawn before it, never escapes a detection that a smaller
/// one meets.
pub proof fn law_detection_is_monotone(
    amount: int,
    larger: int,
    pool: int,
    withdrawn: int,
    more_withdrawn: int,
)
    requires
        amount <= larger,
        withdrawn <= more_withdrawn,
        flash_loan(amount, pool, withdrawn),
    ensures
        flash_loan(larger, pool, more_withdrawn),
{
}

/// The fee is the amount times the rate, in basis points, times the multiplier, rounded down, or
/// the largest amount where that exceeds it.
pub proof fn law_fee_formula(amount: int, rate: int, detected: bool)
    requires
        amount > 0,
        rate >= 0,
    ensures
        fee_of(amount, rate, detected) == crate::arith::clamp(
            (amount * rate * multiplier_of(detected)) / 10_000,
        ),
{
    let product = amount * rate;
    let multiplier = multiplier_of(detected);
    assert(0 <= product) by (nonlinear_arith)
        requires
            product == amount * rate,
            amount > 0,
            rate >= 0,
    ;
    assert(product * multiplier == (if multiplier == 2 {
        2 * product
    } else {
        product
    })) by (nonlinear_arith)
        requires
            multiplier == 1 || multiplier == 2,
    ;
}

/// A fee is never negative, and at a rate that the contract accepts never more than the amount,
/// or twice the amount for a flash loan.
pub proof fn law_fee_range(state: FeeState, amount: i128, sequence: u32)
    requires
        state.wf(),
        amount > 0,
    ensures
        0 <= state.fee_result(amount, sequence).fee <= (if state.detects(amount, sequence) {
            2 * amount
        } else {
            amount as int
        }),
{
    let rate = state.rate();
    assert(0 <= amount * rate <= amount * 10_000) by (nonlinear_arith)
        requires
            amount > 0,
            0 <= rate <= 10_000,
    ;
}

/// A flash loan pays at least the plain fee, and at most twice the plain fee and one unit of
/// rounding.
pub proof fn law_flash_loan_pays_more(amount: int, rate: int)
    requires
        amount > 0,
        rate >= 0,
    ensures
        fee_of(amount, rate, false) <= fee_of(amount, rate, true) <= 2 * fee_of(
            amount,
            rate,
            false,
        ) + 1,
{
    assert(0 <= amount * rate) by (nonlinear_arith)
        requires
            amount > 0,
            rate >= 0,
    ;
}

/// A larger amount never pays a lower fee.
pub proof fn law_fee_grows_with_amount(
    state: FeeState,
    amount: i128,
    larger: i128,
    sequence: u32,
)
    requires
        state.wf(),
        0 < amount <= larger,
    ensures
        state.fee_result(amount, sequence).fee <= state.fee_result(larger, sequence).fee,
{
    let rate = state.rate();
    assert(0 <= amount * rate <= larger * rate) by (nonlinear_arith)
        requires
            0 < amount <= larger,
            rate >= 0,
    ;
}

proof fn lemma_window_untouched(
    state: FeeState,
    recorded_at: u32,
    delta: int,
    amount: int,
    withdrawn: int,
    sequence: u32,
    n: nat,
)
    requires
        sequence < recorded_at || sequence >= recorded_at + n,
    ensures
        state.after_movement(recorded_at, delta, amount, withdrawn).total_over(sequence, n)
            == state.total_over(sequence, n),
        state.after_movement(recorded_at, delta, amount, withdrawn).withdrawn_over(sequence, n)
            == state.withdrawn_over(sequence, n),
    decreases n,
{
    if n > 0 {
        lemma_window_untouched(
            state,
            recorded_at,
            delta,
            amount,
            withdrawn,
            sequence,
            (n - 1) as nat,
        );
    }
}

/// The window forgets: a movement counts for nothing in the window volumes from five blocks
/// after it on.
pub proof fn law_window_forgets(state: FeeState, recorded_at: u32, amount: i128, sequence: u32)
    requires
        sequence >= recorded_at + VOLUME_WINDOW_BLOCKS,
    ensures
        state.after_deposit(recorded_at, amount).window_total(sequence) == state.window_total(
            sequence,
        ),
        state.after_withdrawal(recorded_at, amount).window_total(sequence) == state.window_total(
            sequence,
        ),
        state.after_withdrawal(recorded_at, amount).window_withdrawn(sequence)
            == state.window_withdrawn(sequence),
{
    let n = VOLUME_WINDOW_BLOCKS as nat;
    lemma_window_untouched(
        state,
        recorded_at,
        amount as int,
        amount as int,
        0,
        sequence,
        n,
    );
    lemma_window_untouched(
        state,
        recorded_at,
        -amount,
        amount as int,
        amount as int,
        sequence,
        n,
    );
}

/// The sum of the totals of the `n` blocks up to `sequence`, without bounds.
pub open spec fn plain_total(state: FeeState, sequence: u32, n: nat) -> int
    decreases n,
{
    if n == 0 {
        0
    } else {
        plain_total(state, sequence, (n - 1) as nat) + state.volume_before(sequence, n - 1).total
    }
}

/// The sum of the withdrawals of the `n` blocks up to `sequence`, without bounds.
pub open spec fn plain_withdrawn(state: FeeState, sequence: u32, n: nat) -> int
    decreases n,
{
    if n == 0 {
        0
    } else {
        plain_withdrawn(state, sequence, (n - 1) as nat) + state.volume_before(
            sequence,
            n - 1,
        ).withdrawn
    }
}

/// The window volumes are the sums over the blocks of the window, each block counted once, or
/// the largest amount where a sum exceeds it. Withdrawals never exceed the total.
pub proof fn law_window_is_sum_of_blocks(state: FeeState, sequence: u32, n: nat)
    requires
        state.wf(),
    ensures
        state.total_over(sequence, n) == crate::arith::clamp(plain_total(state, sequence, n)),
        state.withdrawn_over(sequence, n) == crate::arith::clamp(
            plain_withdrawn(state, sequence, n),
        ),
        0 <= plain_withdrawn(state, sequence, n) <= plain_total(state, sequence, n),
    decreases n,
{
    if n > 0 {
        law_window_is_sum_of_blocks(state, sequence, (n - 1) as nat);
    }
}

proof fn lemma_block_within_total(state: FeeState, block: u32, sequence: u32, n: nat)
    requires
        state.wf(),
        block <= sequence < block + n,
    ensures
        state.volume_at(block).total <= plain_total(state, sequence, n),
    decreases n,
{
    if n == sequence - block + 1 {
        law_window_is_sum_of_blocks(state, sequence, (n - 1) as nat);
    } else {
        lemma_block_within_total(state, block, sequence, (n - 1) as nat);
    }
}

proof fn lemma_movement_counts(
    state: FeeState,
    recorded_at: u32,
    delta: int,
    amount: int,
    withdrawn: int,
    sequence: u32,
    n: nat,
)
    requires
        state.wf(),
        recorded_at <= sequence < recorded_at + n,
        0 <= withdrawn <= amount,
        state.volume_at(recorded_at).total + amount <= i128::MAX,
    ensures
        plain_total(
            state.after_movement(recorded_at, delta, amount, withdrawn),
            sequence,
            n,
        ) == plain_total(state, sequence, n) + amount,
        plain_withdrawn(
            state.after_movement(recorded_at, delta, amount, withdrawn),
            sequence,
            n,
        ) == plain_withdrawn(state, sequence, n) + withdrawn,
    decreases n,
{
    let after = state.after_movement(recorded_at, delta, amount, withdrawn);
    if n == sequence - recorded_at + 1 {
        lemma_plain_untouched(
            state,
            recorded_at,
            delta,
            amount,
            withdrawn,
            sequence,
            (n - 1) as nat,
        );
    } else {
        lemma_movement_counts(
            state,
            recorded_at,
            delta,
            amount,
            withdrawn,
            sequence,
            (n - 1) as nat,
        );
    }
}

proof fn lemma_plain_untouched(
    state: FeeState,
    recorded_at: u32,
    delta: int,
    amount: int,
    withdrawn: int,
    sequence: u32,
    n: nat,
)
    requires
        sequence >= recorded_at + n,
    ensures
        plain_total(
            state.after_movement(recorded_at, delta, amount, withdrawn),
            sequence,
            n,
        ) == plain_total(state, sequence, n),
        plain_withdrawn(
            state.after_movement(recorded_at, delta, amount, withdrawn),
            sequence,
            n,
        ) == plain_withdrawn(state, sequence, n),
    decreases n,
{
    if n > 0 {
        lemma_plain_untouched(
            state,
            recorded_at,
            delta,
            amount,
            withdrawn,
            sequence,
            (n - 1) as nat,
        );
    }
}

/// Within five blocks a movement counts in full: a deposit raises the window's total by its
/// amount and leaves its withdrawals, and a withdrawal raises both, wherever the sums can be
/// represented.
pub proof fn law_window_remembers(state: FeeState, recorded_at: u32, amount: i128, sequence: u32)
    requires
        state.wf(),
        amount > 0,
        recorded_at <= sequence < recorded_at + VOLUME_WINDOW_BLOCKS,
        plain_total(state, sequence, VOLUME_WINDOW_BLOCKS as nat) + amount <= i128::MAX,
    ensures
        state.after_deposit(recorded_at, amount).window_total(sequence) == state.window_total(
            sequence,
        ) + amount,
        state.after_deposit(recorded_at, amount).window_withdrawn(sequence)
            == state.window_withdrawn(sequence),
        state.after_withdrawal(recorded_at, amount).window_total(sequence) == state.window_total(
            sequence,
        ) + amount,
        state.after_withdrawal(recorded_at, amount).window_withdrawn(sequence)
            == state.window_withdrawn(sequence) + amount,
{
    let n = VOLUME_WINDOW_BLOCKS as nat;
    lemma_block_within_total(state, recorded_at, sequence, n);
    law_window_is_sum_of_blocks(state, sequence, n);
    law_movements_keep_well_formed(state, recorded_at, amount);
    law_window_is_sum_of_blocks(state.after_deposit(recorded_at, amount), sequence, n);
    law_window_is_sum_of_blocks(state.after_withdrawal(recorded_at, amount), sequence, n);
    lemma_movement_counts(state, recorded_at, amount as int, amount as int, 0, sequence, n);
    lemma_movement_counts(
        state,
        recorded_at,
        -amount,
        amount as int,
        amount as int,
        sequence,
        n,
    );
}

/// A deposit never makes a transaction count as a flash loan: it adds to the pool and nothing to
/// what was withdrawn.
pub proof fn law_deposit_never_triggers_detection(
    state: FeeState,
    recorded_at: u32,
    deposit: i128,
    amount: i128,
    sequence: u32,
)
    requires
        state.wf(),
        deposit > 0,
        amount > 0,
        state.pool() > 0,
        recorded_at <= sequence,
        !state.detects(amount, sequence),
    ensures
        !state.after_deposit(recorded_at, deposit).detects(amount, sequence),
{
    let n = VOLUME_WINDOW_BLOCKS as nat;
    lemma_deposit_withdraws_nothing(state, recorded_at, deposit, sequence, n);
}

proof fn lemma_deposit_withdraws_nothing(
    state: FeeState,
    recorded_at: u32,
    deposit: i128,
    sequence: u32,
    n: nat,
)
    ensures
        state.after_deposit(recorded_at, deposit).withdrawn_over(sequence, n)
            == state.withdrawn_over(sequence, n),
    decreases n,
{
    if n > 0 {
        lemma_deposit_withdraws_nothing(state, recorded_at, deposit, sequence, (n - 1) as nat);
    }
}

/// A call of the fee contract.
pub enum FeeCall {
    Init { fee_bps: u32 },
    Deposit { amount: i128 },
    Withdraw { amount: i128 },
    Calculate { amount: i128 },
}

/// The amount that a call moves: that of an accepted deposit or withdrawal, or with
/// `withdrawals_only` that of an accepted withdrawal.
pub open spec fn moved_by(call: FeeCall, withdrawals_only: bool) -> int {
    match call {
        FeeCall::Deposit { amount } => if amount > 0 && !withdrawals_only {
            amount as int
        } else {
            0
        },
        FeeCall::Withdraw { amount } => if amount > 0 {
            amount as int
        } else {
            0
        },
        _ => 0,
    }
}

/// The sum of what the calls of a history moved at those of the `n` blocks up to `sequence` that
/// there are. Each call stands with the block at which it came.
pub open spec fn moved_over(
    calls: Seq<(FeeCall, u32)>,
    withdrawals_only: bool,
    sequence: u32,
    n: nat,
) -> int
    decreases calls.len(),
{
    if calls.len() == 0 {
        0
    } else {
        moved_over(calls.drop_last(), withdrawals_only, sequence, n) + if calls.last().1 <= sequence
            < calls.last().1 + n {
            moved_by(calls.last().0, withdrawals_only)
        } else {
            0
        }
    }
}

impl FeeState {
    /// The state after a call at `sequence`. A refused call changes nothing.
    pub open spec fn after_call(self, call: FeeCall, sequence: u32) -> FeeState {
        match call {
            FeeCall::Init { fee_bps } => if fee_bps == 0 || fee_bps > MAX_FEE_BPS {
                self
            } else {
                FeeState { fee_config: Some(fee_bps), pool_volume: Some(0i128), ..self }
            },
            FeeCall::Deposit { amount } => if amount > 0 {
                self.after_deposit(sequence, amount)
            } else {
                self
            },
            FeeCall::Withdraw { amount } => if amount > 0 {
                self.after_withdrawal(sequence, amount)
            } else {
                self
            },
            FeeCall::Calculate { amount } => self,
        }
    }

    /// The state after a history of calls, each with the block at which it came.
    pub open spec fn after_calls(self, calls: Seq<(FeeCall, u32)>) -> FeeState
        decreases calls.len(),
    {
        if calls.len() == 0 {
            self
        } else {
            self.after_calls(calls.drop_last()).after_call(calls.last().0, calls.last().1)
        }
    }
}

/// Every history of calls keeps a well-formed contract well formed.
pub proof fn law_history_keeps_well_formed(state: FeeState, calls: Seq<(FeeCall, u32)>)
    requires
        state.wf(),
    ensures
        state.after_calls(calls).wf(),
    decreases calls.len(),
{
    if calls.len() > 0 {
        law_history_keeps_well_formed(state, calls.drop_last());
    }
}

proof fn lemma_moved_is_not_negative(
    calls: Seq<(FeeCall, u32)>,
    withdrawals_only: bool,
    sequence: u32,
    n: nat,
)
    ensures
        moved_over(calls, withdrawals_only, sequence, n) >= 0,
    decreases calls.len(),
{
    if calls.len() > 0 {
        lemma_moved_is_not_negative(calls.drop_last(), withdrawals_only, sequence, n);
    }
}

proof fn lemma_block_holds_its_movements(calls: Seq<(FeeCall, u32)>, block: u32)
    ensures
        empty_state().after_calls(calls).volume_at(block).total == crate::arith::clamp(
            moved_over(calls, false, block, 1),
        ),
        empty_state().after_calls(calls).volume_at(block).withdrawn == crate::arith::clamp(
            moved_over(calls, true, block, 1),
        ),
    decreases calls.len(),
{
    if calls.len() > 0 {
        lemma_block_holds_its_movements(calls.drop_last(), block);
        lemma_moved_is_not_negative(calls.drop_last(), false, block, 1);
        lemma_moved_is_not_negative(calls.drop_last(), true, block, 1);
    }
}

proof fn lemma_movements_by_block(
    calls: Seq<(FeeCall, u32)>,
    withdrawals_only: bool,
    sequence: u32,
    n: nat,
)
    ensures
        moved_over(calls, withdrawals_only, sequence, n + 1) == moved_over(
            calls,
            withdrawals_only,
            sequence,
            n,
        ) + (if n <= sequence {
            moved_over(calls, withdrawals_only, (sequence - n) as u32, 1)
        } else {
            0
        }),
    decreases calls.len(),
{
    if calls.len() > 0 {
        lemma_movements_by_block(calls.drop_last(), withdrawals_only, sequence, n);
    }
}

proof fn lemma_no_blocks_no_movements(
    calls: Seq<(FeeCall, u32)>,
    withdrawals_only: bool,
    sequence: u32,
)
    ensures
        moved_over(calls, withdrawals_only, sequence, 0) == 0,
    decreases calls.len(),
{
    if calls.len() > 0 {
        lemma_no_blocks_no_movements(calls.drop_last(), withdrawals_only, sequence);
    }
}

proof fn lemma_blocks_hold_their_movements(calls: Seq<(FeeCall, u32)>, sequence: u32, n: nat)
    ensures
        empty_state().after_calls(calls).total_over(sequence, n) == crate::arith::clamp(
            moved_over(calls, false, sequence, n),
        ),
        empty_state().after_calls(calls).withdrawn_over(sequence, n) == crate::arith::clamp(
            moved_over(calls, true, sequence, n),
        ),
    decreases n,
{
    if n == 0 {
        lemma_no_blocks_no_movements(calls, false, sequence);
        lemma_no_blocks_no_movements(calls, true, sequence);
    } else {
        let m = (n - 1) as nat;
        lemma_blocks_hold_their_movements(calls, sequence, m);
        lemma_movements_by_block(calls, false, sequence, m);
        lemma_movements_by_block(calls, true, sequence, m);
        lemma_moved_is_not_negative(calls, false, sequence, m);
        lemma_moved_is_not_negative(calls, true, sequence, m);
        if m <= sequence {
            let block = (sequence - m) as u32;
            lemma_block_holds_its_movements(calls, block);
            lemma_moved_is_not_negative(calls, false, block, 1);
            lemma_moved_is_not_negative(calls, true, block, 1);
        }
    }
}

/// The window volume is the sum of the movements recorded within the window: through every history
/// of calls of a new contract, it is the sum of the amounts of all accepted deposits and
/// withdrawals at the five blocks up to `sequence`, each counted once, or the largest amount where
/// the sum exceeds it. What was withdrawn within the window is the same sum over withdrawals.
pub proof fn law_window_is_sum_of_movements(calls: Seq<(FeeCall, u32)>, sequence: u32)
    ensures
        ({
            let state = empty_state().after_calls(calls);
            let moved = moved_over(calls, false, sequence, VOLUME_WINDOW_BLOCKS as nat);
            let withdrawn = moved_over(calls, true, sequence, VOLUME_WINDOW_BLOCKS as nat);
            &&& state.window_total(sequence) == crate::arith::clamp(moved)
            &&& state.window_withdrawn(sequence) == crate::arith::clamp(withdrawn)
            &&& moved <= i128::MAX ==> state.window_total(sequence) == moved
            &&& withdrawn <= i128::MAX ==> state.window_withdrawn(sequence) == withdrawn
        }),
{
    let n = VOLUME_WINDOW_BLOCKS as nat;
    lemma_blocks_hold_their_movements(calls, sequence, n);
    lemma_moved_is_not_negative(calls, false, sequence, n);
    lemma_moved_is_not_negative(calls, true, sequence, n);
}

/// The fee is the share of the amount that the rate says, times the multiplier, rounded down: the
/// configured rate counts, whatever it is, and without one the rate is one percent. Only a fee
/// beyond the largest amount stops there. The multiplier is two exactly for a flash loan.
pub proof fn law_fee_is_share_of_amount(state: FeeState, rate: u32, amount: i128, sequence: u32)
    requires
        amount > 0,
        state.fee_config == Some(rate) || (state.fee_config is None && rate == 100),
    ensures
        ({
            let result = state.fee_result(amount, sequence);
            let exact = (amount * rate * result.multiplier) / 10_000;
            &&& result.fee == (if exact <= i128::MAX {
                exact
            } else {
                i128::MAX as int
            })
            &&& result.multiplier == (if result.flash_loan_detected {
                2int
            } else {
                1int
            })
        }),
{
    let result = state.fee_result(amount, sequence);
    law_fee_formula(amount as int, rate as int, result.flash_loan_detected);
    let product = amount * rate;
    let multiplier = result.multiplier;
    assert(product >= 0) by (nonlinear_arith)
        requires
            product == amount * rate,
            amount > 0,
            rate >= 0,
    ;
    assert(product * multiplier >= 0) by (nonlinear_arith)
        requires
            product >= 0,
            multiplier >= 0,
    ;
}

proof fn lemma_rate_is_kept(state: FeeState, calls: Seq<(FeeCall, u32)>)
    requires
        forall|i: int| 0 <= i < calls.len() ==> (#[trigger] calls[i]).0 !is Init,
    ensures
        state.after_calls(calls).fee_config == state.fee_config,
    decreases calls.len(),
{
    if calls.len() > 0 {
        let front = calls.drop_last();
        assert forall|i: int| 0 <= i < front.len() implies (#[trigger] front[i]).0 !is Init by {
            assert(calls[i].0 !is Init);
        }
        lemma_rate_is_kept(state, front);
        assert(calls[calls.len() - 1].0 !is Init);
    }
}

/// The configured rate is charged: from the configuration of a rate between one and ten thousand
/// basis points on, whatever is deposited, withdrawn or calculated, until the next configuration,
/// the fee for an amount is the amount times that rate times the multiplier of the same result,
/// divided by ten thousand and rounded down.
pub proof fn law_configured_rate_is_charged(
    before: FeeState,
    rate: u32,
    calls: Seq<(FeeCall, u32)>,
    amount: i128,
    sequence: u32,
)
    requires
        1 <= rate <= 10_000,
        amount > 0,
        forall|i: int| 0 <= i < calls.len() ==> (#[trigger] calls[i]).0 !is Init,
    ensures
        ({
            let configured = FeeState {
                fee_config: Some(rate),
                pool_volume: Some(0i128),
                ..before
            };
            let result = configured.after_calls(calls).fee_result(amount, sequence);
            let exact = (amount * rate * result.multiplier) / 10_000;
            result.fee == (if exact <= i128::MAX {
                exact
            } else {
                i128::MAX as int
            })
        }),
{
    let configured = FeeState { fee_config: Some(rate), pool_volume: Some(0i128), ..before };
    lemma_rate_is_kept(configured, calls);
    law_fee_is_share_of_amount(configured.after_calls(calls), rate, amount, sequence);
}

/// A higher rate never means a lower fee, all else being equal.
pub proof fn law_fee_grows_with_rate(
    state: FeeState,
    lower: u32,
    higher: u32,
    amount: i128,
    sequence: u32,
)
    requires
        amount > 0,
        lower <= higher,
    ensures
        ({
            let cheap = FeeState { fee_config: Some(lower), ..state };
            let dear = FeeState { fee_config: Some(higher), ..state };
            cheap.fee_result(amount, sequence).fee <= dear.fee_result(amount, sequence).fee
        }),
{
    let a = FeeState { fee_config: Some(lower), ..state };
    let b = FeeState { fee_config: Some(higher), ..state };
    lemma_window_needs_blocks_only(a, b, sequence, VOLUME_WINDOW_BLOCKS as nat);
    assert(0 <= amount * lower <= amount * higher) by (nonlinear_arith)
        requires
            amount > 0,
            0 <= lower <= higher,
    ;
}

proof fn lemma_window_needs_blocks_only(a: FeeState, b: FeeState, sequence: u32, n: nat)
    requires
        a.blocks == b.blocks,
    ensures
        a.total_over(sequence, n) == b.total_over(sequence, n),
        a.withdrawn_over(sequence, n) == b.withdrawn_over(sequence, n),
    decreases n,
{
    if n > 0 {
        lemma_window_needs_blocks_only(a, b, sequence, (n - 1) as nat);
    }
}

/// The pool that a history of calls of a new contract leaves: deposits add, up to the largest
/// amount, withdrawals take, down to zero, and a configuration empties it.
pub open spec fn pool_over(calls: Seq<(FeeCall, u32)>) -> int
    decreases calls.len(),
{
    if calls.len() == 0 {
        0
    } else {
        let before = pool_over(calls.drop_last());
        match calls.last().0 {
            FeeCall::Init { fee_bps } => if 1 <= fee_bps <= 10_000 {
                0
            } else {
                before
            },
            FeeCall::Deposit { amount } => if amount <= 0 {
                before
            } else if before + amount > i128::MAX {
                i128::MAX as int
            } else {
                before + amount
            },
            FeeCall::Withdraw { amount } => if amount <= 0 {
                before
            } else if before < amount {
                0
            } else {
                before - amount
            },
            FeeCall::Calculate { amount } => before,
        }
    }
}

/// The pool of a new contract is what its history of calls leaves, and that is what is reported.
pub proof fn law_pool_over_history(calls: Seq<(FeeCall, u32)>)
    ensures
        ({
            let state = empty_state().after_calls(calls);
            &&& 0 <= pool_over(calls) <= i128::MAX
            &&& state.pool() == pool_over(calls)
            &&& match state.pool_volume {
                Some(volume) => volume == pool_over(calls),
                None => pool_over(calls) == 0,
            }
        }),
    decreases calls.len(),
{
    if calls.len() > 0 {
        law_pool_over_history(calls.drop_last());
    }
}

/// A transaction of a positive amount counts as a flash loan exactly when the pool is not empty and
/// twice the amount, or twice the amount together with everything withdrawn at the five blocks up
/// to `sequence`, exceeds the pool. This holds after every history of calls of a new contract.
pub proof fn law_detection_over_history(
    calls: Seq<(FeeCall, u32)>,
    amount: i128,
    sequence: u32,
)
    requires
        amount > 0,
    ensures
        ({
            let pool = pool_over(calls);
            let withdrawn = moved_over(calls, true, sequence, 5);
            empty_state().after_calls(calls).fee_result(amount, sequence).flash_loan_detected <==> {
                &&& pool > 0
                &&& 2 * amount > pool || 2 * (withdrawn + amount) > pool
            }
        }),
{
    law_pool_over_history(calls);
    law_window_is_sum_of_movements(calls, sequence);
    lemma_moved_is_not_negative(calls, true, sequence, 5);
}

/// A movement changes the pool and the volume of its own block, and nothing else: a deposit raises
/// the total of the block by its amount and leaves the withdrawals, a withdrawal raises both. A
/// volume beyond the largest amount stops there.
pub proof fn law_movement_touches_one_block(
    state: FeeState,
    sequence: u32,
    amount: i128,
    block: u32,
)
    requires
        amount > 0,
    ensures
        ({
            let deposited = state.after_deposit(sequence, amount);
            let withdrawn = state.after_withdrawal(sequence, amount);
            let old_total = if state.blocks.contains_key(sequence) {
                state.blocks[sequence].total as int
            } else {
                0
            };
            let old_withdrawn = if state.blocks.contains_key(sequence) {
                state.blocks[sequence].withdrawn as int
            } else {
                0
            };
            &&& deposited.fee_config == state.fee_config
            &&& withdrawn.fee_config == state.fee_config
            &&& deposited.pool_volume is Some
            &&& withdrawn.pool_volume is Some
            &&& block != sequence ==> {
                &&& deposited.blocks.contains_key(block) == state.blocks.contains_key(block)
                &&& withdrawn.blocks.contains_key(block) == state.blocks.contains_key(block)
                &&& deposited.blocks[block] == state.blocks[block]
                &&& withdrawn.blocks[block] == state.blocks[block]
            }
            &&& deposited.blocks.contains_key(sequence)
            &&& withdrawn.blocks.contains_key(sequence)
            &&& deposited.blocks[sequence].withdrawn == old_withdrawn
            &&& old_total + amount <= i128::MAX ==> {
                &&& deposited.blocks[sequence].total == old_total + amount
                &&& withdrawn.blocks[sequence].total == old_total + amount
            }
            &&& old_total + amount > i128::MAX ==> {
                &&& deposited.blocks[sequence].total == i128::MAX
                &&& withdrawn.blocks[sequence].total == i128::MAX
            }
            &&& old_withdrawn + amount <= i128::MAX ==> withdrawn.blocks[sequence].withdrawn
                == old_withdrawn + amount
            &&& old_withdrawn + amount > i128::MAX ==> withdrawn.blocks[sequence].withdrawn
                == i128::MAX
        }),
{
}

/// A recorded movement writes the pool and its block, in that order, and publishes once, with the
/// pool that it leaves.
pub proof fn law_movement_is_published(sequence: u32, pool_volume: i128)
    ensures
        movement_effects(sequence, pool_volume).len() == 3,
        movement_effects(sequence, pool_volume)[0] == Effect::<FeeKey, FeeEvent>::Write(
            FeeKey::PoolVolume,
        ),
        movement_effects(sequence, pool_volume)[1] == Effect::<FeeKey, FeeEvent>::Publish(
            FeeEvent::VolumeUpdated { pool_volume },
        ),
        movement_effects(sequence, pool_volume)[2] == Effect::<FeeKey, FeeEvent>::Write(
            FeeKey::BlockVolume(sequence),
        ),
{
}

/// A new contract has nothing stored.
pub proof fn law_new_contract_is_empty(block: u32)
    ensures
        empty_state().fee_config is None,
        empty_state().pool_volume is None,
        !empty_state().blocks.contains_key(block),
{
}

} // verus!
