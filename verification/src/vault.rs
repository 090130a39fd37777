//! Multi-signature vault with a timelock.
//!
//! A withdrawal is proposed by one of the vault's signers, collects the signatures of others, and
//! can be executed once it has as many as the threshold says and a mandatory number of ledger
//! blocks has passed. Any single signer can freeze the vault.

use crate::host::Address;
use crate::host::Effect;
use crate::host::Env;
use crate::host::Transfer;
use crate::table::Table;
use vstd::prelude::*;

verus! {

/// Ledger blocks that must pass before a proposal can be executed.
pub const TIMELOCK_BLOCKS: u32 = 100_000;

/// Largest number of signers.
pub const MAX_SIGNERS: u32 = 5;

/// Signature threshold where none was chosen.
pub const DEFAULT_THRESHOLD: u32 = 3;

/// Names of the stored entries.
#[derive(Clone, Copy, Debug, PartialEq, Eq, Structural)]
pub enum DataKey {
    Admin,
    Signers,
    Threshold,
    Frozen,
    Nonce,
    PendingTx(u64),
    TxCounter,
}

/// A withdrawal that waits for signatures and for the timelock.
#[derive(Debug)]
pub struct PendingTransaction {
    /// Unique transaction id.
    pub id: u64,
    /// Token to be transferred.
    pub token: Address,
    /// Destination of the transfer.
    pub recipient: Address,
    /// Amount to be transferred.
    pub amount: i128,
    /// Ledger block at which the transaction was proposed.
    pub proposed_at: u32,
    /// Ledger block from which on the transaction can be executed.
    pub executable_after: u32,
    /// Addresses that have signed, in order.
    pub signatures: Vec<Address>,
    /// Whether the transaction was executed.
    pub executed: bool,
    /// Whether the transaction was cancelled.
    pub cancelled: bool,
    /// Nonce of the vault when the transaction was proposed.
    pub nonce: u64,
}

/// A pending transaction with its signatures as a sequence.
#[verifier::ext_equal]
pub struct Proposal {
    pub id: u64,
    pub token: Address,
    pub recipient: Address,
    pub amount: i128,
    pub proposed_at: u32,
    pub executable_after: u32,
    pub signatures: Seq<Address>,
    pub executed: bool,
    pub cancelled: bool,
    pub nonce: u64,
}

impl View for PendingTransaction {
    type V = Proposal;

    open spec fn view(&self) -> Proposal {
        Proposal {
            id: self.id,
            token: self.token,
            recipient: self.recipient,
            amount: self.amount,
            proposed_at: self.proposed_at,
            executable_after: self.executable_after,
            signatures: self.signatures@,
            executed: self.executed,
            cancelled: self.cancelled,
            nonce: self.nonce,
        }
    }
}

/// A copy of a list of addresses.
fn copy_addresses(list: &Vec<Address>) -> (copy: Vec<Address>)
    ensures
        copy@ == list@,
{
    let copy = list.clone();
    assert(copy@ =~= list@);
    copy
}

impl Clone for PendingTransaction {
    fn clone(&self) -> (copy: Self)
        ensures
            copy@ == self@,
    {
        PendingTransaction {
            id: self.id,
            token: self.token,
            recipient: self.recipient,
            amount: self.amount,
            proposed_at: self.proposed_at,
            executable_after: self.executable_after,
            signatures: copy_addresses(&self.signatures),
            executed: self.executed,
            cancelled: self.cancelled,
            nonce: self.nonce,
        }
    }
}

/// Why a vault call was refused.
#[derive(Clone, Copy, Debug, PartialEq, Eq, Structural)]
pub enum VaultError {
    AlreadyInitialized,
    NotInitialized,
    Unauthorized,
    VaultFrozen,
    VaultNotFrozen,
    TooManySigners,
    InvalidThreshold,
    TxNotFound,
    TxAlreadyExecuted,
    TxAlreadyCancelled,
    TimelockNotExpired,
    AlreadySigned,
    ThresholdNotMet,
    InvalidAmount,
    DuplicateSigner,
}

impl VaultError {
    /// The number under which callers of the contract see this error.
    pub open spec fn spec_code(self) -> u32 {
        match self {
            VaultError::AlreadyInitialized => 1,
            VaultError::NotInitialized => 2,
            VaultError::Unauthorized => 3,
            VaultError::VaultFrozen => 4,
            VaultError::VaultNotFrozen => 5,
            VaultError::TooManySigners => 6,
            VaultError::InvalidThreshold => 7,
            VaultError::TxNotFound => 8,
            VaultError::TxAlreadyExecuted => 9,
            VaultError::TxAlreadyCancelled => 10,
            VaultError::TimelockNotExpired => 11,
            VaultError::AlreadySigned => 12,
            VaultError::ThresholdNotMet => 13,
            VaultError::InvalidAmount => 14,
            VaultError::DuplicateSigner => 15,
        }
    }

    /// The number under which callers of the contract see this error.
    pub fn code(self) -> (code: u32)
        ensures
            code == self.spec_code(),
    {
        match self {
            VaultError::AlreadyInitialized => 1,
            VaultError::NotInitialized => 2,
            VaultError::Unauthorized => 3,
            VaultError::VaultFrozen => 4,
            VaultError::VaultNotFrozen => 5,
            VaultError::TooManySigners => 6,
            VaultError::InvalidThreshold => 7,
            VaultError::TxNotFound => 8,
            VaultError::TxAlreadyExecuted => 9,
            VaultError::TxAlreadyCancelled => 10,
            VaultError::TimelockNotExpired => 11,
            VaultError::AlreadySigned => 12,
            VaultError::ThresholdNotMet => 13,
            VaultError::InvalidAmount => 14,
            VaultError::DuplicateSigner => 15,
        }
    }
}

/// Events of the vault.
#[derive(Clone, Copy, Debug, PartialEq, Eq, Structural)]
pub enum VaultEvent {
    /// `vlt_init`: the vault was initialized.
    Initialized { admin: Address },
    /// `tx_prop`: a withdrawal was proposed.
    Proposed {
        tx_id: u64,
        proposer: Address,
        token: Address,
        recipient: Address,
        amount: i128,
        executable_after: u32,
    },
    /// `tx_sign`: a signature was added.
    Signed { tx_id: u64, signer: Address, count: u32 },
    /// `tx_exec`: a withdrawal was executed.
    Executed { tx_id: u64, recipient: Address, amount: i128 },
    /// `tx_cncl`: a withdrawal was cancelled.
    Cancelled { tx_id: u64, canceller: Address },
    /// `vlt_frz`: the vault was frozen.
    Frozen { signer: Address },
    /// `vlt_ufrz`: the freeze was lifted.
    Unfrozen { admin: Address },
}

/// The stored entries of the vault.
pub struct VaultStorage {
    pub admin: Option<Address>,
    pub signers: Option<Vec<Address>>,
    pub threshold: Option<u32>,
    pub frozen: Option<bool>,
    pub nonce: Option<u64>,
    pub tx_counter: Option<u64>,
    pub pending: Table<u64, PendingTransaction>,
}

/// The environment of a vault call.
pub type VaultEnv = Env<VaultStorage, DataKey, VaultEvent>;

/// The stored entries of the vault as mathematical values.
#[verifier::ext_equal]
pub struct VaultState {
    pub admin: Option<Address>,
    pub signers: Option<Seq<Address>>,
    pub threshold: Option<u32>,
    pub frozen: Option<bool>,
    pub nonce: Option<u64>,
    pub tx_counter: Option<u64>,
    pub pending: Map<u64, Proposal>,
}

impl View for VaultStorage {
    type V = VaultState;

    open spec fn view(&self) -> VaultState {
        VaultState {
            admin: self.admin,
            signers: match self.signers {
                Some(list) => Some(list@),
                None => None,
            },
            threshold: self.threshold,
            frozen: self.frozen,
            nonce: self.nonce,
            tx_counter: self.tx_counter,
            pending: self.pending@.map_values(|tx: PendingTransaction| tx@),
        }
    }
}

impl VaultStorage {
    /// Storage of a vault that was not initialized yet.
    pub fn new() -> (storage: Self)
        ensures
            storage@ == empty_state(),
    {
        VaultStorage {
            admin: None,
            signers: None,
            threshold: None,
            frozen: None,
            nonce: None,
            tx_counter: None,
            pending: Table::new(),
        }
    }
}

/// The state of a vault that was not initialized yet.
pub open spec fn empty_state() -> VaultState {
    VaultState {
        admin: None,
        signers: None,
        threshold: None,
        frozen: None,
        nonce: None,
        tx_counter: None,
        pending: Map::empty(),
    }
}

/// The threshold that `initialize` takes: zero stands for the default.
pub open spec fn chosen_threshold(threshold: u32) -> u32 {
    if threshold == 0 {
        DEFAULT_THRESHOLD
    } else {
        threshold
    }
}

impl Proposal {
    /// The proposal with one more signature.
    pub open spec fn with_signature(self, signer: Address) -> Proposal {
        Proposal { signatures: self.signatures.push(signer), ..self }
    }

    /// The proposal after its execution.
    pub open spec fn as_executed(self) -> Proposal {
        Proposal { executed: true, ..self }
    }

    /// The proposal after its cancellation.
    pub open spec fn as_cancelled(self) -> Proposal {
        Proposal { cancelled: true, ..self }
    }

    /// What holds of every proposal of a vault with these signers and this threshold: it moves a
    /// positive amount, waits for the whole timelock, bears signatures of different signers of the
    /// vault, and has ended in at most one way, which took a threshold of signatures.
    pub open spec fn wf(self, signers: Seq<Address>, threshold: u32) -> bool {
        &&& self.amount > 0
        &&& self.executable_after == self.proposed_at + TIMELOCK_BLOCKS
        &&& self.signatures.len() > 0
        &&& self.signatures.no_duplicates()
        &&& forall|i: int|
            0 <= i < self.signatures.len() ==> signers.contains(#[trigger] self.signatures[i])
        &&& !(self.executed && self.cancelled)
        &&& self.executed || self.cancelled ==> self.signatures.len() >= threshold
    }
}

impl VaultState {
    /// The vault is frozen.
    pub open spec fn is_frozen(self) -> bool {
        self.frozen == Some(true)
    }

    /// The number of signatures that a proposal needs.
    pub open spec fn quorum(self) -> u32 {
        match self.threshold {
            Some(threshold) => threshold,
            None => DEFAULT_THRESHOLD,
        }
    }

    /// The current nonce.
    pub open spec fn next_nonce(self) -> u64 {
        match self.nonce {
            Some(nonce) => nonce,
            None => 0,
        }
    }

    /// The id of the next proposal.
    pub open spec fn next_id(self) -> u64 {
        match self.tx_counter {
            Some(counter) => counter,
            None => 0,
        }
    }

    /// The counters and the timelock of one more proposal at ledger block `sequence` can be
    /// represented.
    pub open spec fn has_room(self, sequence: u32) -> bool {
        &&& sequence + TIMELOCK_BLOCKS <= u32::MAX
        &&& self.next_id() < u64::MAX
        &&& self.next_nonce() < u64::MAX
    }

    /// A vault that was initialized has between one and five different signers, a threshold that
    /// they can meet, and proposals numbered from zero on, all of them well formed. A vault that
    /// was not has nothing stored.
    pub open spec fn wf(self) -> bool {
        if self.admin is None {
            self == empty_state()
        } else {
            &&& self.signers is Some
            &&& 1 <= self.signers->0.len() <= MAX_SIGNERS
            &&& self.signers->0.no_duplicates()
            &&& self.threshold is Some
            &&& 1 <= self.threshold->0 <= self.signers->0.len()
            &&& self.frozen is Some
            &&& self.nonce is Some
            &&& self.tx_counter is Some
            &&& self.nonce == self.tx_counter
            &&& forall|id: u64|
                #[trigger] self.pending.contains_key(id) <==> id < self.tx_counter->0
            &&& forall|id: u64| #[trigger]
                self.pending.contains_key(id) ==> {
                    &&& self.pending[id].id == id
                    &&& self.pending[id].nonce == id
                    &&& self.pending[id].wf(self.signers->0, self.threshold->0)
                }
        }
    }

    /// Why a call that only a signer may make is refused, if it is.
    pub open spec fn signer_error(self, who: Address) -> Option<VaultError> {
        match self.signers {
            None => Some(VaultError::NotInitialized),
            Some(list) => if list.contains(who) {
                None
            } else {
                Some(VaultError::Unauthorized)
            },
        }
    }

    /// Why a proposal is no longer open, if it is not.
    pub open spec fn open_error(self, tx_id: u64) -> Option<VaultError> {
        if !self.pending.contains_key(tx_id) {
            Some(VaultError::TxNotFound)
        } else if self.pending[tx_id].executed {
            Some(VaultError::TxAlreadyExecuted)
        } else if self.pending[tx_id].cancelled {
            Some(VaultError::TxAlreadyCancelled)
        } else {
            None
        }
    }

    /// Why `initialize` refuses a vault that was not initialized yet, if it does.
    pub open spec fn setup_error(signers: Seq<Address>, threshold: u32) -> Option<VaultError> {
        if signers.len() == 0 || signers.len() > MAX_SIGNERS {
            Some(VaultError::TooManySigners)
        } else if chosen_threshold(threshold) > signers.len() {
            Some(VaultError::InvalidThreshold)
        } else if !signers.no_duplicates() {
            Some(VaultError::DuplicateSigner)
        } else {
            None
        }
    }

    /// Why `propose` refuses before it asks for authorization, if it does.
    pub open spec fn propose_gate(self) -> Option<VaultError> {
        if self.is_frozen() {
            Some(VaultError::VaultFrozen)
        } else if self.admin is None {
            Some(VaultError::NotInitialized)
        } else {
            None
        }
    }

    /// Why `propose` refuses an authorized call, if it does.
    pub open spec fn propose_error(self, proposer: Address, amount: i128) -> Option<VaultError> {
        if self.propose_gate() is Some {
            self.propose_gate()
        } else if self.signer_error(proposer) is Some {
            self.signer_error(proposer)
        } else if amount <= 0 {
            Some(VaultError::InvalidAmount)
        } else {
            None
        }
    }

    /// Why `sign` refuses, if it does.
    pub open spec fn sign_error(self, signer: Address, tx_id: u64) -> Option<VaultError> {
        if self.is_frozen() {
            Some(VaultError::VaultFrozen)
        } else if self.signer_error(signer) is Some {
            self.signer_error(signer)
        } else if self.open_error(tx_id) is Some {
            self.open_error(tx_id)
        } else if self.pending[tx_id].signatures.contains(signer) {
            Some(VaultError::AlreadySigned)
        } else {
            None
        }
    }

    /// Why `cancel` refuses, if it does.
    pub open spec fn cancel_error(self, canceller: Address, tx_id: u64) -> Option<VaultError> {
        if self.signer_error(canceller) is Some {
            self.signer_error(canceller)
        } else if self.open_error(tx_id) is Some {
            self.open_error(tx_id)
        } else if self.pending[tx_id].signatures.len() < self.quorum() {
            Some(VaultError::ThresholdNotMet)
        } else {
            None
        }
    }

    /// Why `execute` refuses at ledger block `sequence`, if it does.
    pub open spec fn execute_error(self, executor: Address, tx_id: u64, sequence: u32) -> Option<
        VaultError,
    > {
        if self.is_frozen() {
            Some(VaultError::VaultFrozen)
        } else if self.cancel_error(executor, tx_id) is Some {
            self.cancel_error(executor, tx_id)
        } else if sequence < self.pending[tx_id].executable_after {
            Some(VaultError::TimelockNotExpired)
        } else {
            None
        }
    }

    /// Why `freeze` refuses, if it does.
    pub open spec fn freeze_error(self, signer: Address) -> Option<VaultError> {
        if self.admin is None {
            Some(VaultError::NotInitialized)
        } else {
            self.signer_error(signer)
        }
    }

    /// Why `unfreeze` refuses, if it does.
    pub open spec fn unfreeze_error(self, admin: Address) -> Option<VaultError> {
        if self.admin is None {
            Some(VaultError::NotInitialized)
        } else if self.admin != Some(admin) {
            Some(VaultError::Unauthorized)
        } else {
            None
        }
    }

    /// The state after initialization.
    pub open spec fn after_initialize(
        self,
        admin: Address,
        signers: Seq<Address>,
        threshold: u32,
    ) -> VaultState {
        VaultState {
            admin: Some(admin),
            signers: Some(signers),
            threshold: Some(chosen_threshold(threshold)),
            frozen: Some(false),
            nonce: Some(0u64),
            tx_counter: Some(0u64),
            pending: self.pending,
        }
    }

    /// The state in which `proposal` is stored under `tx_id`.
    pub open spec fn with_proposal(self, tx_id: u64, proposal: Proposal) -> VaultState {
        VaultState { pending: self.pending.insert(tx_id, proposal), ..self }
    }

    /// The proposal that `propose` makes at ledger block `sequence`, signed by its proposer.
    pub open spec fn new_proposal(
        self,
        proposer: Address,
        token: Address,
        recipient: Address,
        amount: i128,
        sequence: u32,
    ) -> Proposal {
        Proposal {
            id: self.next_id(),
            token,
            recipient,
            amount,
            proposed_at: sequence,
            executable_after: (sequence + TIMELOCK_BLOCKS) as u32,
            signatures: seq![proposer],
            executed: false,
            cancelled: false,
            nonce: self.next_nonce(),
        }
    }

    /// The state after a proposal was made.
    pub open spec fn after_propose(self, proposal: Proposal) -> VaultState {
        VaultState {
            nonce: Some((self.next_nonce() + 1) as u64),
            tx_counter: Some((self.next_id() + 1) as u64),
            pending: self.pending.insert(self.next_id(), proposal),
            ..self
        }
    }

    /// The state after a signature was added.
    pub open spec fn after_sign(self, signer: Address, tx_id: u64) -> VaultState {
        self.with_proposal(tx_id, self.pending[tx_id].with_signature(signer))
    }

    /// The state after an execution.
    pub open spec fn after_execute(self, tx_id: u64) -> VaultState {
        self.with_proposal(tx_id, self.pending[tx_id].as_executed())
    }

    /// The state after a cancellation.
    pub open spec fn after_cancel(self, tx_id: u64) -> VaultState {
        self.with_proposal(tx_id, self.pending[tx_id].as_cancelled())
    }

    /// The state with the freeze flag set to `frozen`.
    pub open spec fn with_frozen(self, frozen: bool) -> VaultState {
        VaultState { frozen: Some(frozen), ..self }
    }
}

/// The effects of an execution.
pub open spec fn execute_effects(
    executor: Address,
    contract: Address,
    tx_id: u64,
    proposal: Proposal,
) -> Seq<Effect<DataKey, VaultEvent>> {
    seq![
        Effect::RequireAuth(executor),
        Effect::Transfer(
            Transfer {
                token: proposal.token,
                from: contract,
                to: proposal.recipient,
                amount: proposal.amount,
            },
        ),
        Effect::Write(DataKey::PendingTx(tx_id)),
        Effect::Publish(
            VaultEvent::Executed {
                tx_id,
                recipient: proposal.recipient,
                amount: proposal.amount,
            },
        ),
    ]
}

/// Whether `who` is in the list.
fn contains_address(list: &Vec<Address>, who: &Address) -> (found: bool)
    ensures
        found == list@.contains(*who),
{
    let mut i: usize = 0;
    while i < list.len()
        invariant
            i <= list@.len(),
            forall|j: int| 0 <= j < i ==> list@[j] != *who,
        decreases list@.len() - i,
    {
        if list[i] == *who {
            assert(list@[i as int] == *who);
            return true;
        }
        i += 1;
    }
    false
}

/// Whether some address stands in the list twice.
fn has_duplicates(list: &Vec<Address>) -> (found: bool)
    ensures
        found == !list@.no_duplicates(),
{
    let mut i: usize = 0;
    while i < list.len()
        invariant
            i <= list@.len(),
            forall|a: int, b: int|
                0 <= a < i && a < b < list@.len() ==> list@[a] != list@[b],
        decreases list@.len() - i,
    {
        let mut j: usize = i + 1;
        while j < list.len()
            invariant
                i < j <= list@.len(),
                forall|b: int| i < b < j ==> list@[i as int] != list@[b],
            decreases list@.len() - j,
        {
            if list[i] == list[j] {
                assert(list@[i as int] == list@[j as int]);
                return true;
            }
            j += 1;
        }
        i += 1;
    }
    false
}

/// The vault.
pub struct VaultContract;

impl VaultContract {
    /// Initializes the vault with its signers and signature threshold; a threshold of zero stands
    /// for the default. This can be done once.
    pub fn initialize(
        env: &mut VaultEnv,
        admin: Address,
        signers: Vec<Address>,
        threshold: u32,
    ) -> (res: Result<(), VaultError>)
        ensures
            final(env).same_place(*old(env)),
            old(env).storage@.wf() ==> final(env).storage@.wf(),
            if old(env).storage@.admin is Some {
                &&& res == Err::<(), VaultError>(VaultError::AlreadyInitialized)
                &&& final(env).storage@ == old(env).storage@
                &&& final(env).effects@ == old(env).effects@
            } else {
                match VaultState::setup_error(signers@, threshold) {
                    Some(error) => {
                        &&& res == Err::<(), VaultError>(error)
                        &&& final(env).storage@ == old(env).storage@
                        &&& final(env).effects@ == old(env).effects@.push(
                            Effect::RequireAuth(admin),
                        )
                    },
                    None => {
                        &&& res == Ok::<(), VaultError>(())
                        &&& final(env).storage@ == old(env).storage@.after_initialize(
                            admin,
                            signers@,
                            threshold,
                        )
                        &&& final(env).effects@ == old(env).effects@ + seq![
                            Effect::RequireAuth(admin),
                            Effect::Write(DataKey::Admin),
                            Effect::Write(DataKey::Signers),
                            Effect::Write(DataKey::Threshold),
                            Effect::Write(DataKey::Frozen),
                            Effect::Write(DataKey::Nonce),
                            Effect::Write(DataKey::TxCounter),
                            Effect::Publish(VaultEvent::Initialized { admin }),
                        ]
                    },
                }
            },
    {
        if env.storage.admin.is_some() {
            return Err(VaultError::AlreadyInitialized);
        }
        env.emit(Effect::RequireAuth(admin));
        let n: usize = signers.len();
        if n == 0 || n > MAX_SIGNERS as usize {
            return Err(VaultError::TooManySigners);
        }
        let t: u32 = if threshold == 0 {
            DEFAULT_THRESHOLD
        } else {
            threshold
        };
        if t as usize > n {
            return Err(VaultError::InvalidThreshold);
        }
        if has_duplicates(&signers) {
            return Err(VaultError::DuplicateSigner);
        }
        env.storage.admin = Some(admin);
        env.emit(Effect::Write(DataKey::Admin));
        env.storage.signers = Some(signers);
        env.emit(Effect::Write(DataKey::Signers));
        env.storage.threshold = Some(t);
        env.emit(Effect::Write(DataKey::Threshold));
        env.storage.frozen = Some(false);
        env.emit(Effect::Write(DataKey::Frozen));
        env.storage.nonce = Some(0);
        env.emit(Effect::Write(DataKey::Nonce));
        env.storage.tx_counter = Some(0);
        env.emit(Effect::Write(DataKey::TxCounter));
        env.emit(Effect::Publish(VaultEvent::Initialized { admin }));
        Ok(())
    }

    /// Proposes a withdrawal and returns its id. The proposer must be a signer, and the proposal
    /// bears the proposer's signature from the start.
    pub fn propose(
        env: &mut VaultEnv,
        proposer: Address,
        token: Address,
        recipient: Address,
        amount: i128,
    ) -> (res: Result<u64, VaultError>)
        requires
            old(env).storage@.propose_error(proposer, amount) is None ==> old(
                env,
            ).storage@.has_room(old(env).ledger.sequence),
        ensures
            final(env).same_place(*old(env)),
            old(env).storage@.wf() ==> final(env).storage@.wf(),
            match old(env).storage@.propose_error(proposer, amount) {
                Some(error) => {
                    &&& res == Err::<u64, VaultError>(error)
                    &&& final(env).storage@ == old(env).storage@
                    &&& final(env).effects@ == (if old(env).storage@.propose_gate() is Some {
                        old(env).effects@
                    } else {
                        old(env).effects@.push(Effect::RequireAuth(proposer))
                    })
                },
                None => {
                    let tx_id = old(env).storage@.next_id();
                    let proposal = old(env).storage@.new_proposal(
                        proposer,
                        token,
                        recipient,
                        amount,
                        old(env).ledger.sequence,
                    );
                    &&& res == Ok::<u64, VaultError>(tx_id)
                    &&& final(env).storage@ == old(env).storage@.after_propose(proposal)
                    &&& final(env).effects@ == old(env).effects@ + seq![
                        Effect::RequireAuth(proposer),
                        Effect::Write(DataKey::PendingTx(tx_id)),
                        Effect::Write(DataKey::TxCounter),
                        Effect::Write(DataKey::Nonce),
                        Effect::Publish(
                            VaultEvent::Proposed {
                                tx_id,
                                proposer,
                                token,
                                recipient,
                                amount,
                                executable_after: proposal.executable_after,
                            },
                        ),
                    ]
                },
            },
    {
        match Self::assert_not_frozen(env) {
            Err(error) => {
                return Err(error);
            },
            Ok(_) => {},
        }
        match Self::assert_initialized(env) {
            Err(error) => {
                return Err(error);
            },
            Ok(_) => {},
        }
        env.emit(Effect::RequireAuth(proposer));
        match Self::assert_is_signer(env, &proposer) {
            Err(error) => {
                return Err(error);
            },
            Ok(_) => {},
        }
        if amount <= 0 {
            return Err(VaultError::InvalidAmount);
        }
        let nonce: u64 = Self::nonce(env);
        let tx_id: u64 = match env.storage.tx_counter {
            Some(counter) => counter,
            None => 0,
        };
        let current_block: u32 = env.ledger.sequence;
        let executable_after: u32 = current_block + TIMELOCK_BLOCKS;
        let mut signatures: Vec<Address> = Vec::new();
        signatures.push(proposer);
        let pending = PendingTransaction {
            id: tx_id,
            token,
            recipient,
            amount,
            proposed_at: current_block,
            executable_after,
            signatures,
            executed: false,
            cancelled: false,
            nonce,
        };
        assert(pending@.signatures =~= seq![proposer]);
        env.storage.pending.set(tx_id, pending);
        env.emit(Effect::Write(DataKey::PendingTx(tx_id)));
        env.storage.tx_counter = Some(tx_id + 1);
        env.emit(Effect::Write(DataKey::TxCounter));
        env.storage.nonce = Some(nonce + 1);
        env.emit(Effect::Write(DataKey::Nonce));
        env.emit(
            Effect::Publish(
                VaultEvent::Proposed {
                    tx_id,
                    proposer,
                    token,
                    recipient,
                    amount,
                    executable_after,
                },
            ),
        );
        proof {
            let before = old(env).storage@;
            let proposal = before.new_proposal(
                proposer,
                token,
                recipient,
                amount,
                old(env).ledger.sequence,
            );
            assert(env.storage@ =~= before.after_propose(proposal));
            if before.wf() {
                law_propose_keeps_well_formed(
                    before,
                    proposer,
                    token,
                    recipient,
                    amount,
                    old(env).ledger.sequence,
                );
            }
        }
        Ok(tx_id)
    }

    /// Adds a signature to a pending transaction and returns how many it then has.
    pub fn sign(env: &mut VaultEnv, signer: Address, tx_id: u64) -> (res: Result<u32, VaultError>)
        requires
            old(env).storage@.sign_error(signer, tx_id) is None ==> old(
                env,
            ).storage@.pending[tx_id].signatures.len() < u32::MAX,
        ensures
            final(env).same_place(*old(env)),
            old(env).storage@.wf() ==> final(env).storage@.wf(),
            match old(env).storage@.sign_error(signer, tx_id) {
                Some(error) => {
                    &&& res == Err::<u32, VaultError>(error)
                    &&& final(env).storage@ == old(env).storage@
                    &&& final(env).effects@ == (if old(env).storage@.is_frozen() {
                        old(env).effects@
                    } else {
                        old(env).effects@.push(Effect::RequireAuth(signer))
                    })
                },
                None => {
                    let count = (old(env).storage@.pending[tx_id].signatures.len() + 1) as u32;
                    &&& res == Ok::<u32, VaultError>(count)
                    &&& final(env).storage@ == old(env).storage@.after_sign(signer, tx_id)
                    &&& final(env).effects@ == old(env).effects@ + seq![
                        Effect::RequireAuth(signer),
                        Effect::Write(DataKey::PendingTx(tx_id)),
                        Effect::Publish(VaultEvent::Signed { tx_id, signer, count }),
                    ]
                },
            },
    {
        match Self::assert_not_frozen(env) {
            Err(error) => {
                return Err(error);
            },
            Ok(_) => {},
        }
        env.emit(Effect::RequireAuth(signer));
        match Self::assert_is_signer(env, &signer) {
            Err(error) => {
                return Err(error);
            },
            Ok(_) => {},
        }
        let mut tx = match Self::open_transaction(env, tx_id) {
            Err(error) => {
                return Err(error);
            },
            Ok(tx) => tx,
        };
        if contains_address(&tx.signatures, &signer) {
            return Err(VaultError::AlreadySigned);
        }
        tx.signatures.push(signer);
        let count: u32 = tx.signatures.len() as u32;
        env.storage.pending.set(tx_id, tx);
        env.emit(Effect::Write(DataKey::PendingTx(tx_id)));
        env.emit(Effect::Publish(VaultEvent::Signed { tx_id, signer, count }));
        proof {
            assert(env.storage@ =~= old(env).storage@.after_sign(signer, tx_id));
            if old(env).storage@.wf() {
                law_sign_keeps_well_formed(old(env).storage@, signer, tx_id);
            }
        }
        Ok(count)
    }

    /// Executes a pending transaction once it has a threshold of signatures and the timelock has
    /// expired.
    pub fn execute(env: &mut VaultEnv, executor: Address, tx_id: u64) -> (res: Result<
        (),
        VaultError,
    >)
        ensures
            final(env).same_place(*old(env)),
            old(env).storage@.wf() ==> final(env).storage@.wf(),
            match old(env).storage@.execute_error(executor, tx_id, old(env).ledger.sequence) {
                Some(error) => {
                    &&& res == Err::<(), VaultError>(error)
                    &&& final(env).storage@ == old(env).storage@
                    &&& final(env).effects@ == (if old(env).storage@.is_frozen() {
                        old(env).effects@
                    } else {
                        old(env).effects@.push(Effect::RequireAuth(executor))
                    })
                },
                None => {
                    &&& res == Ok::<(), VaultError>(())
                    &&& final(env).storage@ == old(env).storage@.after_execute(tx_id)
                    &&& final(env).effects@ == old(env).effects@ + execute_effects(
                        executor,
                        old(env).contract,
                        tx_id,
                        old(env).storage@.pending[tx_id],
                    )
                },
            },
    {
        match Self::assert_not_frozen(env) {
            Err(error) => {
                return Err(error);
            },
            Ok(_) => {},
        }
        env.emit(Effect::RequireAuth(executor));
        match Self::assert_is_signer(env, &executor) {
            Err(error) => {
                return Err(error);
            },
            Ok(_) => {},
        }
        let mut tx = match Self::open_transaction(env, tx_id) {
            Err(error) => {
                return Err(error);
            },
            Ok(tx) => tx,
        };
        if tx.signatures.len() < Self::threshold(env) as usize {
            return Err(VaultError::ThresholdNotMet);
        }
        let current_block: u32 = env.ledger.sequence;
        if current_block < tx.executable_after {
            return Err(VaultError::TimelockNotExpired);
        }
        let contract = env.contract;
        env.emit(
            Effect::Transfer(
                Transfer {
                    token: tx.token,
                    from: contract,
                    to: tx.recipient,
                    amount: tx.amount,
                },
            ),
        );
        let recipient = tx.recipient;
        let amount: i128 = tx.amount;
        tx.executed = true;
        env.storage.pending.set(tx_id, tx);
        env.emit(Effect::Write(DataKey::PendingTx(tx_id)));
        env.emit(Effect::Publish(VaultEvent::Executed { tx_id, recipient, amount }));
        proof {
            assert(env.storage@ =~= old(env).storage@.after_execute(tx_id));
            if old(env).storage@.wf() {
                law_ending_keeps_well_formed(old(env).storage@, executor, tx_id);
            }
        }
        Ok(())
    }

    /// Cancels a pending transaction that has a threshold of signatures.
    pub fn cancel(env: &mut VaultEnv, canceller: Address, tx_id: u64) -> (res: Result<
        (),
        VaultError,
    >)
        ensures
            final(env).same_place(*old(env)),
            old(env).storage@.wf() ==> final(env).storage@.wf(),
            match old(env).storage@.cancel_error(canceller, tx_id) {
                Some(error) => {
                    &&& res == Err::<(), VaultError>(error)
                    &&& final(env).storage@ == old(env).storage@
                    &&& final(env).effects@ == old(env).effects@.push(
                        Effect::RequireAuth(canceller),
                    )
                },
                None => {
                    &&& res == Ok::<(), VaultError>(())
                    &&& final(env).storage@ == old(env).storage@.after_cancel(tx_id)
                    &&& final(env).effects@ == old(env).effects@ + seq![
                        Effect::RequireAuth(canceller),
                        Effect::Write(DataKey::PendingTx(tx_id)),
                        Effect::Publish(VaultEvent::Cancelled { tx_id, canceller }),
                    ]
                },
            },
    {
        env.emit(Effect::RequireAuth(canceller));
        match Self::assert_is_signer(env, &canceller) {
            Err(error) => {
                return Err(error);
            },
            Ok(_) => {},
        }
        let mut tx = match Self::open_transaction(env, tx_id) {
            Err(error) => {
                return Err(error);
            },
            Ok(tx) => tx,
        };
        if tx.signatures.len() < Self::threshold(env) as usize {
            return Err(VaultError::ThresholdNotMet);
        }
        tx.cancelled = true;
        env.storage.pending.set(tx_id, tx);
        env.emit(Effect::Write(DataKey::PendingTx(tx_id)));
        env.emit(Effect::Publish(VaultEvent::Cancelled { tx_id, canceller }));
        proof {
            assert(env.storage@ =~= old(env).storage@.after_cancel(tx_id));
            if old(env).storage@.wf() {
                law_ending_keeps_well_formed(old(env).storage@, canceller, tx_id);
            }
        }
        Ok(())
    }

    /// Freezes the vault. Any single signer can do so.
    pub fn freeze(env: &mut VaultEnv, signer: Address) -> (res: Result<(), VaultError>)
        ensures
            final(env).same_place(*old(env)),
            old(env).storage@.wf() ==> final(env).storage@.wf(),
            match old(env).storage@.freeze_error(signer) {
                Some(error) => {
                    &&& res == Err::<(), VaultError>(error)
                    &&& final(env).storage@ == old(env).storage@
                    &&& final(env).effects@ == old(env).effects@.push(Effect::RequireAuth(signer))
                },
                None => {
                    &&& res == Ok::<(), VaultError>(())
                    &&& final(env).storage@ == old(env).storage@.with_frozen(true)
                    &&& final(env).effects@ == old(env).effects@ + seq![
                        Effect::RequireAuth(signer),
                        Effect::Write(DataKey::Frozen),
                        Effect::Publish(VaultEvent::Frozen { signer }),
                    ]
                },
            },
    {
        env.emit(Effect::RequireAuth(signer));
        match Self::assert_initialized(env) {
            Err(error) => {
                return Err(error);
            },
            Ok(_) => {},
        }
        match Self::assert_is_signer(env, &signer) {
            Err(error) => {
                return Err(error);
            },
            Ok(_) => {},
        }
        env.storage.frozen = Some(true);
        env.emit(Effect::Write(DataKey::Frozen));
        env.emit(Effect::Publish(VaultEvent::Frozen { signer }));
        Ok(())
    }

    /// Lifts the freeze. Only the admin can do so.
    pub fn unfreeze(env: &mut VaultEnv, admin: Address) -> (res: Result<(), VaultError>)
        ensures
            final(env).same_place(*old(env)),
            old(env).storage@.wf() ==> final(env).storage@.wf(),
            match old(env).storage@.unfreeze_error(admin) {
                Some(error) => {
                    &&& res == Err::<(), VaultError>(error)
                    &&& final(env).storage@ == old(env).storage@
                    &&& final(env).effects@ == old(env).effects@.push(Effect::RequireAuth(admin))
                },
                None => {
                    &&& res == Ok::<(), VaultError>(())
                    &&& final(env).storage@ == old(env).storage@.with_frozen(false)
                    &&& final(env).effects@ == old(env).effects@ + seq![
                        Effect::RequireAuth(admin),
                        Effect::Write(DataKey::Frozen),
                        Effect::Publish(VaultEvent::Unfrozen { admin }),
                    ]
                },
            },
    {
        env.emit(Effect::RequireAuth(admin));
        match env.storage.admin {
            None => {
                return Err(VaultError::NotInitialized);
            },
            Some(stored_admin) => {
                if admin != stored_admin {
                    return Err(VaultError::Unauthorized);
                }
            },
        }
        env.storage.frozen = Some(false);
        env.emit(Effect::Write(DataKey::Frozen));
        env.emit(Effect::Publish(VaultEvent::Unfrozen { admin }));
        Ok(())
    }

    /// Whether the vault is frozen.
    pub fn is_frozen(env: &VaultEnv) -> (frozen: bool)
        ensures
            frozen == env.storage@.is_frozen(),
    {
        match env.storage.frozen {
            Some(frozen) => frozen,
            None => false,
        }
    }

    /// The current nonce.
    pub fn nonce(env: &VaultEnv) -> (nonce: u64)
        ensures
            nonce == env.storage@.next_nonce(),
    {
        match env.storage.nonce {
            Some(nonce) => nonce,
            None => 0,
        }
    }

    /// The signers of the vault.
    pub fn signers(env: &VaultEnv) -> (signers: Vec<Address>)
        ensures
            signers@ == (match env.storage@.signers {
                Some(list) => list,
                None => Seq::empty(),
            }),
    {
        match &env.storage.signers {
            Some(list) => copy_addresses(list),
            None => Vec::new(),
        }
    }

    /// The number of signatures that a transaction needs.
    pub fn threshold(env: &VaultEnv) -> (threshold: u32)
        ensures
            threshold == env.storage@.quorum(),
    {
        match env.storage.threshold {
            Some(threshold) => threshold,
            None => DEFAULT_THRESHOLD,
        }
    }

    /// The transaction with this id, whether it is still pending or not.
    pub fn get_pending_tx(env: &VaultEnv, tx_id: u64) -> (tx: Option<PendingTransaction>)
        ensures
            match tx {
                Some(tx) => env.storage@.pending.contains_key(tx_id) && tx@
                    == env.storage@.pending[tx_id],
                None => !env.storage@.pending.contains_key(tx_id),
            },
    {
        match env.storage.pending.get(&tx_id) {
            Some(tx) => Some(tx.clone()),
            None => None,
        }
    }

    /// The transaction with this id, if it was neither executed nor cancelled.
    fn open_transaction(env: &VaultEnv, tx_id: u64) -> (res: Result<PendingTransaction, VaultError>)
        ensures
            match env.storage@.open_error(tx_id) {
                Some(error) => res == Err::<PendingTransaction, VaultError>(error),
                None => res is Ok && res->Ok_0@ == env.storage@.pending[tx_id],
            },
    {
        match env.storage.pending.get(&tx_id) {
            None => Err(VaultError::TxNotFound),
            Some(tx) => {
                if tx.executed {
                    return Err(VaultError::TxAlreadyExecuted);
                }
                if tx.cancelled {
                    return Err(VaultError::TxAlreadyCancelled);
                }
                Ok(tx.clone())
            },
        }
    }

    fn assert_initialized(env: &VaultEnv) -> (res: Result<(), VaultError>)
        ensures
            res == (if env.storage@.admin is Some {
                Ok::<(), VaultError>(())
            } else {
                Err(VaultError::NotInitialized)
            }),
    {
        if env.storage.admin.is_none() {
            return Err(VaultError::NotInitialized);
        }
        Ok(())
    }

    fn assert_not_frozen(env: &VaultEnv) -> (res: Result<(), VaultError>)
        ensures
            res == (if env.storage@.is_frozen() {
                Err::<(), VaultError>(VaultError::VaultFrozen)
            } else {
                Ok(())
            }),
    {
        if Self::is_frozen(env) {
            return Err(VaultError::VaultFrozen);
        }
        Ok(())
    }

    fn assert_is_signer(env: &VaultEnv, addr: &Address) -> (res: Result<(), VaultError>)
        ensures
            res == (match env.storage@.signer_error(*addr) {
                Some(error) => Err::<(), VaultError>(error),
                None => Ok(()),
            }),
    {
        match &env.storage.signers {
            None => Err(VaultError::NotInitialized),
            Some(list) => if contains_address(list, addr) {
                Ok(())
            } else {
                Err(VaultError::Unauthorized)
            },
        }
    }
}

// Laws

/// Initialization makes a well-formed vault.
pub proof fn law_initialize_makes_well_formed(
    admin: Address,
    signers: Seq<Address>,
    threshold: u32,
)
    requires
        VaultState::setup_error(signers, threshold) is None,
    ensures
        empty_state().wf(),
        empty_state().after_initialize(admin, signers, threshold).wf(),
{
}

/// A proposal keeps the vault well formed.
pub proof fn law_propose_keeps_well_formed(
    state: VaultState,
    proposer: Address,
    token: Address,
    recipient: Address,
    amount: i128,
    sequence: u32,
)
    requires
        state.wf(),
        state.propose_error(proposer, amount) is None,
        state.has_room(sequence),
    ensures
        state.after_propose(
            state.new_proposal(proposer, token, recipient, amount, sequence),
        ).wf(),
{
    let proposal = state.new_proposal(proposer, token, recipient, amount, sequence);
    let after = state.after_propose(proposal);
    assert(proposal.wf(state.signers->0, state.threshold->0));
    assert forall|id: u64| #[trigger] after.pending.contains_key(id) implies {
        &&& after.pending[id].id == id
        &&& after.pending[id].nonce == id
        &&& after.pending[id].wf(after.signers->0, after.threshold->0)
    } by {
        if id != state.next_id() {
            assert(state.pending.contains_key(id));
        }
    }
}

/// A signature keeps the vault well formed.
pub proof fn law_sign_keeps_well_formed(state: VaultState, signer: Address, tx_id: u64)
    requires
        state.wf(),
        state.sign_error(signer, tx_id) is None,
    ensures
        state.after_sign(signer, tx_id).wf(),
{
    let after = state.after_sign(signer, tx_id);
    let signed = state.pending[tx_id].with_signature(signer);
    assert forall|i: int| 0 <= i < signed.signatures.len() implies state.signers->0.contains(
        #[trigger] signed.signatures[i],
    ) by {
        if i < state.pending[tx_id].signatures.len() {
            assert(signed.signatures[i] == state.pending[tx_id].signatures[i]);
        }
    }
    assert(signed.signatures.no_duplicates());
    assert(signed.wf(state.signers->0, state.threshold->0));
    assert forall|id: u64| #[trigger] after.pending.contains_key(id) implies {
        &&& after.pending[id].id == id
        &&& after.pending[id].nonce == id
        &&& after.pending[id].wf(after.signers->0, after.threshold->0)
    } by {
        assert(state.pending.contains_key(id));
    }
}

/// Executing or cancelling a transaction keeps the vault well formed.
pub proof fn law_ending_keeps_well_formed(state: VaultState, who: Address, tx_id: u64)
    requires
        state.wf(),
        state.cancel_error(who, tx_id) is None,
    ensures
        state.after_execute(tx_id).wf(),
        state.after_cancel(tx_id).wf(),
{
    let executed = state.after_execute(tx_id);
    let cancelled = state.after_cancel(tx_id);
    assert(state.pending.contains_key(tx_id));
    assert forall|id: u64| #[trigger] executed.pending.contains_key(id) implies {
        &&& executed.pending[id].id == id
        &&& executed.pending[id].nonce == id
        &&& executed.pending[id].wf(executed.signers->0, executed.threshold->0)
    } by {
        assert(state.pending.contains_key(id));
    }
    assert forall|id: u64| #[trigger] cancelled.pending.contains_key(id) implies {
        &&& cancelled.pending[id].id == id
        &&& cancelled.pending[id].nonce == id
        &&& cancelled.pending[id].wf(cancelled.signers->0, cancelled.threshold->0)
    } by {
        assert(state.pending.contains_key(id));
    }
}

/// Freezing and unfreezing keep the vault well formed, and unfreezing undoes freezing.
pub proof fn law_unfreezing_undoes_freezing(state: VaultState)
    requires
        state.wf(),
        state.admin is Some,
    ensures
        state.with_frozen(true).wf(),
        state.with_frozen(true).is_frozen(),
        state.with_frozen(true).with_frozen(false).wf(),
        !state.is_frozen() ==> state.with_frozen(true).with_frozen(false) == state,
{
}

/// Every signer alone can freeze the vault.
pub proof fn law_one_signer_can_freeze(state: VaultState, signer: Address)
    requires
        state.wf(),
        state.signers is Some,
        state.signers->0.contains(signer),
    ensures
        state.freeze_error(signer) is None,
{
}

/// While the vault is frozen nobody can propose, sign or execute.
pub proof fn law_frozen_vault_moves_nothing(
    state: VaultState,
    who: Address,
    amount: i128,
    tx_id: u64,
    sequence: u32,
)
    requires
        state.is_frozen(),
    ensures
        state.propose_error(who, amount) == Some(VaultError::VaultFrozen),
        state.sign_error(who, tx_id) == Some(VaultError::VaultFrozen),
        state.execute_error(who, tx_id, sequence) == Some(VaultError::VaultFrozen),
{
}

/// A transaction is executed only by a signer, in a vault that is not frozen, with signatures of
/// at least a threshold of different signers, and after the whole timelock.
pub proof fn law_execution_conditions(
    state: VaultState,
    executor: Address,
    tx_id: u64,
    sequence: u32,
)
    requires
        state.wf(),
        state.execute_error(executor, tx_id, sequence) is None,
    ensures
        !state.is_frozen(),
        state.signers is Some,
        state.signers->0.contains(executor),
        state.pending.contains_key(tx_id),
        !state.pending[tx_id].executed,
        !state.pending[tx_id].cancelled,
        state.pending[tx_id].signatures.no_duplicates(),
        state.pending[tx_id].signatures.len() >= state.quorum(),
        forall|i: int|
            0 <= i < state.pending[tx_id].signatures.len() ==> state.signers->0.contains(
                #[trigger] state.pending[tx_id].signatures[i],
            ),
        sequence >= state.pending[tx_id].proposed_at + TIMELOCK_BLOCKS,
{
}

/// An executed or cancelled transaction can neither be signed, nor executed, nor cancelled.
pub proof fn law_ended_for_good(state: VaultState, tx_id: u64, who: Address, sequence: u32)
    requires
        state.pending.contains_key(tx_id),
        state.pending[tx_id].executed || state.pending[tx_id].cancelled,
    ensures
        state.sign_error(who, tx_id) is Some,
        state.execute_error(who, tx_id, sequence) is Some,
        state.cancel_error(who, tx_id) is Some,
{
}

/// After its execution a transaction counts as executed, and after its cancellation as
/// cancelled.
pub proof fn law_ending_is_recorded(state: VaultState, tx_id: u64)
    ensures
        state.after_execute(tx_id).pending.contains_key(tx_id),
        state.after_execute(tx_id).pending[tx_id].executed,
        state.after_cancel(tx_id).pending.contains_key(tx_id),
        state.after_cancel(tx_id).pending[tx_id].cancelled,
{
}

/// Nobody can sign a transaction twice, and the proposer has signed from the start.
pub proof fn law_nobody_signs_twice(
    state: VaultState,
    signer: Address,
    tx_id: u64,
    token: Address,
    recipient: Address,
    amount: i128,
    sequence: u32,
)
    ensures
        state.sign_error(signer, tx_id) is None ==> state.after_sign(signer, tx_id).sign_error(
            signer,
            tx_id,
        ) == Some(VaultError::AlreadySigned),
        state.propose_error(signer, amount) is None ==> state.after_propose(
            state.new_proposal(signer, token, recipient, amount, sequence),
        ).sign_error(signer, state.next_id()) == Some(VaultError::AlreadySigned),
{
    let signed = state.after_sign(signer, tx_id).pending[tx_id].signatures;
    assert(signed.last() == signer);
    let proposed = state.new_proposal(signer, token, recipient, amount, sequence).signatures;
    assert(proposed[0] == signer);
}

/// A proposal takes an id that was not in use, raises id counter and nonce by one, and leaves
/// all other transactions as they were.
pub proof fn law_proposals_get_fresh_ids(
    state: VaultState,
    proposer: Address,
    token: Address,
    recipient: Address,
    amount: i128,
    sequence: u32,
    other: u64,
)
    requires
        state.wf(),
        state.propose_error(proposer, amount) is None,
        state.has_room(sequence),
    ensures
        !state.pending.contains_key(state.next_id()),
        ({
            let after = state.after_propose(
                state.new_proposal(proposer, token, recipient, amount, sequence),
            );
            &&& after.next_id() == state.next_id() + 1
            &&& after.next_nonce() == state.next_nonce() + 1
            &&& other != state.next_id() ==> {
                &&& after.pending.contains_key(other) == state.pending.contains_key(other)
                &&& after.pending[other] == state.pending[other]
            }
        }),
{
}

/// Signing, executing or cancelling one transaction leaves all others as they were.
pub proof fn law_transactions_are_independent(
    state: VaultState,
    signer: Address,
    tx_id: u64,
    other: u64,
)
    requires
        other != tx_id,
    ensures
        state.after_sign(signer, tx_id).pending.contains_key(other) == state.pending.contains_key(
            other,
        ),
        state.after_sign(signer, tx_id).pending[other] == state.pending[other],
        state.after_execute(tx_id).pending.contains_key(other) == state.pending.contains_key(
            other,
        ),
        state.after_execute(tx_id).pending[other] == state.pending[other],
        state.after_cancel(tx_id).pending.contains_key(other) == state.pending.contains_key(
            other,
        ),
        state.after_cancel(tx_id).pending[other] == state.pending[other],
{
}

/// A transaction never bears more signatures than the vault has signers.
pub proof fn law_signatures_are_bounded(state: VaultState, tx_id: u64)
    requires
        state.wf(),
        state.pending.contains_key(tx_id),
    ensures
        state.pending[tx_id].signatures.len() <= state.signers->0.len() <= MAX_SIGNERS,
{
    let signatures = state.pending[tx_id].signatures;
    let signers = state.signers->0;
    signatures.unique_seq_to_set();
    signers.unique_seq_to_set();
    assert(signatures.to_set().subset_of(signers.to_set()));
    vstd::set_lib::lemma_len_subset(signatures.to_set(), signers.to_set());
}

/// An execution takes exactly the proposed amount of the proposed token from the vault and hands
/// it to the proposed recipient.
pub proof fn law_execution_moves_what_was_proposed(
    executor: Address,
    contract: Address,
    tx_id: u64,
    proposal: Proposal,
    token: Address,
)
    requires
        proposal.recipient != contract,
    ensures
        crate::host::net_inflow(
            execute_effects(executor, contract, tx_id, proposal),
            contract,
            token,
        ) == (if token == proposal.token {
            -proposal.amount
        } else {
            0
        }),
        crate::host::net_inflow(
            execute_effects(executor, contract, tx_id, proposal),
            proposal.recipient,
            token,
        ) == (if token == proposal.token {
            proposal.amount as int
        } else {
            0
        }),
{
    reveal_with_fuel(crate::host::net_inflow, 5);
}

/// A call of the vault by someone who authorized it.
pub enum VaultCall {
    Initialize { admin: Address, signers: Seq<Address>, threshold: u32 },
    Propose { proposer: Address, token: Address, recipient: Address, amount: i128 },
    Sign { signer: Address, tx_id: u64 },
    Execute { executor: Address, tx_id: u64 },
    Cancel { canceller: Address, tx_id: u64 },
    Freeze { signer: Address },
    Unfreeze { admin: Address },
}

impl VaultState {
    /// The state after a call at ledger block `sequence`. A refused call changes nothing.
    pub open spec fn after_call(self, call: VaultCall, sequence: u32) -> VaultState {
        match call {
            VaultCall::Initialize { admin, signers, threshold } => {
                if self.admin is None && VaultState::setup_error(signers, threshold) is None {
                    self.after_initialize(admin, signers, threshold)
                } else {
                    self
                }
            },
            VaultCall::Propose { proposer, token, recipient, amount } => {
                if self.propose_error(proposer, amount) is None && self.has_room(sequence) {
                    self.after_propose(
                        self.new_proposal(proposer, token, recipient, amount, sequence),
                    )
                } else {
                    self
                }
            },
            VaultCall::Sign { signer, tx_id } => {
                if self.sign_error(signer, tx_id) is None {
                    self.after_sign(signer, tx_id)
                } else {
                    self
                }
            },
            VaultCall::Execute { executor, tx_id } => {
                if self.execute_error(executor, tx_id, sequence) is None {
                    self.after_execute(tx_id)
                } else {
                    self
                }
            },
            VaultCall::Cancel { canceller, tx_id } => {
                if self.cancel_error(canceller, tx_id) is None {
                    self.after_cancel(tx_id)
                } else {
                    self
                }
            },
            VaultCall::Freeze { signer } => {
                if self.freeze_error(signer) is None {
                    self.with_frozen(true)
                } else {
                    self
                }
            },
            VaultCall::Unfreeze { admin } => {
                if self.unfreeze_error(admin) is None {
                    self.with_frozen(false)
                } else {
                    self
                }
            },
        }
    }

    /// The state after a history of calls, each with the ledger block at which it came.
    pub open spec fn after_calls(self, calls: Seq<(VaultCall, u32)>) -> VaultState
        decreases calls.len(),
    {
        if calls.len() == 0 {
            self
        } else {
            self.after_calls(calls.drop_last()).after_call(calls.last().0, calls.last().1)
        }
    }
}

/// Every history of calls keeps a well-formed vault well formed.
pub proof fn law_history_keeps_well_formed(state: VaultState, calls: Seq<(VaultCall, u32)>)
    requires
        state.wf(),
    ensures
        state.after_calls(calls).wf(),
    decreases calls.len(),
{
    if calls.len() > 0 {
        law_history_keeps_well_formed(state, calls.drop_last());
        let before = state.after_calls(calls.drop_last());
        let sequence = calls.last().1;
        match calls.last().0 {
            VaultCall::Initialize { admin, signers, threshold } => {
                if before.admin is None && VaultState::setup_error(signers, threshold) is None {
                    law_initialize_makes_well_formed(admin, signers, threshold);
                }
            },
            VaultCall::Propose { proposer, token, recipient, amount } => {
                if before.propose_error(proposer, amount) is None && before.has_room(sequence) {
                    law_propose_keeps_well_formed(
                        before,
                        proposer,
                        token,
                        recipient,
                        amount,
                        sequence,
                    );
                }
            },
            VaultCall::Sign { signer, tx_id } => {
                if before.sign_error(signer, tx_id) is None {
                    law_sign_keeps_well_formed(before, signer, tx_id);
                }
            },
            VaultCall::Execute { executor, tx_id } => {
                if before.execute_error(executor, tx_id, sequence) is None {
                    law_ending_keeps_well_formed(before, executor, tx_id);
                }
            },
            VaultCall::Cancel { canceller, tx_id } => {
                if before.cancel_error(canceller, tx_id) is None {
                    law_ending_keeps_well_formed(before, canceller, tx_id);
                }
            },
            VaultCall::Freeze { signer } => {},
            VaultCall::Unfreeze { admin } => {},
        }
    }
}

/// A transaction that was executed or cancelled stays exactly as it is through every history of
/// calls. In particular it is executed at most once, and never after its cancellation.
pub proof fn law_ended_through_history(
    state: VaultState,
    tx_id: u64,
    calls: Seq<(VaultCall, u32)>,
)
    requires
        state.wf(),
        state.pending.contains_key(tx_id),
        state.pending[tx_id].executed || state.pending[tx_id].cancelled,
    ensures
        state.after_calls(calls).pending.contains_key(tx_id),
        state.after_calls(calls).pending[tx_id] == state.pending[tx_id],
    decreases calls.len(),
{
    if calls.len() > 0 {
        law_ended_through_history(state, tx_id, calls.drop_last());
        law_history_keeps_well_formed(state, calls.drop_last());
    }
}

/// The signers, the threshold and the admin of a vault are chosen once: no call changes them
/// later.
pub proof fn law_signers_are_fixed(state: VaultState, calls: Seq<(VaultCall, u32)>)
    requires
        state.wf(),
        state.admin is Some,
    ensures
        state.after_calls(calls).admin == state.admin,
        state.after_calls(calls).signers == state.signers,
        state.after_calls(calls).threshold == state.threshold,
    decreases calls.len(),
{
    if calls.len() > 0 {
        law_signers_are_fixed(state, calls.drop_last());
    }
}

/// Nonce and id counter never go back, so that no id is given twice.
pub proof fn law_counters_only_rise(state: VaultState, calls: Seq<(VaultCall, u32)>)
    requires
        state.wf(),
        state.admin is Some,
    ensures
        state.after_calls(calls).next_id() >= state.next_id(),
        state.after_calls(calls).next_nonce() >= state.next_nonce(),
    decreases calls.len(),
{
    if calls.len() > 0 {
        law_counters_only_rise(state, calls.drop_last());
        law_signers_are_fixed(state, calls.drop_last());
    }
}

/// A vault that was not initialized can be initialized by anyone who authorizes it, with one to
/// five different signers and a threshold that they can meet, where a threshold of zero stands for
/// three; and with nothing else.
pub proof fn law_initialization(signers: Seq<Address>, threshold: u32)
    ensures
        ({
            let wanted = if threshold == 0 {
                3int
            } else {
                threshold as int
            };
            let fits = 1 <= signers.len() <= 5;
            let different = forall|i: int, j: int|
                0 <= i < j < signers.len() ==> signers[i] != signers[j];
            let error = VaultState::setup_error(signers, threshold);
            &&& error is None <==> fits && wanted <= signers.len() && different
            &&& error == Some(VaultError::TooManySigners) <==> !fits
            &&& error == Some(VaultError::InvalidThreshold) <==> fits && wanted > signers.len()
            &&& error == Some(VaultError::DuplicateSigner) <==> fits && wanted <= signers.len()
                && !different
        }),
{
    assert(signers.no_duplicates() <==> forall|i: int, j: int|
        0 <= i < j < signers.len() ==> signers[i] != signers[j]);
}

/// Initialization stores exactly what was asked for: the admin, the signers in their order, the
/// threshold, a vault that is not frozen, and counters at zero.
pub proof fn law_initialization_is_stored(
    state: VaultState,
    admin: Address,
    signers: Seq<Address>,
    threshold: u32,
)
    ensures
        ({
            let after = state.after_initialize(admin, signers, threshold);
            &&& after.admin == Some(admin)
            &&& after.signers == Some(signers)
            &&& threshold != 0 ==> after.threshold == Some(threshold)
            &&& threshold == 0 ==> after.threshold == Some(3u32)
            &&& after.frozen == Some(false)
            &&& after.nonce == Some(0u64)
            &&& after.tx_counter == Some(0u64)
            &&& after.pending == state.pending
        }),
{
}

/// What is read is what is stored; without an entry a vault is not frozen, needs three signatures,
/// and counts from zero.
pub proof fn law_reads(state: VaultState)
    ensures
        state.is_frozen() <==> state.frozen == Some(true),
        state.threshold matches Some(threshold) ==> state.quorum() == threshold,
        state.threshold is None ==> state.quorum() == 3,
        state.nonce matches Some(nonce) ==> state.next_nonce() == nonce,
        state.nonce is None ==> state.next_nonce() == 0,
        state.tx_counter matches Some(counter) ==> state.next_id() == counter,
        state.tx_counter is None ==> state.next_id() == 0,
{
}

/// Every signer of a vault that is not frozen can propose every positive amount, and nobody else
/// can propose anything.
pub proof fn law_proposal_conditions(state: VaultState, proposer: Address, amount: i128)
    ensures
        ({
            let frozen = state.frozen == Some(true);
            let initialized = state.admin is Some;
            let signer = state.signers is Some && exists|i: int|
                0 <= i < state.signers->0.len() && state.signers->0[i] == proposer;
            let error = state.propose_error(proposer, amount);
            &&& error is None <==> !frozen && initialized && signer && amount > 0
            &&& error == Some(VaultError::VaultFrozen) <==> frozen
            &&& error == Some(VaultError::NotInitialized) <==> !frozen && (!initialized
                || state.signers is None)
            &&& error == Some(VaultError::Unauthorized) <==> !frozen && initialized
                && state.signers is Some && !signer
            &&& error == Some(VaultError::InvalidAmount) <==> !frozen && initialized && signer
                && amount <= 0
            &&& state.propose_gate() is None <==> !frozen && initialized
        }),
{
}

/// A proposal is stored as it was made: with the next id and nonce, its token, recipient and
/// amount, signed by its proposer alone, open, and executable one hundred thousand blocks later.
/// Both counters rise by one, and all else stays.
pub proof fn law_proposal_is_stored(
    state: VaultState,
    proposer: Address,
    token: Address,
    recipient: Address,
    amount: i128,
    sequence: u32,
    other: u64,
)
    requires
        sequence + 100_000 <= u32::MAX,
        state.tx_counter matches Some(counter) ==> counter < u64::MAX,
        state.nonce matches Some(nonce) ==> nonce < u64::MAX,
    ensures
        ({
            let id = match state.tx_counter {
                Some(counter) => counter,
                None => 0,
            };
            let nonce = match state.nonce {
                Some(nonce) => nonce,
                None => 0,
            };
            let after = state.after_propose(
                state.new_proposal(proposer, token, recipient, amount, sequence),
            );
            let proposal = after.pending[id];
            &&& state.has_room(sequence)
            &&& after.pending.contains_key(id)
            &&& proposal.id == id
            &&& proposal.token == token
            &&& proposal.recipient == recipient
            &&& proposal.amount == amount
            &&& proposal.proposed_at == sequence
            &&& proposal.executable_after == sequence + 100_000
            &&& proposal.signatures == seq![proposer]
            &&& !proposal.executed
            &&& !proposal.cancelled
            &&& proposal.nonce == nonce
            &&& after.tx_counter is Some
            &&& after.tx_counter->0 == id + 1
            &&& after.nonce is Some
            &&& after.nonce->0 == nonce + 1
            &&& other != id ==> {
                &&& after.pending.contains_key(other) == state.pending.contains_key(other)
                &&& after.pending[other] == state.pending[other]
            }
            &&& after.admin == state.admin
            &&& after.signers == state.signers
            &&& after.threshold == state.threshold
            &&& after.frozen == state.frozen
        }),
{
}

/// Every signer of a vault that is not frozen can sign every open proposal that they have not
/// signed, and nobody can sign anything else.
pub proof fn law_signing_conditions(state: VaultState, signer: Address, tx_id: u64)
    ensures
        ({
            let frozen = state.frozen == Some(true);
            let authorized = state.signers is Some && exists|i: int|
                0 <= i < state.signers->0.len() && state.signers->0[i] == signer;
            let known = state.pending.contains_key(tx_id);
            let tx = state.pending[tx_id];
            let signed = exists|i: int|
                0 <= i < tx.signatures.len() && tx.signatures[i] == signer;
            let error = state.sign_error(signer, tx_id);
            &&& error is None <==> !frozen && authorized && known && !tx.executed && !tx.cancelled
                && !signed
            &&& error == Some(VaultError::VaultFrozen) <==> frozen
            &&& error == Some(VaultError::NotInitialized) <==> !frozen && state.signers is None
            &&& error == Some(VaultError::Unauthorized) <==> !frozen && state.signers is Some
                && !authorized
            &&& error == Some(VaultError::TxNotFound) <==> !frozen && authorized && !known
            &&& error == Some(VaultError::TxAlreadyExecuted) <==> !frozen && authorized && known
                && tx.executed
            &&& error == Some(VaultError::TxAlreadyCancelled) <==> !frozen && authorized && known
                && !tx.executed && tx.cancelled
            &&& error == Some(VaultError::AlreadySigned) <==> !frozen && authorized && known
                && !tx.executed && !tx.cancelled && signed
        }),
{
}

/// An execution is owed: a signer of a vault that is not frozen can execute an open proposal that
/// bears the threshold of signatures at every ledger block from the end of its timelock on. Every
/// refusal has its reason, and the timelock refuses only before its end.
pub proof fn law_execution_is_owed(
    state: VaultState,
    executor: Address,
    tx_id: u64,
    sequence: u32,
)
    ensures
        ({
            let frozen = state.frozen == Some(true);
            let authorized = state.signers is Some && exists|i: int|
                0 <= i < state.signers->0.len() && state.signers->0[i] == executor;
            let known = state.pending.contains_key(tx_id);
            let tx = state.pending[tx_id];
            let open = known && !tx.executed && !tx.cancelled;
            let needed = match state.threshold {
                Some(threshold) => threshold as int,
                None => 3,
            };
            let enough = tx.signatures.len() >= needed;
            let expired = sequence >= tx.executable_after;
            let error = state.execute_error(executor, tx_id, sequence);
            &&& error is None <==> !frozen && authorized && open && enough && expired
            &&& error == Some(VaultError::VaultFrozen) <==> frozen
            &&& error == Some(VaultError::NotInitialized) <==> !frozen && state.signers is None
            &&& error == Some(VaultError::Unauthorized) <==> !frozen && state.signers is Some
                && !authorized
            &&& error == Some(VaultError::TxNotFound) <==> !frozen && authorized && !known
            &&& error == Some(VaultError::TxAlreadyExecuted) <==> !frozen && authorized && known
                && tx.executed
            &&& error == Some(VaultError::TxAlreadyCancelled) <==> !frozen && authorized && known
                && !tx.executed && tx.cancelled
            &&& error == Some(VaultError::ThresholdNotMet) <==> !frozen && authorized && open
                && !enough
            &&& error == Some(VaultError::TimelockNotExpired) <==> !frozen && authorized && open
                && enough && !expired
        }),
{
}

/// In a well-formed vault that is not frozen, a signer can execute a proposal that was neither
/// executed nor cancelled and bears the threshold of signatures at every ledger block that is at
/// least one hundred thousand blocks after the one at which it was proposed, and at no earlier one.
pub proof fn law_timelock_is_the_only_wait(
    state: VaultState,
    executor: Address,
    tx_id: u64,
    sequence: u32,
)
    requires
        state.wf(),
        state.admin is Some,
        state.frozen == Some(false),
        state.signers->0.contains(executor),
        state.pending.contains_key(tx_id),
        !state.pending[tx_id].executed,
        !state.pending[tx_id].cancelled,
        state.pending[tx_id].signatures.len() >= state.threshold->0,
    ensures
        sequence >= state.pending[tx_id].proposed_at + 100_000 <==> state.execute_error(
            executor,
            tx_id,
            sequence,
        ) is None,
{
}

/// Waiting never takes an execution away: what can be executed at one block can be executed at
/// every later one.
pub proof fn law_waiting_keeps_execution_open(
    state: VaultState,
    executor: Address,
    tx_id: u64,
    sequence: u32,
    later: u32,
)
    requires
        sequence <= later,
        state.execute_error(executor, tx_id, sequence) is None,
    ensures
        state.execute_error(executor, tx_id, later) is None,
{
}

/// Every signer can cancel every open proposal that bears the threshold of signatures, frozen or
/// not and at any time, and nobody can cancel anything else.
pub proof fn law_cancellation_conditions(state: VaultState, canceller: Address, tx_id: u64)
    ensures
        ({
            let authorized = state.signers is Some && exists|i: int|
                0 <= i < state.signers->0.len() && state.signers->0[i] == canceller;
            let known = state.pending.contains_key(tx_id);
            let tx = state.pending[tx_id];
            let open = known && !tx.executed && !tx.cancelled;
            let needed = match state.threshold {
                Some(threshold) => threshold as int,
                None => 3,
            };
            let enough = tx.signatures.len() >= needed;
            let error = state.cancel_error(canceller, tx_id);
            &&& error is None <==> authorized && open && enough
            &&& error == Some(VaultError::NotInitialized) <==> state.signers is None
            &&& error == Some(VaultError::Unauthorized) <==> state.signers is Some && !authorized
            &&& error == Some(VaultError::TxNotFound) <==> authorized && !known
            &&& error == Some(VaultError::TxAlreadyExecuted) <==> authorized && known && tx.executed
            &&& error == Some(VaultError::TxAlreadyCancelled) <==> authorized && known
                && !tx.executed && tx.cancelled
            &&& error == Some(VaultError::ThresholdNotMet) <==> authorized && open && !enough
        }),
{
}

/// Signing appends the signature, executing marks the proposal executed, cancelling marks it
/// cancelled, and none of them changes anything else of the proposal or of the vault.
pub proof fn law_one_mark_at_a_time(state: VaultState, signer: Address, tx_id: u64)
    ensures
        ({
            let before = state.pending[tx_id];
            let signed = state.after_sign(signer, tx_id);
            let executed = state.after_execute(tx_id);
            let cancelled = state.after_cancel(tx_id);
            &&& signed.pending.contains_key(tx_id)
            &&& signed.pending[tx_id] == (Proposal {
                signatures: before.signatures.push(signer),
                ..before
            })
            &&& executed.pending.contains_key(tx_id)
            &&& executed.pending[tx_id] == (Proposal { executed: true, ..before })
            &&& cancelled.pending.contains_key(tx_id)
            &&& cancelled.pending[tx_id] == (Proposal { cancelled: true, ..before })
            &&& VaultState { pending: state.pending, ..signed } == state
            &&& VaultState { pending: state.pending, ..executed } == state
            &&& VaultState { pending: state.pending, ..cancelled } == state
        }),
{
}

/// Every signer of an initialized vault can freeze it and nobody else can; the admin can lift the
/// freeze and nobody else can. Both change the freeze and nothing else.
pub proof fn law_freeze_conditions(state: VaultState, who: Address, frozen: bool)
    ensures
        ({
            let signer = state.signers is Some && exists|i: int|
                0 <= i < state.signers->0.len() && state.signers->0[i] == who;
            let initialized = state.admin is Some;
            &&& state.freeze_error(who) is None <==> initialized && signer
            &&& state.freeze_error(who) == Some(VaultError::NotInitialized) <==> !initialized
                || state.signers is None
            &&& state.freeze_error(who) == Some(VaultError::Unauthorized) <==> initialized
                && state.signers is Some && !signer
            &&& state.unfreeze_error(who) is None <==> state.admin == Some(who)
            &&& state.unfreeze_error(who) == Some(VaultError::NotInitialized) <==> !initialized
            &&& state.unfreeze_error(who) == Some(VaultError::Unauthorized) <==> initialized
                && state.admin != Some(who)
            &&& state.with_frozen(frozen).frozen == Some(frozen)
            &&& VaultState { frozen: state.frozen, ..state.with_frozen(frozen) } == state
        }),
{
}

/// An execution asks the executor, transfers the proposed amount of the proposed token from the
/// vault to the proposed recipient, writes the transaction, and is published.
pub proof fn law_execution_is_performed(
    executor: Address,
    contract: Address,
    tx_id: u64,
    proposal: Proposal,
)
    ensures
        ({
            let effects = execute_effects(executor, contract, tx_id, proposal);
            &&& effects.len() == 4
            &&& effects[0] == Effect::<DataKey, VaultEvent>::RequireAuth(executor)
            &&& effects[1] == Effect::<DataKey, VaultEvent>::Transfer(
                Transfer {
                    token: proposal.token,
                    from: contract,
                    to: proposal.recipient,
                    amount: proposal.amount,
                },
            )
            &&& effects[2] == Effect::<DataKey, VaultEvent>::Write(DataKey::PendingTx(tx_id))
            &&& effects[3] == Effect::<DataKey, VaultEvent>::Publish(
                VaultEvent::Executed {
                    tx_id,
                    recipient: proposal.recipient,
                    amount: proposal.amount,
                },
            )
        }),
{
}

/// A new vault has nothing stored.
pub proof fn law_new_vault_is_empty(tx_id: u64)
    ensures
        empty_state().admin is None,
        empty_state().signers is None,
        empty_state().threshold is None,
        empty_state().frozen is None,
        empty_state().nonce is None,
        empty_state().tx_counter is None,
        !empty_state().pending.contains_key(tx_id),
{
}

/// There is room for a proposal exactly while the end of its timelock and both counters after it
/// can be represented.
pub proof fn law_room_for_proposals(state: VaultState, sequence: u32)
    ensures
        state.has_room(sequence) <==> {
            &&& sequence + 100_000 <= u32::MAX
            &&& state.tx_counter != Some(u64::MAX)
            &&& state.nonce != Some(u64::MAX)
        },
{
}

/// Errors are seen under different numbers.
pub proof fn law_errors_are_told_apart(a: VaultError, b: VaultError)
    ensures
        1 <= a.spec_code() <= 15,
        a.spec_code() == b.spec_code() <==> a == b,
{
}

} // verus!
