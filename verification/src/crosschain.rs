//! Cross-chain settlement.
//!
//! A relayer submits a proof that an event took place on a partner chain. The escrowed assets are
//! released when the proof is fresh, was never used before, and carries the signatures of enough
//! of the bridge signers registered for that chain.

use crate::ed25519::ed25519_verify;
use crate::host::Address;
use crate::host::Effect;
use crate::host::Env;
use crate::host::Transfer;
use crate::table::Key;
use crate::table::Table;
use vstd::prelude::*;

verus! {

/// Maximum age of a proof in seconds before it is stale (one hour).
pub const PROOF_TTL_SECONDS: u64 = 3_600;

/// Maximum number of bridge signers per chain.
pub const MAX_BRIDGE_SIGNERS: u32 = 10;

/// Reason code published with the rejection of a stale proof.
pub const REJECTED_STALE: u32 = 0;

/// Reason code published with the rejection of a proof that lacks signatures.
pub const REJECTED_SIGNATURES: u32 = 1;

/// Reason code published with the rejection of a proof that was used before.
pub const REJECTED_REPLAYED: u32 = 2;

/// Why a bridge call was refused.
#[derive(Clone, Copy, Debug, PartialEq, Eq, Structural)]
pub enum ExtError {
    /// The contract has no admin yet.
    NotInitialized,
    /// Only the admin may do this.
    AdminOnly,
    /// The threshold cannot be met, no bridge is registered, or signatures are missing.
    Unauthorized,
    /// More signers than a chain can have.
    BatchTooLarge,
    /// The proof is stale.
    VotingWindowClosed,
    /// The proof was consumed before.
    DisputeAlreadyExists,
    /// No proof is recorded under this hash.
    DisputeNotFound,
}

/// Names of the stored entries.
#[derive(Clone, Copy, Debug, PartialEq, Eq)]
pub enum DataKey {
    /// The contract admin.
    Admin,
    /// The record of the proof with this hash.
    CrossChainProof([u8; 32]),
    /// The public key of a bridge signer: chain id and signer index.
    BridgeSigner(u32, u32),
    /// The number of signatures that a chain's proofs need.
    BridgeThreshold(u32),
}

/// A proof payload submitted by a relayer.
#[derive(Clone, Debug)]
pub struct CrossChainProof {
    /// Identifier of the source chain.
    pub chain_id: u32,
    /// Hash of the external transaction or state root being proven.
    pub proof_hash: [u8; 32],
    /// Ed25519 signatures of bridge signers over `proof_hash`.
    pub signatures: Vec<[u8; 64]>,
    /// Timestamp at which the proof was created on the source chain.
    pub submitted_at: u64,
    /// The escrow to be released.
    pub escrow_id: u64,
    /// Recipient of the released funds. It must match the freelancer of the escrow; the bridge
    /// does not know the escrow's parties and leaves this to the caller.
    pub recipient: Address,
}

/// What is kept of a processed proof.
#[derive(Clone, Copy, Debug, PartialEq, Eq, Structural)]
pub struct ProofRecord {
    pub chain_id: u32,
    pub escrow_id: u64,
    pub verified_at: u64,
    pub consumed: bool,
}

/// Events of the bridge.
#[derive(Clone, Copy, Debug, PartialEq, Eq)]
pub enum BridgeEvent {
    /// `cc_proof`: a proof was submitted.
    ProofSubmitted { proof_hash: [u8; 32], chain_id: u32, escrow_id: u64 },
    /// `cc_rej`: a proof was rejected, with a reason code.
    ProofRejected { proof_hash: [u8; 32], chain_id: u32, escrow_id: u64, reason: u32 },
    /// `cc_rel`: an escrow was released on a verified proof.
    EscrowReleased {
        escrow_id: u64,
        chain_id: u32,
        proof_hash: [u8; 32],
        recipient: Address,
        amount: i128,
    },
}

/// The stored entries of the bridge.
pub struct BridgeStorage {
    pub admin: Option<Address>,
    pub proofs: Table<[u8; 32], ProofRecord>,
    /// Public keys of the bridge signers by chain id and signer index.
    pub signers: Table<(u32, u32), [u8; 32]>,
    pub thresholds: Table<u32, u32>,
}

/// The environment of a bridge call.
pub type BridgeEnv = Env<BridgeStorage, DataKey, BridgeEvent>;

/// The stored entries of the bridge as mathematical maps.
#[verifier::ext_equal]
pub struct BridgeState {
    pub admin: Option<Address>,
    pub proofs: Map<Seq<u8>, ProofRecord>,
    pub signers: Map<(u32, u32), [u8; 32]>,
    pub thresholds: Map<u32, u32>,
}

impl View for BridgeStorage {
    type V = BridgeState;

    open spec fn view(&self) -> BridgeState {
        BridgeState {
            admin: self.admin,
            proofs: self.proofs@,
            signers: self.signers@,
            thresholds: self.thresholds@,
        }
    }
}

impl BridgeStorage {
    /// Storage of a bridge administered by `admin`, with no chain registered.
    pub fn new(admin: Option<Address>) -> (storage: Self)
        ensures
            storage@ == (BridgeState {
                admin,
                proofs: Map::empty(),
                signers: Map::empty(),
                thresholds: Map::empty(),
            }),
    {
        BridgeStorage {
            admin,
            proofs: Table::new(),
            signers: Table::new(),
            thresholds: Table::new(),
        }
    }
}

/// One of the signatures is a signature of `hash` by the holder of `key`.
pub open spec fn signed_by(key: Seq<u8>, hash: Seq<u8>, signatures: Seq<[u8; 64]>) -> bool {
    exists|j: int|
        0 <= j < signatures.len() && #[trigger] crate::ed25519::ed25519_valid(
            key,
            hash,
            signatures[j]@,
        )
}

/// The number of `true` entries.
pub open spec fn count_true(approvals: Seq<bool>) -> nat
    decreases approvals.len(),
{
    if approvals.len() == 0 {
        0
    } else {
        count_true(approvals.drop_last()) + if approvals.last() {
            1nat
        } else {
            0nat
        }
    }
}

impl BridgeState {
    /// The number of signatures that proofs from `chain_id` need; zero where no bridge is
    /// registered.
    pub open spec fn threshold(self, chain_id: u32) -> u32 {
        if self.thresholds.contains_key(chain_id) {
            self.thresholds[chain_id]
        } else {
            0
        }
    }

    /// A signer is registered in slot `index` of the chain and has signed `hash`.
    pub open spec fn approves(
        self,
        chain_id: u32,
        index: u32,
        hash: Seq<u8>,
        signatures: Seq<[u8; 64]>,
    ) -> bool {
        &&& self.signers.contains_key((chain_id, index))
        &&& signed_by(self.signers[(chain_id, index)]@, hash, signatures)
    }

    /// The keys in the first `n` signer slots of the chain whose holders have signed `hash`.
    pub open spec fn approvers_below(
        self,
        chain_id: u32,
        hash: Seq<u8>,
        signatures: Seq<[u8; 64]>,
        n: nat,
    ) -> Set<Seq<u8>> {
        Set::new(
            |key: Seq<u8>|
                exists|i: u32|
                    i < n && #[trigger] self.approves(chain_id, i, hash, signatures)
                        && self.signers[(chain_id, i)]@ == key,
        )
    }

    /// The registered keys of the chain whose holders have signed `hash`.
    pub open spec fn approvers(
        self,
        chain_id: u32,
        hash: Seq<u8>,
        signatures: Seq<[u8; 64]>,
    ) -> Set<Seq<u8>> {
        self.approvers_below(chain_id, hash, signatures, MAX_BRIDGE_SIGNERS as nat)
    }

    /// A bridge is registered for the proof's chain and at least as many different registered keys
    /// as the threshold says have signed the proof hash. A key that stands in several slots counts
    /// once.
    pub open spec fn verified(self, payload: CrossChainProof) -> bool {
        &&& self.threshold(payload.chain_id) > 0
        &&& self.approvers(payload.chain_id, payload.proof_hash@, payload.signatures@).len()
            >= self.threshold(payload.chain_id)
    }

    /// A proof with this hash was used before.
    pub open spec fn consumed(self, hash: Seq<u8>) -> bool {
        self.proofs.contains_key(hash) && self.proofs[hash].consumed
    }

    /// Why `register_bridge` refuses, if it does.
    pub open spec fn register_error(
        self,
        admin: Address,
        signers: Seq<[u8; 32]>,
        threshold: u32,
    ) -> Option<ExtError> {
        if self.admin is None {
            Some(ExtError::NotInitialized)
        } else if self.admin != Some(admin) {
            Some(ExtError::AdminOnly)
        } else if threshold == 0 || threshold > signers.len() {
            Some(ExtError::Unauthorized)
        } else if signers.len() > MAX_BRIDGE_SIGNERS {
            Some(ExtError::BatchTooLarge)
        } else {
            None
        }
    }

    /// The signer keys after the first slots of the chain took the given keys. Slots beyond them
    /// keep what they held.
    pub open spec fn with_signers(self, chain_id: u32, signers: Seq<[u8; 32]>) -> Map<
        (u32, u32),
        [u8; 32],
    >
        decreases signers.len(),
    {
        if signers.len() == 0 {
            self.signers
        } else {
            self.with_signers(chain_id, signers.drop_last()).insert(
                (chain_id, (signers.len() - 1) as u32),
                signers.last(),
            )
        }
    }

    /// The state after a bridge was registered.
    pub open spec fn after_register(
        self,
        chain_id: u32,
        signers: Seq<[u8; 32]>,
        threshold: u32,
    ) -> BridgeState {
        BridgeState {
            signers: self.with_signers(chain_id, signers),
            thresholds: self.thresholds.insert(chain_id, threshold),
            ..self
        }
    }

    /// What a submission at time `now` is answered.
    pub open spec fn submit_result(self, payload: CrossChainProof, now: u64) -> Result<
        (),
        ExtError,
    > {
        if is_stale(payload.submitted_at, now) {
            Err(ExtError::VotingWindowClosed)
        } else if self.consumed(payload.proof_hash@) {
            Err(ExtError::DisputeAlreadyExists)
        } else if !self.verified(payload) {
            Err(ExtError::Unauthorized)
        } else {
            Ok(())
        }
    }

    /// The state after the proof was recorded as used at time `now`.
    pub open spec fn with_consumed(self, payload: CrossChainProof, now: u64) -> BridgeState {
        BridgeState {
            proofs: self.proofs.insert(payload.proof_hash@, consumed_record(payload, now)),
            ..self
        }
    }

    /// The state after a submission at time `now`.
    pub open spec fn after_submit(self, payload: CrossChainProof, now: u64) -> BridgeState {
        if self.submit_result(payload, now) is Ok {
            self.with_consumed(payload, now)
        } else {
            self
        }
    }
}

/// The proof is older than a proof may be.
pub open spec fn is_stale(submitted_at: u64, now: u64) -> bool {
    submitted_at + PROOF_TTL_SECONDS < now
}

/// What is kept of a proof that was used at time `now`.
pub open spec fn consumed_record(payload: CrossChainProof, now: u64) -> ProofRecord {
    ProofRecord {
        chain_id: payload.chain_id,
        escrow_id: payload.escrow_id,
        verified_at: now,
        consumed: true,
    }
}

/// The entries written for the keys in the first `n` signer slots, in order.
pub open spec fn signer_effects(chain_id: u32, n: nat) -> Seq<Effect<DataKey, BridgeEvent>>
    decreases n,
{
    if n == 0 {
        Seq::empty()
    } else {
        signer_effects(chain_id, (n - 1) as nat).push(
            Effect::Write(DataKey::BridgeSigner(chain_id, (n - 1) as u32)),
        ).push(Effect::ExtendTtl(DataKey::BridgeSigner(chain_id, (n - 1) as u32)))
    }
}

/// The effect that publishes a submission.
pub open spec fn submitted_effect(payload: CrossChainProof) -> Effect<DataKey, BridgeEvent> {
    Effect::Publish(
        BridgeEvent::ProofSubmitted {
            proof_hash: payload.proof_hash,
            chain_id: payload.chain_id,
            escrow_id: payload.escrow_id,
        },
    )
}

/// The effect that publishes a rejection.
pub open spec fn rejected_effect(payload: CrossChainProof, reason: u32) -> Effect<
    DataKey,
    BridgeEvent,
> {
    Effect::Publish(
        BridgeEvent::ProofRejected {
            proof_hash: payload.proof_hash,
            chain_id: payload.chain_id,
            escrow_id: payload.escrow_id,
            reason,
        },
    )
}

/// The effects of a release: the proof is recorded, its record kept alive, the tokens moved to
/// the recipient, and the release published.
pub open spec fn release_effects(
    payload: CrossChainProof,
    contract: Address,
    token: Address,
    amount: i128,
) -> Seq<Effect<DataKey, BridgeEvent>> {
    seq![
        Effect::Write(DataKey::CrossChainProof(payload.proof_hash)),
        Effect::ExtendTtl(DataKey::CrossChainProof(payload.proof_hash)),
        Effect::Transfer(Transfer { token, from: contract, to: payload.recipient, amount }),
        Effect::Publish(
            BridgeEvent::EscrowReleased {
                escrow_id: payload.escrow_id,
                chain_id: payload.chain_id,
                proof_hash: payload.proof_hash,
                recipient: payload.recipient,
                amount,
            },
        ),
    ]
}

/// The key of a proof record.
pub fn proof_key(proof_hash: &[u8; 32]) -> (key: DataKey)
    ensures
        key == DataKey::CrossChainProof(*proof_hash),
{
    DataKey::CrossChainProof(*proof_hash)
}

/// The key of a bridge signer.
pub fn signer_key(chain_id: u32, index: u32) -> (key: DataKey)
    ensures
        key == DataKey::BridgeSigner(chain_id, index),
{
    DataKey::BridgeSigner(chain_id, index)
}

/// The key of a chain's threshold.
pub fn threshold_key(chain_id: u32) -> (key: DataKey)
    ensures
        key == DataKey::BridgeThreshold(chain_id),
{
    DataKey::BridgeThreshold(chain_id)
}

/// Whether one of the signatures is a signature of `hash` by the holder of `key`.
fn any_signature_matches(key: &[u8; 32], hash: &[u8; 32], signatures: &Vec<[u8; 64]>) -> (found:
    bool)
    ensures
        found == signed_by(key@, hash@, signatures@),
{
    let mut j: usize = 0;
    while j < signatures.len()
        invariant
            j <= signatures@.len(),
            forall|k: int|
                0 <= k < j ==> !#[trigger] crate::ed25519::ed25519_valid(
                    key@,
                    hash@,
                    signatures@[k]@,
                ),
        decreases signatures@.len() - j,
    {
        if ed25519_verify(key, hash, &signatures[j]) {
            assert(crate::ed25519::ed25519_valid(key@, hash@, signatures@[j as int]@));
            return true;
        }
        j += 1;
    }
    false
}

/// Decides on the approvals of a chain's signers: at least `threshold` of them must be `true`,
/// and a threshold of zero means that no bridge is registered.
pub fn check_quorum(threshold: u32, approvals: &Vec<bool>) -> (res: Result<(), ExtError>)
    ensures
        res == (if threshold > 0 && count_true(approvals@) >= threshold {
            Ok::<(), ExtError>(())
        } else {
            Err(ExtError::Unauthorized)
        }),
{
    if threshold == 0 {
        return Err(ExtError::Unauthorized);
    }
    let mut valid_count: usize = 0;
    let mut i: usize = 0;
    while i < approvals.len()
        invariant
            i <= approvals@.len(),
            valid_count <= i,
            valid_count == count_true(approvals@.take(i as int)),
        decreases approvals@.len() - i,
    {
        assert(approvals@.take(i + 1).drop_last() =~= approvals@.take(i as int));
        if approvals[i] {
            valid_count += 1;
        }
        i += 1;
    }
    assert(approvals@.take(i as int) =~= approvals@);
    if valid_count < threshold as usize {
        return Err(ExtError::Unauthorized);
    }
    Ok(())
}

proof fn lemma_next_approver(
    state: BridgeState,
    chain_id: u32,
    hash: Seq<u8>,
    signatures: Seq<[u8; 64]>,
    n: u32,
)
    requires
        n < u32::MAX,
    ensures
        state.approvers_below(chain_id, hash, signatures, (n + 1) as nat) == (if state.approves(
            chain_id,
            n,
            hash,
            signatures,
        ) {
            state.approvers_below(chain_id, hash, signatures, n as nat).insert(
                state.signers[(chain_id, n)]@,
            )
        } else {
            state.approvers_below(chain_id, hash, signatures, n as nat)
        }),
{
    let below = state.approvers_below(chain_id, hash, signatures, n as nat);
    let upto = state.approvers_below(chain_id, hash, signatures, (n + 1) as nat);
    let key = state.signers[(chain_id, n)]@;
    if state.approves(chain_id, n, hash, signatures) {
        assert(upto.contains(key));
        assert(upto =~= below.insert(key));
    } else {
        assert(upto =~= below);
    }
}

proof fn lemma_approvers_are_finite(
    state: BridgeState,
    chain_id: u32,
    hash: Seq<u8>,
    signatures: Seq<[u8; 64]>,
    n: u32,
)
    ensures
        state.approvers_below(chain_id, hash, signatures, n as nat).finite(),
        state.approvers_below(chain_id, hash, signatures, 0) == Set::<Seq<u8>>::empty(),
    decreases n,
{
    assert(state.approvers_below(chain_id, hash, signatures, 0) =~= Set::<Seq<u8>>::empty());
    if n > 0 {
        lemma_approvers_are_finite(state, chain_id, hash, signatures, (n - 1) as u32);
        lemma_next_approver(state, chain_id, hash, signatures, (n - 1) as u32);
    }
}

/// Whether `key` stands in one of the first `index` signer slots of the chain.
fn stands_below(env: &BridgeEnv, chain_id: u32, index: u32, key: &[u8; 32]) -> (found: bool)
    ensures
        found == exists|i: u32|
            i < index && #[trigger] env.storage@.signers.contains_key((chain_id, i))
                && env.storage@.signers[(chain_id, i)]@ == key@,
{
    let mut i: u32 = 0;
    while i < index
        invariant
            i <= index,
            forall|j: u32|
                j < i && #[trigger] env.storage@.signers.contains_key((chain_id, j))
                    ==> env.storage@.signers[(chain_id, j)]@ != key@,
        decreases index - i,
    {
        match env.storage.signers.get(&(chain_id, i)) {
            Some(other) => {
                if other.same(key) {
                    assert(env.storage@.signers.contains_key((chain_id, i)));
                    return true;
                }
            },
            None => {},
        }
        i += 1;
    }
    false
}

/// Whether slot `index` of the chain holds a key that stands in no earlier slot and under which
/// the proof hash was signed.
fn is_new_approver(env: &BridgeEnv, payload: &CrossChainProof, index: u32) -> (approved: bool)
    requires
        index < u32::MAX,
    ensures
        ({
            let below = env.storage@.approvers_below(
                payload.chain_id,
                payload.proof_hash@,
                payload.signatures@,
                index as nat,
            );
            let upto = env.storage@.approvers_below(
                payload.chain_id,
                payload.proof_hash@,
                payload.signatures@,
                (index + 1) as nat,
            );
            upto.len() == below.len() + (if approved {
                1int
            } else {
                0int
            })
        }),
{
    let ghost state = env.storage@;
    let ghost hash = payload.proof_hash@;
    let ghost signatures = payload.signatures@;
    let ghost below = state.approvers_below(payload.chain_id, hash, signatures, index as nat);
    proof {
        lemma_approvers_are_finite(state, payload.chain_id, hash, signatures, index);
        lemma_next_approver(state, payload.chain_id, hash, signatures, index);
    }
    match env.storage.signers.get(&(payload.chain_id, index)) {
        Some(key) => {
            if stands_below(env, payload.chain_id, index, key) {
                proof {
                    if state.approves(payload.chain_id, index, hash, signatures) {
                        let i = choose|i: u32|
                            i < index && #[trigger] state.signers.contains_key(
                                (payload.chain_id, i),
                            ) && state.signers[(payload.chain_id, i)]@ == key@;
                        assert(state.approves(payload.chain_id, i, hash, signatures));
                        assert(below.contains(key@));
                        assert(below.insert(key@) =~= below);
                    }
                }
                false
            } else {
                assert(!below.contains(key@));
                any_signature_matches(key, &payload.proof_hash, &payload.signatures)
            }
        },
        None => false,
    }
}

/// Checks that at least the threshold of the chain's registered signers have signed the proof
/// hash. A key that stands in several slots counts once. Signers beyond the threshold are not
/// asked.
pub fn verify_multisig(env: &BridgeEnv, payload: &CrossChainProof) -> (res: Result<(), ExtError>)
    ensures
        res == (if env.storage@.verified(*payload) {
            Ok::<(), ExtError>(())
        } else {
            Err(ExtError::Unauthorized)
        }),
{
    let threshold: u32 = env.storage.thresholds.get_or(&payload.chain_id, 0);
    if threshold == 0 {
        return Err(ExtError::Unauthorized);
    }
    let ghost state = env.storage@;
    let ghost hash = payload.proof_hash@;
    let ghost signatures = payload.signatures@;
    let mut approvals: Vec<bool> = Vec::new();
    let mut valid_count: u32 = 0;
    let mut index: u32 = 0;
    proof {
        lemma_approvers_are_finite(state, payload.chain_id, hash, signatures, 0);
    }
    while index < MAX_BRIDGE_SIGNERS && valid_count < threshold
        invariant
            state == env.storage@,
            hash == payload.proof_hash@,
            signatures == payload.signatures@,
            index <= MAX_BRIDGE_SIGNERS,
            valid_count <= index,
            valid_count == count_true(approvals@),
            valid_count == state.approvers_below(
                payload.chain_id,
                hash,
                signatures,
                index as nat,
            ).len(),
        decreases MAX_BRIDGE_SIGNERS - index,
    {
        let approved = is_new_approver(env, payload, index);
        let ghost before = approvals@;
        approvals.push(approved);
        assert(approvals@.drop_last() =~= before);
        if approved {
            valid_count += 1;
        }
        index += 1;
    }
    proof {
        let found = state.approvers_below(payload.chain_id, hash, signatures, index as nat);
        let all = state.approvers(payload.chain_id, hash, signatures);
        lemma_approvers_are_finite(
            state,
            payload.chain_id,
            hash,
            signatures,
            MAX_BRIDGE_SIGNERS,
        );
        assert(found.subset_of(all));
        vstd::set_lib::lemma_len_subset(found, all);
    }
    check_quorum(threshold, &approvals)
}

/// Registers bridge signers and threshold for a chain. Only the admin may do so.
///
/// `signers` are ed25519 public keys; `threshold` is the number of valid signatures that a proof
/// from the chain needs. The keys take the first slots of the chain. Where the chain had more of
/// them before, the keys in the later slots stay registered, and their signatures still count.
pub fn register_bridge(
    env: &mut BridgeEnv,
    admin: &Address,
    chain_id: u32,
    signers: Vec<[u8; 32]>,
    threshold: u32,
) -> (res: Result<(), ExtError>)
    ensures
        final(env).same_place(*old(env)),
        match old(env).storage@.register_error(*admin, signers@, threshold) {
            Some(error) => {
                &&& res == Err::<(), ExtError>(error)
                &&& final(env).storage@ == old(env).storage@
                &&& final(env).effects@ == old(env).effects@
            },
            None => {
                &&& res == Ok::<(), ExtError>(())
                &&& final(env).storage@ == old(env).storage@.after_register(
                    chain_id,
                    signers@,
                    threshold,
                )
                &&& final(env).effects@ == old(env).effects@ + signer_effects(
                    chain_id,
                    signers@.len(),
                ) + seq![
                    Effect::Write(DataKey::BridgeThreshold(chain_id)),
                    Effect::ExtendTtl(DataKey::BridgeThreshold(chain_id)),
                ]
            },
        },
{
    match env.storage.admin {
        None => {
            return Err(ExtError::NotInitialized);
        },
        Some(stored_admin) => {
            if *admin != stored_admin {
                return Err(ExtError::AdminOnly);
            }
        },
    }
    if threshold == 0 || threshold as usize > signers.len() {
        return Err(ExtError::Unauthorized);
    }
    if signers.len() > MAX_BRIDGE_SIGNERS as usize {
        return Err(ExtError::BatchTooLarge);
    }
    let ghost start = env.storage@;
    let mut i: u32 = 0;
    while (i as usize) < signers.len()
        invariant
            i <= signers@.len() <= MAX_BRIDGE_SIGNERS,
            env.same_place(*old(env)),
            start == old(env).storage@,
            env.storage@ == (BridgeState {
                signers: start.with_signers(chain_id, signers@.take(i as int)),
                ..start
            }),
            env.effects@ == old(env).effects@ + signer_effects(chain_id, i as nat),
        decreases signers@.len() - i,
    {
        assert(signers@.take(i + 1).drop_last() =~= signers@.take(i as int));
        env.storage.signers.set((chain_id, i), signers[i as usize]);
        env.emit(Effect::Write(signer_key(chain_id, i)));
        env.emit(Effect::ExtendTtl(signer_key(chain_id, i)));
        i += 1;
    }
    assert(signers@.take(i as int) =~= signers@);
    env.storage.thresholds.set(chain_id, threshold);
    env.emit(Effect::Write(threshold_key(chain_id)));
    env.emit(Effect::ExtendTtl(threshold_key(chain_id)));
    Ok(())
}

/// Ends the submission of a fresh, unused proof once its signatures have been checked: rejects it
/// where the check failed, and otherwise records the proof as used and releases `release_amount`
/// of `token` to its recipient.
pub fn settle_submission(
    env: &mut BridgeEnv,
    payload: &CrossChainProof,
    token: &Address,
    release_amount: i128,
    verification: Result<(), ExtError>,
) -> (res: Result<(), ExtError>)
    ensures
        final(env).same_place(*old(env)),
        match verification {
            Err(_) => {
                &&& res == Err::<(), ExtError>(ExtError::Unauthorized)
                &&& final(env).storage@ == old(env).storage@
                &&& final(env).effects@ == old(env).effects@.push(
                    rejected_effect(*payload, REJECTED_SIGNATURES),
                )
            },
            Ok(_) => {
                &&& res == Ok::<(), ExtError>(())
                &&& final(env).storage@ == old(env).storage@.with_consumed(
                    *payload,
                    old(env).ledger.timestamp,
                )
                &&& final(env).effects@ == old(env).effects@ + release_effects(
                    *payload,
                    old(env).contract,
                    *token,
                    release_amount,
                )
            },
        },
{
    if verification.is_err() {
        env.emit(
            Effect::Publish(
                BridgeEvent::ProofRejected {
                    proof_hash: payload.proof_hash,
                    chain_id: payload.chain_id,
                    escrow_id: payload.escrow_id,
                    reason: REJECTED_SIGNATURES,
                },
            ),
        );
        return Err(ExtError::Unauthorized);
    }
    let record = ProofRecord {
        chain_id: payload.chain_id,
        escrow_id: payload.escrow_id,
        verified_at: env.ledger.timestamp,
        consumed: true,
    };
    env.storage.proofs.set(payload.proof_hash, record);
    env.emit(Effect::Write(proof_key(&payload.proof_hash)));
    env.emit(Effect::ExtendTtl(proof_key(&payload.proof_hash)));
    let contract = env.contract;
    env.emit(
        Effect::Transfer(
            Transfer {
                token: *token,
                from: contract,
                to: payload.recipient,
                amount: release_amount,
            },
        ),
    );
    env.emit(
        Effect::Publish(
            BridgeEvent::EscrowReleased {
                escrow_id: payload.escrow_id,
                chain_id: payload.chain_id,
                proof_hash: payload.proof_hash,
                recipient: payload.recipient,
                amount: release_amount,
            },
        ),
    );
    Ok(())
}

/// Submits a proof and, if it is valid, releases `release_amount` of `token` to its recipient.
///
/// Errors: `VotingWindowClosed` for a stale proof, `DisputeAlreadyExists` for one that was used
/// before, `Unauthorized` where no bridge is registered or signatures are missing. Every rejection
/// is published with its reason.
pub fn submit_proof_and_release(
    env: &mut BridgeEnv,
    relayer: &Address,
    payload: CrossChainProof,
    token: &Address,
    release_amount: i128,
) -> (res: Result<(), ExtError>)
    requires
        payload.submitted_at + PROOF_TTL_SECONDS <= u64::MAX,
    ensures
        final(env).same_place(*old(env)),
        res == old(env).storage@.submit_result(payload, old(env).ledger.timestamp),
        final(env).storage@ == old(env).storage@.after_submit(payload, old(env).ledger.timestamp),
        final(env).effects@ == old(env).effects@ + seq![
            Effect::RequireAuth(*relayer),
            submitted_effect(payload),
        ] + (match res {
            Err(ExtError::VotingWindowClosed) => seq![rejected_effect(payload, REJECTED_STALE)],
            Err(ExtError::DisputeAlreadyExists) => seq![
                rejected_effect(payload, REJECTED_REPLAYED),
            ],
            Err(_) => seq![rejected_effect(payload, REJECTED_SIGNATURES)],
            Ok(_) => release_effects(payload, old(env).contract, *token, release_amount),
        }),
{
    env.emit(Effect::RequireAuth(*relayer));
    env.emit(
        Effect::Publish(
            BridgeEvent::ProofSubmitted {
                proof_hash: payload.proof_hash,
                chain_id: payload.chain_id,
                escrow_id: payload.escrow_id,
            },
        ),
    );
    let now: u64 = env.ledger.timestamp;
    if payload.submitted_at + PROOF_TTL_SECONDS < now {
        env.emit(
            Effect::Publish(
                BridgeEvent::ProofRejected {
                    proof_hash: payload.proof_hash,
                    chain_id: payload.chain_id,
                    escrow_id: payload.escrow_id,
                    reason: REJECTED_STALE,
                },
            ),
        );
        return Err(ExtError::VotingWindowClosed);
    }
    match env.storage.proofs.get(&payload.proof_hash) {
        Some(record) => {
            if record.consumed {
                env.emit(
                    Effect::Publish(
                        BridgeEvent::ProofRejected {
                            proof_hash: payload.proof_hash,
                            chain_id: payload.chain_id,
                            escrow_id: payload.escrow_id,
                            reason: REJECTED_REPLAYED,
                        },
                    ),
                );
                return Err(ExtError::DisputeAlreadyExists);
            }
        },
        None => {},
    }
    let verification = verify_multisig(env, &payload);
    settle_submission(env, &payload, token, release_amount, verification)
}

/// The record of the proof with this hash.
pub fn get_proof_record(env: &BridgeEnv, proof_hash: [u8; 32]) -> (res: Result<
    ProofRecord,
    ExtError,
>)
    ensures
        res == (if env.storage@.proofs.contains_key(proof_hash@) {
            Ok::<ProofRecord, ExtError>(env.storage@.proofs[proof_hash@])
        } else {
            Err(ExtError::DisputeNotFound)
        }),
{
    match env.storage.proofs.get(&proof_hash) {
        Some(record) => Ok(*record),
        None => Err(ExtError::DisputeNotFound),
    }
}

// Laws

/// A submission is answered `Ok` exactly when the proof is fresh, was never used, a bridge is
/// registered for its chain, and at least the threshold of different registered keys have signed
/// it.
pub proof fn law_release_conditions(state: BridgeState, payload: CrossChainProof, now: u64)
    ensures
        state.submit_result(payload, now) is Ok <==> {
            &&& payload.submitted_at + PROOF_TTL_SECONDS >= now
            &&& !state.consumed(payload.proof_hash@)
            &&& state.threshold(payload.chain_id) > 0
            &&& state.approvers(payload.chain_id, payload.proof_hash@, payload.signatures@).len()
                >= state.threshold(payload.chain_id)
        },
{
}

/// A proof releases once: after a release, every submission with the same hash is refused,
/// whatever else it carries and whenever it comes.
pub proof fn law_no_replay(
    state: BridgeState,
    first: CrossChainProof,
    first_at: u64,
    second: CrossChainProof,
    second_at: u64,
)
    requires
        state.submit_result(first, first_at) is Ok,
        second.proof_hash@ == first.proof_hash@,
    ensures
        state.after_submit(first, first_at).submit_result(second, second_at) == (if is_stale(
            second.submitted_at,
            second_at,
        ) {
            Err::<(), ExtError>(ExtError::VotingWindowClosed)
        } else {
            Err(ExtError::DisputeAlreadyExists)
        }),
{
}

/// A used proof stays used, whatever is submitted or registered afterwards.
pub proof fn law_consumed_for_good(
    state: BridgeState,
    hash: Seq<u8>,
    payload: CrossChainProof,
    now: u64,
    chain_id: u32,
    signers: Seq<[u8; 32]>,
    threshold: u32,
)
    requires
        state.consumed(hash),
    ensures
        state.after_submit(payload, now).consumed(hash),
        state.after_register(chain_id, signers, threshold).consumed(hash),
{
}

/// A release leaves a record of the proof, and of no other one.
pub proof fn law_release_is_recorded(state: BridgeState, payload: CrossChainProof, now: u64)
    requires
        state.submit_result(payload, now) is Ok,
    ensures
        state.after_submit(payload, now).proofs.contains_key(payload.proof_hash@),
        state.after_submit(payload, now).proofs[payload.proof_hash@] == consumed_record(
            payload,
            now,
        ),
        forall|other: Seq<u8>|
            other != payload.proof_hash@ ==> {
                &&& #[trigger] state.after_submit(payload, now).proofs.contains_key(other)
                    == state.proofs.contains_key(other)
                &&& state.after_submit(payload, now).proofs[other] == state.proofs[other]
            },
{
}

/// A stale proof stays stale.
pub proof fn law_stale_for_good(submitted_at: u64, now: u64, later: u64)
    requires
        is_stale(submitted_at, now),
        now <= later,
    ensures
        is_stale(submitted_at, later),
{
}

/// No proof from a chain without a registered bridge releases anything.
pub proof fn law_unregistered_chain_releases_nothing(
    state: BridgeState,
    payload: CrossChainProof,
    now: u64,
)
    requires
        state.threshold(payload.chain_id) == 0,
    ensures
        state.submit_result(payload, now) is Err,
{
}

proof fn lemma_more_signatures(
    state: BridgeState,
    chain_id: u32,
    index: u32,
    hash: Seq<u8>,
    few: Seq<[u8; 64]>,
    many: Seq<[u8; 64]>,
)
    requires
        forall|j: int|
            0 <= j < few.len() ==> many.contains(#[trigger] few[j]),
        state.approves(chain_id, index, hash, few),
    ensures
        state.approves(chain_id, index, hash, many),
{
    let key = state.signers[(chain_id, index)]@;
    let j = choose|j: int|
        0 <= j < few.len() && #[trigger] crate::ed25519::ed25519_valid(key, hash, few[j]@);
    assert(many.contains(few[j]));
    let k = choose|k: int| 0 <= k < many.len() && #[trigger] many[k] == few[j];
    assert(crate::ed25519::ed25519_valid(key, hash, many[k]@));
}

/// More signatures never hurt: a verified proof stays verified when its signatures are reordered
/// or others are added.
pub proof fn law_more_signatures_keep_proof_verified(
    state: BridgeState,
    payload: CrossChainProof,
    fuller: CrossChainProof,
)
    requires
        state.verified(payload),
        fuller.chain_id == payload.chain_id,
        fuller.proof_hash == payload.proof_hash,
        forall|j: int|
            0 <= j < payload.signatures@.len() ==> fuller.signatures@.contains(
                #[trigger] payload.signatures@[j],
            ),
    ensures
        state.verified(fuller),
{
    let (chain_id, hash) = (payload.chain_id, payload.proof_hash@);
    let (few, many) = (payload.signatures@, fuller.signatures@);
    let less = state.approvers(chain_id, hash, few);
    let more = state.approvers(chain_id, hash, many);
    assert forall|key: Seq<u8>| less.contains(key) implies more.contains(key) by {
        let i = choose|i: u32|
            i < MAX_BRIDGE_SIGNERS && #[trigger] state.approves(chain_id, i, hash, few)
                && state.signers[(chain_id, i)]@ == key;
        lemma_more_signatures(state, chain_id, i, hash, few, many);
    }
    lemma_approvers_are_finite(state, chain_id, hash, many, MAX_BRIDGE_SIGNERS);
    vstd::set_lib::lemma_len_subset(less, more);
}

/// One key counts once: however many slots hold it and however many signatures it made, a proof
/// under which only that key signed is verified only at a threshold of one.
pub proof fn law_one_key_counts_once(state: BridgeState, payload: CrossChainProof, key: Seq<u8>)
    requires
        forall|i: u32|
            i < MAX_BRIDGE_SIGNERS && #[trigger] state.approves(
                payload.chain_id,
                i,
                payload.proof_hash@,
                payload.signatures@,
            ) ==> state.signers[(payload.chain_id, i)]@ == key,
        state.verified(payload),
    ensures
        state.threshold(payload.chain_id) == 1,
{
    let approvers = state.approvers(payload.chain_id, payload.proof_hash@, payload.signatures@);
    let only = Set::<Seq<u8>>::empty().insert(key);
    assert(approvers.subset_of(only));
    vstd::set_lib::lemma_len_subset(approvers, only);
}

proof fn lemma_with_signers(
    state: BridgeState,
    chain_id: u32,
    signers: Seq<[u8; 32]>,
    chain: u32,
    index: u32,
)
    requires
        signers.len() <= MAX_BRIDGE_SIGNERS,
    ensures
        chain == chain_id && index < signers.len() ==> {
            &&& state.with_signers(chain_id, signers).contains_key((chain, index))
            &&& state.with_signers(chain_id, signers)[(chain, index)] == signers[index as int]
        },
        !(chain == chain_id && index < signers.len()) ==> {
            &&& state.with_signers(chain_id, signers).contains_key((chain, index))
                == state.signers.contains_key((chain, index))
            &&& state.with_signers(chain_id, signers)[(chain, index)] == state.signers[(
                chain,
                index,
            )]
        },
    decreases signers.len(),
{
    if signers.len() > 0 {
        lemma_with_signers(state, chain_id, signers.drop_last(), chain, index);
    }
}

/// Registering a bridge fills the first slots of the chain with the given keys, in order, and
/// leaves every other slot of every chain as it was.
pub proof fn law_register_fills_slots(
    state: BridgeState,
    chain_id: u32,
    signers: Seq<[u8; 32]>,
    threshold: u32,
    chain: u32,
    index: u32,
)
    requires
        signers.len() <= MAX_BRIDGE_SIGNERS,
    ensures
        ({
            let after = state.after_register(chain_id, signers, threshold);
            if chain == chain_id && index < signers.len() {
                &&& after.signers.contains_key((chain, index))
                &&& after.signers[(chain, index)] == signers[index as int]
            } else {
                &&& after.signers.contains_key((chain, index)) == state.signers.contains_key(
                    (chain, index),
                )
                &&& after.signers[(chain, index)] == state.signers[(chain, index)]
            }
        }),
{
    lemma_with_signers(state, chain_id, signers, chain, index);
}

/// Registering a bridge sets the threshold of its chain and changes nothing for proofs from
/// other chains.
pub proof fn law_register_concerns_one_chain(
    state: BridgeState,
    chain_id: u32,
    signers: Seq<[u8; 32]>,
    threshold: u32,
    payload: CrossChainProof,
    now: u64,
)
    requires
        signers.len() <= MAX_BRIDGE_SIGNERS,
    ensures
        state.after_register(chain_id, signers, threshold).threshold(chain_id) == threshold,
        payload.chain_id != chain_id ==> state.after_register(
            chain_id,
            signers,
            threshold,
        ).submit_result(payload, now) == state.submit_result(payload, now),
{
    if payload.chain_id != chain_id {
        let after = state.after_register(chain_id, signers, threshold);
        let (hash, signatures) = (payload.proof_hash@, payload.signatures@);
        assert forall|i: u32|
            #![trigger after.approves(payload.chain_id, i, hash, signatures)]
            #![trigger state.approves(payload.chain_id, i, hash, signatures)]
            after.approves(payload.chain_id, i, hash, signatures) == state.approves(
                payload.chain_id,
                i,
                hash,
                signatures,
            ) && after.signers[(payload.chain_id, i)] == state.signers[(payload.chain_id, i)] by {
            lemma_with_signers(state, chain_id, signers, payload.chain_id, i);
        }
        assert(after.approvers(payload.chain_id, hash, signatures) =~= state.approvers(
            payload.chain_id,
            hash,
            signatures,
        ));
    }
}

/// A call of the bridge by someone who authorized it.
pub enum BridgeCall {
    Register { admin: Address, chain_id: u32, signers: Seq<[u8; 32]>, threshold: u32 },
    Submit { payload: CrossChainProof },
}

impl BridgeState {
    /// The call at time `now` is a submission under `hash` that is answered with a release.
    pub open spec fn releases(self, call: BridgeCall, now: u64, hash: Seq<u8>) -> bool {
        match call {
            BridgeCall::Register { .. } => false,
            BridgeCall::Submit { payload } => {
                &&& payload.proof_hash@ == hash
                &&& payload.submitted_at + PROOF_TTL_SECONDS <= u64::MAX
                &&& self.submit_result(payload, now) is Ok
            },
        }
    }

    /// The state after a call at time `now`. A call that is refused, or whose expiry time cannot
    /// be represented, changes nothing.
    pub open spec fn after_call(self, call: BridgeCall, now: u64) -> BridgeState {
        match call {
            BridgeCall::Register { admin, chain_id, signers, threshold } => {
                if self.register_error(admin, signers, threshold) is None {
                    self.after_register(chain_id, signers, threshold)
                } else {
                    self
                }
            },
            BridgeCall::Submit { payload } => {
                if payload.submitted_at + PROOF_TTL_SECONDS <= u64::MAX {
                    self.after_submit(payload, now)
                } else {
                    self
                }
            },
        }
    }

    /// The state after a history of calls, each with the time at which it came.
    pub open spec fn after_calls(self, calls: Seq<(BridgeCall, u64)>) -> BridgeState
        decreases calls.len(),
    {
        if calls.len() == 0 {
            self
        } else {
            self.after_calls(calls.drop_last()).after_call(calls.last().0, calls.last().1)
        }
    }

    /// How many calls of a history are answered with a release under `hash`.
    pub open spec fn release_count(self, calls: Seq<(BridgeCall, u64)>, hash: Seq<u8>) -> nat
        decreases calls.len(),
    {
        if calls.len() == 0 {
            0
        } else {
            self.release_count(calls.drop_last(), hash) + if self.after_calls(
                calls.drop_last(),
            ).releases(calls.last().0, calls.last().1, hash) {
                1nat
            } else {
                0nat
            }
        }
    }
}

/// Through every history of calls a proof hash releases at most once, not at all if it was used
/// before, and it counts as used exactly if it was used before or released.
pub proof fn law_one_release_per_hash(
    state: BridgeState,
    calls: Seq<(BridgeCall, u64)>,
    hash: Seq<u8>,
)
    ensures
        state.release_count(calls, hash) <= 1,
        state.consumed(hash) ==> state.release_count(calls, hash) == 0,
        state.after_calls(calls).consumed(hash) <==> state.consumed(hash) || state.release_count(
            calls,
            hash,
        ) == 1,
    decreases calls.len(),
{
    if calls.len() > 0 {
        law_one_release_per_hash(state, calls.drop_last(), hash);
    }
}

/// Enough signers release: a fresh proof that was never used is answered `Ok` wherever there are as
/// many different keys as the threshold of its chain says, each of them registered in some slot of
/// the chain, whichever it is, and each the key of some signature of the proof hash, wherever it
/// stands among the signatures.
pub proof fn law_enough_signers_release(
    state: BridgeState,
    payload: CrossChainProof,
    now: u64,
    keys: Set<Seq<u8>>,
)
    requires
        payload.submitted_at + 3_600 >= now,
        !(state.proofs.contains_key(payload.proof_hash@)
            && state.proofs[payload.proof_hash@].consumed),
        state.thresholds.contains_key(payload.chain_id),
        state.thresholds[payload.chain_id] > 0,
        keys.finite(),
        keys.len() >= state.thresholds[payload.chain_id],
        forall|key: Seq<u8>| #[trigger]
            keys.contains(key) ==> {
                &&& exists|i: u32|
                    i < 10 && #[trigger] state.signers.contains_key((payload.chain_id, i))
                        && state.signers[(payload.chain_id, i)]@ == key
                &&& exists|j: int|
                    0 <= j < payload.signatures@.len() && #[trigger] crate::ed25519::ed25519_valid(
                        key,
                        payload.proof_hash@,
                        payload.signatures@[j]@,
                    )
            },
    ensures
        state.submit_result(payload, now) == Ok::<(), ExtError>(()),
{
    let (chain_id, hash) = (payload.chain_id, payload.proof_hash@);
    let signatures = payload.signatures@;
    let approvers = state.approvers(chain_id, hash, signatures);
    assert forall|key: Seq<u8>| keys.contains(key) implies approvers.contains(key) by {
        let i = choose|i: u32|
            i < 10 && #[trigger] state.signers.contains_key((chain_id, i)) && state.signers[(
                chain_id,
                i,
            )]@ == key;
        assert(state.approves(chain_id, i, hash, signatures));
    }
    lemma_approvers_are_finite(state, chain_id, hash, signatures, MAX_BRIDGE_SIGNERS);
    vstd::set_lib::lemma_len_subset(keys, approvers);
}

/// A release needs enough signers: where a submission is answered `Ok`, the proof is fresh and was
/// never used, its chain has a threshold, and every set that holds all registered keys of the chain
/// under which the proof hash was signed holds at least as many as the threshold says.
pub proof fn law_release_needs_signers(
    state: BridgeState,
    payload: CrossChainProof,
    now: u64,
    keys: Set<Seq<u8>>,
)
    requires
        state.submit_result(payload, now) is Ok,
        keys.finite(),
        forall|i: u32, j: int|
            i < 10 && #[trigger] state.signers.contains_key((payload.chain_id, i)) && 0 <= j
                < payload.signatures@.len() && #[trigger] crate::ed25519::ed25519_valid(
                state.signers[(payload.chain_id, i)]@,
                payload.proof_hash@,
                payload.signatures@[j]@,
            ) ==> keys.contains(state.signers[(payload.chain_id, i)]@),
    ensures
        payload.submitted_at + 3_600 >= now,
        !(state.proofs.contains_key(payload.proof_hash@)
            && state.proofs[payload.proof_hash@].consumed),
        state.thresholds.contains_key(payload.chain_id),
        state.thresholds[payload.chain_id] > 0,
        keys.len() >= state.thresholds[payload.chain_id],
{
    let (chain_id, hash) = (payload.chain_id, payload.proof_hash@);
    let signatures = payload.signatures@;
    let approvers = state.approvers(chain_id, hash, signatures);
    assert forall|key: Seq<u8>| approvers.contains(key) implies keys.contains(key) by {
        let i = choose|i: u32|
            i < MAX_BRIDGE_SIGNERS && #[trigger] state.approves(chain_id, i, hash, signatures)
                && state.signers[(chain_id, i)]@ == key;
        assert(state.signers.contains_key((chain_id, i)));
        let j = choose|j: int|
            0 <= j < signatures.len() && #[trigger] crate::ed25519::ed25519_valid(
                key,
                hash,
                signatures[j]@,
            );
        assert(crate::ed25519::ed25519_valid(
            state.signers[(chain_id, i)]@,
            hash,
            payload.signatures@[j]@,
        ));
    }
    vstd::set_lib::lemma_len_subset(approvers, keys);
}

/// Every registered key counts: after a bridge was registered with a list of at most ten different
/// keys, a fresh proof of its chain that was never used is answered `Ok` where as many keys of the
/// list as the threshold says, at whichever positions, made a signature of its hash.
pub proof fn law_every_registered_key_counts(
    state: BridgeState,
    signers: Seq<[u8; 32]>,
    threshold: u32,
    payload: CrossChainProof,
    now: u64,
    positions: Seq<int>,
)
    requires
        payload.submitted_at + 3_600 >= now,
        !(state.proofs.contains_key(payload.proof_hash@)
            && state.proofs[payload.proof_hash@].consumed),
        signers.len() <= 10,
        forall|a: int, b: int|
            0 <= a < b < signers.len() ==> (#[trigger] signers[a])@ != (#[trigger] signers[b])@,
        threshold > 0,
        positions.len() >= threshold,
        positions.no_duplicates(),
        forall|k: int|
            0 <= k < positions.len() ==> {
                &&& 0 <= #[trigger] positions[k] < signers.len()
                &&& exists|j: int|
                    0 <= j < payload.signatures@.len() && #[trigger] crate::ed25519::ed25519_valid(
                        signers[positions[k]]@,
                        payload.proof_hash@,
                        payload.signatures@[j]@,
                    )
            },
    ensures
        state.after_register(payload.chain_id, signers, threshold).submit_result(payload, now)
            == Ok::<(), ExtError>(()),
{
    let after = state.after_register(payload.chain_id, signers, threshold);
    let signed = Seq::new(positions.len(), |k: int| signers[positions[k]]@);
    assert(signed.no_duplicates()) by {
        assert forall|a: int, b: int|
            0 <= a < signed.len() && 0 <= b < signed.len() && a != b implies signed[a]
            != signed[b] by {
            assert(positions[a] != positions[b]);
            if positions[a] < positions[b] {
                assert(signers[positions[a]]@ != signers[positions[b]]@);
            } else {
                assert(signers[positions[b]]@ != signers[positions[a]]@);
            }
        }
    }
    signed.unique_seq_to_set();
    let keys = signed.to_set();
    assert forall|key: Seq<u8>| #[trigger] keys.contains(key) implies {
        &&& exists|i: u32|
            i < 10 && #[trigger] after.signers.contains_key((payload.chain_id, i))
                && after.signers[(payload.chain_id, i)]@ == key
        &&& exists|j: int|
            0 <= j < payload.signatures@.len() && #[trigger] crate::ed25519::ed25519_valid(
                key,
                payload.proof_hash@,
                payload.signatures@[j]@,
            )
    } by {
        let k = choose|k: int| 0 <= k < signed.len() && signed[k] == key;
        let p = positions[k];
        lemma_with_signers(state, payload.chain_id, signers, payload.chain_id, p as u32);
        assert(after.signers.contains_key((payload.chain_id, p as u32)));
    }
    law_enough_signers_release(after, payload, now, keys);
}

/// A submission is refused as stale exactly when more than an hour has passed since the proof was
/// made, as a replay exactly when it is not stale and its hash was used, and otherwise it is
/// released or refused for want of signatures.
pub proof fn law_submission_answers(state: BridgeState, payload: CrossChainProof, now: u64)
    ensures
        ({
            let stale = payload.submitted_at + 3_600 < now;
            let used = state.proofs.contains_key(payload.proof_hash@)
                && state.proofs[payload.proof_hash@].consumed;
            let result = state.submit_result(payload, now);
            &&& result == Err::<(), ExtError>(ExtError::VotingWindowClosed) <==> stale
            &&& result == Err::<(), ExtError>(ExtError::DisputeAlreadyExists) <==> !stale && used
            &&& result == Ok::<(), ExtError>(()) || result == Err::<(), ExtError>(
                ExtError::Unauthorized,
            ) <==> !stale && !used
            &&& result is Ok <==> !stale && !used && state.verified(payload)
        }),
{
}

/// A released proof is recorded under its hash with its chain, its escrow and the time, as used. A
/// submission that is not released changes nothing, and none changes signers, thresholds, admin or
/// other records.
pub proof fn law_submission_is_recorded(
    state: BridgeState,
    payload: CrossChainProof,
    now: u64,
    other: Seq<u8>,
)
    ensures
        ({
            let recorded = state.with_consumed(payload, now);
            let after = state.after_submit(payload, now);
            let hash = payload.proof_hash@;
            &&& recorded.proofs.contains_key(hash)
            &&& recorded.proofs[hash].chain_id == payload.chain_id
            &&& recorded.proofs[hash].escrow_id == payload.escrow_id
            &&& recorded.proofs[hash].verified_at == now
            &&& recorded.proofs[hash].consumed
            &&& other != hash ==> {
                &&& recorded.proofs.contains_key(other) == state.proofs.contains_key(other)
                &&& recorded.proofs[other] == state.proofs[other]
            }
            &&& recorded.admin == state.admin
            &&& recorded.signers == state.signers
            &&& recorded.thresholds == state.thresholds
            &&& state.submit_result(payload, now) is Ok ==> after == recorded
            &&& state.submit_result(payload, now) is Err ==> after == state
        }),
{
}

/// The admin can register every list of one to ten keys with every threshold that the list can
/// meet, and nobody can register anything else. The threshold is then the one that was asked for,
/// and the admin, the records and the thresholds of other chains stay.
pub proof fn law_registration(
    state: BridgeState,
    admin: Address,
    chain_id: u32,
    signers: Seq<[u8; 32]>,
    threshold: u32,
    other: u32,
)
    ensures
        ({
            let error = state.register_error(admin, signers, threshold);
            let by_admin = state.admin == Some(admin);
            let met = 1 <= threshold <= signers.len();
            let after = state.after_register(chain_id, signers, threshold);
            &&& error is None <==> by_admin && met && signers.len() <= 10
            &&& error == Some(ExtError::NotInitialized) <==> state.admin is None
            &&& error == Some(ExtError::AdminOnly) <==> state.admin is Some && !by_admin
            &&& error == Some(ExtError::Unauthorized) <==> by_admin && !met
            &&& error == Some(ExtError::BatchTooLarge) <==> by_admin && met && signers.len() > 10
            &&& after.thresholds.contains_key(chain_id)
            &&& after.thresholds[chain_id] == threshold
            &&& other != chain_id ==> {
                &&& after.thresholds.contains_key(other) == state.thresholds.contains_key(other)
                &&& after.thresholds[other] == state.thresholds[other]
            }
            &&& after.admin == state.admin
            &&& after.proofs == state.proofs
        }),
{
}

/// A registration writes every slot that it fills, in order, and keeps each of them alive.
pub proof fn law_registration_writes_slots(chain_id: u32, n: nat, i: int)
    requires
        n <= 10,
        0 <= i < n,
    ensures
        signer_effects(chain_id, n).len() == 2 * n,
        signer_effects(chain_id, n)[2 * i] == Effect::<DataKey, BridgeEvent>::Write(
            DataKey::BridgeSigner(chain_id, i as u32),
        ),
        signer_effects(chain_id, n)[2 * i + 1] == Effect::<DataKey, BridgeEvent>::ExtendTtl(
            DataKey::BridgeSigner(chain_id, i as u32),
        ),
    decreases n,
{
    if n > 1 {
        law_registration_writes_slots(chain_id, (n - 1) as nat, if i < n - 1 {
            i
        } else {
            0
        });
    } else {
        assert(signer_effects(chain_id, 0) =~= Seq::empty());
    }
}

/// A quorum counts approvals: none are none, and each further approval adds one, while each
/// refusal adds nothing.
pub proof fn law_approvals_are_counted(approvals: Seq<bool>, approved: bool)
    ensures
        count_true(Seq::empty()) == 0,
        count_true(approvals.push(approved)) == count_true(approvals) + (if approved {
            1int
        } else {
            0int
        }),
{
    assert(approvals.push(approved).drop_last() =~= approvals);
}

/// A submission and its rejection are published with the hash, the chain and the escrow of the
/// proof, the rejection with its reason.
pub proof fn law_submission_is_published(payload: CrossChainProof, reason: u32)
    ensures
        submitted_effect(payload) == Effect::<DataKey, BridgeEvent>::Publish(
            BridgeEvent::ProofSubmitted {
                proof_hash: payload.proof_hash,
                chain_id: payload.chain_id,
                escrow_id: payload.escrow_id,
            },
        ),
        rejected_effect(payload, reason) == Effect::<DataKey, BridgeEvent>::Publish(
            BridgeEvent::ProofRejected {
                proof_hash: payload.proof_hash,
                chain_id: payload.chain_id,
                escrow_id: payload.escrow_id,
                reason,
            },
        ),
{
}

/// A release writes the record of the proof and keeps it alive, transfers the amount in the given
/// token from the contract to the recipient of the proof, and is published.
pub proof fn law_release_is_performed(
    payload: CrossChainProof,
    contract: Address,
    token: Address,
    amount: i128,
)
    ensures
        ({
            let effects = release_effects(payload, contract, token, amount);
            let key = DataKey::CrossChainProof(payload.proof_hash);
            &&& effects.len() == 4
            &&& effects[0] == Effect::<DataKey, BridgeEvent>::Write(key)
            &&& effects[1] == Effect::<DataKey, BridgeEvent>::ExtendTtl(key)
            &&& effects[2] == Effect::<DataKey, BridgeEvent>::Transfer(
                Transfer { token, from: contract, to: payload.recipient, amount },
            )
            &&& effects[3] == Effect::<DataKey, BridgeEvent>::Publish(
                BridgeEvent::EscrowReleased {
                    escrow_id: payload.escrow_id,
                    chain_id: payload.chain_id,
                    proof_hash: payload.proof_hash,
                    recipient: payload.recipient,
                    amount,
                },
            )
        }),
{
}

} // verus!
