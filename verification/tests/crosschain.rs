use stellar_trust::crosschain::{
    check_quorum, get_proof_record, proof_key, register_bridge, settle_submission, signer_key,
    submit_proof_and_release, threshold_key, verify_multisig, BridgeEnv, BridgeEvent,
    BridgeStorage, CrossChainProof, DataKey, ExtError, ProofRecord, MAX_BRIDGE_SIGNERS,
    PROOF_TTL_SECONDS, REJECTED_REPLAYED, REJECTED_SIGNATURES, REJECTED_STALE,
};
use stellar_trust::host::{Address, AddressKind, Effect, Env, Ledger, Transfer};

const CHAIN: u32 = 118;

const HASH: [u8; 32] = [
    0x01, 0x02, 0x03, 0x04, 0x05, 0x06, 0x07, 0x08, 0x09, 0x0a, 0x0b, 0x0c,
    0x0d, 0x0e, 0x0f, 0x10, 0x11, 0x12, 0x13, 0x14, 0x15, 0x16, 0x17, 0x18,
    0x19, 0x1a, 0x1b, 0x1c, 0x1d, 0x1e, 0x1f, 0x20,
];

const KEY_A: [u8; 32] = [
    0x06, 0x83, 0xf7, 0xac, 0x00, 0xa0, 0x8c, 0xdc, 0xac, 0x26, 0x6e, 0x12,
    0xb7, 0xb2, 0x6a, 0x31, 0x83, 0xd9, 0x31, 0x18, 0x3f, 0x08, 0xc2, 0x2f,
    0x10, 0xea, 0x0e, 0x7a, 0xa5, 0x1a, 0xde, 0x35,
];

const SIGNATURE_A: [u8; 64] = [
    0xc7, 0x98, 0xc1, 0x9d, 0xb3, 0x66, 0x1b, 0x85, 0x4d, 0xfe, 0x16, 0x5a,
    0x44, 0xf1, 0x45, 0xa7, 0x30, 0x79, 0xf4, 0x90, 0x59, 0x84, 0x73, 0xdb,
    0x3c, 0xfd, 0xc3, 0x64, 0x90, 0x9d, 0xe6, 0xba, 0x21, 0x90, 0x54, 0x87,
    0xe2, 0x99, 0xb6, 0x8e, 0x44, 0x20, 0xf5, 0xa4, 0x96, 0xc1, 0x95, 0xea,
    0x69, 0xd3, 0x17, 0x75, 0x5a, 0xbe, 0xd7, 0xe3, 0xb6, 0xee, 0x46, 0xff,
    0x72, 0xd6, 0x3a, 0x02,
];

const KEY_B: [u8; 32] = [
    0xf2, 0x47, 0x93, 0xe4, 0xa7, 0x90, 0x17, 0x72, 0xb3, 0x3c, 0xe4, 0xb7,
    0x6c, 0xbe, 0x39, 0x54, 0xa9, 0x91, 0x16, 0x5e, 0x12, 0x6a, 0xe9, 0xb2,
    0x80, 0xb5, 0x29, 0x8a, 0xbf, 0x91, 0x96, 0x05,
];

const SIGNATURE_B: [u8; 64] = [
    0x12, 0x94, 0x8e, 0xd2, 0x3c, 0x48, 0xcb, 0xbf, 0x96, 0xbc, 0x72, 0x28,
    0x61, 0x18, 0xe7, 0xf5, 0xc1, 0x6f, 0xdc, 0xd4, 0xc1, 0x68, 0xb8, 0x17,
    0x3f, 0x79, 0x3e, 0x14, 0x9a, 0x35, 0xb7, 0xed, 0xe8, 0x47, 0x89, 0x60,
    0x73, 0xc4, 0x26, 0xf0, 0xbe, 0xc4, 0x66, 0x8a, 0x33, 0xe2, 0x17, 0x8d,
    0xe0, 0x33, 0x1e, 0xf8, 0x7e, 0x8b, 0xa8, 0x66, 0x79, 0x50, 0x7a, 0x1c,
    0x20, 0x6c, 0xe9, 0x0a,
];

const KEY_C: [u8; 32] = [
    0x6e, 0x50, 0x17, 0x65, 0x1b, 0x39, 0x61, 0xda, 0x00, 0x88, 0x25, 0xd1,
    0x0b, 0x24, 0xd8, 0x6c, 0x6f, 0x89, 0xcc, 0x14, 0x52, 0xa3, 0xad, 0xfc,
    0x04, 0xed, 0xc9, 0x2e, 0xf8, 0xe4, 0x4d, 0xcc,
];

const SIGNATURE_C: [u8; 64] = [
    0x74, 0xd6, 0x94, 0x3c, 0xb0, 0x66, 0x8a, 0x90, 0xaa, 0xc9, 0x5f, 0xcb,
    0xba, 0x07, 0x47, 0xcd, 0x3a, 0x9a, 0x6a, 0x2f, 0xf5, 0xf1, 0x68, 0xd2,
    0xdf, 0x21, 0xdf, 0x35, 0xe0, 0x9b, 0x50, 0x4e, 0x64, 0x5f, 0xf8, 0x04,
    0xa5, 0xb5, 0x5f, 0xc9, 0x0f, 0x13, 0x95, 0xd3, 0x3c, 0x17, 0xcd, 0x90,
    0x97, 0xff, 0xac, 0x33, 0x6d, 0x72, 0xf5, 0x56, 0x35, 0xe3, 0xdc, 0x1b,
    0xa3, 0xf8, 0xe5, 0x0c,
];

fn account(n: u128) -> Address {
    Address { kind: AddressKind::Account, hi: 0, lo: n }
}

fn admin() -> Address {
    account(1)
}

fn relayer() -> Address {
    account(2)
}

fn recipient() -> Address {
    account(3)
}

fn contract() -> Address {
    Address { kind: AddressKind::Contract, hi: 7, lo: 1 }
}

fn token() -> Address {
    Address { kind: AddressKind::Contract, hi: 7, lo: 2 }
}

fn env_at(timestamp: u64) -> BridgeEnv {
    let storage = BridgeStorage::new(Some(admin()));
    Env::new(Ledger { sequence: 1, timestamp }, contract(), storage)
}

/// Two of the three signers must sign.
fn bridge_at(timestamp: u64) -> BridgeEnv {
    let mut env = env_at(timestamp);
    register_bridge(&mut env, &admin(), CHAIN, vec![KEY_A, KEY_B, KEY_C], 2).unwrap();
    env.effects.clear();
    env
}

fn payload_with(signatures: Vec<[u8; 64]>) -> CrossChainProof {
    CrossChainProof {
        chain_id: CHAIN,
        proof_hash: HASH,
        signatures,
        submitted_at: 1000,
        escrow_id: 42,
        recipient: recipient(),
    }
}

fn submitted() -> Effect<DataKey, BridgeEvent> {
    Effect::Publish(BridgeEvent::ProofSubmitted {
        proof_hash: HASH,
        chain_id: CHAIN,
        escrow_id: 42,
    })
}

fn rejected(reason: u32) -> Effect<DataKey, BridgeEvent> {
    Effect::Publish(BridgeEvent::ProofRejected {
        proof_hash: HASH,
        chain_id: CHAIN,
        escrow_id: 42,
        reason,
    })
}

fn submit(env: &mut BridgeEnv, payload: CrossChainProof) -> Result<(), ExtError> {
    submit_proof_and_release(env, &relayer(), payload, &token(), 550)
}

#[test]
fn proof_ttl_constant() {
    assert_eq!(PROOF_TTL_SECONDS, 3_600);
}

#[test]
fn max_bridge_signers_constant() {
    assert_eq!(MAX_BRIDGE_SIGNERS, 10);
}

#[test]
fn proof_record_consumed_flag() {
    let record = ProofRecord { chain_id: 1, escrow_id: 42, verified_at: 1000, consumed: true };
    assert!(record.consumed);

    // A consumed record bars its proof.
    let mut env = bridge_at(1000);
    env.storage.proofs.set(HASH, record);
    let payload = payload_with(vec![SIGNATURE_A, SIGNATURE_B]);
    assert_eq!(submit(&mut env, payload), Err(ExtError::DisputeAlreadyExists));
    assert_eq!(
        env.effects,
        vec![Effect::RequireAuth(relayer()), submitted(), rejected(REJECTED_REPLAYED)]
    );
    assert_eq!(get_proof_record(&env, HASH), Ok(record));
}

#[test]
fn stale_proof_detection() {
    let submitted_at: u64 = 1000;
    let now: u64 = submitted_at + PROOF_TTL_SECONDS + 1;
    assert!(submitted_at + PROOF_TTL_SECONDS < now);

    let mut env = bridge_at(now);
    let payload = payload_with(vec![SIGNATURE_A, SIGNATURE_B]);
    assert_eq!(submit(&mut env, payload), Err(ExtError::VotingWindowClosed));
    assert_eq!(
        env.effects,
        vec![Effect::RequireAuth(relayer()), submitted(), rejected(REJECTED_STALE)]
    );
    assert_eq!(get_proof_record(&env, HASH), Err(ExtError::DisputeNotFound));
}

#[test]
fn fresh_proof_passes_staleness_check() {
    let submitted_at: u64 = 1000;
    let now: u64 = submitted_at + PROOF_TTL_SECONDS - 1;
    assert!(submitted_at + PROOF_TTL_SECONDS >= now);

    let mut env = bridge_at(now);
    let payload = payload_with(vec![SIGNATURE_A, SIGNATURE_B]);
    assert_eq!(submit(&mut env, payload), Ok(()));
}

#[test]
fn threshold_zero_means_no_bridge() {
    let threshold: u32 = 0;
    assert_eq!(threshold, 0);
    assert_eq!(check_quorum(threshold, &vec![true, true]), Err(ExtError::Unauthorized));

    let env = env_at(1000);
    let payload = payload_with(vec![SIGNATURE_A, SIGNATURE_B]);
    assert_eq!(verify_multisig(&env, &payload), Err(ExtError::Unauthorized));
}

#[test]
fn proof_at_the_end_of_its_life_is_fresh() {
    let mut env = bridge_at(1000 + PROOF_TTL_SECONDS);
    assert_eq!(submit(&mut env, payload_with(vec![SIGNATURE_A, SIGNATURE_B])), Ok(()));
}

#[test]
fn keys_of_entries() {
    assert_eq!(proof_key(&HASH), DataKey::CrossChainProof(HASH));
    assert_eq!(signer_key(5, 6), DataKey::BridgeSigner(5, 6));
    assert_eq!(threshold_key(5), DataKey::BridgeThreshold(5));
}

#[test]
fn release_on_enough_signatures() {
    let mut env = bridge_at(1500);
    assert_eq!(submit(&mut env, payload_with(vec![SIGNATURE_C, SIGNATURE_A])), Ok(()));
    assert_eq!(
        env.effects,
        vec![
            Effect::RequireAuth(relayer()),
            submitted(),
            Effect::Write(DataKey::CrossChainProof(HASH)),
            Effect::ExtendTtl(DataKey::CrossChainProof(HASH)),
            Effect::Transfer(Transfer {
                token: token(),
                from: contract(),
                to: recipient(),
                amount: 550,
            }),
            Effect::Publish(BridgeEvent::EscrowReleased {
                escrow_id: 42,
                chain_id: CHAIN,
                proof_hash: HASH,
                recipient: recipient(),
                amount: 550,
            }),
        ]
    );
    assert_eq!(
        get_proof_record(&env, HASH),
        Ok(ProofRecord { chain_id: CHAIN, escrow_id: 42, verified_at: 1500, consumed: true })
    );
}

#[test]
fn proof_releases_once() {
    let mut env = bridge_at(1500);
    let signatures = vec![SIGNATURE_A, SIGNATURE_B];
    assert_eq!(submit(&mut env, payload_with(signatures.clone())), Ok(()));
    assert_eq!(
        submit(&mut env, payload_with(signatures.clone())),
        Err(ExtError::DisputeAlreadyExists)
    );
    // Neither another escrow nor another set of signers brings the hash back.
    register_bridge(&mut env, &admin(), CHAIN, vec![KEY_A], 1).unwrap();
    let mut other = payload_with(signatures);
    other.escrow_id = 43;
    assert_eq!(submit(&mut env, other), Err(ExtError::DisputeAlreadyExists));
}

#[test]
fn too_few_signatures_are_rejected() {
    let mut env = bridge_at(1500);
    assert_eq!(submit(&mut env, payload_with(vec![SIGNATURE_A])), Err(ExtError::Unauthorized));
    assert_eq!(
        env.effects,
        vec![Effect::RequireAuth(relayer()), submitted(), rejected(REJECTED_SIGNATURES)]
    );
    assert_eq!(get_proof_record(&env, HASH), Err(ExtError::DisputeNotFound));
}

#[test]
fn one_signer_counts_once() {
    let env = bridge_at(1500);
    let payload = payload_with(vec![SIGNATURE_A, SIGNATURE_A, SIGNATURE_A]);
    assert_eq!(verify_multisig(&env, &payload), Err(ExtError::Unauthorized));
}

#[test]
fn key_in_two_slots_counts_once() {
    let mut env = env_at(1500);
    register_bridge(&mut env, &admin(), CHAIN, vec![KEY_A, KEY_A], 2).unwrap();
    assert_eq!(
        verify_multisig(&env, &payload_with(vec![SIGNATURE_A])),
        Err(ExtError::Unauthorized)
    );
    assert_eq!(
        verify_multisig(&env, &payload_with(vec![SIGNATURE_A, SIGNATURE_A])),
        Err(ExtError::Unauthorized)
    );
    // A second key makes up the threshold.
    register_bridge(&mut env, &admin(), CHAIN, vec![KEY_A, KEY_A, KEY_B], 2).unwrap();
    assert_eq!(verify_multisig(&env, &payload_with(vec![SIGNATURE_A, SIGNATURE_B])), Ok(()));
}

#[test]
fn rejection_reasons_are_distinct() {
    assert_eq!(REJECTED_STALE, 0);
    assert_eq!(REJECTED_SIGNATURES, 1);
    assert_eq!(REJECTED_REPLAYED, 2);
}

#[test]
fn signatures_are_checked() {
    let env = bridge_at(1500);
    assert_eq!(verify_multisig(&env, &payload_with(vec![SIGNATURE_A, SIGNATURE_B])), Ok(()));
    // One changed byte spoils a signature.
    let mut spoilt = SIGNATURE_B;
    spoilt[3] ^= 1;
    assert_eq!(
        verify_multisig(&env, &payload_with(vec![SIGNATURE_A, spoilt])),
        Err(ExtError::Unauthorized)
    );
    // A signature of one hash is none of another.
    let mut payload = payload_with(vec![SIGNATURE_A, SIGNATURE_B]);
    payload.proof_hash[0] ^= 1;
    assert_eq!(verify_multisig(&env, &payload), Err(ExtError::Unauthorized));
    // Bytes that are no signature at all.
    assert_eq!(
        verify_multisig(&env, &payload_with(vec![[0; 64], [255; 64]])),
        Err(ExtError::Unauthorized)
    );
}

#[test]
fn keys_that_are_no_points_never_approve() {
    let mut env = env_at(1500);
    let no_key = [255; 32];
    register_bridge(&mut env, &admin(), CHAIN, vec![no_key, KEY_A], 1).unwrap();
    assert_eq!(verify_multisig(&env, &payload_with(vec![SIGNATURE_A])), Ok(()));
    assert_eq!(
        verify_multisig(&env, &payload_with(vec![SIGNATURE_B])),
        Err(ExtError::Unauthorized)
    );
}

#[test]
fn more_signatures_never_hurt() {
    let env = bridge_at(1500);
    let payload = payload_with(vec![[9; 64], SIGNATURE_B, [0; 64], SIGNATURE_A, SIGNATURE_C]);
    assert_eq!(verify_multisig(&env, &payload), Ok(()));
}

#[test]
fn signers_of_one_chain_do_not_sign_for_another() {
    let mut env = bridge_at(1500);
    let mut payload = payload_with(vec![SIGNATURE_A, SIGNATURE_B]);
    payload.chain_id = 1;
    assert_eq!(verify_multisig(&env, &payload), Err(ExtError::Unauthorized));
    register_bridge(&mut env, &admin(), 1, vec![KEY_C], 1).unwrap();
    assert_eq!(verify_multisig(&env, &payload), Err(ExtError::Unauthorized));
    // The first chain is as it was.
    payload.chain_id = CHAIN;
    assert_eq!(verify_multisig(&env, &payload), Ok(()));
}

#[test]
fn quorum_counts_approvals() {
    let approvals = vec![true, false, true, false, true];
    assert_eq!(check_quorum(1, &approvals), Ok(()));
    assert_eq!(check_quorum(3, &approvals), Ok(()));
    assert_eq!(check_quorum(4, &approvals), Err(ExtError::Unauthorized));
    assert_eq!(check_quorum(1, &vec![]), Err(ExtError::Unauthorized));
}

#[test]
fn settlement_follows_the_verification() {
    let mut env = bridge_at(1500);
    let payload = payload_with(vec![]);
    assert_eq!(
        settle_submission(&mut env, &payload, &token(), 5, Err(ExtError::AdminOnly)),
        Err(ExtError::Unauthorized)
    );
    assert_eq!(env.effects, vec![rejected(REJECTED_SIGNATURES)]);
    assert_eq!(settle_submission(&mut env, &payload, &token(), 5, Ok(())), Ok(()));
    assert!(get_proof_record(&env, HASH).unwrap().consumed);
}

#[test]
fn registration_refusals() {
    let mut env: BridgeEnv = Env::new(
        Ledger { sequence: 1, timestamp: 1 },
        contract(),
        BridgeStorage::new(None),
    );
    assert_eq!(
        register_bridge(&mut env, &admin(), CHAIN, vec![KEY_A], 1),
        Err(ExtError::NotInitialized)
    );
    let mut env = env_at(1);
    assert_eq!(
        register_bridge(&mut env, &relayer(), CHAIN, vec![KEY_A], 1),
        Err(ExtError::AdminOnly)
    );
    assert_eq!(
        register_bridge(&mut env, &admin(), CHAIN, vec![KEY_A], 0),
        Err(ExtError::Unauthorized)
    );
    assert_eq!(
        register_bridge(&mut env, &admin(), CHAIN, vec![KEY_A], 2),
        Err(ExtError::Unauthorized)
    );
    assert_eq!(
        register_bridge(&mut env, &admin(), CHAIN, vec![KEY_A; 11], 1),
        Err(ExtError::BatchTooLarge)
    );
    assert_eq!(env.effects, vec![]);
    assert_eq!(register_bridge(&mut env, &admin(), CHAIN, vec![KEY_A; 10], 10), Ok(()));
}

#[test]
fn registration_writes_every_slot() {
    let mut env = env_at(1);
    register_bridge(&mut env, &admin(), CHAIN, vec![KEY_A, KEY_B], 2).unwrap();
    assert_eq!(
        env.effects,
        vec![
            Effect::Write(DataKey::BridgeSigner(CHAIN, 0)),
            Effect::ExtendTtl(DataKey::BridgeSigner(CHAIN, 0)),
            Effect::Write(DataKey::BridgeSigner(CHAIN, 1)),
            Effect::ExtendTtl(DataKey::BridgeSigner(CHAIN, 1)),
            Effect::Write(DataKey::BridgeThreshold(CHAIN)),
            Effect::ExtendTtl(DataKey::BridgeThreshold(CHAIN)),
        ]
    );
    assert_eq!(env.storage.signers.get(&(CHAIN, 1)), Some(&KEY_B));
    assert_eq!(env.storage.signers.get(&(CHAIN, 2)), None);
    assert_eq!(env.storage.thresholds.get(&CHAIN), Some(&2));
    // A shorter list leaves the later slots as they were.
    register_bridge(&mut env, &admin(), CHAIN, vec![KEY_C], 1).unwrap();
    assert_eq!(env.storage.signers.get(&(CHAIN, 0)), Some(&KEY_C));
    assert_eq!(env.storage.signers.get(&(CHAIN, 1)), Some(&KEY_B));
}
