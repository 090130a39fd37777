use stellar_trust::host::{Address, AddressKind, Effect, Env, Ledger, Transfer};
use stellar_trust::vault::{
    DataKey, VaultContract, VaultEnv, VaultError, VaultEvent, VaultStorage, DEFAULT_THRESHOLD,
    MAX_SIGNERS, TIMELOCK_BLOCKS,
};

fn account(n: u128) -> Address {
    Address { kind: AddressKind::Account, hi: 0, lo: n }
}

fn contract() -> Address {
    Address { kind: AddressKind::Contract, hi: 0, lo: 1 }
}

fn token() -> Address {
    Address { kind: AddressKind::Contract, hi: 0, lo: 2 }
}

fn admin() -> Address {
    account(100)
}

fn recipient() -> Address {
    account(200)
}

fn five_signers() -> Vec<Address> {
    vec![account(1), account(2), account(3), account(4), account(5)]
}

fn new_env() -> VaultEnv {
    Env::new(Ledger { sequence: 0, timestamp: 0 }, contract(), VaultStorage::new())
}

/// A vault in which three of five must sign.
fn setup() -> VaultEnv {
    let mut env = new_env();
    VaultContract::initialize(&mut env, admin(), five_signers(), 3).unwrap();
    env.effects.clear();
    env
}

/// A vault with one proposal that bears three signatures.
fn with_signed_proposal() -> VaultEnv {
    let mut env = setup();
    VaultContract::propose(&mut env, account(1), token(), recipient(), 500).unwrap();
    VaultContract::sign(&mut env, account(2), 0).unwrap();
    VaultContract::sign(&mut env, account(3), 0).unwrap();
    env.effects.clear();
    env
}

#[test]
fn test_initialize_and_freeze() {
    let mut env = new_env();
    VaultContract::initialize(&mut env, admin(), five_signers(), 3).unwrap();
    assert!(!VaultContract::is_frozen(&env));
    VaultContract::freeze(&mut env, five_signers()[0]).unwrap();
    assert!(VaultContract::is_frozen(&env));
}

#[test]
fn test_propose_and_sign_and_execute() {
    let signers = five_signers();
    let mut env = new_env();
    VaultContract::initialize(&mut env, admin(), five_signers(), 3).unwrap();
    let tx_id =
        VaultContract::propose(&mut env, signers[0], token(), recipient(), 1000).unwrap();
    assert_eq!(tx_id, 0);
    VaultContract::sign(&mut env, signers[1], tx_id).unwrap();
    VaultContract::sign(&mut env, signers[2], tx_id).unwrap();
    let tx = VaultContract::get_pending_tx(&env, tx_id).unwrap();
    assert_eq!(tx.signatures.len(), 3);
    assert!(!tx.executed);
}

#[test]
fn test_timelock_not_expired() {
    let signers = five_signers();
    let mut env = setup();
    let tx_id = VaultContract::propose(&mut env, signers[0], token(), recipient(), 500).unwrap();
    VaultContract::sign(&mut env, signers[1], tx_id).unwrap();
    VaultContract::sign(&mut env, signers[2], tx_id).unwrap();
    let result = VaultContract::execute(&mut env, signers[0], tx_id);
    assert_eq!(result, Err(VaultError::TimelockNotExpired));
}

#[test]
fn test_double_sign_rejected() {
    let signers = five_signers();
    let mut env = setup();
    let tx_id = VaultContract::propose(&mut env, signers[0], token(), recipient(), 100).unwrap();
    // The proposer has signed already.
    let result = VaultContract::sign(&mut env, signers[0], tx_id);
    assert_eq!(result, Err(VaultError::AlreadySigned));
}

#[test]
fn test_frozen_vault_blocks_propose() {
    let signers = five_signers();
    let mut env = setup();
    VaultContract::freeze(&mut env, signers[0]).unwrap();
    let result = VaultContract::propose(&mut env, signers[1], token(), recipient(), 100);
    assert_eq!(result, Err(VaultError::VaultFrozen));
}

#[test]
fn test_nonce_increments() {
    let mut env = setup();
    assert_eq!(VaultContract::nonce(&env), 0);
    VaultContract::propose(&mut env, five_signers()[0], token(), recipient(), 100).unwrap();
    assert_eq!(VaultContract::nonce(&env), 1);
}

#[test]
fn vault_constants() {
    assert_eq!(TIMELOCK_BLOCKS, 100_000);
    assert_eq!(MAX_SIGNERS, 5);
    assert_eq!(DEFAULT_THRESHOLD, 3);
}

#[test]
fn vault_error_codes() {
    let errors = vec![
        VaultError::AlreadyInitialized,
        VaultError::NotInitialized,
        VaultError::Unauthorized,
        VaultError::VaultFrozen,
        VaultError::VaultNotFrozen,
        VaultError::TooManySigners,
        VaultError::InvalidThreshold,
        VaultError::TxNotFound,
        VaultError::TxAlreadyExecuted,
        VaultError::TxAlreadyCancelled,
        VaultError::TimelockNotExpired,
        VaultError::AlreadySigned,
        VaultError::ThresholdNotMet,
        VaultError::InvalidAmount,
        VaultError::DuplicateSigner,
    ];
    let mut code = 0;
    for error in errors {
        code += 1;
        assert_eq!(error.code(), code);
    }
}

#[test]
fn new_vault_answers_with_defaults() {
    let env = new_env();
    assert!(!VaultContract::is_frozen(&env));
    assert_eq!(VaultContract::nonce(&env), 0);
    assert_eq!(VaultContract::signers(&env), vec![]);
    assert_eq!(VaultContract::threshold(&env), 3);
    assert!(VaultContract::get_pending_tx(&env, 0).is_none());
}

#[test]
fn vault_initialization_effects() {
    let mut env = new_env();
    VaultContract::initialize(&mut env, admin(), five_signers(), 0).unwrap();
    assert_eq!(
        env.effects,
        vec![
            Effect::RequireAuth(admin()),
            Effect::Write(DataKey::Admin),
            Effect::Write(DataKey::Signers),
            Effect::Write(DataKey::Threshold),
            Effect::Write(DataKey::Frozen),
            Effect::Write(DataKey::Nonce),
            Effect::Write(DataKey::TxCounter),
            Effect::Publish(VaultEvent::Initialized { admin: admin() }),
        ]
    );
    // A threshold of zero stands for the default.
    assert_eq!(VaultContract::threshold(&env), 3);
    assert_eq!(VaultContract::signers(&env), five_signers());
}

#[test]
fn vault_initialization_refusals() {
    let mut env = new_env();
    assert_eq!(
        VaultContract::initialize(&mut env, admin(), vec![], 1),
        Err(VaultError::TooManySigners)
    );
    let mut six = five_signers();
    six.push(account(6));
    assert_eq!(
        VaultContract::initialize(&mut env, admin(), six, 1),
        Err(VaultError::TooManySigners)
    );
    assert_eq!(
        VaultContract::initialize(&mut env, admin(), vec![account(1), account(2)], 0),
        Err(VaultError::InvalidThreshold)
    );
    assert_eq!(
        VaultContract::initialize(&mut env, admin(), five_signers(), 6),
        Err(VaultError::InvalidThreshold)
    );
    assert_eq!(
        VaultContract::initialize(&mut env, admin(), vec![account(1), account(2), account(1)], 2),
        Err(VaultError::DuplicateSigner)
    );
    assert_eq!(env.storage.admin, None);
    VaultContract::initialize(&mut env, admin(), five_signers(), 5).unwrap();
    assert_eq!(
        VaultContract::initialize(&mut env, admin(), five_signers(), 5),
        Err(VaultError::AlreadyInitialized)
    );
}

#[test]
fn proposal_is_stored_as_proposed() {
    let mut env = setup();
    env.ledger.sequence = 77;
    let tx_id = VaultContract::propose(&mut env, account(4), token(), recipient(), 1_234).unwrap();
    let tx = VaultContract::get_pending_tx(&env, tx_id).unwrap();
    assert_eq!(tx.id, 0);
    assert_eq!(tx.token, token());
    assert_eq!(tx.recipient, recipient());
    assert_eq!(tx.amount, 1_234);
    assert_eq!(tx.proposed_at, 77);
    assert_eq!(tx.executable_after, 100_077);
    assert_eq!(tx.signatures, vec![account(4)]);
    assert!(!tx.executed);
    assert!(!tx.cancelled);
    assert_eq!(tx.nonce, 0);
    assert_eq!(
        env.effects,
        vec![
            Effect::RequireAuth(account(4)),
            Effect::Write(DataKey::PendingTx(0)),
            Effect::Write(DataKey::TxCounter),
            Effect::Write(DataKey::Nonce),
            Effect::Publish(VaultEvent::Proposed {
                tx_id: 0,
                proposer: account(4),
                token: token(),
                recipient: recipient(),
                amount: 1_234,
                executable_after: 100_077,
            }),
        ]
    );
}

#[test]
fn proposal_refusals() {
    let mut env = new_env();
    assert_eq!(
        VaultContract::propose(&mut env, account(1), token(), recipient(), 1),
        Err(VaultError::NotInitialized)
    );
    assert_eq!(env.effects, vec![]);
    let mut env = setup();
    assert_eq!(
        VaultContract::propose(&mut env, account(9), token(), recipient(), 1),
        Err(VaultError::Unauthorized)
    );
    assert_eq!(
        VaultContract::propose(&mut env, account(1), token(), recipient(), 0),
        Err(VaultError::InvalidAmount)
    );
    assert_eq!(VaultContract::nonce(&env), 0);
}

#[test]
fn proposals_get_fresh_ids() {
    let mut env = setup();
    for id in 0..4 {
        assert_eq!(
            VaultContract::propose(&mut env, account(1), token(), recipient(), 5),
            Ok(id)
        );
        assert_eq!(VaultContract::get_pending_tx(&env, id).unwrap().nonce, id);
    }
    assert_eq!(VaultContract::nonce(&env), 4);
}

#[test]
fn signing_counts_signatures() {
    let mut env = setup();
    VaultContract::propose(&mut env, account(1), token(), recipient(), 5).unwrap();
    env.effects.clear();
    assert_eq!(VaultContract::sign(&mut env, account(5), 0), Ok(2));
    assert_eq!(
        env.effects,
        vec![
            Effect::RequireAuth(account(5)),
            Effect::Write(DataKey::PendingTx(0)),
            Effect::Publish(VaultEvent::Signed { tx_id: 0, signer: account(5), count: 2 }),
        ]
    );
    assert_eq!(VaultContract::sign(&mut env, account(5), 0), Err(VaultError::AlreadySigned));
    assert_eq!(VaultContract::sign(&mut env, account(4), 0), Ok(3));
    assert_eq!(VaultContract::sign(&mut env, account(3), 0), Ok(4));
    assert_eq!(VaultContract::sign(&mut env, account(2), 0), Ok(5));
}

#[test]
fn signing_refusals() {
    assert_eq!(
        VaultContract::sign(&mut new_env(), account(1), 0),
        Err(VaultError::NotInitialized)
    );
    let mut env = setup();
    assert_eq!(VaultContract::sign(&mut env, account(1), 0), Err(VaultError::TxNotFound));
    VaultContract::propose(&mut env, account(1), token(), recipient(), 5).unwrap();
    assert_eq!(VaultContract::sign(&mut env, account(9), 0), Err(VaultError::Unauthorized));
    VaultContract::freeze(&mut env, account(2)).unwrap();
    env.effects.clear();
    assert_eq!(VaultContract::sign(&mut env, account(2), 0), Err(VaultError::VaultFrozen));
    assert_eq!(env.effects, vec![]);
}

#[test]
fn execution_at_the_end_of_the_timelock() {
    let mut env = with_signed_proposal();
    env.ledger.sequence = TIMELOCK_BLOCKS - 1;
    assert_eq!(
        VaultContract::execute(&mut env, account(5), 0),
        Err(VaultError::TimelockNotExpired)
    );
    env.effects.clear();
    env.ledger.sequence = TIMELOCK_BLOCKS;
    assert_eq!(VaultContract::execute(&mut env, account(5), 0), Ok(()));
    assert_eq!(
        env.effects,
        vec![
            Effect::RequireAuth(account(5)),
            Effect::Transfer(Transfer {
                token: token(),
                from: contract(),
                to: recipient(),
                amount: 500,
            }),
            Effect::Write(DataKey::PendingTx(0)),
            Effect::Publish(VaultEvent::Executed {
                tx_id: 0,
                recipient: recipient(),
                amount: 500,
            }),
        ]
    );
    assert!(VaultContract::get_pending_tx(&env, 0).unwrap().executed);
}

#[test]
fn executed_transaction_is_closed() {
    let mut env = with_signed_proposal();
    env.ledger.sequence = TIMELOCK_BLOCKS;
    VaultContract::execute(&mut env, account(1), 0).unwrap();
    assert_eq!(
        VaultContract::execute(&mut env, account(1), 0),
        Err(VaultError::TxAlreadyExecuted)
    );
    assert_eq!(VaultContract::sign(&mut env, account(4), 0), Err(VaultError::TxAlreadyExecuted));
    assert_eq!(
        VaultContract::cancel(&mut env, account(4), 0),
        Err(VaultError::TxAlreadyExecuted)
    );
}

#[test]
fn execution_refusals() {
    let mut env = setup();
    VaultContract::propose(&mut env, account(1), token(), recipient(), 5).unwrap();
    VaultContract::sign(&mut env, account(2), 0).unwrap();
    env.ledger.sequence = TIMELOCK_BLOCKS;
    assert_eq!(VaultContract::execute(&mut env, account(1), 0), Err(VaultError::ThresholdNotMet));
    assert_eq!(VaultContract::execute(&mut env, account(9), 0), Err(VaultError::Unauthorized));
    assert_eq!(VaultContract::execute(&mut env, account(1), 1), Err(VaultError::TxNotFound));
    VaultContract::sign(&mut env, account(3), 0).unwrap();
    VaultContract::freeze(&mut env, account(4)).unwrap();
    assert_eq!(VaultContract::execute(&mut env, account(1), 0), Err(VaultError::VaultFrozen));
    VaultContract::unfreeze(&mut env, admin()).unwrap();
    assert_eq!(VaultContract::execute(&mut env, account(1), 0), Ok(()));
}

#[test]
fn cancelled_transaction_is_closed() {
    let mut env = with_signed_proposal();
    assert_eq!(VaultContract::cancel(&mut env, account(5), 0), Ok(()));
    assert_eq!(
        env.effects,
        vec![
            Effect::RequireAuth(account(5)),
            Effect::Write(DataKey::PendingTx(0)),
            Effect::Publish(VaultEvent::Cancelled { tx_id: 0, canceller: account(5) }),
        ]
    );
    env.ledger.sequence = TIMELOCK_BLOCKS;
    assert_eq!(
        VaultContract::execute(&mut env, account(1), 0),
        Err(VaultError::TxAlreadyCancelled)
    );
    assert_eq!(VaultContract::sign(&mut env, account(4), 0), Err(VaultError::TxAlreadyCancelled));
    assert_eq!(
        VaultContract::cancel(&mut env, account(4), 0),
        Err(VaultError::TxAlreadyCancelled)
    );
}

#[test]
fn cancellation_takes_a_threshold() {
    let mut env = setup();
    VaultContract::propose(&mut env, account(1), token(), recipient(), 5).unwrap();
    assert_eq!(VaultContract::cancel(&mut env, account(1), 0), Err(VaultError::ThresholdNotMet));
    assert_eq!(VaultContract::cancel(&mut env, account(9), 0), Err(VaultError::Unauthorized));
    assert_eq!(VaultContract::cancel(&mut env, account(1), 7), Err(VaultError::TxNotFound));
}

#[test]
fn frozen_vault_can_still_cancel() {
    let mut env = with_signed_proposal();
    VaultContract::freeze(&mut env, account(1)).unwrap();
    assert_eq!(VaultContract::cancel(&mut env, account(2), 0), Ok(()));
}

#[test]
fn freezing_and_unfreezing() {
    assert_eq!(
        VaultContract::freeze(&mut new_env(), account(1)),
        Err(VaultError::NotInitialized)
    );
    assert_eq!(
        VaultContract::unfreeze(&mut new_env(), admin()),
        Err(VaultError::NotInitialized)
    );
    let mut env = setup();
    assert_eq!(VaultContract::freeze(&mut env, account(9)), Err(VaultError::Unauthorized));
    env.effects.clear();
    VaultContract::freeze(&mut env, account(2)).unwrap();
    assert_eq!(VaultContract::unfreeze(&mut env, account(2)), Err(VaultError::Unauthorized));
    assert!(VaultContract::is_frozen(&env));
    VaultContract::unfreeze(&mut env, admin()).unwrap();
    assert!(!VaultContract::is_frozen(&env));
    assert_eq!(
        env.effects,
        vec![
            Effect::RequireAuth(account(2)),
            Effect::Write(DataKey::Frozen),
            Effect::Publish(VaultEvent::Frozen { signer: account(2) }),
            Effect::RequireAuth(account(2)),
            Effect::RequireAuth(admin()),
            Effect::Write(DataKey::Frozen),
            Effect::Publish(VaultEvent::Unfrozen { admin: admin() }),
        ]
    );
}

#[test]
fn transactions_are_independent() {
    let mut env = with_signed_proposal();
    VaultContract::propose(&mut env, account(2), token(), account(201), 9).unwrap();
    VaultContract::cancel(&mut env, account(1), 0).unwrap();
    let other = VaultContract::get_pending_tx(&env, 1).unwrap();
    assert!(!other.cancelled);
    assert_eq!(other.signatures, vec![account(2)]);
    assert_eq!(other.recipient, account(201));
}
