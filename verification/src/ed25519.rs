//! Ed25519 signature verification, as the ledger host performs it.
//!
//! The contract SDK offers this only as a call that traps on an invalid signature, while the
//! bridge must go on to the next one. The host function behind that call returns a result, so it is
//! called directly, through the host crate.

use soroban_env_host::Env as HostFunctions;
use soroban_env_host::EnvBase;
use soroban_env_host::Host;
use vstd::prelude::*;

verus! {

/// Whether the host accepts `signature` as a signature of `message` by the holder of `key`.
pub uninterp spec fn ed25519_valid(key: Seq<u8>, message: Seq<u8>, signature: Seq<u8>) -> bool;

/// Calls the host function `verify_sig_ed25519` on a fresh host.
///
/// Trusted: whether the host function succeeds depends on nothing but the bytes of the key, the
/// message and the signature, and is what `ed25519_valid` names. Nothing is said of which
/// signatures are valid.
#[verifier::external_body]
pub(crate) fn ed25519_verify(key: &[u8; 32], message: &[u8; 32], signature: &[u8; 64]) -> (ok: bool)
    ensures
        ok == ed25519_valid(key@, message@, signature@),
{
    let host = Host::default();
    let k = host.bytes_new_from_slice(key);
    let m = host.bytes_new_from_slice(message);
    let s = host.bytes_new_from_slice(signature);
    match (k, m, s) {
        (Ok(k), Ok(m), Ok(s)) => host.verify_sig_ed25519(k, m, s).is_ok(),
        _ => false,
    }
}

} // verus!
