//! Hashing and signature primitives, plus the byte-level helpers the game
//! logic builds its randomness from.

use vstd::prelude::*;

verus! {

/// The SHA-256 digest of a byte string, as computed by the Soroban host.
pub uninterp spec fn sha256_digest(data: Seq<u8>) -> Seq<u8>;

/// Whether strict Ed25519 verification accepts `sig` as a signature of `msg`
/// under the public key `pk`.
pub uninterp spec fn ed25519_accepts(pk: Seq<u8>, msg: Seq<u8>, sig: Seq<u8>) -> bool;

/// Calls `soroban_sdk::crypto::Crypto::sha256` in a fresh host environment
/// whose metering budget is first made unlimited, so that no input size
/// exhausts it.  Trusted: the digest is the value named `sha256_digest` of
/// the input bytes (a deterministic function of the input alone); nothing
/// else is claimed.
#[verifier::external_body]
pub(crate) fn sha256(data: &Vec<u8>) -> (digest: [u8; 32])
    ensures
        digest@ == sha256_digest(data@),
{
    let config = soroban_sdk::testutils::EnvTestConfig { capture_snapshot_at_drop: false };
    let env = soroban_sdk::Env::new_with_config(config);
    env.cost_estimate().budget().reset_unlimited();
    env.crypto().sha256(&soroban_sdk::Bytes::from_slice(&env, data.as_slice())).to_array()
}

/// Calls `ed25519_dalek::VerifyingKey::from_bytes` and then
/// `VerifyingKey::verify_strict`, the pair the Soroban host uses for
/// `verify_sig_ed25519`.  Trusted: the result is the value named
/// `ed25519_accepts` of the three byte strings; a key that does not decode
/// yields `false`.
#[verifier::external_body]
pub(crate) fn ed25519_verify(pk: &[u8; 32], msg: &Vec<u8>, sig: &[u8; 64]) -> (ok: bool)
    ensures
        ok == ed25519_accepts(pk@, msg@, sig@),
{
    match ed25519_dalek::VerifyingKey::from_bytes(pk) {
        Ok(key) => key.verify_strict(msg.as_slice(), &ed25519_dalek::Signature::from_bytes(sig)).is_ok(),
        Err(_) => false,
    }
}

} // verus!
