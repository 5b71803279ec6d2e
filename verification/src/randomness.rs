//! Outcome generation from three parties' contributions: the player's
//! revealed secret, the contract's ledger-derived randomness mixed with its
//! entropy pool, and the oracle's VRF proof.

use vstd::prelude::*;
use crate::bytes::{
    append32, append_be_u32, be_bytes_u32, copy_vec, is_zero32, vec_of32, vec_of64, xor32, xor_bytes, zeros,
};
use crate::crypto::{ed25519_accepts, ed25519_verify, sha256, sha256_digest};
use crate::types::{EntropyPool, Side};

verus! {

/// The side a digest selects: an even first byte is Heads.
pub open spec fn side_of_digest(d: Seq<u8>) -> Side {
    if d[0] % 2 == 0 {
        Side::Heads
    } else {
        Side::Tails
    }
}

/// The VRF output: the hash of the oracle's proof.
pub open spec fn vrf_output_spec(proof: Seq<u8>) -> Seq<u8> {
    sha256_digest(proof)
}

/// The flip's outcome: the secret hashed with the contract randomness after
/// the VRF output is folded into it.
pub open spec fn outcome_spec(secret: Seq<u8>, contract_random: Seq<u8>, proof: Seq<u8>) -> Side {
    side_of_digest(sha256_digest(secret + xor_bytes(contract_random, vrf_output_spec(proof))))
}

/// The message the oracle signs for a game.
pub open spec fn vrf_input_spec(commitment: Seq<u8>, contract_random: Seq<u8>) -> Seq<u8> {
    sha256_digest(commitment + contract_random)
}

/// Whether a VRF proof is accepted: always without an oracle (zero key),
/// otherwise when the proof is a valid signature of the input.
pub open spec fn vrf_accepted(pk: Seq<u8>, input: Seq<u8>, proof: Seq<u8>) -> bool {
    pk == zeros(32) || ed25519_accepts(pk, input, proof)
}

/// The hash of the ledger sequence number.
pub open spec fn ledger_hash_spec(sequence: u32) -> Seq<u8> {
    sha256_digest(be_bytes_u32(sequence))
}

/// The entropy a new commitment contributes at a ledger.
pub open spec fn contribution_spec(commitment: Seq<u8>, sequence: u32) -> Seq<u8> {
    sha256_digest(commitment + be_bytes_u32(sequence))
}

/// The side a digest selects.
pub fn side_from_digest(d: &[u8; 32]) -> (s: Side)
    ensures
        s == side_of_digest(d@),
{
    if d[0] % 2 == 0 {
        Side::Heads
    } else {
        Side::Tails
    }
}

/// The hash of a VRF proof.
pub fn vrf_output(proof: &[u8; 64]) -> (r: [u8; 32])
    ensures
        r@ == vrf_output_spec(proof@),
{
    sha256(&vec_of64(proof))
}

/// Decides the flip from the secret, the contract randomness and the proof.
pub fn generate_outcome(secret: &Vec<u8>, contract_random: &[u8; 32], vrf_proof: &[u8; 64]) -> (s: Side)
    ensures
        s == outcome_spec(secret@, contract_random@, vrf_proof@),
{
    let aggregated = xor32(contract_random, &vrf_output(vrf_proof));
    let mut combined = copy_vec(secret);
    append32(&mut combined, &aggregated);
    side_from_digest(&sha256(&combined))
}

/// SHA-256(commitment || contract_random).
pub fn compute_vrf_input(commitment: &[u8; 32], contract_random: &[u8; 32]) -> (r: [u8; 32])
    ensures
        r@ == vrf_input_spec(commitment@, contract_random@),
{
    let mut msg = vec_of32(commitment);
    append32(&mut msg, contract_random);
    sha256(&msg)
}

/// Checks an oracle proof; without an oracle key every proof is accepted.
pub fn verify_vrf_proof(pk: &[u8; 32], input: &[u8; 32], proof: &[u8; 64]) -> (ok: bool)
    ensures
        ok == vrf_accepted(pk@, input@, proof@),
{
    if is_zero32(pk) {
        true
    } else {
        ed25519_verify(pk, &vec_of32(input), proof)
    }
}

/// SHA-256 of the big-endian ledger sequence number.
pub fn ledger_hash(sequence: u32) -> (r: [u8; 32])
    ensures
        r@ == ledger_hash_spec(sequence),
{
    let mut msg: Vec<u8> = Vec::new();
    append_be_u32(&mut msg, sequence);
    assert(msg@ =~= be_bytes_u32(sequence));
    sha256(&msg)
}

/// The commitment of a secret: its SHA-256 digest.
pub fn commitment_of(secret: &Vec<u8>) -> (c: [u8; 32])
    ensures
        c@ == sha256_digest(secret@),
{
    sha256(secret)
}

/// Folds the entropy of a new commitment into the pool and derives the
/// game's contract randomness: the ledger hash XOR the updated pool.
/// Returns the new pool and the randomness.
pub fn mix_entropy(p: &EntropyPool, commitment: &[u8; 32], sequence: u32) -> (r: (EntropyPool, [u8; 32]))
    ensures
        r.0.pool@ == xor_bytes(p.pool@, contribution_spec(commitment@, sequence)),
        r.0.pool_size == (if p.pool_size < u32::MAX { (p.pool_size + 1) as u32 } else { p.pool_size }),
        r.0.mix_count == (if p.mix_count < u32::MAX { (p.mix_count + 1) as u32 } else { p.mix_count }),
        r.1@ == xor_bytes(ledger_hash_spec(sequence), r.0.pool@),
{
    let mut msg = vec_of32(commitment);
    append_be_u32(&mut msg, sequence);
    let contribution = sha256(&msg);
    let pool = xor32(&p.pool, &contribution);
    let pool_size = p.pool_size.saturating_add(1);
    let mix_count = p.mix_count.saturating_add(1);
    let random = xor32(&ledger_hash(sequence), &pool);
    (EntropyPool { pool, pool_size, mix_count }, random)
}

} // verus!
