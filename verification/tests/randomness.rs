use tossd::env::Env;
use tossd::harness::{advance, fund, setup_no_oracle, setup_with_oracle, zero_pk, zero_proof};
use tossd::randomness::{compute_vrf_input, generate_outcome, verify_vrf_proof, vrf_output};
use tossd::types::Side;

fn host_sha256(data: &[u8]) -> [u8; 32] {
    let host = soroban_sdk::Env::default();
    host.crypto().sha256(&soroban_sdk::Bytes::from_slice(&host, data)).to_array()
}

fn secret_of(byte: u8) -> Vec<u8> {
    vec![byte; 32]
}

#[test]
fn test_verify_vrf_proof_skips_when_pk_is_zero() {
    assert!(verify_vrf_proof(&[0u8; 32], &[1u8; 32], &[0u8; 64]));
}

#[test]
fn test_verify_vrf_proof_zero_pk_skips() {
    assert!(verify_vrf_proof(&[0u8; 32], &[1u8; 32], &[0u8; 64]));
}

#[test]
fn test_verify_vrf_proof_deterministic() {
    let r1 = verify_vrf_proof(&[0u8; 32], &[42u8; 32], &[0u8; 64]);
    let r2 = verify_vrf_proof(&[0u8; 32], &[42u8; 32], &[0u8; 64]);
    assert_eq!(r1, r2);
}

#[test]
fn test_verify_vrf_proof_accepts_real_signature_and_rejects_forgery() {
    let signing = ed25519_dalek::SigningKey::from_bytes(&[7u8; 32]);
    let pk = signing.verifying_key().to_bytes();
    let input = [9u8; 32];
    let sig = ed25519_dalek::Signer::sign(&signing, &input).to_bytes();
    assert!(verify_vrf_proof(&pk, &input, &sig));
    let mut forged = sig;
    forged[0] ^= 1;
    assert!(!verify_vrf_proof(&pk, &input, &forged));
    assert!(!verify_vrf_proof(&pk, &[8u8; 32], &sig));
}

#[test]
fn test_vrf_input_stored_in_game_state() {
    let mut env = Env::new();
    let (mut client, _, _) = setup_no_oracle(&mut env);
    fund(&env, &mut client, 1_000_000_000);
    let player = env.generate_address();
    let commitment = host_sha256(&[1u8; 32]);
    client.start_game(&env, player, Side::Heads, 10_000_000, commitment).unwrap();
    let game = client.load_player_game(&env, player).unwrap();
    assert_ne!(game.vrf_input, [0u8; 32], "vrf_input must be set to SHA-256(commitment || contract_random)");
}

#[test]
fn test_generate_outcome_deterministic_with_vrf_proof() {
    let secret = secret_of(5);
    let cr = [0x11u8; 32];
    let proof = [0xAAu8; 64];
    let r1 = generate_outcome(&secret, &cr, &proof);
    let r2 = generate_outcome(&secret, &cr, &proof);
    assert_eq!(r1, r2, "generate_outcome must be deterministic");
}

#[test]
fn test_generate_outcome_returns_valid_side() {
    let side = generate_outcome(&secret_of(7), &[0x22u8; 32], &[0x33u8; 64]);
    assert!(side == Side::Heads || side == Side::Tails);
}

#[test]
fn test_generate_outcome_known_values() {
    assert_eq!(generate_outcome(&secret_of(0xAA), &[0u8; 32], &[0u8; 64]), Side::Heads);
    assert_eq!(generate_outcome(&secret_of(0x01), &[0u8; 32], &[0u8; 64]), Side::Tails);
}

#[test]
fn test_reveal_succeeds_in_no_oracle_mode() {
    let mut env = Env::new();
    let (mut client, _, _) = setup_no_oracle(&mut env);
    fund(&env, &mut client, 1_000_000_000);
    let player = env.generate_address();
    let secret = secret_of(1);
    let commitment = host_sha256(&secret);
    client.start_game(&env, player, Side::Heads, 10_000_000, commitment).unwrap();
    advance(&mut env);
    let result = client.reveal_secret(&env, player, &secret, zero_proof());
    assert!(result.is_ok(), "reveal must succeed in no-oracle mode");
}

#[test]
fn test_vrf_aggregation_correctness() {
    let secret = secret_of(1);
    let cr = [0xFFu8; 32];
    let proof = [0xBBu8; 64];
    let vrf_out = host_sha256(&proof);
    let mut combined = secret.clone();
    for i in 0..32 {
        combined.push(cr[i] ^ vrf_out[i]);
    }
    let hash = host_sha256(&combined);
    let expected = if hash[0] % 2 == 0 { Side::Heads } else { Side::Tails };
    assert_eq!(generate_outcome(&secret, &cr, &proof), expected, "VRF aggregation must match manual computation");
}

#[test]
fn test_vrf_input_computation() {
    let mut env = Env::new();
    let (mut client, _, _) = setup_with_oracle(&mut env, zero_pk());
    fund(&env, &mut client, 1_000_000_000);
    let player = env.generate_address();
    let commitment = host_sha256(&secret_of(1));
    client.start_game(&env, player, Side::Heads, 10_000_000, commitment).unwrap();
    let game = client.load_player_game(&env, player).unwrap();
    let mut msg = commitment.to_vec();
    msg.extend_from_slice(&game.contract_random);
    assert_eq!(game.vrf_input, host_sha256(&msg), "vrf_input must equal SHA-256(commitment || contract_random)");
    assert_eq!(compute_vrf_input(&commitment, &game.contract_random), game.vrf_input);
}

#[test]
fn test_vrf_input_changes_with_contract_random() {
    let mut env = Env::new();
    let (mut client, _, _) = setup_with_oracle(&mut env, zero_pk());
    fund(&env, &mut client, 1_000_000_000_000);
    let p1 = env.generate_address();
    client.start_game(&env, p1, Side::Heads, 10_000_000, host_sha256(&secret_of(1))).unwrap();
    env.advance_ledger(5);
    let p2 = env.generate_address();
    client.start_game(&env, p2, Side::Heads, 10_000_000, host_sha256(&secret_of(2))).unwrap();
    let g1 = client.load_player_game(&env, p1).unwrap();
    let g2 = client.load_player_game(&env, p2).unwrap();
    if g1.contract_random != g2.contract_random {
        assert_ne!(g1.vrf_input, g2.vrf_input, "vrf_input must differ when contract_random differs");
    }
}

#[test]
fn test_oracle_vrf_pk_stored_in_config() {
    let mut env = Env::new();
    let pk = [0xDEu8; 32];
    let (mut client, _, _) = setup_with_oracle(&mut env, pk);
    assert_eq!(client.load_config(&env).oracle_vrf_pk, pk, "oracle_vrf_pk must be stored in config");
}

#[test]
fn test_full_flow_no_oracle() {
    let mut env = Env::new();
    let (mut client, _, _) = setup_with_oracle(&mut env, zero_pk());
    fund(&env, &mut client, 1_000_000_000);
    let player = env.generate_address();
    let secret = secret_of(1);
    client.start_game(&env, player, Side::Heads, 10_000_000, host_sha256(&secret)).unwrap();
    advance(&mut env);
    let result = client.reveal_secret(&env, player, &secret, [0u8; 64]);
    assert!(result.is_ok(), "full flow must succeed in no-oracle mode");
}

#[test]
fn test_reveal_with_oracle_requires_valid_proof() {
    let signing = ed25519_dalek::SigningKey::from_bytes(&[3u8; 32]);
    let pk = signing.verifying_key().to_bytes();
    let mut env = Env::new();
    let (mut client, _, _) = setup_with_oracle(&mut env, pk);
    fund(&env, &mut client, 1_000_000_000);
    let player = env.generate_address();
    let secret = secret_of(1);
    client.start_game(&env, player, Side::Heads, 10_000_000, host_sha256(&secret)).unwrap();
    advance(&mut env);
    assert_eq!(
        client.reveal_secret(&env, player, &secret, [0u8; 64]),
        Err(tossd::errors::Error::InvalidVrfProof)
    );
    let input = client.load_player_game(&env, player).unwrap().vrf_input;
    let proof = ed25519_dalek::Signer::sign(&signing, &input).to_bytes();
    assert!(client.reveal_secret(&env, player, &secret, proof).is_ok());
}

#[test]
fn test_vrf_output_nonzero_for_nonzero_proof() {
    assert_ne!(vrf_output(&[0xFFu8; 64]), [0u8; 32], "VRF output must be non-zero for non-zero proof");
    assert_eq!(vrf_output(&[0xFFu8; 64]), host_sha256(&[0xFFu8; 64]));
}

#[test]
fn test_vrf_output_deterministic() {
    let out1 = vrf_output(&[0x42u8; 64]);
    let out2 = vrf_output(&[0x42u8; 64]);
    assert_eq!(out1, out2);
}

#[test]
fn commitment_of_large_secret_is_computed() {
    let big = vec![7u8; 2_000_000];
    let c1 = tossd::randomness::commitment_of(&big);
    let c2 = tossd::randomness::commitment_of(&big);
    assert_eq!(c1, c2);
    assert_ne!(c1, tossd::randomness::commitment_of(&vec![7u8; 1_999_999]));
}
