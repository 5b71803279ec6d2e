use tossd::contract::CoinflipContract;
use tossd::env::Env;
use tossd::errors::Error;
use tossd::harness::{fund, get_admin, make_commitment, make_secret, setup};
use tossd::randomness::commitment_of;
use tossd::types::{GamePhase, Side};

fn cb_setup(env: &mut Env) -> CoinflipContract {
    let (contract, _admin, _treasury) = setup(env);
    contract
}

fn force_revealed(env: &Env, contract: &mut CoinflipContract, player: tossd::types::Address) {
    let mut game = contract.load_player_game(env, player).unwrap();
    game.streak = 1;
    game.phase = GamePhase::Revealed;
    contract.save_player_game(env, player, game);
}

#[test]
fn test_circuit_breaker_disabled_by_default() {
    let mut env = Env::new();
    let mut contract = cb_setup(&mut env);
    assert_eq!(contract.load_config(&env).min_reserve_threshold, 0);
}

#[test]
fn test_set_min_reserve_threshold_persists() {
    let mut env = Env::new();
    let mut contract = cb_setup(&mut env);
    let admin = get_admin(&env, &mut contract);
    contract.set_min_reserve_threshold(&env, admin, 50_000_000).unwrap();
    assert_eq!(contract.load_config(&env).min_reserve_threshold, 50_000_000);
}

#[test]
fn test_set_min_reserve_threshold_rejects_non_admin() {
    let mut env = Env::new();
    let mut contract = cb_setup(&mut env);
    let stranger = env.generate_address();
    assert_eq!(contract.set_min_reserve_threshold(&env, stranger, 50_000_000), Err(Error::Unauthorized));
}

#[test]
fn test_set_min_reserve_threshold_rejects_negative() {
    let mut env = Env::new();
    let mut contract = cb_setup(&mut env);
    let admin = get_admin(&env, &mut contract);
    assert_eq!(contract.set_min_reserve_threshold(&env, admin, -1), Err(Error::InvalidReserveThreshold));
}

#[test]
fn test_circuit_breaker_triggers_at_threshold() {
    let mut env = Env::new();
    let mut contract = cb_setup(&mut env);
    let admin = get_admin(&env, &mut contract);
    let threshold = 100_000_000i128;
    contract.set_min_reserve_threshold(&env, admin, threshold).unwrap();
    fund(&env, &mut contract, threshold);
    let player = env.generate_address();
    let result = contract.start_game(&env, player, Side::Heads, 1_000_000, make_commitment(1));
    assert_eq!(result, Err(Error::ContractPaused));
}

#[test]
fn test_circuit_breaker_triggers_below_threshold() {
    let mut env = Env::new();
    let mut contract = cb_setup(&mut env);
    let admin = get_admin(&env, &mut contract);
    let threshold = 100_000_000i128;
    contract.set_min_reserve_threshold(&env, admin, threshold).unwrap();
    fund(&env, &mut contract, threshold - 1);
    let player = env.generate_address();
    let result = contract.start_game(&env, player, Side::Heads, 1_000_000, make_commitment(1));
    assert_eq!(result, Err(Error::ContractPaused));
}

#[test]
fn test_circuit_breaker_allows_game_above_threshold() {
    let mut env = Env::new();
    let mut contract = cb_setup(&mut env);
    let admin = get_admin(&env, &mut contract);
    let threshold = 50_000_000i128;
    contract.set_min_reserve_threshold(&env, admin, threshold).unwrap();
    fund(&env, &mut contract, threshold + 10_000_000);
    let player = env.generate_address();
    let result = contract.start_game(&env, player, Side::Heads, 1_000_000, make_commitment(1));
    assert!(result.is_ok());
}

#[test]
fn test_circuit_breaker_disabled_when_threshold_zero() {
    let mut env = Env::new();
    let mut contract = cb_setup(&mut env);
    let admin = get_admin(&env, &mut contract);
    contract.set_min_reserve_threshold(&env, admin, 100_000_000).unwrap();
    contract.set_min_reserve_threshold(&env, admin, 0).unwrap();
    fund(&env, &mut contract, 1_000_000_000);
    let player = env.generate_address();
    let result = contract.start_game(&env, player, Side::Heads, 1_000_000, make_commitment(1));
    assert!(result.is_ok());
}

#[test]
fn test_claim_winnings_stores_secret_for_verification() {
    let mut env = Env::new();
    let mut contract = cb_setup(&mut env);
    fund(&env, &mut contract, 1_000_000_000);
    let player = env.generate_address();
    let secret = make_secret(1);
    let commitment = commitment_of(&secret);
    contract.start_game(&env, player, Side::Heads, 10_000_000, commitment).unwrap();
    force_revealed(&env, &mut contract, player);
    contract.claim_winnings(&env, player, &secret).unwrap();
    assert_eq!(contract.verify_past_game(player, 0), Ok(true));
}

#[test]
fn test_cash_out_empty_secret_verify_returns_false() {
    let mut env = Env::new();
    let mut contract = cb_setup(&mut env);
    fund(&env, &mut contract, 1_000_000_000);
    let player = env.generate_address();
    let secret = make_secret(1);
    let commitment = commitment_of(&secret);
    contract.start_game(&env, player, Side::Heads, 10_000_000, commitment).unwrap();
    force_revealed(&env, &mut contract, player);
    contract.cash_out(&env, player).unwrap();
    assert_eq!(contract.verify_past_game(player, 0), Ok(false));
}

#[test]
fn test_verify_past_game_missing_entry() {
    let mut env = Env::new();
    let contract = cb_setup(&mut env);
    let player = env.generate_address();
    assert_eq!(contract.verify_past_game(player, 0), Err(Error::HistoryEntryNotFound));
}

#[test]
fn test_duplicate_commitment_rejected_in_start_game() {
    let mut env = Env::new();
    let mut contract = cb_setup(&mut env);
    fund(&env, &mut contract, 1_000_000_000);
    let player1 = env.generate_address();
    let player2 = env.generate_address();
    let commitment = make_commitment(42);
    contract.start_game(&env, player1, Side::Heads, 1_000_000, commitment).unwrap();
    let result = contract.start_game(&env, player2, Side::Heads, 1_000_000, commitment);
    assert_eq!(result, Err(Error::DuplicateCommitment));
}

#[test]
fn test_fresh_commitment_accepted() {
    let mut env = Env::new();
    let mut contract = cb_setup(&mut env);
    fund(&env, &mut contract, 1_000_000_000);
    let player1 = env.generate_address();
    let player2 = env.generate_address();
    contract.start_game(&env, player1, Side::Heads, 1_000_000, make_commitment(1)).unwrap();
    let result = contract.start_game(&env, player2, Side::Heads, 1_000_000, make_commitment(2));
    assert!(result.is_ok());
}

#[test]
fn test_duplicate_commitment_rejected_in_continue_streak() {
    let mut env = Env::new();
    let mut contract = cb_setup(&mut env);
    fund(&env, &mut contract, 1_000_000_000);
    let player = env.generate_address();
    let first_commitment = make_commitment(10);
    contract.start_game(&env, player, Side::Heads, 1_000_000, first_commitment).unwrap();
    force_revealed(&env, &mut contract, player);
    let result = contract.continue_streak(&env, player, first_commitment);
    assert_eq!(result, Err(Error::DuplicateCommitment));
}

#[test]
fn test_fresh_commitment_accepted_in_continue_streak() {
    let mut env = Env::new();
    let mut contract = cb_setup(&mut env);
    fund(&env, &mut contract, 1_000_000_000);
    let player = env.generate_address();
    contract.start_game(&env, player, Side::Heads, 1_000_000, make_commitment(10)).unwrap();
    force_revealed(&env, &mut contract, player);
    env.advance_ledger(1);
    let result = contract.continue_streak(&env, player, make_commitment(99));
    assert!(result.is_ok());
}

#[test]
fn test_duplicate_commitment_no_state_mutation() {
    let mut env = Env::new();
    let mut contract = cb_setup(&mut env);
    fund(&env, &mut contract, 1_000_000_000);
    let player1 = env.generate_address();
    let player2 = env.generate_address();
    let commitment = make_commitment(77);
    contract.start_game(&env, player1, Side::Heads, 1_000_000, commitment).unwrap();
    let stats_before = contract.load_stats(&env);
    let _ = contract.start_game(&env, player2, Side::Heads, 1_000_000, commitment);
    let stats_after = contract.load_stats(&env);
    assert_eq!(stats_before.total_games, stats_after.total_games);
    assert_eq!(stats_before.total_volume, stats_after.total_volume);
    assert!(contract.load_player_game(&env, player2).is_none());
}
