use tossd::contract::{CoinflipContract, MIN_REVEAL_DELAY_LEDGERS, REVEAL_TIMEOUT_LEDGERS};
use tossd::env::Env;
use tossd::errors::Error;
use tossd::harness::{commitment, fund, secret, setup, zero_proof};
use tossd::types::{Address, Side};

fn started(env: &mut Env) -> (CoinflipContract, Address) {
    let (mut client, _admin, _treasury) = setup(env);
    fund(env, &mut client, 1_000_000_000);
    let player = env.generate_address();
    client.start_game(env, player, Side::Heads, 10_000_000, commitment()).unwrap();
    (client, player)
}

#[test]
fn test_reveal_same_ledger_rejected() {
    let mut env = Env::new();
    let (mut client, player) = started(&mut env);
    assert_eq!(client.reveal_secret(&env, player, &secret(), zero_proof()), Err(Error::RevealTimeout));
}

#[test]
fn test_reveal_one_ledger_too_early_rejected() {
    let mut env = Env::new();
    let (mut client, player) = started(&mut env);
    env.advance_ledger(MIN_REVEAL_DELAY_LEDGERS - 1);
    assert_eq!(client.reveal_secret(&env, player, &secret(), zero_proof()), Err(Error::RevealTimeout));
}

#[test]
fn test_reveal_at_exact_delay_boundary_succeeds() {
    let mut env = Env::new();
    let (mut client, player) = started(&mut env);
    env.advance_ledger(MIN_REVEAL_DELAY_LEDGERS);
    let result = client.reveal_secret(&env, player, &secret(), zero_proof());
    assert!(result.is_ok(), "reveal at exact delay boundary must succeed");
}

#[test]
fn test_reveal_after_delay_succeeds() {
    let mut env = Env::new();
    let (mut client, player) = started(&mut env);
    env.advance_ledger(MIN_REVEAL_DELAY_LEDGERS + 50);
    let result = client.reveal_secret(&env, player, &secret(), zero_proof());
    assert!(result.is_ok(), "reveal after delay must succeed");
}

#[test]
fn test_reveal_at_timeout_boundary_succeeds_and_after_it_fails() {
    let mut env = Env::new();
    let (mut client, player) = started(&mut env);
    env.advance_ledger(REVEAL_TIMEOUT_LEDGERS + 1);
    assert_eq!(client.reveal_secret(&env, player, &secret(), zero_proof()), Err(Error::RevealTimeout));

    let mut env = Env::new();
    let (mut client, player) = started(&mut env);
    env.advance_ledger(REVEAL_TIMEOUT_LEDGERS);
    assert!(client.reveal_secret(&env, player, &secret(), zero_proof()).is_ok());
}

#[test]
fn test_reveal_timelock_no_state_mutation() {
    let mut env = Env::new();
    let (mut client, player) = started(&mut env);
    let before = client.load_player_game(&env, player).unwrap();
    let _ = client.reveal_secret(&env, player, &secret(), zero_proof());
    let after = client.load_player_game(&env, player).unwrap();
    assert_eq!(before, after, "game state must be unchanged on RevealTimeout");
}

#[test]
fn test_reveal_timelock_no_stats_mutation() {
    let mut env = Env::new();
    let (mut client, player) = started(&mut env);
    let before = client.load_stats(&env);
    let _ = client.reveal_secret(&env, player, &secret(), zero_proof());
    let after = client.load_stats(&env);
    assert_eq!(before.reserve_balance, after.reserve_balance);
    assert_eq!(before.total_fees, after.total_fees);
}

#[test]
fn test_min_reveal_delay_constant_value() {
    assert_eq!(MIN_REVEAL_DELAY_LEDGERS, 10);
}

#[test]
fn test_reveal_window_is_non_empty() {
    let mut env = Env::new();
    let (mut client, player) = started(&mut env);
    env.advance_ledger(MIN_REVEAL_DELAY_LEDGERS);
    assert!(client.reveal_secret(&env, player, &secret(), zero_proof()).is_ok());
}

#[test]
fn test_reclaim_too_early_within_reveal_window() {
    let mut env = Env::new();
    let (mut client, player) = started(&mut env);
    env.advance_ledger(MIN_REVEAL_DELAY_LEDGERS);
    assert_eq!(client.reclaim_wager(&env, player), Err(Error::RevealTimeout));
}
