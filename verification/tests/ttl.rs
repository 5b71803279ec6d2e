use tossd::contract::{CoinflipContract, TTL_EXTEND_TO};
use tossd::env::Env;
use tossd::harness::{fund, get_ttl, inject_revealed, make_commitment, setup};
use tossd::types::{Address, GamePhase, Side, StorageKey};

const TTL_THRESHOLD: u32 = 100_000;

fn ttl_setup(env: &mut Env) -> (CoinflipContract, Address) {
    let (client, admin, _treasury) = setup(env);
    (client, admin)
}

#[test]
fn initialize_extends_config_ttl() {
    let mut env = Env::new();
    let (client, _) = ttl_setup(&mut env);
    assert_eq!(get_ttl(&env, &client, StorageKey::Config), TTL_EXTEND_TO);
}

#[test]
fn initialize_extends_stats_ttl() {
    let mut env = Env::new();
    let (client, _) = ttl_setup(&mut env);
    assert_eq!(get_ttl(&env, &client, StorageKey::Stats), TTL_EXTEND_TO);
}

#[test]
fn start_game_extends_player_game_ttl() {
    let mut env = Env::new();
    let (mut client, _) = ttl_setup(&mut env);
    fund(&env, &mut client, 1_000_000_000);
    let player = env.generate_address();
    client.start_game(&env, player, Side::Heads, 10_000_000, make_commitment(7)).unwrap();
    assert_eq!(get_ttl(&env, &client, StorageKey::PlayerGame(player)), TTL_EXTEND_TO);
}

#[test]
fn start_game_extends_stats_ttl() {
    let mut env = Env::new();
    let (mut client, _) = ttl_setup(&mut env);
    fund(&env, &mut client, 1_000_000_000);
    env.advance_ledger(TTL_THRESHOLD + 1);
    let player = env.generate_address();
    client.start_game(&env, player, Side::Heads, 10_000_000, make_commitment(7)).unwrap();
    assert_eq!(get_ttl(&env, &client, StorageKey::Stats), TTL_EXTEND_TO);
}

#[test]
fn load_config_extends_ttl() {
    let mut env = Env::new();
    let (mut client, _) = ttl_setup(&mut env);
    env.advance_ledger(TTL_THRESHOLD + 1);
    assert_eq!(get_ttl(&env, &client, StorageKey::Config), TTL_EXTEND_TO - (TTL_THRESHOLD + 1));
    client.get_config(&env);
    assert_eq!(get_ttl(&env, &client, StorageKey::Config), TTL_EXTEND_TO);
}

#[test]
fn load_stats_extends_ttl() {
    let mut env = Env::new();
    let (mut client, _) = ttl_setup(&mut env);
    env.advance_ledger(TTL_THRESHOLD + 1);
    client.get_stats(&env);
    assert_eq!(get_ttl(&env, &client, StorageKey::Stats), TTL_EXTEND_TO);
}

#[test]
fn cash_out_extends_stats_ttl() {
    let mut env = Env::new();
    let (mut client, _) = ttl_setup(&mut env);
    fund(&env, &mut client, 1_000_000_000);
    let player = env.generate_address();
    inject_revealed(&env, &mut client, player, 1, 10_000_000);
    env.advance_ledger(TTL_THRESHOLD + 1);
    client.cash_out(&env, player).unwrap();
    assert_eq!(get_ttl(&env, &client, StorageKey::Stats), TTL_EXTEND_TO);
}

#[test]
fn continue_streak_extends_player_game_ttl() {
    let mut env = Env::new();
    let (mut client, _) = ttl_setup(&mut env);
    fund(&env, &mut client, 1_000_000_000);
    let player = env.generate_address();
    inject_revealed(&env, &mut client, player, 1, 10_000_000);
    env.advance_ledger(TTL_THRESHOLD + 1);
    client.continue_streak(&env, player, make_commitment(42)).unwrap();
    assert_eq!(get_ttl(&env, &client, StorageKey::PlayerGame(player)), TTL_EXTEND_TO);
}

#[test]
fn admin_set_fee_extends_config_ttl() {
    let mut env = Env::new();
    let (mut client, admin) = ttl_setup(&mut env);
    env.advance_ledger(TTL_THRESHOLD + 1);
    client.set_fee(&env, admin, 400, None).unwrap();
    assert_eq!(get_ttl(&env, &client, StorageKey::Config), TTL_EXTEND_TO);
}

#[test]
fn admin_set_paused_extends_config_ttl() {
    let mut env = Env::new();
    let (mut client, admin) = ttl_setup(&mut env);
    env.advance_ledger(TTL_THRESHOLD + 1);
    client.set_paused(&env, admin, true, None).unwrap();
    assert_eq!(get_ttl(&env, &client, StorageKey::Config), TTL_EXTEND_TO);
}

#[test]
fn data_persists_across_ledger_advance() {
    let mut env = Env::new();
    let (mut client, _) = ttl_setup(&mut env);
    env.advance_ledger(TTL_EXTEND_TO / 2);
    let config = client.get_config(&env);
    assert_eq!(config.fee_bps, 300);
    assert_eq!(config.min_wager, 1_000_000);
    assert_eq!(client.get_stats(&env).total_games, 0);
}

#[test]
fn player_game_persists_across_ledger_advance() {
    let mut env = Env::new();
    let (mut client, _) = ttl_setup(&mut env);
    fund(&env, &mut client, 1_000_000_000);
    let player = env.generate_address();
    client.start_game(&env, player, Side::Tails, 10_000_000, make_commitment(7)).unwrap();
    env.advance_ledger(TTL_EXTEND_TO / 2);
    let game = client.get_game_state(&env, player);
    assert!(game.is_some());
    assert_eq!(game.unwrap().phase, GamePhase::Committed);
}

#[test]
fn ttl_refreshed_on_repeated_reads() {
    let mut env = Env::new();
    let (mut client, _) = ttl_setup(&mut env);
    for _ in 0..3 {
        env.advance_ledger(TTL_THRESHOLD + 1);
        client.get_config(&env);
        assert_eq!(get_ttl(&env, &client, StorageKey::Config), TTL_EXTEND_TO);
    }
}

#[test]
fn player_game_ttl_independent_per_player() {
    let mut env = Env::new();
    let (mut client, _) = ttl_setup(&mut env);
    fund(&env, &mut client, 1_000_000_000);
    let p1 = env.generate_address();
    let p2 = env.generate_address();
    client.start_game(&env, p1, Side::Heads, 10_000_000, make_commitment(7)).unwrap();
    client.start_game(&env, p2, Side::Tails, 10_000_000, make_commitment(8)).unwrap();
    env.advance_ledger(TTL_THRESHOLD + 1);
    client.get_game_state(&env, p1);
    assert_eq!(get_ttl(&env, &client, StorageKey::PlayerGame(p1)), TTL_EXTEND_TO, "p1 TTL must be refreshed after read");
    assert_eq!(
        get_ttl(&env, &client, StorageKey::PlayerGame(p2)),
        TTL_EXTEND_TO - (TTL_THRESHOLD + 1),
        "p2 TTL must not be affected by p1 read"
    );
}
