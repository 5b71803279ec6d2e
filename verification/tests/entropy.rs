use tossd::contract::CoinflipContract;
use tossd::env::Env;
use tossd::harness::{force_win, fund, load_entropy, load_stats, make_commitment, setup};
use tossd::randomness::ledger_hash;
use tossd::types::Side;

fn e_setup(env: &mut Env) -> CoinflipContract {
    let (contract, _admin, _treasury) = setup(env);
    contract
}

fn win_first_flip(env: &mut Env, client: &mut CoinflipContract, player: tossd::types::Address) {
    client.start_game(env, player, Side::Heads, 10_000_000, make_commitment(0xAA)).unwrap();
    assert_eq!(force_win(env, client, player, 0xAA), Ok(true));
}

#[test]
fn test_entropy_pool_initialized_on_contract_init() {
    let mut env = Env::new();
    let contract = e_setup(&mut env);
    let entropy = load_entropy(&contract);
    assert_eq!(entropy.pool_size, 1, "pool_size must be 1 after initialize");
    assert_eq!(entropy.mix_count, 0, "mix_count must be 0 after initialize");
    assert_ne!(entropy.pool, [0u8; 32]);
    assert_eq!(entropy.pool, ledger_hash(0));
}

#[test]
fn test_start_game_accumulates_entropy() {
    let mut env = Env::new();
    let mut client = e_setup(&mut env);
    fund(&env, &mut client, 1_000_000_000);
    let before = load_entropy(&client);
    let player = env.generate_address();
    client.start_game(&env, player, Side::Heads, 10_000_000, make_commitment(1)).unwrap();
    let after = load_entropy(&client);
    assert_eq!(after.pool_size, before.pool_size + 1);
}

#[test]
fn test_start_game_mixes_entropy() {
    let mut env = Env::new();
    let mut client = e_setup(&mut env);
    fund(&env, &mut client, 1_000_000_000);
    let before = load_entropy(&client);
    let player = env.generate_address();
    client.start_game(&env, player, Side::Heads, 10_000_000, make_commitment(1)).unwrap();
    let after = load_entropy(&client);
    assert_eq!(after.mix_count, before.mix_count + 1);
}

#[test]
fn test_continue_streak_accumulates_and_mixes_entropy() {
    let mut env = Env::new();
    let mut client = e_setup(&mut env);
    fund(&env, &mut client, 1_000_000_000);
    let player = env.generate_address();
    win_first_flip(&mut env, &mut client, player);
    let before = load_entropy(&client);
    env.advance_ledger(1);
    client.continue_streak(&env, player, make_commitment(2)).unwrap();
    let after = load_entropy(&client);
    assert_eq!(after.pool_size, before.pool_size + 1, "pool_size must increment on continue");
    assert_eq!(after.mix_count, before.mix_count + 1, "mix_count must increment on continue");
}

#[test]
fn test_entropy_pool_value_changes_across_games() {
    let mut env = Env::new();
    let mut client = e_setup(&mut env);
    fund(&env, &mut client, 1_000_000_000_000);
    let pool_after_init = load_entropy(&client).pool;
    env.advance_ledger(1);
    let p1 = env.generate_address();
    client.start_game(&env, p1, Side::Heads, 10_000_000, make_commitment(1)).unwrap();
    let pool_after_game1 = load_entropy(&client).pool;
    env.advance_ledger(1);
    let p2 = env.generate_address();
    client.start_game(&env, p2, Side::Heads, 10_000_000, make_commitment(2)).unwrap();
    let pool_after_game2 = load_entropy(&client).pool;
    assert_ne!(pool_after_init, pool_after_game1, "pool must change after first game");
    assert_ne!(pool_after_game1, pool_after_game2, "pool must change after second game");
}

#[test]
fn test_contract_random_is_entropy_mixed() {
    let mut env = Env::new();
    let mut client = e_setup(&mut env);
    fund(&env, &mut client, 1_000_000_000);
    let player = env.generate_address();
    client.start_game(&env, player, Side::Heads, 10_000_000, make_commitment(1)).unwrap();
    let game = client.load_player_game(&env, player).unwrap();
    let raw_random = ledger_hash(env.ledger_sequence());
    assert_ne!(game.contract_random, raw_random, "contract_random must be entropy-mixed, not raw SHA-256(sequence)");
}

#[test]
fn test_same_sequence_different_pool_yields_different_random() {
    let mut env = Env::new();
    let mut client_a = e_setup(&mut env);
    fund(&env, &mut client_a, 1_000_000_000);
    let mut client_b = e_setup(&mut env);
    fund(&env, &mut client_b, 1_000_000_000);
    let warmup = env.generate_address();
    client_b.start_game(&env, warmup, Side::Heads, 1_000_000, make_commitment(99)).unwrap();
    let player_a = env.generate_address();
    let player_b = env.generate_address();
    client_a.start_game(&env, player_a, Side::Heads, 10_000_000, make_commitment(1)).unwrap();
    client_b.start_game(&env, player_b, Side::Heads, 10_000_000, make_commitment(1)).unwrap();
    let game_a = client_a.load_player_game(&env, player_a).unwrap();
    let game_b = client_b.load_player_game(&env, player_b).unwrap();
    assert_ne!(game_a.contract_random, game_b.contract_random, "different pool states must produce different contract_random values");
}

#[test]
fn test_stats_pool_size_tracks_accumulations() {
    let mut env = Env::new();
    let mut client = e_setup(&mut env);
    fund(&env, &mut client, 1_000_000_000_000);
    assert_eq!(load_stats(&env, &mut client).pool_size, 1);
    for i in 0..3u32 {
        env.advance_ledger(1);
        let player = env.generate_address();
        client.start_game(&env, player, Side::Heads, 10_000_000, make_commitment(i as u8 + 1)).unwrap();
    }
    assert_eq!(load_stats(&env, &mut client).pool_size, 4, "pool_size must be 1 (init) + 3 (games)");
}

#[test]
fn test_stats_mix_count_tracks_mixes() {
    let mut env = Env::new();
    let mut client = e_setup(&mut env);
    fund(&env, &mut client, 1_000_000_000_000);
    assert_eq!(load_stats(&env, &mut client).mix_count, 0);
    for i in 0..3u32 {
        env.advance_ledger(1);
        let player = env.generate_address();
        client.start_game(&env, player, Side::Heads, 10_000_000, make_commitment(i as u8 + 1)).unwrap();
    }
    assert_eq!(load_stats(&env, &mut client).mix_count, 3, "mix_count must equal number of games started");
}

#[test]
fn test_quality_metrics_are_monotonically_non_decreasing() {
    let mut env = Env::new();
    let mut client = e_setup(&mut env);
    fund(&env, &mut client, 1_000_000_000_000);
    let mut prev_pool_size = load_stats(&env, &mut client).pool_size;
    let mut prev_mix_count = load_stats(&env, &mut client).mix_count;
    for i in 0..5u32 {
        env.advance_ledger(1);
        let player = env.generate_address();
        client.start_game(&env, player, Side::Heads, 10_000_000, make_commitment(i as u8 + 1)).unwrap();
        let stats = load_stats(&env, &mut client);
        assert!(stats.pool_size >= prev_pool_size, "pool_size must not decrease");
        assert!(stats.mix_count >= prev_mix_count, "mix_count must not decrease");
        prev_pool_size = stats.pool_size;
        prev_mix_count = stats.mix_count;
    }
}

#[test]
fn test_mix_count_increments_on_continue_streak() {
    let mut env = Env::new();
    let mut client = e_setup(&mut env);
    fund(&env, &mut client, 1_000_000_000);
    let player = env.generate_address();
    win_first_flip(&mut env, &mut client, player);
    let before = load_stats(&env, &mut client).mix_count;
    env.advance_ledger(1);
    client.continue_streak(&env, player, make_commitment(2)).unwrap();
    let after = load_stats(&env, &mut client).mix_count;
    assert_eq!(after, before + 1, "mix_count must increment on continue_streak");
}
