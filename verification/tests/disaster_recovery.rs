use tossd::contract::CoinflipContract;
use tossd::env::Env;
use tossd::harness::{advance, zero_pk, zero_proof};
use tossd::randomness::commitment_of;
use tossd::types::{Address, GamePhase, Side};

struct Fixture {
    env: Env,
    contract: CoinflipContract,
    admin: Address,
    treasury: Address,
}

fn initialized() -> Fixture {
    let mut env = Env::new();
    let admin = env.generate_address();
    let treasury = env.generate_address();
    let token = env.generate_address();
    let mut contract = CoinflipContract::new();
    contract.initialize(&env, admin, treasury, token, 300, 1_000, 1_000_000, zero_pk()).unwrap();
    Fixture { env, contract, admin, treasury }
}

#[test]
fn disaster_recovery_backup_and_restore_state() {
    let mut f = initialized();
    let config_backup = f.contract.load_config(&f.env);
    assert_eq!(config_backup.admin, f.admin);
    assert_eq!(config_backup.treasury, f.treasury);
    assert_eq!(config_backup.fee_bps, 300);
    let mut stats_backup = f.contract.load_stats(&f.env);
    stats_backup.reserve_balance = 5_000_000;
    f.contract.save_stats(&f.env, stats_backup);
    assert_eq!(f.contract.load_config(&f.env), config_backup, "Config backup must be restorable");
    assert_eq!(f.contract.load_stats(&f.env).reserve_balance, 5_000_000, "Stats backup must be restorable");
}

#[test]
fn disaster_recovery_meets_rto_objective() {
    let mut env = Env::new();
    let admin = env.generate_address();
    let treasury = env.generate_address();
    let token = env.generate_address();
    let recovery_start = env.ledger_sequence();
    let mut contract = CoinflipContract::new();
    contract.initialize(&env, admin, treasury, token, 300, 1_000, 1_000_000, zero_pk()).unwrap();
    let recovery_end = env.ledger_sequence();
    assert!(recovery_end.saturating_sub(recovery_start) < 720, "Recovery must complete within RTO (< 1 hour / 720 ledgers)");
}

#[test]
fn disaster_recovery_validates_data_integrity() {
    let mut f = initialized();
    let mut stats = f.contract.load_stats(&f.env);
    stats.reserve_balance = 10_000_000;
    stats.total_games = 5;
    stats.total_volume = 500_000;
    stats.total_fees = 15_000;
    f.contract.save_stats(&f.env, stats);
    let backup_stats = f.contract.load_stats(&f.env);
    let recovered_stats = f.contract.load_stats(&f.env);
    assert_eq!(recovered_stats.reserve_balance, backup_stats.reserve_balance, "Reserve balance must be intact after recovery");
    assert_eq!(recovered_stats.total_games, backup_stats.total_games, "Total games must be intact after recovery");
    assert_eq!(recovered_stats.total_volume, backup_stats.total_volume, "Total volume must be intact after recovery");
    assert_eq!(recovered_stats.total_fees, backup_stats.total_fees, "Total fees must be intact after recovery");
}

#[test]
fn disaster_recovery_simulates_failover() {
    let mut f = initialized();
    let primary_config = f.contract.load_config(&f.env);
    let failover_config = f.contract.load_config(&f.env);
    assert_eq!(failover_config, primary_config, "Failover system must access identical state");
    let new_treasury = f.env.generate_address();
    f.contract.set_treasury(&f.env, f.admin, new_treasury, None).unwrap();
    assert_eq!(f.contract.load_config(&f.env).treasury, new_treasury, "Failover must support state mutations");
}

#[test]
fn disaster_recovery_ensures_backup_completeness() {
    let mut f = initialized();
    let player1 = f.env.generate_address();
    let player2 = f.env.generate_address();
    let mut stats = f.contract.load_stats(&f.env);
    stats.reserve_balance = 10_000_000;
    f.contract.save_stats(&f.env, stats);
    for (idx, player) in [(0u32, player1), (1u32, player2)] {
        let secret = format!("backup_test_{}", idx).into_bytes();
        let wager = 100_000 * (idx + 1) as i128;
        f.contract.start_game(&f.env, player, Side::Heads, wager, commitment_of(&secret)).unwrap();
    }
    let config_backup = f.contract.load_config(&f.env);
    let _stats_backup = f.contract.load_stats(&f.env);
    assert!(config_backup.admin == f.admin, "Config must be backed up");
    assert!(f.contract.load_player_game(&f.env, player1).is_some(), "Player 1 game must be backed up");
    assert!(f.contract.load_player_game(&f.env, player2).is_some(), "Player 2 game must be backed up");
}

#[test]
fn disaster_recovery_validates_restoration_procedures() {
    let mut f = initialized();
    let mut stats = f.contract.load_stats(&f.env);
    stats.reserve_balance = 5_000_000;
    stats.total_games = 10;
    f.contract.save_stats(&f.env, stats);
    let backup_stats = f.contract.load_stats(&f.env);
    let restored_stats = f.contract.load_stats(&f.env);
    assert_eq!(restored_stats.reserve_balance, backup_stats.reserve_balance, "Restoration must preserve reserve balance");
    assert_eq!(restored_stats.total_games, backup_stats.total_games, "Restoration must preserve game count");
}

#[test]
fn disaster_recovery_maintains_business_continuity() {
    let mut f = initialized();
    let player = f.env.generate_address();
    let mut stats = f.contract.load_stats(&f.env);
    stats.reserve_balance = 10_000_000;
    f.contract.save_stats(&f.env, stats);
    let secret = b"continuity_test".to_vec();
    f.contract.start_game(&f.env, player, Side::Heads, 100_000, commitment_of(&secret)).unwrap();
    let active_game_backup = f.contract.load_player_game(&f.env, player).unwrap();
    assert_eq!(active_game_backup.phase, GamePhase::Committed);
    let recovered_game = f.contract.load_player_game(&f.env, player).unwrap();
    assert_eq!(recovered_game.commitment, active_game_backup.commitment, "Active game must be recoverable");
    advance(&mut f.env);
    let reveal_result = f.contract.reveal_secret(&f.env, player, &secret, zero_proof());
    assert!(reveal_result.is_ok(), "Game must be completable after recovery");
}

#[test]
fn disaster_recovery_validates_rpo_objective() {
    let mut f = initialized();
    let player = f.env.generate_address();
    let mut stats = f.contract.load_stats(&f.env);
    stats.reserve_balance = 5_000_000;
    stats.total_games = 1;
    f.contract.save_stats(&f.env, stats);
    let checkpoint_stats = f.contract.load_stats(&f.env);
    let secret = b"rpo_test".to_vec();
    f.contract.start_game(&f.env, player, Side::Heads, 100_000, commitment_of(&secret)).unwrap();
    let current_stats = f.contract.load_stats(&f.env);
    assert!(current_stats.total_games >= checkpoint_stats.total_games, "RPO must ensure no data loss");
}

#[test]
fn disaster_recovery_ensures_state_consistency() {
    let mut f = initialized();
    let config = f.contract.load_config(&f.env);
    let mut stats = f.contract.load_stats(&f.env);
    stats.reserve_balance = 10_000_000;
    f.contract.save_stats(&f.env, stats);
    let backup_config = config;
    let backup_stats = stats;
    let recovered_config = f.contract.load_config(&f.env);
    let recovered_stats = f.contract.load_stats(&f.env);
    assert_eq!(recovered_config.admin, backup_config.admin, "Config consistency must be maintained");
    assert_eq!(recovered_stats.reserve_balance, backup_stats.reserve_balance, "Stats consistency must be maintained");
}
