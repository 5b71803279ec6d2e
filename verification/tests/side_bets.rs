use tossd::contract::CoinflipContract;
use tossd::env::Env;
use tossd::errors::Error;
use tossd::harness::{advance, fund_reserves, make_secret, setup, start, zero_proof};
use tossd::payout::{calculate_payout_breakdown, calculate_side_bet_payout, max_side_bet_payout};
use tossd::types::{Address, SideBet};

fn sb_setup(env: &mut Env) -> CoinflipContract {
    let (contract, _admin, _treasury) = setup(env);
    contract
}

fn force_win(env: &mut Env, contract: &mut CoinflipContract, player: Address, seed: u8) {
    let result = tossd::harness::force_win(env, contract, player, seed);
    assert_eq!(result, Ok(true), "force_win: expected a win");
}

#[test]
fn test_exact_streak_payout_hit() {
    assert_eq!(calculate_side_bet_payout(&SideBet::ExactStreak(3), 3, 1_000_000), Some(30_000_000));
}

#[test]
fn test_exact_streak_payout_miss() {
    assert_eq!(calculate_side_bet_payout(&SideBet::ExactStreak(3), 2, 1_000_000), Some(0));
}

#[test]
fn test_sequence_payout_hit() {
    assert_eq!(calculate_side_bet_payout(&SideBet::Sequence(2), 3, 1_000_000), Some(10_000_000));
}

#[test]
fn test_sequence_payout_exact_threshold() {
    assert_eq!(calculate_side_bet_payout(&SideBet::Sequence(2), 2, 1_000_000), Some(10_000_000));
}

#[test]
fn test_sequence_payout_miss() {
    assert_eq!(calculate_side_bet_payout(&SideBet::Sequence(3), 2, 1_000_000), Some(0));
}

#[test]
fn test_no_side_bet_payout() {
    assert_eq!(calculate_side_bet_payout(&SideBet::NoBet, 5, 1_000_000), Some(0));
}

#[test]
fn test_side_bet_payout_overflow_is_none() {
    assert_eq!(calculate_side_bet_payout(&SideBet::ExactStreak(u32::MAX), u32::MAX, i128::MAX), None);
}

#[test]
fn test_max_side_bet_exact_streak() {
    assert_eq!(max_side_bet_payout(&SideBet::ExactStreak(4), 1_000_000), Some(40_000_000));
}

#[test]
fn test_max_side_bet_sequence() {
    assert_eq!(max_side_bet_payout(&SideBet::Sequence(4), 1_000_000), Some(20_000_000));
}

#[test]
fn test_max_side_bet_none() {
    assert_eq!(max_side_bet_payout(&SideBet::NoBet, 1_000_000), Some(0));
}

#[test]
fn test_place_side_bet_no_active_game() {
    let mut env = Env::new();
    let mut client = sb_setup(&mut env);
    fund_reserves(&env, &mut client, 100_000_000_000);
    let player = env.generate_address();
    assert_eq!(client.place_side_bet(&env, player, SideBet::ExactStreak(2), 1_000_000), Err(Error::NoActiveGame));
}

#[test]
fn test_place_side_bet_wrong_phase() {
    let mut env = Env::new();
    let mut client = sb_setup(&mut env);
    fund_reserves(&env, &mut client, 100_000_000_000);
    let player = start(&mut env, &mut client, 1_000_000, 0xAA).unwrap();
    force_win(&mut env, &mut client, player, 0xAA);
    assert_eq!(client.place_side_bet(&env, player, SideBet::ExactStreak(2), 1_000_000), Err(Error::InvalidPhase));
}

#[test]
fn test_place_side_bet_duplicate() {
    let mut env = Env::new();
    let mut client = sb_setup(&mut env);
    fund_reserves(&env, &mut client, 100_000_000_000);
    let player = start(&mut env, &mut client, 1_000_000, 0xAA).unwrap();
    client.place_side_bet(&env, player, SideBet::ExactStreak(2), 1_000_000).unwrap();
    assert_eq!(
        client.place_side_bet(&env, player, SideBet::Sequence(1), 1_000_000),
        Err(Error::SideBetAlreadyPlaced)
    );
}

#[test]
fn test_place_side_bet_amount_below_min() {
    let mut env = Env::new();
    let mut client = sb_setup(&mut env);
    fund_reserves(&env, &mut client, 100_000_000_000);
    let player = start(&mut env, &mut client, 1_000_000, 0xAA).unwrap();
    assert_eq!(
        client.place_side_bet(&env, player, SideBet::ExactStreak(2), 999_999),
        Err(Error::InvalidSideBetAmount)
    );
}

#[test]
fn test_place_side_bet_amount_above_max() {
    let mut env = Env::new();
    let mut client = sb_setup(&mut env);
    fund_reserves(&env, &mut client, 100_000_000_000);
    let player = start(&mut env, &mut client, 1_000_000, 0xAA).unwrap();
    assert_eq!(
        client.place_side_bet(&env, player, SideBet::ExactStreak(2), 100_000_001),
        Err(Error::InvalidSideBetAmount)
    );
}

#[test]
fn test_place_side_bet_insufficient_reserves() {
    let mut env = Env::new();
    let mut client = sb_setup(&mut env);
    fund_reserves(&env, &mut client, 10_000_000);
    let player = start(&mut env, &mut client, 1_000_000, 0xAA).unwrap();
    assert_eq!(
        client.place_side_bet(&env, player, SideBet::ExactStreak(4), 1_000_000),
        Err(Error::InsufficientReserves)
    );
}

#[test]
fn test_place_side_bet_success() {
    let mut env = Env::new();
    let mut client = sb_setup(&mut env);
    fund_reserves(&env, &mut client, 100_000_000_000);
    let player = start(&mut env, &mut client, 1_000_000, 0xAA).unwrap();
    client.place_side_bet(&env, player, SideBet::ExactStreak(1), 1_000_000).unwrap();
    let game = client.get_game_state(&env, player).unwrap();
    assert_eq!(game.side_bet, SideBet::ExactStreak(1));
    assert_eq!(game.side_bet_amount, 1_000_000);
}

#[test]
fn test_cash_out_exact_streak_hit() {
    let mut env = Env::new();
    let mut client = sb_setup(&mut env);
    fund_reserves(&env, &mut client, 100_000_000_000);
    let player = start(&mut env, &mut client, 1_000_000, 0xAA).unwrap();
    client.place_side_bet(&env, player, SideBet::ExactStreak(1), 1_000_000).unwrap();
    force_win(&mut env, &mut client, player, 0xAA);
    let total = client.cash_out(&env, player).unwrap();
    let (_, _, main_net) = calculate_payout_breakdown(1_000_000, 1, 300).unwrap();
    assert_eq!(total, main_net + 10_000_000);
}

#[test]
fn test_cash_out_exact_streak_miss() {
    let mut env = Env::new();
    let mut client = sb_setup(&mut env);
    fund_reserves(&env, &mut client, 100_000_000_000);
    let player = start(&mut env, &mut client, 1_000_000, 0xAA).unwrap();
    client.place_side_bet(&env, player, SideBet::ExactStreak(2), 1_000_000).unwrap();
    force_win(&mut env, &mut client, player, 0xAA);
    let total = client.cash_out(&env, player).unwrap();
    let (_, _, main_net) = calculate_payout_breakdown(1_000_000, 1, 300).unwrap();
    assert_eq!(total, main_net);
}

#[test]
fn test_cash_out_sequence_hit() {
    let mut env = Env::new();
    let mut client = sb_setup(&mut env);
    fund_reserves(&env, &mut client, 100_000_000_000);
    let player = start(&mut env, &mut client, 1_000_000, 0xAA).unwrap();
    client.place_side_bet(&env, player, SideBet::Sequence(1), 1_000_000).unwrap();
    force_win(&mut env, &mut client, player, 0xAA);
    let total = client.cash_out(&env, player).unwrap();
    let (_, _, main_net) = calculate_payout_breakdown(1_000_000, 1, 300).unwrap();
    assert_eq!(total, main_net + 5_000_000);
}

#[test]
fn test_cash_out_no_side_bet() {
    let mut env = Env::new();
    let mut client = sb_setup(&mut env);
    fund_reserves(&env, &mut client, 100_000_000_000);
    let player = start(&mut env, &mut client, 1_000_000, 0xAA).unwrap();
    force_win(&mut env, &mut client, player, 0xAA);
    let total = client.cash_out(&env, player).unwrap();
    let (_, _, main_net) = calculate_payout_breakdown(1_000_000, 1, 300).unwrap();
    assert_eq!(total, main_net);
}

#[test]
fn test_cash_out_side_bet_forfeited_on_loss() {
    let mut env = Env::new();
    let mut client = sb_setup(&mut env);
    fund_reserves(&env, &mut client, 100_000_000_000);
    let player = start(&mut env, &mut client, 1_000_000, 0x01).unwrap();
    client.place_side_bet(&env, player, SideBet::ExactStreak(1), 1_000_000).unwrap();
    let mut game = client.load_player_game(&env, player).unwrap();
    game.contract_random = [0u8; 32];
    client.save_player_game(&env, player, game);
    advance(&mut env);
    let won = client.reveal_secret(&env, player, &make_secret(0x01), zero_proof()).unwrap();
    assert!(!won);
    assert_eq!(client.cash_out(&env, player), Err(Error::NoActiveGame));
    assert_eq!(client.get_stats(&env).reserve_balance, 100_000_000_000 + 2_000_000);
}

#[test]
fn test_reserves_decrease_by_main_plus_side_bet_on_win() {
    let mut env = Env::new();
    let mut client = sb_setup(&mut env);
    let initial_reserves = 100_000_000_000i128;
    fund_reserves(&env, &mut client, initial_reserves);
    let wager = 1_000_000i128;
    let side_amount = 1_000_000i128;
    let player = start(&mut env, &mut client, wager, 0xAA).unwrap();
    client.place_side_bet(&env, player, SideBet::ExactStreak(1), side_amount).unwrap();
    force_win(&mut env, &mut client, player, 0xAA);
    client.cash_out(&env, player).unwrap();
    let (gross, _, _) = calculate_payout_breakdown(wager, 1, 300).unwrap();
    let side_payout = 10 * 1 * side_amount;
    assert_eq!(client.get_stats(&env).reserve_balance, initial_reserves - gross - side_payout);
}

#[test]
fn test_reserves_increase_by_side_bet_amount_when_condition_not_met() {
    let mut env = Env::new();
    let mut client = sb_setup(&mut env);
    let initial_reserves = 100_000_000_000i128;
    fund_reserves(&env, &mut client, initial_reserves);
    let wager = 1_000_000i128;
    let side_amount = 1_000_000i128;
    let player = start(&mut env, &mut client, wager, 0xAA).unwrap();
    client.place_side_bet(&env, player, SideBet::ExactStreak(2), side_amount).unwrap();
    force_win(&mut env, &mut client, player, 0xAA);
    client.cash_out(&env, player).unwrap();
    let (gross, _, _) = calculate_payout_breakdown(wager, 1, 300).unwrap();
    assert_eq!(client.get_stats(&env).reserve_balance, initial_reserves - gross + side_amount);
}
