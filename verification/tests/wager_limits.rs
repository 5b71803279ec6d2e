use tossd::contract::CoinflipContract;
use tossd::env::Env;
use tossd::errors::Error;
use tossd::harness::{fund, make_commitment, setup};
use tossd::types::{Address, Side};

const MIN: i128 = 1_000_000;
const MAX: i128 = 100_000_000;

fn wl_setup(env: &mut Env) -> (CoinflipContract, Address) {
    let (mut client, admin, _treasury) = setup(env);
    fund(env, &mut client, i128::MAX / 2);
    (client, admin)
}

fn try_start(env: &mut Env, client: &mut CoinflipContract, wager: i128) -> Result<(), Error> {
    let player = env.generate_address();
    client.start_game(env, player, Side::Heads, wager, make_commitment(7))
}

#[test]
fn min_minus_one_rejected() {
    let mut env = Env::new();
    let (mut client, _) = wl_setup(&mut env);
    assert_eq!(try_start(&mut env, &mut client, MIN - 1), Err(Error::WagerBelowMinimum));
}

#[test]
fn min_accepted() {
    let mut env = Env::new();
    let (mut client, _) = wl_setup(&mut env);
    assert!(try_start(&mut env, &mut client, MIN).is_ok());
}

#[test]
fn min_plus_one_accepted() {
    let mut env = Env::new();
    let (mut client, _) = wl_setup(&mut env);
    assert!(try_start(&mut env, &mut client, MIN + 1).is_ok());
}

#[test]
fn max_minus_one_accepted() {
    let mut env = Env::new();
    let (mut client, _) = wl_setup(&mut env);
    assert!(try_start(&mut env, &mut client, MAX - 1).is_ok());
}

#[test]
fn max_accepted() {
    let mut env = Env::new();
    let (mut client, _) = wl_setup(&mut env);
    assert!(try_start(&mut env, &mut client, MAX).is_ok());
}

#[test]
fn max_plus_one_rejected() {
    let mut env = Env::new();
    let (mut client, _) = wl_setup(&mut env);
    assert_eq!(try_start(&mut env, &mut client, MAX + 1), Err(Error::WagerAboveMaximum));
}

#[test]
fn zero_rejected() {
    let mut env = Env::new();
    let (mut client, _) = wl_setup(&mut env);
    assert_eq!(try_start(&mut env, &mut client, 0), Err(Error::WagerBelowMinimum));
}

#[test]
fn negative_rejected() {
    let mut env = Env::new();
    let (mut client, _) = wl_setup(&mut env);
    assert_eq!(try_start(&mut env, &mut client, -1), Err(Error::WagerBelowMinimum));
}

#[test]
fn i128_min_rejected() {
    let mut env = Env::new();
    let (mut client, _) = wl_setup(&mut env);
    assert_eq!(try_start(&mut env, &mut client, i128::MIN), Err(Error::WagerBelowMinimum));
}

#[test]
fn i128_max_rejected() {
    let mut env = Env::new();
    let (mut client, _) = wl_setup(&mut env);
    assert_eq!(try_start(&mut env, &mut client, i128::MAX), Err(Error::WagerAboveMaximum));
}

#[test]
fn limit_update_takes_effect_immediately() {
    let mut env = Env::new();
    let (mut client, admin) = wl_setup(&mut env);
    let new_min: i128 = 5_000_000;
    let new_max: i128 = 10_000_000;
    client.set_wager_limits(&env, admin, new_min, new_max, None).unwrap();
    let player = env.generate_address();
    assert!(client.start_game(&env, player, Side::Heads, new_min, make_commitment(7)).is_ok());
    let player2 = env.generate_address();
    assert!(client.start_game(&env, player2, Side::Heads, new_max, make_commitment(8)).is_ok());
}

#[test]
fn limit_update_old_min_now_rejected() {
    let mut env = Env::new();
    let (mut client, admin) = wl_setup(&mut env);
    client.set_wager_limits(&env, admin, MIN + 1_000_000, MAX, None).unwrap();
    assert_eq!(try_start(&mut env, &mut client, MIN), Err(Error::WagerBelowMinimum));
}

#[test]
fn limit_update_old_max_now_rejected() {
    let mut env = Env::new();
    let (mut client, admin) = wl_setup(&mut env);
    client.set_wager_limits(&env, admin, MIN, MAX - 1_000_000, None).unwrap();
    assert_eq!(try_start(&mut env, &mut client, MAX), Err(Error::WagerAboveMaximum));
}

#[test]
fn limit_update_by_stranger_needs_a_role() {
    let mut env = Env::new();
    let (mut client, _) = wl_setup(&mut env);
    let non_admin = env.generate_address();
    assert_eq!(client.set_wager_limits(&env, non_admin, MIN, MAX, None), Err(Error::InsufficientRole));
}

#[test]
fn limit_update_invalid_min_gte_max() {
    let mut env = Env::new();
    let (mut client, admin) = wl_setup(&mut env);
    assert_eq!(client.set_wager_limits(&env, admin, MIN, MIN, None), Err(Error::InvalidWagerLimits));
    assert_eq!(client.set_wager_limits(&env, admin, MAX, MIN, None), Err(Error::InvalidWagerLimits));
}

#[test]
fn start_game_guard_errors() {
    let mut env = Env::new();
    let (mut client, admin) = wl_setup(&mut env);
    let player = env.generate_address();
    assert_eq!(client.start_game(&env, player, Side::Heads, MIN, [0u8; 32]), Err(Error::InvalidCommitment));
    client.start_game(&env, player, Side::Heads, MIN, make_commitment(1)).unwrap();
    assert_eq!(client.start_game(&env, player, Side::Heads, MIN, make_commitment(2)), Err(Error::ActiveGameExists));
    client.set_paused(&env, admin, true, None).unwrap();
    let other = env.generate_address();
    assert_eq!(client.start_game(&env, other, Side::Heads, MIN, make_commitment(3)), Err(Error::ContractPaused));
}

#[test]
fn start_game_needs_reserves_for_worst_case_payout() {
    let mut env = Env::new();
    let (mut client, _admin, _treasury) = setup(&mut env);
    fund(&env, &mut client, 10 * MIN - 1);
    let player = env.generate_address();
    assert_eq!(client.start_game(&env, player, Side::Heads, MIN, make_commitment(1)), Err(Error::InsufficientReserves));
    fund(&env, &mut client, 10 * MIN);
    assert_eq!(client.start_game(&env, player, Side::Heads, MIN, make_commitment(1)), Ok(()));
}
