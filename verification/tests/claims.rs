use tossd::env::Env;
use tossd::errors::Error;
use tossd::harness::{fund, inject_revealed, make_commitment, make_secret, setup};
use tossd::types::{Event, GamePhase, Side};

#[test]
fn claim_quote_reports_total_and_fee_without_changing_state() {
    let mut env = Env::new();
    let (mut client, _, _) = setup(&mut env);
    fund(&env, &mut client, 100_000_000);
    let player = env.generate_address();
    assert_eq!(client.claim_quote(player), Err(Error::NoActiveGame));
    inject_revealed(&env, &mut client, player, 1, 10_000_000);
    let events_before = client.events.len();
    assert_eq!(client.claim_quote(player), Ok((18_430_000, 570_000)));
    assert_eq!(client.events.len(), events_before);
    assert_eq!(client.get_stats(&env).reserve_balance, 100_000_000);
}

#[test]
fn failed_transfer_refuses_the_claim_and_changes_nothing() {
    let mut env = Env::new();
    let (mut client, _, _) = setup(&mut env);
    fund(&env, &mut client, 100_000_000);
    let player = env.generate_address();
    inject_revealed(&env, &mut client, player, 1, 10_000_000);
    let events_before = client.events.len();
    assert_eq!(client.settle_claim(&env, player, &make_secret(1), false), Err(Error::TransferFailed));
    assert_eq!(client.events.len(), events_before);
    assert_eq!(client.get_stats(&env).reserve_balance, 100_000_000);
    assert_eq!(client.get_game_state(&env, player).unwrap().phase, GamePhase::Revealed);
    assert_eq!(client.settle_claim(&env, player, &make_secret(1), true), Ok(18_430_000));
    assert_eq!(client.get_game_state(&env, player).unwrap().phase, GamePhase::Completed);
    assert_eq!(client.settle_claim(&env, player, &make_secret(1), true), Err(Error::InvalidPhase));
    assert_eq!(client.verify_past_game(player, 0), Ok(true));
}

#[test]
fn setup_leaves_a_freshly_initialized_contract() {
    let mut env = Env::new();
    let (client, admin, treasury) = setup(&mut env);
    assert_eq!(client.versions.len(), 1);
    assert_eq!(client.next_version, 2);
    assert!(client.roles.is_empty());
    assert!(client.used_commitments.is_empty());
    assert!(client.voters.is_empty());
    assert!(client.proposals.is_empty());
    assert!(client.games.is_empty());
    assert_eq!(client.stats.total_games, 0);
    assert_eq!(client.stats.pool_size, 1);
    assert_eq!(client.events.len(), 1);
    match client.events[0] {
        Event::Initialized { admin: a, treasury: t, fee_bps, .. } => {
            assert_eq!((a, t, fee_bps), (admin, treasury, 300));
        },
        other => panic!("unexpected event {:?}", other),
    }
}

#[test]
fn inject_revealed_stores_the_settlement_fixture() {
    let mut env = Env::new();
    let (mut client, _, _) = setup(&mut env);
    env.advance_ledger(50);
    let player = env.generate_address();
    let g = inject_revealed(&env, &mut client, player, 2, 10_000_000);
    assert_eq!(g.start_ledger, 0);
    assert_eq!(g.commitment, make_commitment(1));
    assert_eq!(g.contract_random, make_commitment(1));
    assert_eq!(g.side, Side::Heads);
    assert_eq!(client.load_player_game(&env, player), Some(g));
}
