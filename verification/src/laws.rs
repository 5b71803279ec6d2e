//! Properties of the game that hold of every input or span several
//! operations, proved from the operations' own contracts.

use vstd::prelude::*;
use crate::contract::{
    remaining_ttl, touched_until, valid_config, valid_multipliers, CoinflipContract, MIN_REVEAL_DELAY_LEDGERS,
    TTL_EXTEND_TO,
};
use crate::crypto::sha256_digest;
use crate::bytes::zeros;
use crate::errors::Error;
use crate::game::{active, reclaim_window_open, reserves_cover, reveal_window_open, sat_add_i128, sat_inc_u32};
use crate::payout::{
    breakdown_spec, gross_payout, max_side_bet_spec, side_bet_payout_spec, tier_multiplier, BPS_DENOMINATOR,
    EXACT_STREAK_FACTOR, SEQUENCE_FACTOR,
};
use crate::settle::settlement_spec;
use crate::versions::push_if;
use crate::types::{Address, ConfigDiff, ConfigField, GamePhase, GameState, MultiplierConfig, SettleMethod, Side, SideBet};

verus! {

/// A committed game is never open to both a reveal and a reclaim at one
/// ledger; before the reveal delay neither is open, and from then on
/// exactly one of them is: the reveal window runs up to the timeout and
/// reclaiming starts on the next ledger.
pub proof fn law_reveal_and_reclaim_windows_partition(g: GameState, sequence: u32)
    ensures
        !(reveal_window_open(g, sequence) && reclaim_window_open(g, sequence)),
        sequence < g.start_ledger + MIN_REVEAL_DELAY_LEDGERS ==> !reveal_window_open(g, sequence)
            && !reclaim_window_open(g, sequence),
        sequence >= g.start_ledger + MIN_REVEAL_DELAY_LEDGERS ==> reveal_window_open(g, sequence)
            || reclaim_window_open(g, sequence),
{
}

/// A payout splits its gross exactly into the player's net and the fee;
/// neither part is negative and the fee is at most the gross.
pub proof fn law_net_plus_fee_is_gross(wager: int, multiplier: int, fee_bps: int)
    requires
        0 <= multiplier,
        0 <= fee_bps <= BPS_DENOMINATOR,
    ensures
        breakdown_spec(wager, multiplier, fee_bps) matches Some((gross, fee, net)) ==> {
            &&& gross == gross_payout(wager, multiplier)
            &&& net + fee == gross
            &&& 0 <= fee <= gross
            &&& 0 <= net <= gross
        },
{
    if breakdown_spec(wager, multiplier, fee_bps) is Some {
        let p = wager * multiplier;
        assert(0 <= p) by (nonlinear_arith)
            requires
                0 <= wager,
                0 <= multiplier,
                p == wager * multiplier,
        ;
        let gross = p / BPS_DENOMINATOR as int;
        vstd::arithmetic::div_mod::lemma_div_pos_is_pos(p, BPS_DENOMINATOR as int);
        assert(gross <= p) by (nonlinear_arith)
            requires
                0 <= p,
                gross == p / 10_000,
        ;
        let q = gross * fee_bps;
        assert(0 <= q <= gross * BPS_DENOMINATOR) by (nonlinear_arith)
            requires
                0 <= gross,
                0 <= fee_bps <= 10_000,
                q == gross * fee_bps,
        ;
        let fee = q / BPS_DENOMINATOR as int;
        vstd::arithmetic::div_mod::lemma_div_pos_is_pos(q, BPS_DENOMINATOR as int);
        assert(fee <= gross) by (nonlinear_arith)
            requires
                0 <= q <= gross * 10_000,
                fee == q / 10_000,
        ;
    }
}

/// With a valid multiplier table the multiplier never falls as the streak
/// grows, no streak pays more than the top tier, and every streak of four
/// or more pays exactly the top tier.
pub proof fn law_multiplier_monotone_and_capped(m: MultiplierConfig, s1: u32, s2: u32)
    requires
        valid_multipliers(m),
        s1 <= s2,
    ensures
        tier_multiplier(m, s1) <= tier_multiplier(m, s2),
        tier_multiplier(m, s2) <= m.streak4_plus,
        s1 >= 4 ==> tier_multiplier(m, s1) == m.streak4_plus,
{
}

/// The reserve check made when a game starts or continues, the wager's
/// gross at the top tier, bounds the gross payout the game can reach at
/// any streak.
pub proof fn law_top_tier_bounds_every_payout(m: MultiplierConfig, wager: int, streak: u32)
    requires
        valid_multipliers(m),
        0 <= wager,
    ensures
        0 <= gross_payout(wager, tier_multiplier(m, streak) as int) <= gross_payout(wager, m.streak4_plus as int),
{
    law_multiplier_monotone_and_capped(m, streak, u32::MAX);
    let a = tier_multiplier(m, streak) as int;
    let b = m.streak4_plus as int;
    vstd::arithmetic::mul::lemma_mul_inequality(a, b, wager);
    vstd::arithmetic::mul::lemma_mul_nonnegative(a, wager);
    assert(wager * a == a * wager && wager * b == b * wager) by (nonlinear_arith);
    vstd::arithmetic::div_mod::lemma_div_is_ordered(wager * a, wager * b, BPS_DENOMINATOR as int);
    vstd::arithmetic::div_mod::lemma_div_pos_is_pos(wager * a, BPS_DENOMINATOR as int);
}

/// What a side bet pays at settlement is never negative for a stake that
/// is not, and never more than its largest payout, the amount reserves
/// must cover when the bet is placed.
pub proof fn law_side_bet_payout_within_max(bet: SideBet, streak: u32, amount: int)
    requires
        0 <= amount,
    ensures
        0 <= side_bet_payout_spec(bet, streak, amount) <= max_side_bet_spec(bet, amount),
{
    match bet {
        SideBet::NoBet => {},
        SideBet::ExactStreak(n) => {
            assert(0 <= EXACT_STREAK_FACTOR * n * amount) by (nonlinear_arith)
                requires
                    0 <= amount,
                    0 <= n,
            ;
        },
        SideBet::Sequence(n) => {
            assert(0 <= SEQUENCE_FACTOR * n * amount) by (nonlinear_arith)
                requires
                    0 <= amount,
                    0 <= n,
            ;
        },
    }
}

/// A settlement only goes ahead when reserves cover both the gross payout
/// and the side-bet payout, so reserves that were not negative stay so;
/// the fee total only grows, by the fee of the settled game.
pub proof fn law_settlement_keeps_reserves_non_negative(
    pre: CoinflipContract,
    post: CoinflipContract,
    sequence: u32,
    player: Address,
    method: SettleMethod,
    secret: Seq<u8>,
    total: i128,
)
    requires
        pre.config is Some,
        pre.settle_error(player) is None,
        CoinflipContract::settle_post(pre, post, sequence, player, method, secret, total),
        pre.games@[player.id].side_bet_amount >= 0,
        pre.stats.total_fees >= 0,
    ensures
        post.stats.reserve_balance >= 0,
        post.stats.total_fees >= pre.stats.total_fees,
        settlement_spec(pre.games@[player.id], pre.config.unwrap().multipliers) matches Some((gross, fee, net, side))
            && post.stats.total_fees == sat_add_i128(pre.stats.total_fees as int, fee as int)
            && total == net + side,
{
    let g = pre.games@[player.id];
    let m = pre.config.unwrap().multipliers;
    let (gross, fee, net, side) = settlement_spec(g, m).unwrap();
    let mult = tier_multiplier(m, g.streak) as int;
    let p = g.wager * mult;
    assert(0 <= p) by (nonlinear_arith)
        requires
            0 <= g.wager,
            0 <= mult,
            p == g.wager * mult,
    ;
    vstd::arithmetic::div_mod::lemma_div_pos_is_pos(p, BPS_DENOMINATOR as int);
    let q = gross * g.fee_bps;
    assert(0 <= q) by (nonlinear_arith)
        requires
            0 <= gross,
            0 <= g.fee_bps,
            q == gross * g.fee_bps,
    ;
    vstd::arithmetic::div_mod::lemma_div_pos_is_pos(q, BPS_DENOMINATOR as int);
}

/// Every revealed game leaves an audit entry whose stored secret opens its
/// commitment, so `verify_past_game` confirms it.
pub proof fn law_revealed_game_verifies(
    pre: CoinflipContract,
    post: CoinflipContract,
    env: crate::env::Env,
    player: Address,
    secret: Seq<u8>,
    vrf_proof: [u8; 64],
)
    requires
        pre.config is Some,
        pre.reveal_error(&env, player, secret, vrf_proof) is None,
        CoinflipContract::reveal_post(pre, post, env.sequence, player, secret, vrf_proof),
    ensures
        post.history_of(player).len() > 0,
        sha256_digest(post.history_of(player).last().secret@) == post.history_of(player).last().commitment@,
{
}

/// A game settled by `claim_winnings` with the secret that opens its
/// commitment leaves an audit entry that `verify_past_game` confirms.
pub proof fn law_claimed_game_verifies(
    pre: CoinflipContract,
    post: CoinflipContract,
    sequence: u32,
    player: Address,
    secret: Seq<u8>,
    total: i128,
)
    requires
        pre.config is Some,
        CoinflipContract::settle_post(pre, post, sequence, player, SettleMethod::ClaimWinnings, secret, total),
        sha256_digest(secret) == pre.games@[player.id].commitment@,
    ensures
        post.history_of(player).len() > 0,
        sha256_digest(post.history_of(player).last().secret@) == post.history_of(player).last().commitment@,
{
}

/// A commitment is accepted at most once: once `start_game` has accepted
/// it, neither `start_game` nor `continue_streak` accepts it again, for any
/// player.
pub proof fn law_commitment_used_once_by_start(
    pre: CoinflipContract,
    post: CoinflipContract,
    sequence: u32,
    player: Address,
    side: Side,
    wager: i128,
    commitment: [u8; 32],
    other: Address,
    other_wager: i128,
)
    requires
        pre.config is Some,
        CoinflipContract::start_post(pre, post, sequence, player, side, wager, commitment),
    ensures
        post.start_game_error(other, other_wager, commitment) is Some,
        post.continue_error(other, commitment) is Some,
{
    let n = (pre.used_commitments@.len()) as int;
    assert(post.used_commitments@[n] == commitment);
}

/// The same holds of a commitment accepted by `continue_streak`.
pub proof fn law_commitment_used_once_by_continue(
    pre: CoinflipContract,
    post: CoinflipContract,
    sequence: u32,
    player: Address,
    commitment: [u8; 32],
    other: Address,
    other_wager: i128,
)
    requires
        pre.config is Some,
        CoinflipContract::continue_post(pre, post, sequence, player, commitment),
    ensures
        post.start_game_error(other, other_wager, commitment) is Some,
        post.continue_error(other, commitment) is Some,
{
    let n = (pre.used_commitments@.len()) as int;
    assert(post.used_commitments@[n] == commitment);
}

/// Starting a game counts it: the game and volume totals never decrease,
/// and grow by one and by the wager unless they are already at their
/// limit; the entropy counters do the same, by one each.
pub proof fn law_start_counts_game_and_volume(
    pre: CoinflipContract,
    post: CoinflipContract,
    sequence: u32,
    player: Address,
    side: Side,
    wager: i128,
    commitment: [u8; 32],
)
    requires
        pre.config is Some,
        valid_config(pre.config.unwrap()),
        pre.start_game_error(player, wager, commitment) is None,
        CoinflipContract::start_post(pre, post, sequence, player, side, wager, commitment),
        pre.stats.total_volume >= 0,
    ensures
        post.stats.total_games >= pre.stats.total_games,
        post.stats.total_volume >= pre.stats.total_volume,
        pre.stats.total_games < u64::MAX ==> post.stats.total_games == pre.stats.total_games + 1,
        pre.stats.total_volume + wager <= i128::MAX ==> post.stats.total_volume == pre.stats.total_volume + wager,
        post.entropy.pool_size >= pre.entropy.pool_size,
        post.entropy.mix_count >= pre.entropy.mix_count,
        pre.entropy.pool_size < u32::MAX ==> post.entropy.pool_size == pre.entropy.pool_size + 1,
        pre.entropy.mix_count < u32::MAX ==> post.entropy.mix_count == pre.entropy.mix_count + 1,
        post.stats.reserve_balance == pre.stats.reserve_balance,
        post.stats.total_fees == pre.stats.total_fees,
{
}

/// The wager limits are inclusive and decide a start on their own: below
/// the minimum the start is refused as too small, above the maximum as too
/// large, and within them it goes ahead when nothing else stands in the
/// way (an unpaused contract, reserves above the breaker threshold and
/// covering the wager, no game in progress, a non-zero unused commitment).
pub proof fn law_wager_limits_decide_start(k: CoinflipContract, player: Address, wager: i128, commitment: [u8; 32])
    requires
        k.config is Some,
        valid_config(k.config.unwrap()),
        !k.config.unwrap().paused,
        !(k.config.unwrap().min_reserve_threshold > 0
            && k.stats.reserve_balance <= k.config.unwrap().min_reserve_threshold),
    ensures
        wager < k.config.unwrap().min_wager ==> k.start_game_error(player, wager, commitment)
            == Some(Error::WagerBelowMinimum),
        wager > k.config.unwrap().max_wager ==> k.start_game_error(player, wager, commitment)
            == Some(Error::WagerAboveMaximum),
        k.config.unwrap().min_wager <= wager <= k.config.unwrap().max_wager
            && !(k.games@.contains_key(player.id) && active(k.games@[player.id]))
            && commitment@ != zeros(32)
            && !k.commitment_used(commitment)
            && reserves_cover(k.stats.reserve_balance, wager, 0, k.config.unwrap().multipliers)
            ==> k.start_game_error(player, wager, commitment) is None,
{
}

/// The circuit breaker: a start is refused as paused exactly when the
/// contract is paused or a positive reserve threshold is not exceeded by
/// the reserves; a threshold of zero turns the check off.
pub proof fn law_circuit_breaker_decides_pause(k: CoinflipContract, player: Address, wager: i128, commitment: [u8; 32])
    requires
        k.config is Some,
    ensures
        k.start_game_error(player, wager, commitment) == Some(Error::ContractPaused) <==> (
        k.config.unwrap().paused || (k.config.unwrap().min_reserve_threshold > 0
            && k.stats.reserve_balance <= k.config.unwrap().min_reserve_threshold)),
        k.config.unwrap().min_reserve_threshold == 0 && !k.config.unwrap().paused ==> k.start_game_error(
            player,
            wager,
            commitment,
        ) != Some(Error::ContractPaused),
{
}

/// The sum of a sequence of wagers.
pub open spec fn sum_of(w: Seq<i128>) -> int
    decreases w.len(),
{
    if w.len() == 0 {
        0
    } else {
        sum_of(w.drop_last()) + w.last()
    }
}

/// Over any run of game starts, state `i` to state `i + 1` starting game
/// `i`, the game total grows by the number of games and the volume by the
/// sum of their wagers, as long as neither reaches its limit, while the
/// reserves and the fees collected stay as they were.
pub proof fn law_totals_after_starts(
    states: Seq<CoinflipContract>,
    sequences: Seq<u32>,
    players: Seq<Address>,
    sides: Seq<Side>,
    wagers: Seq<i128>,
    commitments: Seq<[u8; 32]>,
)
    requires
        states.len() == wagers.len() + 1,
        sequences.len() == wagers.len(),
        players.len() == wagers.len(),
        sides.len() == wagers.len(),
        commitments.len() == wagers.len(),
        forall|i: int|
            #![trigger wagers[i]]
            0 <= i < wagers.len() ==> CoinflipContract::start_post(
                states[i],
                states[i + 1],
                sequences[i],
                players[i],
                sides[i],
                wagers[i],
                commitments[i],
            ),
        forall|i: int| 0 <= i < wagers.len() ==> #[trigger] wagers[i] >= 0,
        states[0].stats.total_volume >= 0,
        states[0].stats.total_games + wagers.len() <= u64::MAX,
        states[0].stats.total_volume + sum_of(wagers) <= i128::MAX,
    ensures
        states.last().stats.total_games == states[0].stats.total_games + wagers.len(),
        states.last().stats.total_volume == states[0].stats.total_volume + sum_of(wagers),
        states.last().stats.reserve_balance == states[0].stats.reserve_balance,
        states.last().stats.total_fees == states[0].stats.total_fees,
    decreases wagers.len(),
{
    if wagers.len() > 0 {
        let n = wagers.len() - 1;
        let w = wagers.drop_last();
        assert forall|i: int| 0 <= i < w.len() implies #[trigger] w[i] >= 0 by {
            assert(w[i] == wagers[i]);
        }
        assert forall|i: int|
            #![trigger w[i]]
            0 <= i < w.len() implies CoinflipContract::start_post(
                states.drop_last()[i],
                states.drop_last()[i + 1],
                sequences.drop_last()[i],
                players.drop_last()[i],
                sides.drop_last()[i],
                w[i],
                commitments.drop_last()[i],
            ) by {
            assert(w[i] == wagers[i]);
        }
        assert(wagers.last() == wagers[n]);
        law_totals_after_starts(
            states.drop_last(),
            sequences.drop_last(),
            players.drop_last(),
            sides.drop_last(),
            w,
            commitments.drop_last(),
        );
        assert(wagers[n] >= 0);
        assert(CoinflipContract::start_post(states[n], states[n + 1], sequences[n], players[n], sides[n], wagers[n], commitments[n]));
        assert(states.drop_last().last() == states[n]);
    }
}

/// A won reveal raises the streak by exactly one (stopping at the largest
/// value) and keeps the wager, side, fee snapshot and side bet; a lost
/// reveal deletes the game and credits its stakes to reserves.
pub proof fn law_reveal_moves_streak(
    pre: CoinflipContract,
    post: CoinflipContract,
    sequence: u32,
    player: Address,
    secret: Seq<u8>,
    vrf_proof: [u8; 64],
)
    requires
        CoinflipContract::reveal_post(pre, post, sequence, player, secret, vrf_proof),
    ensures
        pre.reveal_wins(player, secret, vrf_proof) ==> {
            let (g, n) = (pre.games@[player.id], post.games@[player.id]);
            &&& post.games@.contains_key(player.id)
            &&& n.streak == sat_inc_u32(g.streak)
            &&& g.streak < u32::MAX ==> n.streak == g.streak + 1
            &&& n.phase == GamePhase::Revealed
            &&& n.wager == g.wager && n.side == g.side && n.fee_bps == g.fee_bps
            &&& n.side_bet == g.side_bet && n.side_bet_amount == g.side_bet_amount
            &&& post.stats == pre.stats
        },
        !pre.reveal_wins(player, secret, vrf_proof) ==> {
            let g = pre.games@[player.id];
            &&& !post.games@.contains_key(player.id)
            &&& post.stats.reserve_balance == sat_add_i128(
                pre.stats.reserve_balance as int,
                sat_add_i128(g.wager as int, g.side_bet_amount as int) as int,
            )
        },
{
}

/// A lost reveal frees the player's slot: the game is gone, whatever side
/// was played, reserves gain the stakes, and the player may start a new
/// game at once, which begins at streak zero.
pub proof fn law_loss_frees_the_slot(
    pre: CoinflipContract,
    post: CoinflipContract,
    sequence: u32,
    player: Address,
    secret: Seq<u8>,
    vrf_proof: [u8; 64],
    wager: i128,
    commitment: [u8; 32],
)
    requires
        pre.config is Some,
        CoinflipContract::reveal_post(pre, post, sequence, player, secret, vrf_proof),
        !pre.reveal_wins(player, secret, vrf_proof),
    ensures
        !post.games@.contains_key(player.id),
        post.start_game_error(player, wager, commitment) != Some(Error::ActiveGameExists),
        pre.games@[player.id].side_bet_amount == 0 && pre.stats.reserve_balance + pre.games@[player.id].wager
            <= i128::MAX && 0 <= pre.games@[player.id].wager ==> post.stats.reserve_balance
            == pre.stats.reserve_balance + pre.games@[player.id].wager,
        forall|post2: CoinflipContract, side: Side|
            #[trigger] CoinflipContract::start_post(post, post2, sequence, player, side, wager, commitment)
                ==> post2.games@[player.id].streak == 0,
{
}

/// A won game is paid once: after `cash_out` the game is gone and after
/// `claim_winnings` it is completed, so any further settlement is refused.
pub proof fn law_settlement_pays_once(
    pre: CoinflipContract,
    post: CoinflipContract,
    sequence: u32,
    player: Address,
    method: SettleMethod,
    secret: Seq<u8>,
    total: i128,
)
    requires
        pre.config is Some,
        CoinflipContract::settle_post(pre, post, sequence, player, method, secret, total),
    ensures
        post.settle_error(player) is Some,
        method == SettleMethod::CashOut ==> post.settle_error(player) == Some(Error::NoActiveGame),
        method == SettleMethod::ClaimWinnings ==> post.settle_error(player) == Some(Error::InvalidPhase),
{
}

/// Continuing a streak keeps the streak, wager, side, fee snapshot and side
/// bet, puts the game back to `Committed` at the current ledger, and moves
/// no money.
pub proof fn law_continue_keeps_terms(
    pre: CoinflipContract,
    post: CoinflipContract,
    sequence: u32,
    player: Address,
    new_commitment: [u8; 32],
)
    requires
        CoinflipContract::continue_post(pre, post, sequence, player, new_commitment),
    ensures
        ({
            let (g, n) = (pre.games@[player.id], post.games@[player.id]);
            &&& post.games@.contains_key(player.id)
            &&& n.streak == g.streak && n.wager == g.wager && n.side == g.side && n.fee_bps == g.fee_bps
            &&& n.side_bet == g.side_bet && n.side_bet_amount == g.side_bet_amount
            &&& n.phase == GamePhase::Committed
            &&& n.start_ledger == sequence
            &&& n.commitment == new_commitment
        }),
        post.stats.reserve_balance == pre.stats.reserve_balance,
        post.stats.total_fees == pre.stats.total_fees,
        post.stats.total_games == pre.stats.total_games,
        post.stats.total_volume == pre.stats.total_volume,
{
}

/// Players' games are isolated: starting, revealing, continuing or settling
/// one player's game leaves every other player's game as it was.
pub proof fn law_players_isolated(
    pre: CoinflipContract,
    post: CoinflipContract,
    sequence: u32,
    player: Address,
    side: Side,
    wager: i128,
    commitment: [u8; 32],
    secret: Seq<u8>,
    vrf_proof: [u8; 64],
    method: SettleMethod,
    total: i128,
)
    requires
        pre.config is Some,
        CoinflipContract::start_post(pre, post, sequence, player, side, wager, commitment)
            || CoinflipContract::reveal_post(pre, post, sequence, player, secret, vrf_proof)
            || CoinflipContract::continue_post(pre, post, sequence, player, commitment)
            || CoinflipContract::settle_post(pre, post, sequence, player, method, secret, total),
    ensures
        post.games@.remove(player.id) == pre.games@.remove(player.id),
{
    assert(post.games@.remove(player.id) =~= pre.games@.remove(player.id));
}

/// Changing the configuration, by an admin, a proposal or a rollback,
/// never touches a game in progress (each keeps the fee snapshot it started
/// with) nor the running totals.
pub proof fn law_config_change_leaves_games(
    pre: CoinflipContract,
    post: CoinflipContract,
    sequence: u32,
    c: crate::types::ContractConfig,
    label: Seq<u8>,
    event: crate::types::Event,
)
    requires
        crate::admin::adopt_post(pre, post, sequence, c, label, event),
    ensures
        post.games == pre.games,
        post.stats == pre.stats,
        post.history == pre.history,
        post.config == Some(c),
{
}

/// A proposal takes effect at most once: one that was executed or
/// canceled is refused by `execute_proposal`.
pub proof fn law_proposal_executes_at_most_once(k: CoinflipContract, env: crate::env::Env, caller: Address, id: u32)
    requires
        id < k.proposals@.len(),
        k.proposals@[id as int].status != crate::governance::ProposalStatus::Active,
    ensures
        k.execute_error(&env, caller, id) == Some(Error::ProposalAlreadyExecuted),
{
}

/// Every read or write of a storage entry restores its lifetime to
/// `TTL_EXTEND_TO` ledgers (while the ledger counter is far from its end),
/// after which the lifetime falls by one per ledger until it runs out.
pub proof fn law_touch_restores_full_ttl(sequence: u32, later: u32)
    requires
        sequence + TTL_EXTEND_TO <= u32::MAX,
        sequence <= later,
    ensures
        remaining_ttl(touched_until(sequence), sequence) == TTL_EXTEND_TO,
        later - sequence <= TTL_EXTEND_TO ==> remaining_ttl(touched_until(sequence), later) == TTL_EXTEND_TO - (later
            - sequence),
        later - sequence >= TTL_EXTEND_TO ==> remaining_ttl(touched_until(sequence), later) == 0,
{
}

/// Comparing a configuration with itself reports no difference, and two
/// configurations between which no difference is reported agree on every
/// setting.
pub proof fn law_compare_reports_exactly_the_differences(a: crate::types::ContractConfig, b: crate::types::ContractConfig)
    ensures
        crate::versions::diff_fields(a, a).len() == 0,
        crate::versions::diff_fields(a, b).len() == 0 ==> {
            &&& a.admin == b.admin && a.treasury == b.treasury && a.token == b.token
            &&& a.fee_bps == b.fee_bps && a.min_wager == b.min_wager && a.max_wager == b.max_wager
            &&& a.paused == b.paused && a.multipliers == b.multipliers
            &&& a.min_reserve_threshold == b.min_reserve_threshold && a.oracle_vrf_pk@ == b.oracle_vrf_pk@
        },
{
}


/// A player's slot is free for a new game only when it is empty or holds a
/// completed game: past the pause, breaker and wager checks, a stored game
/// in any other phase (committed, or won and not yet settled) refuses the
/// start as `ActiveGameExists`, and no start ever succeeds over such a game.
pub proof fn law_start_refused_over_unsettled_game(k: CoinflipContract, player: Address, wager: i128, commitment: [u8; 32])
    requires
        k.config is Some,
    ensures
        k.start_game_error(player, wager, commitment) is None ==> !k.games@.contains_key(player.id)
            || k.games@[player.id].phase == GamePhase::Completed,
        !k.config.unwrap().paused
            && !(k.config.unwrap().min_reserve_threshold > 0
            && k.stats.reserve_balance <= k.config.unwrap().min_reserve_threshold)
            && k.config.unwrap().min_wager <= wager <= k.config.unwrap().max_wager
            && k.games@.contains_key(player.id)
            && k.games@[player.id].phase != GamePhase::Completed
            ==> k.start_game_error(player, wager, commitment) == Some(Error::ActiveGameExists),
{
}

/// An exact-streak side bet on `n` pays ten times `n` times its stake when
/// the game is settled at streak `n` exactly, and nothing at any other
/// streak; a sequence bet on `n` pays five times `n` times its stake at any
/// streak of `n` or more, and nothing below; no bet pays nothing.
pub proof fn law_side_bet_pays_by_kind(n: u32, streak: u32, amount: int)
    ensures
        streak != n ==> side_bet_payout_spec(SideBet::ExactStreak(n), streak, amount) == 0,
        side_bet_payout_spec(SideBet::ExactStreak(n), n, amount) == 10 * n * amount,
        streak < n ==> side_bet_payout_spec(SideBet::Sequence(n), streak, amount) == 0,
        streak >= n ==> side_bet_payout_spec(SideBet::Sequence(n), streak, amount) == 5 * n * amount,
        side_bet_payout_spec(SideBet::NoBet, streak, amount) == 0,
{
}

/// What a settled game's side bet contributes: an exact-streak bet adds
/// its payout only when the settlement streak is its target, otherwise
/// nothing (its stake stays with the reserves).
pub proof fn law_settlement_side_bet_share(g: GameState, m: MultiplierConfig)
    ensures
        settlement_spec(g, m) matches Some((gross, fee, net, side)) ==> side == (match g.side_bet {
            SideBet::NoBet => 0,
            SideBet::ExactStreak(n) => if g.streak == n { 10 * n * g.side_bet_amount } else { 0 },
            SideBet::Sequence(n) => if g.streak >= n { 5 * n * g.side_bet_amount } else { 0 },
        }),
{
}

/// A side bet is only accepted when reserves cover both the game's own
/// worst case (its wager at the top multiplier) and the bet's largest
/// payout; with the reserves below that sum, a bet that passes the other
/// checks is refused as `InsufficientReserves`.
pub proof fn law_side_bet_needs_reserves_for_both(k: CoinflipContract, player: Address, bet: SideBet, amount: i128)
    requires
        k.config is Some,
    ensures
        ({
            let g = k.games@[player.id];
            let top = k.config.unwrap().multipliers.streak4_plus;
            let most: int = match bet {
                SideBet::NoBet => 0,
                SideBet::ExactStreak(n) => 10 * n * amount,
                SideBet::Sequence(n) => 5 * n * amount,
            };
            &&& k.side_bet_error(player, bet, amount) is None ==> k.stats.reserve_balance >= g.wager * top / 10_000 + most
            &&& k.games@.contains_key(player.id) && g.phase == GamePhase::Committed && g.side_bet == SideBet::NoBet
                && bet != SideBet::NoBet && k.config.unwrap().min_wager <= amount <= k.config.unwrap().max_wager
                && k.stats.reserve_balance < g.wager * top / 10_000 + most
                ==> k.side_bet_error(player, bet, amount) == Some(Error::InsufficientReserves)
        }),
{
}

/// A proposal passes only with the approval of at least 51% of the
/// registered voters: a successful execution has `votes_for * 100` at
/// least `51` times the number of voters, and, once voting has closed on
/// an open proposal the caller may execute, too few approvals are refused
/// as `ThresholdNotMet`.  Votes against never help a proposal pass.
pub proof fn law_execution_needs_majority_approval(k: CoinflipContract, env: crate::env::Env, caller: Address, id: u32)
    requires
        k.config is Some,
    ensures
        k.execute_error(&env, caller, id) is None ==> id < k.proposals@.len()
            && k.proposals@[id as int].votes_for * 100 >= 51 * k.voters@.len()
            && k.proposals@[id as int].votes_for > 0,
        id < k.proposals@.len()
            && k.proposals@[id as int].status == crate::governance::ProposalStatus::Active
            && (caller == k.config.unwrap().admin || k.is_voter(caller))
            && env.sequence > k.proposals@[id as int].deadline_ledger
            && k.proposals@[id as int].votes_for * 100 < 51 * k.voters@.len()
            ==> k.execute_error(&env, caller, id) == Some(Error::ThresholdNotMet),
{
}

/// How many votes were cast against a proposal never changes whether, or
/// how, its execution is refused.
pub proof fn law_votes_against_do_not_count(
    k: CoinflipContract,
    k2: CoinflipContract,
    env: crate::env::Env,
    caller: Address,
    id: u32,
    against: u32,
)
    requires
        k.config is Some,
        id < k.proposals@.len(),
        k2.proposals@ == k.proposals@.update(
            id as int,
            crate::governance::Proposal { votes_against: against, ..k.proposals@[id as int] },
        ),
        k2 == (CoinflipContract { proposals: k2.proposals, ..k }),
    ensures
        k2.execute_error(&env, caller, id) == k.execute_error(&env, caller, id),
{
}

proof fn lemma_push_if_contains(s: Seq<ConfigDiff>, differs: bool, field: ConfigField, x: ConfigDiff)
    ensures
        push_if(s, differs, field).contains(x) <==> s.contains(x) || (differs && x == ConfigDiff { field }),
{
    if differs {
        let t = s.push(ConfigDiff { field });
        if t.contains(x) {
            let i = choose|i: int| 0 <= i < t.len() && t[i] == x;
            if i < s.len() {
                assert(s[i] == x);
            }
        }
        if s.contains(x) {
            let i = choose|i: int| 0 <= i < s.len() && s[i] == x;
            assert(t[i] == x);
        }
        if x == (ConfigDiff { field }) {
            assert(t[s.len() as int] == x);
        }
    }
}

/// Each entry of a configuration comparison names a setting that really
/// differs, and each differing setting is named: the admin, treasury,
/// token, fee, minimum and maximum wager, pause flag, multipliers, reserve
/// threshold and oracle key are each reported exactly when they differ.
pub proof fn law_compare_names_each_changed_setting(a: crate::types::ContractConfig, b: crate::types::ContractConfig)
    ensures
        ({
            let d = crate::versions::diff_fields(a, b);
            &&& d.contains(ConfigDiff { field: ConfigField::Admin }) <==> a.admin != b.admin
            &&& d.contains(ConfigDiff { field: ConfigField::Treasury }) <==> a.treasury != b.treasury
            &&& d.contains(ConfigDiff { field: ConfigField::Token }) <==> a.token != b.token
            &&& d.contains(ConfigDiff { field: ConfigField::FeeBps }) <==> a.fee_bps != b.fee_bps
            &&& d.contains(ConfigDiff { field: ConfigField::MinWager }) <==> a.min_wager != b.min_wager
            &&& d.contains(ConfigDiff { field: ConfigField::MaxWager }) <==> a.max_wager != b.max_wager
            &&& d.contains(ConfigDiff { field: ConfigField::Paused }) <==> a.paused != b.paused
            &&& d.contains(ConfigDiff { field: ConfigField::Multipliers }) <==> a.multipliers != b.multipliers
            &&& d.contains(ConfigDiff { field: ConfigField::MinReserveThreshold })
                <==> a.min_reserve_threshold != b.min_reserve_threshold
            &&& d.contains(ConfigDiff { field: ConfigField::OracleVrfPk }) <==> a.oracle_vrf_pk@ != b.oracle_vrf_pk@
        }),
{
    let s0 = Seq::<ConfigDiff>::empty();
    let s1 = push_if(s0, a.admin != b.admin, ConfigField::Admin);
    let s2 = push_if(s1, a.treasury != b.treasury, ConfigField::Treasury);
    let s3 = push_if(s2, a.token != b.token, ConfigField::Token);
    let s4 = push_if(s3, a.fee_bps != b.fee_bps, ConfigField::FeeBps);
    let s5 = push_if(s4, a.min_wager != b.min_wager, ConfigField::MinWager);
    let s6 = push_if(s5, a.max_wager != b.max_wager, ConfigField::MaxWager);
    let s7 = push_if(s6, a.paused != b.paused, ConfigField::Paused);
    let s8 = push_if(s7, a.multipliers != b.multipliers, ConfigField::Multipliers);
    let s9 = push_if(s8, a.min_reserve_threshold != b.min_reserve_threshold, ConfigField::MinReserveThreshold);
    let s10 = push_if(s9, a.oracle_vrf_pk@ != b.oracle_vrf_pk@, ConfigField::OracleVrfPk);
    assert(s10 == crate::versions::diff_fields(a, b));
    assert forall|x: ConfigDiff| #[trigger] s10.contains(x) <==> (
        (a.admin != b.admin && x == ConfigDiff { field: ConfigField::Admin })
        || (a.treasury != b.treasury && x == ConfigDiff { field: ConfigField::Treasury })
        || (a.token != b.token && x == ConfigDiff { field: ConfigField::Token })
        || (a.fee_bps != b.fee_bps && x == ConfigDiff { field: ConfigField::FeeBps })
        || (a.min_wager != b.min_wager && x == ConfigDiff { field: ConfigField::MinWager })
        || (a.max_wager != b.max_wager && x == ConfigDiff { field: ConfigField::MaxWager })
        || (a.paused != b.paused && x == ConfigDiff { field: ConfigField::Paused })
        || (a.multipliers != b.multipliers && x == ConfigDiff { field: ConfigField::Multipliers })
        || (a.min_reserve_threshold != b.min_reserve_threshold
            && x == ConfigDiff { field: ConfigField::MinReserveThreshold })
        || (a.oracle_vrf_pk@ != b.oracle_vrf_pk@ && x == ConfigDiff { field: ConfigField::OracleVrfPk })) by {
        lemma_push_if_contains(s0, a.admin != b.admin, ConfigField::Admin, x);
        lemma_push_if_contains(s1, a.treasury != b.treasury, ConfigField::Treasury, x);
        lemma_push_if_contains(s2, a.token != b.token, ConfigField::Token, x);
        lemma_push_if_contains(s3, a.fee_bps != b.fee_bps, ConfigField::FeeBps, x);
        lemma_push_if_contains(s4, a.min_wager != b.min_wager, ConfigField::MinWager, x);
        lemma_push_if_contains(s5, a.max_wager != b.max_wager, ConfigField::MaxWager, x);
        lemma_push_if_contains(s6, a.paused != b.paused, ConfigField::Paused, x);
        lemma_push_if_contains(s7, a.multipliers != b.multipliers, ConfigField::Multipliers, x);
        lemma_push_if_contains(s8, a.min_reserve_threshold != b.min_reserve_threshold, ConfigField::MinReserveThreshold, x);
        lemma_push_if_contains(s9, a.oracle_vrf_pk@ != b.oracle_vrf_pk@, ConfigField::OracleVrfPk, x);
    }
    assert(s10.contains(ConfigDiff { field: ConfigField::Admin }) <==> a.admin != b.admin);
    assert(s10.contains(ConfigDiff { field: ConfigField::Treasury }) <==> a.treasury != b.treasury);
    assert(s10.contains(ConfigDiff { field: ConfigField::Token }) <==> a.token != b.token);
    assert(s10.contains(ConfigDiff { field: ConfigField::FeeBps }) <==> a.fee_bps != b.fee_bps);
    assert(s10.contains(ConfigDiff { field: ConfigField::MinWager }) <==> a.min_wager != b.min_wager);
    assert(s10.contains(ConfigDiff { field: ConfigField::MaxWager }) <==> a.max_wager != b.max_wager);
    assert(s10.contains(ConfigDiff { field: ConfigField::Paused }) <==> a.paused != b.paused);
    assert(s10.contains(ConfigDiff { field: ConfigField::Multipliers }) <==> a.multipliers != b.multipliers);
    assert(s10.contains(ConfigDiff { field: ConfigField::MinReserveThreshold })
        <==> a.min_reserve_threshold != b.min_reserve_threshold);
    assert(s10.contains(ConfigDiff { field: ConfigField::OracleVrfPk }) <==> a.oracle_vrf_pk@ != b.oracle_vrf_pk@);
}

} // verus!
