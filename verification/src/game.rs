//! The game itself: commit, reveal, continue, settle and reclaim, plus
//! side bets and the audit trail.

use vstd::prelude::*;
use crate::bytes::{eq32, is_zero32, zeros};
use crate::contract::{
    touch, touched_until, CoinflipContract, MIN_REVEAL_DELAY_LEDGERS, REVEAL_TIMEOUT_LEDGERS,
};
use crate::crypto::sha256_digest;
use crate::env::Env;
use crate::errors::Error;
use crate::payout::{gross_payout, BPS_DENOMINATOR};
use crate::randomness::{
    commitment_of, compute_vrf_input, contribution_spec, generate_outcome, ledger_hash_spec, mix_entropy,
    outcome_spec, verify_vrf_proof, vrf_accepted, vrf_input_spec,
};
use crate::bytes::copy_vec;
use crate::bytes::xor_bytes;
use crate::types::{
    Address, ContractConfig, ContractStats, Event, GamePhase, GameState, HistoryEntry,
    MultiplierConfig, Side, SideBet,
};

verus! {

broadcast use vstd::std_specs::hash::group_hash_axioms;

/// `a + b`, clamped to the range of `i128`.
pub open spec fn sat_add_i128(a: int, b: int) -> i128 {
    if a + b > i128::MAX {
        i128::MAX
    } else if a + b < i128::MIN {
        i128::MIN
    } else {
        (a + b) as i128
    }
}

pub open spec fn sat_inc_u64(a: u64) -> u64 {
    if a < u64::MAX { (a + 1) as u64 } else { a }
}

pub open spec fn sat_inc_u32(a: u32) -> u32 {
    if a < u32::MAX { (a + 1) as u32 } else { a }
}

pub fn saturating_add_i128(a: i128, b: i128) -> (r: i128)
    ensures
        r == sat_add_i128(a as int, b as int),
{
    match a.checked_add(b) {
        Some(v) => v,
        None => if b > 0 { i128::MAX } else { i128::MIN },
    }
}

/// Whether reserves cover the worst-case payout of a wager (its gross at the
/// top multiplier) plus an extra amount.
pub open spec fn reserves_cover(reserve: i128, wager: i128, extra: int, m: MultiplierConfig) -> bool {
    &&& 0 <= wager
    &&& wager * m.streak4_plus <= i128::MAX
    &&& reserve >= gross_payout(wager as int, m.streak4_plus as int) + extra
}

pub fn check_reserves(reserve: i128, wager: i128, extra: i128, m: &MultiplierConfig) -> (ok: bool)
    ensures
        ok == reserves_cover(reserve, wager, extra as int, *m),
{
    if wager < 0 {
        return false;
    }
    let top = m.streak4_plus as i128;
    assert(wager * top >= 0) by (nonlinear_arith)
        requires
            wager >= 0,
            top >= 0,
    ;
    match wager.checked_mul(top) {
        Some(p) => {
            let gross = p / BPS_DENOMINATOR;
            match gross.checked_add(extra) {
                Some(need) => reserve >= need,
                None => {
                    assert(gross + extra > i128::MAX);
                    false
                },
            }
        },
        None => false,
    }
}

/// Whether a game slot holds a game in progress (a completed slot does not).
pub open spec fn active(g: GameState) -> bool {
    g.phase != GamePhase::Completed
}

impl CoinflipContract {
    /// Whether a commitment was already used by some game.
    pub open spec fn commitment_used(&self, c: [u8; 32]) -> bool {
        exists|i: int| 0 <= i < self.used_commitments@.len() && #[trigger] self.used_commitments@[i]@ == c@
    }

    pub fn is_commitment_used(&self, c: &[u8; 32]) -> (r: bool)
        ensures
            r == self.commitment_used(*c),
    {
        let mut i: usize = 0;
        while i < self.used_commitments.len()
            invariant
                0 <= i <= self.used_commitments@.len(),
                forall|j: int| 0 <= j < i ==> self.used_commitments@[j]@ != c@,
            decreases self.used_commitments@.len() - i,
        {
            if eq32(&self.used_commitments[i], c) {
                return true;
            }
            i = i + 1;
        }
        false
    }

    /// The first guard `start_game` fails, if any.
    pub open spec fn start_game_error(&self, player: Address, wager: i128, commitment: [u8; 32]) -> Option<Error> {
        let c = self.config.unwrap();
        if c.paused {
            Some(Error::ContractPaused)
        } else if c.min_reserve_threshold > 0 && self.stats.reserve_balance <= c.min_reserve_threshold {
            Some(Error::ContractPaused)
        } else if wager < c.min_wager {
            Some(Error::WagerBelowMinimum)
        } else if wager > c.max_wager {
            Some(Error::WagerAboveMaximum)
        } else if self.games@.contains_key(player.id) && active(self.games@[player.id]) {
            Some(Error::ActiveGameExists)
        } else if commitment@ == zeros(32) {
            Some(Error::InvalidCommitment)
        } else if self.commitment_used(commitment) {
            Some(Error::DuplicateCommitment)
        } else if !reserves_cover(self.stats.reserve_balance, wager, 0, c.multipliers) {
            Some(Error::InsufficientReserves)
        } else {
            None
        }
    }

    /// What a successful `start_game` does, `pre` to `post`.
    pub open spec fn start_post(pre: CoinflipContract, post: CoinflipContract, sequence: u32, player: Address, side: Side, wager: i128, commitment: [u8; 32]) -> bool {
        let c = pre.config.unwrap();
        let g = post.games@[player.id];
        &&& post.games@ == pre.games@.insert(player.id, g)
        &&& g.wager == wager
        &&& g.side == side
        &&& g.streak == 0
        &&& g.commitment == commitment
        &&& g.fee_bps == c.fee_bps
        &&& g.phase == GamePhase::Committed
        &&& g.start_ledger == sequence
        &&& g.side_bet == SideBet::NoBet
        &&& g.side_bet_amount == 0
        &&& post.entropy.pool@ == xor_bytes(pre.entropy.pool@, contribution_spec(commitment@, sequence))
        &&& post.entropy.pool_size == sat_inc_u32(pre.entropy.pool_size)
        &&& post.entropy.mix_count == sat_inc_u32(pre.entropy.mix_count)
        &&& g.contract_random@ == xor_bytes(ledger_hash_spec(sequence), post.entropy.pool@)
        &&& g.vrf_input@ == vrf_input_spec(commitment@, g.contract_random@)
        &&& post.used_commitments@ == pre.used_commitments@.push(commitment)
        &&& post.stats == (ContractStats {
            total_games: sat_inc_u64(pre.stats.total_games),
            total_volume: sat_add_i128(pre.stats.total_volume as int, wager as int),
            pool_size: post.entropy.pool_size,
            mix_count: post.entropy.mix_count,
            ..pre.stats
        })
        &&& post.events@ == pre.events@.push(Event::GameStarted {
            player,
            side,
            wager,
            commitment,
            ledger: sequence,
        })
        &&& post.game_live_until@ == pre.game_live_until@.insert(player.id, touched_until(sequence))
        &&& post.stats_live_until == touched_until(sequence)
        &&& post.config == pre.config
        &&& post.history == pre.history
        &&& post.roles == pre.roles
        &&& post.versions == pre.versions
        &&& post.next_version == pre.next_version
        &&& post.voters == pre.voters
        &&& post.proposals == pre.proposals
        &&& post.config_live_until == pre.config_live_until
    }

    /// Starts a game: the player commits to SHA-256 of a secret and picks a
    /// side.  The contract derives its randomness from the ledger hash and
    /// the entropy pool (into which the commitment is folded), snapshots the
    /// fee, records the commitment as used and counts the game and wager.
    /// Reserves are only checked, never debited, here.
    pub fn start_game(&mut self, env: &Env, player: Address, side: Side, wager: i128, commitment: [u8; 32]) -> (r: Result<(), Error>)
        requires
            old(self).config is Some,
        ensures
            old(self).wf() ==> final(self).wf(),
            match old(self).start_game_error(player, wager, commitment) {
                Some(e) => r == Err::<(), Error>(e) && *final(self) == *old(self),
                None => r is Ok && CoinflipContract::start_post(*old(self), *final(self), env.sequence, player, side, wager, commitment),
            },
    {
        let c = self.config.unwrap();
        if c.paused {
            return Err(Error::ContractPaused);
        }
        if c.min_reserve_threshold > 0 && self.stats.reserve_balance <= c.min_reserve_threshold {
            return Err(Error::ContractPaused);
        }
        if wager < c.min_wager {
            return Err(Error::WagerBelowMinimum);
        }
        if wager > c.max_wager {
            return Err(Error::WagerAboveMaximum);
        }
        match self.games.get(&player.id) {
            Some(g) => {
                if g.phase != GamePhase::Completed {
                    return Err(Error::ActiveGameExists);
                }
            },
            None => {},
        }
        if is_zero32(&commitment) {
            return Err(Error::InvalidCommitment);
        }
        if self.is_commitment_used(&commitment) {
            return Err(Error::DuplicateCommitment);
        }
        if !check_reserves(self.stats.reserve_balance, wager, 0, &c.multipliers) {
            return Err(Error::InsufficientReserves);
        }
        let (pool, contract_random) = mix_entropy(&self.entropy, &commitment, env.sequence);
        let vrf_input = compute_vrf_input(&commitment, &contract_random);
        let game = GameState {
            wager,
            side,
            streak: 0,
            commitment,
            contract_random,
            fee_bps: c.fee_bps,
            phase: GamePhase::Committed,
            start_ledger: env.sequence,
            vrf_input,
            side_bet: SideBet::NoBet,
            side_bet_amount: 0,
        };
        self.games.insert(player.id, game);
        self.game_live_until.insert(player.id, touch(env.sequence));
        self.used_commitments.push(commitment);
        self.entropy = pool;
        self.stats.total_games = self.stats.total_games.saturating_add(1);
        self.stats.total_volume = saturating_add_i128(self.stats.total_volume, wager);
        self.stats.pool_size = pool.pool_size;
        self.stats.mix_count = pool.mix_count;
        self.stats_live_until = touch(env.sequence);
        self.events.push(Event::GameStarted { player, side, wager, commitment, ledger: env.sequence });
        Ok(())
    }
    /// A player's audit trail (empty when there is none).
    pub open spec fn history_of(&self, player: Address) -> Seq<HistoryEntry> {
        if self.history@.contains_key(player.id) {
            self.history@[player.id]@
        } else {
            Seq::empty()
        }
    }

    /// Appends an entry to a player's audit trail.
    pub(crate) fn append_history(&mut self, player: Address, entry: HistoryEntry)
        ensures
            final(self).history@.contains_key(player.id),
            final(self).history@[player.id]@ == old(self).history_of(player).push(entry),
            final(self).history@.remove(player.id) == old(self).history@.remove(player.id),
            *final(self) == (CoinflipContract { history: final(self).history, ..*old(self) }),
    {
        let mut entries = match self.history.remove(&player.id) {
            Some(v) => v,
            None => Vec::new(),
        };
        entries.push(entry);
        self.history.insert(player.id, entries);
        assert(final(self).history@.remove(player.id) =~= old(self).history@.remove(player.id));
    }

    /// The first guard `reveal` fails, if any.
    pub open spec fn reveal_error(&self, env: &Env, player: Address, secret: Seq<u8>, vrf_proof: [u8; 64]) -> Option<Error> {
        let g = self.games@[player.id];
        if !self.games@.contains_key(player.id) {
            Some(Error::NoActiveGame)
        } else if g.phase != GamePhase::Committed {
            Some(Error::InvalidPhase)
        } else if sha256_digest(secret) != g.commitment@ {
            Some(Error::CommitmentMismatch)
        } else if !reveal_window_open(g, env.sequence) {
            Some(Error::RevealTimeout)
        } else if !vrf_accepted(self.config.unwrap().oracle_vrf_pk@, g.vrf_input@, vrf_proof@) {
            Some(Error::InvalidVrfProof)
        } else {
            None
        }
    }

    /// Whether revealing `secret` with `vrf_proof` wins the player's game.
    pub open spec fn reveal_wins(&self, player: Address, secret: Seq<u8>, vrf_proof: [u8; 64]) -> bool {
        let g = self.games@[player.id];
        outcome_spec(secret, g.contract_random@, vrf_proof@) == g.side
    }

    /// What a successful reveal does, `pre` to `post`.
    pub open spec fn reveal_post(pre: CoinflipContract, post: CoinflipContract, sequence: u32, player: Address, secret: Seq<u8>, vrf_proof: [u8; 64]) -> bool {
        let g = pre.games@[player.id];
        let outcome = outcome_spec(secret, g.contract_random@, vrf_proof@);
        let won = outcome == g.side;
        let streak = if won { sat_inc_u32(g.streak) } else { 0 };
        &&& won ==> post.games@ == pre.games@.insert(
            player.id,
            GameState { streak, phase: GamePhase::Revealed, ..g },
        )
        &&& won ==> post.stats == pre.stats
        &&& won ==> post.game_live_until@ == pre.game_live_until@.insert(player.id, touched_until(sequence))
        &&& won ==> post.stats_live_until == pre.stats_live_until
        &&& !won ==> post.stats_live_until == touched_until(sequence)
        &&& !won ==> post.games@ == pre.games@.remove(player.id)
        &&& !won ==> post.game_live_until@ == pre.game_live_until@.remove(player.id)
        &&& !won ==> post.stats == (ContractStats {
            reserve_balance: sat_add_i128(
                pre.stats.reserve_balance as int,
                sat_add_i128(g.wager as int, g.side_bet_amount as int) as int,
            ),
            ..pre.stats
        })
        &&& post.history@.contains_key(player.id)
        &&& post.history@[player.id]@.len() == pre.history_of(player).len() + 1
        &&& post.history@[player.id]@.drop_last() == pre.history_of(player)
        &&& post.history@[player.id]@.last().won == won
        &&& post.history@[player.id]@.last().outcome == outcome
        &&& post.history@[player.id]@.last().wager == g.wager
        &&& post.history@[player.id]@.last().streak == streak
        &&& post.history@[player.id]@.last().commitment == g.commitment
        &&& post.history@[player.id]@.last().secret@ == secret
        &&& post.history@[player.id]@.last().side == g.side
        &&& post.history@[player.id]@.last().payout == 0
        &&& post.history@[player.id]@.last().ledger == sequence
        &&& post.history@.remove(player.id) == pre.history@.remove(player.id)
        &&& post.events@ == pre.events@.push(Event::GameRevealed { player, won, streak, outcome })
        &&& post.config == pre.config
        &&& post.entropy == pre.entropy
        &&& post.used_commitments == pre.used_commitments
        &&& post.roles == pre.roles
        &&& post.versions == pre.versions
        &&& post.next_version == pre.next_version
        &&& post.voters == pre.voters
        &&& post.proposals == pre.proposals
        &&& post.config_live_until == pre.config_live_until
    }

    /// Reveals the secret of a committed game and settles the flip.  On a
    /// win the streak grows by one and the game awaits settlement; on a loss
    /// the wager (and any side-bet stake) is credited to reserves and the
    /// game is deleted.  Either way the reveal is added to the audit trail.
    pub fn reveal_secret(&mut self, env: &Env, player: Address, secret: &Vec<u8>, vrf_proof: [u8; 64]) -> (r: Result<bool, Error>)
        requires
            old(self).config is Some,
        ensures
            old(self).wf() ==> final(self).wf(),
            match old(self).reveal_error(env, player, secret@, vrf_proof) {
                Some(e) => r == Err::<bool, Error>(e) && *final(self) == *old(self),
                None => r == Ok::<bool, Error>(old(self).reveal_wins(player, secret@, vrf_proof))
                    && CoinflipContract::reveal_post(*old(self), *final(self), env.sequence, player, secret@, vrf_proof),
            },
    {
        let g = match self.games.get(&player.id) {
            Some(g) => *g,
            None => return Err(Error::NoActiveGame),
        };
        if g.phase != GamePhase::Committed {
            return Err(Error::InvalidPhase);
        }
        if !eq32(&commitment_of(secret), &g.commitment) {
            return Err(Error::CommitmentMismatch);
        }
        if !reveal_window(&g, env.sequence) {
            return Err(Error::RevealTimeout);
        }
        let pk = self.config.unwrap().oracle_vrf_pk;
        if !verify_vrf_proof(&pk, &g.vrf_input, &vrf_proof) {
            return Err(Error::InvalidVrfProof);
        }
        let outcome = generate_outcome(secret, &g.contract_random, &vrf_proof);
        let won = outcome == g.side;
        let streak = if won { g.streak.saturating_add(1) } else { 0 };
        if won {
            let next = GameState { streak, phase: GamePhase::Revealed, ..g };
            self.games.insert(player.id, next);
            self.game_live_until.insert(player.id, touch(env.sequence));
        } else {
            let forfeited = saturating_add_i128(g.wager, g.side_bet_amount);
            self.stats.reserve_balance = saturating_add_i128(self.stats.reserve_balance, forfeited);
            self.stats_live_until = touch(env.sequence);
            self.games.remove(&player.id);
            self.game_live_until.remove(&player.id);
        }
        let entry = HistoryEntry {
            wager: g.wager,
            side: g.side,
            outcome,
            won,
            streak,
            payout: 0,
            commitment: g.commitment,
            secret: copy_vec(secret),
            ledger: env.sequence,
        };
        self.append_history(player, entry);
        assert(self.history@[player.id]@.drop_last() =~= old(self).history_of(player));
        self.events.push(Event::GameRevealed { player, won, streak, outcome });
        Ok(won)
    }
    /// The first guard `continue_streak` fails, if any.
    pub open spec fn continue_error(&self, player: Address, new_commitment: [u8; 32]) -> Option<Error> {
        let c = self.config.unwrap();
        let g = self.games@[player.id];
        if !self.games@.contains_key(player.id) {
            Some(Error::NoActiveGame)
        } else if g.phase != GamePhase::Revealed {
            Some(Error::InvalidPhase)
        } else if g.streak == 0 {
            Some(Error::NoWinningsToClaimOrContinue)
        } else if c.paused {
            Some(Error::ContractPaused)
        } else if new_commitment@ == zeros(32) {
            Some(Error::InvalidCommitment)
        } else if self.commitment_used(new_commitment) {
            Some(Error::DuplicateCommitment)
        } else if !reserves_cover(self.stats.reserve_balance, g.wager, 0, c.multipliers) {
            Some(Error::InsufficientReserves)
        } else {
            None
        }
    }

    /// What a successful `continue_streak` does, `pre` to `post`.
    pub open spec fn continue_post(pre: CoinflipContract, post: CoinflipContract, sequence: u32, player: Address, new_commitment: [u8; 32]) -> bool {
        let g = pre.games@[player.id];
        let n = post.games@[player.id];
        &&& post.games@ == pre.games@.insert(player.id, n)
        &&& n == (GameState {
            commitment: new_commitment,
            contract_random: n.contract_random,
            phase: GamePhase::Committed,
            start_ledger: sequence,
            vrf_input: n.vrf_input,
            ..g
        })
        &&& post.entropy.pool@ == xor_bytes(pre.entropy.pool@, contribution_spec(new_commitment@, sequence))
        &&& post.entropy.pool_size == sat_inc_u32(pre.entropy.pool_size)
        &&& post.entropy.mix_count == sat_inc_u32(pre.entropy.mix_count)
        &&& n.contract_random@ == xor_bytes(ledger_hash_spec(sequence), post.entropy.pool@)
        &&& n.vrf_input@ == vrf_input_spec(new_commitment@, n.contract_random@)
        &&& post.used_commitments@ == pre.used_commitments@.push(new_commitment)
        &&& post.stats == (ContractStats {
            pool_size: post.entropy.pool_size,
            mix_count: post.entropy.mix_count,
            ..pre.stats
        })
        &&& post.events@ == pre.events@.push(Event::StreakContinued {
            player,
            streak: g.streak,
            new_commitment,
        })
        &&& post.game_live_until@ == pre.game_live_until@.insert(player.id, touched_until(sequence))
        &&& post.stats_live_until == touched_until(sequence)
        &&& post.config == pre.config
        &&& post.history == pre.history
        &&& post.roles == pre.roles
        &&& post.versions == pre.versions
        &&& post.next_version == pre.next_version
        &&& post.voters == pre.voters
        &&& post.proposals == pre.proposals
        &&& post.config_live_until == pre.config_live_until
    }

    /// Puts a won game back into play for another flip with a new
    /// commitment.  The streak, wager, fee snapshot, side and side bet are
    /// kept; the contract randomness is drawn afresh as in `start_game`.
    pub fn continue_streak(&mut self, env: &Env, player: Address, new_commitment: [u8; 32]) -> (r: Result<(), Error>)
        requires
            old(self).config is Some,
        ensures
            old(self).wf() ==> final(self).wf(),
            match old(self).continue_error(player, new_commitment) {
                Some(e) => r == Err::<(), Error>(e) && *final(self) == *old(self),
                None => r is Ok && CoinflipContract::continue_post(*old(self), *final(self), env.sequence, player, new_commitment),
            },
    {
        let c = self.config.unwrap();
        let g = match self.games.get(&player.id) {
            Some(g) => *g,
            None => return Err(Error::NoActiveGame),
        };
        if g.phase != GamePhase::Revealed {
            return Err(Error::InvalidPhase);
        }
        if g.streak == 0 {
            return Err(Error::NoWinningsToClaimOrContinue);
        }
        if c.paused {
            return Err(Error::ContractPaused);
        }
        if is_zero32(&new_commitment) {
            return Err(Error::InvalidCommitment);
        }
        if self.is_commitment_used(&new_commitment) {
            return Err(Error::DuplicateCommitment);
        }
        if !check_reserves(self.stats.reserve_balance, g.wager, 0, &c.multipliers) {
            return Err(Error::InsufficientReserves);
        }
        let (pool, contract_random) = mix_entropy(&self.entropy, &new_commitment, env.sequence);
        let vrf_input = compute_vrf_input(&new_commitment, &contract_random);
        let next = GameState {
            commitment: new_commitment,
            contract_random,
            phase: GamePhase::Committed,
            start_ledger: env.sequence,
            vrf_input,
            ..g
        };
        self.games.insert(player.id, next);
        self.game_live_until.insert(player.id, touch(env.sequence));
        self.used_commitments.push(new_commitment);
        self.entropy = pool;
        self.stats.pool_size = pool.pool_size;
        self.stats.mix_count = pool.mix_count;
        self.stats_live_until = touch(env.sequence);
        self.events.push(Event::StreakContinued { player, streak: g.streak, new_commitment });
        Ok(())
    }
}

/// Whether a committed game may be revealed at a ledger: at least
/// `MIN_REVEAL_DELAY_LEDGERS` and at most `REVEAL_TIMEOUT_LEDGERS` after it
/// was committed.
pub open spec fn reveal_window_open(g: GameState, sequence: u32) -> bool {
    g.start_ledger + MIN_REVEAL_DELAY_LEDGERS <= sequence <= g.start_ledger + REVEAL_TIMEOUT_LEDGERS
}

/// Whether an unrevealed game may be reclaimed at a ledger: more than
/// `REVEAL_TIMEOUT_LEDGERS` after it was committed.
pub open spec fn reclaim_window_open(g: GameState, sequence: u32) -> bool {
    sequence > g.start_ledger + REVEAL_TIMEOUT_LEDGERS
}

pub fn reveal_window(g: &GameState, sequence: u32) -> (ok: bool)
    ensures
        ok == reveal_window_open(*g, sequence),
{
    let start = g.start_ledger as u64;
    let now = sequence as u64;
    start + (MIN_REVEAL_DELAY_LEDGERS as u64) <= now && now <= start + (REVEAL_TIMEOUT_LEDGERS as u64)
}

pub fn reclaim_window(g: &GameState, sequence: u32) -> (ok: bool)
    ensures
        ok == reclaim_window_open(*g, sequence),
{
    (sequence as u64) > (g.start_ledger as u64) + (REVEAL_TIMEOUT_LEDGERS as u64)
}

} // verus!
