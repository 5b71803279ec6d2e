//! Settlement of won games, reclaiming of timed-out games, side bets and
//! read-only queries.

use vstd::prelude::*;
use crate::bytes::{copy_vec, eq32};
use crate::contract::{touch, touched_until, CoinflipContract};
use crate::crypto::sha256_digest;
use crate::env::Env;
use crate::errors::Error;
use crate::game::{
    check_reserves, reclaim_window, reclaim_window_open, reserves_cover, sat_add_i128, saturating_add_i128,
};
use crate::payout::{
    breakdown_spec, calculate_side_bet_payout, fits_i128, max_side_bet_payout, max_side_bet_spec,
    multiplier_for, payout_with_multiplier, side_bet_payout_spec, tier_multiplier,
};
use crate::randomness::commitment_of;
use crate::types::{
    Address, ContractConfig, ContractStats, Event, GamePhase, GameState, HistoryEntry, MultiplierConfig,
    SettleMethod, SideBet,
};

verus! {

broadcast use vstd::std_specs::hash::group_hash_axioms;

/// The amounts a won game settles for: `(gross, fee, net, side_payout)`,
/// when all of them and the player's total `net + side_payout` fit.
pub open spec fn settlement_spec(g: GameState, m: MultiplierConfig) -> Option<(i128, i128, i128, i128)> {
    match breakdown_spec(g.wager as int, tier_multiplier(m, g.streak) as int, g.fee_bps as int) {
        None => None,
        Some((gross, fee, net)) => {
            let side = side_bet_payout_spec(g.side_bet, g.streak, g.side_bet_amount as int);
            if 0 <= side <= i128::MAX && gross + side <= i128::MAX && net + side <= i128::MAX
                && net + side >= i128::MIN {
                Some((gross, fee, net, side as i128))
            } else {
                None
            }
        },
    }
}

/// The settlement amounts of a won game.
pub fn settlement(g: &GameState, m: &MultiplierConfig) -> (r: Option<(i128, i128, i128, i128)>)
    ensures
        r == settlement_spec(*g, *m),
{
    let (gross, fee, net) = match payout_with_multiplier(g.wager, multiplier_for(m, g.streak), g.fee_bps) {
        Some(b) => b,
        None => return None,
    };
    let side = match calculate_side_bet_payout(&g.side_bet, g.streak, g.side_bet_amount) {
        Some(v) => v,
        None => return None,
    };
    if side < 0 {
        return None;
    }
    match gross.checked_add(side) {
        Some(_) => {},
        None => return None,
    }
    match net.checked_add(side) {
        Some(_) => {},
        None => return None,
    }
    Some((gross, fee, net, side))
}

/// Reserves after paying a settlement: the gross and the side-bet payout
/// leave them, and a side-bet stake whose condition failed joins them.
pub open spec fn reserve_after_settlement(reserve: i128, g: GameState, gross: i128, side: i128) -> i128 {
    sat_add_i128(reserve - gross - side, if side == 0 { g.side_bet_amount as int } else { 0 })
}

impl CoinflipContract {
    /// The first guard a settlement fails, if any.
    pub open spec fn settle_error(&self, player: Address) -> Option<Error> {
        let g = self.games@[player.id];
        let s = settlement_spec(g, self.config.unwrap().multipliers);
        if !self.games@.contains_key(player.id) {
            Some(Error::NoActiveGame)
        } else if g.phase != GamePhase::Revealed {
            Some(Error::InvalidPhase)
        } else if g.streak == 0 {
            Some(Error::NoWinningsToClaimOrContinue)
        } else if s is None {
            Some(Error::InsufficientReserves)
        } else if self.stats.reserve_balance < s.unwrap().0 + s.unwrap().3 {
            Some(Error::InsufficientReserves)
        } else {
            None
        }
    }

    /// What a successful settlement does, `pre` to `post`, returning `total`.
    pub open spec fn settle_post(
        pre: CoinflipContract,
        post: CoinflipContract,
        sequence: u32,
        player: Address,
        method: SettleMethod,
        secret: Seq<u8>,
        total: i128,
    ) -> bool {
        let c = pre.config.unwrap();
        let g = pre.games@[player.id];
        let (gross, fee, net, side) = settlement_spec(g, c.multipliers).unwrap();
        let settled = Event::GameSettled { player, payout: net, fee, streak: g.streak, method };
        let h = post.history@[player.id]@;
        &&& total == net + side
        &&& post.stats == (ContractStats {
            reserve_balance: reserve_after_settlement(pre.stats.reserve_balance, g, gross, side),
            total_fees: sat_add_i128(pre.stats.total_fees as int, fee as int),
            ..pre.stats
        })
        &&& post.stats_live_until == touched_until(sequence)
        &&& method == SettleMethod::CashOut ==> {
            &&& post.games@ == pre.games@.remove(player.id)
            &&& post.game_live_until@ == pre.game_live_until@.remove(player.id)
            &&& post.events@ == pre.events@.push(settled)
        }
        &&& method == SettleMethod::ClaimWinnings ==> {
            &&& post.games@ == pre.games@.insert(player.id, GameState { phase: GamePhase::Completed, ..g })
            &&& post.game_live_until@ == pre.game_live_until@.insert(player.id, touched_until(sequence))
            &&& post.events@ == pre.events@.push(settled).push(
                Event::Transfer { token: c.token, to: player, amount: total },
            ).push(Event::Transfer { token: c.token, to: c.treasury, amount: fee })
        }
        &&& post.history@.contains_key(player.id)
        &&& h.len() == pre.history_of(player).len() + 1
        &&& h.drop_last() == pre.history_of(player)
        &&& h.last().won
        &&& h.last().outcome == g.side
        &&& h.last().wager == g.wager
        &&& h.last().streak == g.streak
        &&& h.last().payout == total
        &&& h.last().commitment == g.commitment
        &&& h.last().secret@ == secret
        &&& h.last().side == g.side
        &&& h.last().ledger == sequence
        &&& post.history@.remove(player.id) == pre.history@.remove(player.id)
        &&& post.config == pre.config
        &&& post.entropy == pre.entropy
        &&& post.used_commitments == pre.used_commitments
        &&& post.roles == pre.roles
        &&& post.versions == pre.versions
        &&& post.next_version == pre.next_version
        &&& post.voters == pre.voters
        &&& post.proposals == pre.proposals
        &&& post.config_live_until == pre.config_live_until
    }

    fn settle(&mut self, env: &Env, player: Address, method: SettleMethod, secret: &Vec<u8>) -> (r: Result<i128, Error>)
        requires
            old(self).config is Some,
        ensures
            match old(self).settle_error(player) {
                Some(e) => r == Err::<i128, Error>(e) && *final(self) == *old(self),
                None => r is Ok && CoinflipContract::settle_post(
                    *old(self),
                    *final(self),
                    env.sequence,
                    player,
                    method,
                    secret@,
                    r->Ok_0,
                ),
            },
    {
        let c = self.config.unwrap();
        let g = match self.games.get(&player.id) {
            Some(g) => *g,
            None => return Err(Error::NoActiveGame),
        };
        if g.phase != GamePhase::Revealed {
            return Err(Error::InvalidPhase);
        }
        if g.streak == 0 {
            return Err(Error::NoWinningsToClaimOrContinue);
        }
        let (gross, fee, net, side) = match settlement(&g, &c.multipliers) {
            Some(s) => s,
            None => return Err(Error::InsufficientReserves),
        };
        let needed = gross + side;
        if self.stats.reserve_balance < needed {
            return Err(Error::InsufficientReserves);
        }
        let total = net + side;
        let forfeited = if side == 0 { g.side_bet_amount } else { 0 };
        self.stats.reserve_balance = saturating_add_i128(self.stats.reserve_balance - gross - side, forfeited);
        self.stats.total_fees = saturating_add_i128(self.stats.total_fees, fee);
        self.stats_live_until = touch(env.sequence);
        let settled = Event::GameSettled { player, payout: net, fee, streak: g.streak, method };
        match method {
            SettleMethod::CashOut => {
                self.games.remove(&player.id);
                self.game_live_until.remove(&player.id);
                self.events.push(settled);
            },
            SettleMethod::ClaimWinnings => {
                self.games.insert(player.id, GameState { phase: GamePhase::Completed, ..g });
                self.game_live_until.insert(player.id, touch(env.sequence));
                self.events.push(settled);
                self.events.push(Event::Transfer { token: c.token, to: player, amount: total });
                self.events.push(Event::Transfer { token: c.token, to: c.treasury, amount: fee });
            },
        }
        let entry = HistoryEntry {
            wager: g.wager,
            side: g.side,
            outcome: g.side,
            won: true,
            streak: g.streak,
            payout: total,
            commitment: g.commitment,
            secret: copy_vec(secret),
            ledger: env.sequence,
        };
        self.append_history(player, entry);
        assert(self.history@[player.id]@.drop_last() =~= old(self).history_of(player));
        Ok(total)
    }

    /// Settles a won game and deletes it: reserves pay the gross payout
    /// (and a winning side bet), the fee is counted, and the player's total
    /// — net payout plus side-bet payout — is returned.  The audit entry
    /// records no secret.
    pub fn cash_out(&mut self, env: &Env, player: Address) -> (r: Result<i128, Error>)
        requires
            old(self).config is Some,
        ensures
            old(self).wf() ==> final(self).wf(),
            match old(self).settle_error(player) {
                Some(e) => r == Err::<i128, Error>(e) && *final(self) == *old(self),
                None => r is Ok && CoinflipContract::settle_post(
                    *old(self),
                    *final(self),
                    env.sequence,
                    player,
                    SettleMethod::CashOut,
                    Seq::empty(),
                    r->Ok_0,
                ),
            },
    {
        let empty: Vec<u8> = Vec::new();
        self.settle(env, player, SettleMethod::CashOut, &empty)
    }

    /// Settles a won game like `cash_out`, but keeps the record as
    /// `Completed`, transfers the player's total and the fee out of the
    /// contract's token balance, and stores the revealed secret in the
    /// audit trail so the game can be verified later.
    pub fn claim_winnings(&mut self, env: &Env, player: Address, secret: &Vec<u8>) -> (r: Result<i128, Error>)
        requires
            old(self).config is Some,
        ensures
            old(self).wf() ==> final(self).wf(),
            match old(self).settle_error(player) {
                Some(e) => r == Err::<i128, Error>(e) && *final(self) == *old(self),
                None => r is Ok && CoinflipContract::settle_post(
                    *old(self),
                    *final(self),
                    env.sequence,
                    player,
                    SettleMethod::ClaimWinnings,
                    secret@,
                    r->Ok_0,
                ),
            },
    {
        self.settle(env, player, SettleMethod::ClaimWinnings, secret)
    }
    /// What claiming a player's winnings pays now: the player's total (net
    /// payout plus side-bet payout) and the fee owed to the treasury, or the
    /// error a settlement would return.  Nothing changes.
    pub fn claim_quote(&self, player: Address) -> (r: Result<(i128, i128), Error>)
        requires
            self.config is Some,
        ensures
            match self.settle_error(player) {
                Some(e) => r == Err::<(i128, i128), Error>(e),
                None => {
                    let (gross, fee, net, side) = settlement_spec(self.games@[player.id], self.config.unwrap().multipliers).unwrap();
                    r == Ok::<(i128, i128), Error>(((net + side) as i128, fee))
                },
            },
    {
        let c = self.config.unwrap();
        let g = match self.games.get(&player.id) {
            Some(g) => *g,
            None => return Err(Error::NoActiveGame),
        };
        if g.phase != GamePhase::Revealed {
            return Err(Error::InvalidPhase);
        }
        if g.streak == 0 {
            return Err(Error::NoWinningsToClaimOrContinue);
        }
        let (gross, fee, net, side) = match settlement(&g, &c.multipliers) {
            Some(q) => q,
            None => return Err(Error::InsufficientReserves),
        };
        if self.stats.reserve_balance < gross + side {
            return Err(Error::InsufficientReserves);
        }
        Ok((net + side, fee))
    }

    /// Completes a claim whose token transfers were attempted first: when
    /// they failed the claim is refused with `TransferFailed` and nothing
    /// changes; when they succeeded the game is settled as by
    /// `claim_winnings`.  A claim that may not be settled is refused with
    /// its own error first.
    pub fn settle_claim(&mut self, env: &Env, player: Address, secret: &Vec<u8>, transfers_succeeded: bool) -> (r: Result<i128, Error>)
        requires
            old(self).config is Some,
        ensures
            old(self).wf() ==> final(self).wf(),
            match old(self).settle_error(player) {
                Some(e) => r == Err::<i128, Error>(e) && *final(self) == *old(self),
                None => if transfers_succeeded {
                    r is Ok && CoinflipContract::settle_post(
                        *old(self),
                        *final(self),
                        env.sequence,
                        player,
                        SettleMethod::ClaimWinnings,
                        secret@,
                        r->Ok_0,
                    )
                } else {
                    r == Err::<i128, Error>(Error::TransferFailed) && *final(self) == *old(self)
                },
            },
    {
        match self.claim_quote(player) {
            Err(e) => return Err(e),
            Ok(_) => {},
        }
        if !transfers_succeeded {
            return Err(Error::TransferFailed);
        }
        self.settle(env, player, SettleMethod::ClaimWinnings, secret)
    }

    /// The first guard `reclaim_wager` fails, if any.
    pub open spec fn reclaim_error(&self, env: &Env, player: Address) -> Option<Error> {
        let g = self.games@[player.id];
        if !self.games@.contains_key(player.id) {
            Some(Error::NoActiveGame)
        } else if g.phase != GamePhase::Committed {
            Some(Error::InvalidPhase)
        } else if !reclaim_window_open(g, env.sequence) {
            Some(Error::RevealTimeout)
        } else {
            None
        }
    }

    /// Returns the stake of a game that was never revealed once the reveal
    /// window has closed, and deletes the game.  Reserves are untouched: the
    /// wager never entered them.
    pub fn reclaim_wager(&mut self, env: &Env, player: Address) -> (r: Result<i128, Error>)
        ensures
            old(self).wf() ==> final(self).wf(),
            match old(self).reclaim_error(env, player) {
                Some(e) => r == Err::<i128, Error>(e) && *final(self) == *old(self),
                None => {
                    let g = old(self).games@[player.id];
                    &&& r == Ok::<i128, Error>(sat_add_i128(g.wager as int, g.side_bet_amount as int))
                    &&& final(self).games@ == old(self).games@.remove(player.id)
                    &&& final(self).game_live_until@ == old(self).game_live_until@.remove(player.id)
                    &&& final(self).events@ == old(self).events@.push(
                        Event::WagerReclaimed { player, wager: g.wager, ledger: g.start_ledger },
                    )
                    &&& *final(self) == (CoinflipContract {
                        games: final(self).games,
                        game_live_until: final(self).game_live_until,
                        events: final(self).events,
                        ..*old(self)
                    })
                },
            },
    {
        let g = match self.games.get(&player.id) {
            Some(g) => *g,
            None => return Err(Error::NoActiveGame),
        };
        if g.phase != GamePhase::Committed {
            return Err(Error::InvalidPhase);
        }
        if !reclaim_window(&g, env.sequence) {
            return Err(Error::RevealTimeout);
        }
        self.games.remove(&player.id);
        self.game_live_until.remove(&player.id);
        self.events.push(Event::WagerReclaimed { player, wager: g.wager, ledger: g.start_ledger });
        Ok(saturating_add_i128(g.wager, g.side_bet_amount))
    }

    /// The first guard `place_side_bet` fails, if any.
    pub open spec fn side_bet_error(&self, player: Address, bet: SideBet, amount: i128) -> Option<Error> {
        let c = self.config.unwrap();
        let g = self.games@[player.id];
        let most = max_side_bet_spec(bet, amount as int);
        if !self.games@.contains_key(player.id) {
            Some(Error::NoActiveGame)
        } else if g.phase != GamePhase::Committed {
            Some(Error::InvalidPhase)
        } else if g.side_bet != SideBet::NoBet {
            Some(Error::SideBetAlreadyPlaced)
        } else if bet == SideBet::NoBet || amount < c.min_wager || amount > c.max_wager {
            Some(Error::InvalidSideBetAmount)
        } else if !fits_i128(most) || !reserves_cover(self.stats.reserve_balance, g.wager, most, c.multipliers) {
            Some(Error::InsufficientReserves)
        } else {
            None
        }
    }

    /// Attaches a side bet to a committed game.  The stake is bounded like a
    /// wager, and reserves must cover the game's worst-case payout plus the
    /// side bet's largest payout.
    pub fn place_side_bet(&mut self, env: &Env, player: Address, bet: SideBet, amount: i128) -> (r: Result<(), Error>)
        requires
            old(self).config is Some,
        ensures
            old(self).wf() ==> final(self).wf(),
            match old(self).side_bet_error(player, bet, amount) {
                Some(e) => r == Err::<(), Error>(e) && *final(self) == *old(self),
                None => {
                    &&& r is Ok
                    &&& final(self).games@ == old(self).games@.insert(
                        player.id,
                        GameState { side_bet: bet, side_bet_amount: amount, ..old(self).games@[player.id] },
                    )
                    &&& final(self).game_live_until@ == old(self).game_live_until@.insert(player.id, touched_until(env.sequence))
                    &&& *final(self) == (CoinflipContract {
                        games: final(self).games,
                        game_live_until: final(self).game_live_until,
                        ..*old(self)
                    })
                },
            },
    {
        let c = self.config.unwrap();
        let g = match self.games.get(&player.id) {
            Some(g) => *g,
            None => return Err(Error::NoActiveGame),
        };
        if g.phase != GamePhase::Committed {
            return Err(Error::InvalidPhase);
        }
        if g.side_bet != SideBet::NoBet {
            return Err(Error::SideBetAlreadyPlaced);
        }
        if bet == SideBet::NoBet || amount < c.min_wager || amount > c.max_wager {
            return Err(Error::InvalidSideBetAmount);
        }
        let most = match max_side_bet_payout(&bet, amount) {
            Some(v) => v,
            None => return Err(Error::InsufficientReserves),
        };
        if !check_reserves(self.stats.reserve_balance, g.wager, most, &c.multipliers) {
            return Err(Error::InsufficientReserves);
        }
        self.games.insert(player.id, GameState { side_bet: bet, side_bet_amount: amount, ..g });
        self.game_live_until.insert(player.id, touch(env.sequence));
        Ok(())
    }

    /// A player's game, refreshing its lifetime when it exists.
    pub fn get_game_state(&mut self, env: &Env, player: Address) -> (g: Option<GameState>)
        ensures
            g == (if old(self).games@.contains_key(player.id) {
                Some(old(self).games@[player.id])
            } else {
                None::<GameState>
            }),
            final(self).game_live_until@ == (if old(self).games@.contains_key(player.id) {
                old(self).game_live_until@.insert(player.id, touched_until(env.sequence))
            } else {
                old(self).game_live_until@
            }),
            *final(self) == (CoinflipContract { game_live_until: final(self).game_live_until, ..*old(self) }),
    {
        self.load_player_game(env, player)
    }

    /// The running totals, refreshing their lifetime.
    pub fn get_stats(&mut self, env: &Env) -> (s: ContractStats)
        ensures
            s == old(self).stats,
            *final(self) == (CoinflipContract { stats_live_until: touched_until(env.sequence), ..*old(self) }),
    {
        self.load_stats(env)
    }

    /// The live configuration, refreshing its lifetime.
    pub fn get_config(&mut self, env: &Env) -> (c: ContractConfig)
        requires
            old(self).config is Some,
        ensures
            c == old(self).config.unwrap(),
            *final(self) == (CoinflipContract { config_live_until: touched_until(env.sequence), ..*old(self) }),
    {
        self.load_config(env)
    }

    /// Whether the secret stored with an audit entry opens its commitment;
    /// `HistoryEntryNotFound` when the player has no entry at that index.
    pub fn verify_past_game(&self, player: Address, index: u32) -> (r: Result<bool, Error>)
        ensures
            r == (if index < self.history_of(player).len() {
                let e = self.history_of(player)[index as int];
                Ok::<bool, Error>(sha256_digest(e.secret@) == e.commitment@)
            } else {
                Err::<bool, Error>(Error::HistoryEntryNotFound)
            }),
    {
        match self.history.get(&player.id) {
            Some(entries) => {
                if (index as usize) < entries.len() {
                    let e = &entries[index as usize];
                    Ok(eq32(&commitment_of(&e.secret), &e.commitment))
                } else {
                    Err(Error::HistoryEntryNotFound)
                }
            },
            None => Err(Error::HistoryEntryNotFound),
        }
    }

    /// A copy of a player's audit trail, oldest entry first.
    pub fn load_player_history(&self, player: Address) -> (h: Vec<HistoryEntry>)
        ensures
            h@.len() == self.history_of(player).len(),
            forall|i: int| 0 <= i < h@.len() ==> same_entry(#[trigger] h@[i], self.history_of(player)[i]),
    {
        let mut out: Vec<HistoryEntry> = Vec::new();
        match self.history.get(&player.id) {
            Some(entries) => {
                let mut i: usize = 0;
                while i < entries.len()
                    invariant
                        0 <= i <= entries@.len(),
                        entries@ == self.history_of(player),
                        out@.len() == i,
                        forall|j: int| 0 <= j < i ==> same_entry(#[trigger] out@[j], entries@[j]),
                    decreases entries@.len() - i,
                {
                    out.push(copy_entry(&entries[i]));
                    i = i + 1;
                }
            },
            None => {},
        }
        out
    }
}

/// Two audit entries hold the same data.
pub open spec fn same_entry(a: HistoryEntry, b: HistoryEntry) -> bool {
    &&& a.wager == b.wager
    &&& a.side == b.side
    &&& a.outcome == b.outcome
    &&& a.won == b.won
    &&& a.streak == b.streak
    &&& a.payout == b.payout
    &&& a.commitment == b.commitment
    &&& a.secret@ == b.secret@
    &&& a.ledger == b.ledger
}

pub fn copy_entry(e: &HistoryEntry) -> (c: HistoryEntry)
    ensures
        same_entry(c, *e),
{
    HistoryEntry {
        wager: e.wager,
        side: e.side,
        outcome: e.outcome,
        won: e.won,
        streak: e.streak,
        payout: e.payout,
        commitment: e.commitment,
        secret: copy_vec(&e.secret),
        ledger: e.ledger,
    }
}

} // verus!
