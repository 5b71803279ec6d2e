//! The contract's state, its storage accessors with their lifetime
//! management, and initialization.

use vstd::prelude::*;
use std::collections::HashMap;
use crate::bytes::zeros;
use crate::env::Env;
use crate::errors::Error;
use crate::governance::Proposal;
use crate::payout::{default_multipliers, default_multipliers_spec, BPS_DENOMINATOR};
use crate::randomness::{ledger_hash, ledger_hash_spec};
use crate::types::{
    Address, ConfigVersion, ContractConfig, ContractStats, EntropyPool, Event, GameState,
    HistoryEntry, MultiplierConfig, Role, StorageKey,
};

verus! {

broadcast use vstd::std_specs::hash::group_hash_axioms;

/// Lowest and highest protocol fee, in basis points (2% to 5%).
pub const MIN_FEE_BPS: u32 = 200;
pub const MAX_FEE_BPS: u32 = 500;
/// Ledgers that must close between a commitment and its reveal.
pub const MIN_REVEAL_DELAY_LEDGERS: u32 = 10;
/// Ledgers after which an unrevealed game may be reclaimed.
pub const REVEAL_TIMEOUT_LEDGERS: u32 = 100;
/// Every read or write of an entry restores its lifetime to this many ledgers.
pub const TTL_EXTEND_TO: u32 = 500_000;
/// Longest configuration version label, in bytes.
pub const MAX_LABEL_BYTES: usize = 64;
/// Configuration versions retained; the oldest is evicted beyond this.
pub const MAX_CONFIG_HISTORY: usize = 50;

pub open spec fn valid_fee(fee_bps: u32) -> bool {
    MIN_FEE_BPS <= fee_bps <= MAX_FEE_BPS
}

pub open spec fn valid_limits(min_wager: i128, max_wager: i128) -> bool {
    0 < min_wager < max_wager
}

pub open spec fn valid_multipliers(m: MultiplierConfig) -> bool {
    BPS_DENOMINATOR < m.streak1 <= m.streak2 <= m.streak3 <= m.streak4_plus
}

/// What every configuration the contract adopts satisfies.
pub open spec fn valid_config(c: ContractConfig) -> bool {
    &&& valid_fee(c.fee_bps)
    &&& valid_limits(c.min_wager, c.max_wager)
    &&& valid_multipliers(c.multipliers)
    &&& c.min_reserve_threshold >= 0
    &&& c.admin != c.treasury
}

/// The lifetime an entry has after it is touched at a ledger.
pub open spec fn touched_until(sequence: u32) -> u32 {
    if sequence + TTL_EXTEND_TO <= u32::MAX {
        (sequence + TTL_EXTEND_TO) as u32
    } else {
        u32::MAX
    }
}

/// Ledgers an entry still lives after `sequence`.
pub open spec fn remaining_ttl(live_until: u32, sequence: u32) -> u32 {
    if live_until > sequence {
        (live_until - sequence) as u32
    } else {
        0
    }
}

pub struct CoinflipContract {
    pub config: Option<ContractConfig>,
    pub stats: ContractStats,
    /// Each player's current game, by account id.
    pub games: HashMap<u64, GameState>,
    /// Each player's audit trail, by account id.
    pub history: HashMap<u64, Vec<HistoryEntry>>,
    pub entropy: EntropyPool,
    /// Every commitment a game has used.
    pub used_commitments: Vec<[u8; 32]>,
    /// Explicitly granted roles, by account id.
    pub roles: HashMap<u64, Role>,
    /// Retained configuration versions, oldest first.
    pub versions: Vec<ConfigVersion>,
    /// The number the next configuration version receives.
    pub next_version: u32,
    pub voters: Vec<Address>,
    /// Proposals, indexed by their id.
    pub proposals: Vec<Proposal>,
    /// Published events, oldest first.
    pub events: Vec<Event>,
    pub config_live_until: u32,
    pub stats_live_until: u32,
    pub game_live_until: HashMap<u64, u32>,
}

pub open spec fn zero_stats() -> ContractStats {
    ContractStats {
        total_games: 0,
        total_volume: 0,
        total_fees: 0,
        reserve_balance: 0,
        pool_size: 0,
        mix_count: 0,
    }
}

pub open spec fn initial_config(
    admin: Address,
    treasury: Address,
    token: Address,
    fee_bps: u32,
    min_wager: i128,
    max_wager: i128,
    oracle_vrf_pk: [u8; 32],
) -> ContractConfig {
    ContractConfig {
        admin,
        treasury,
        token,
        fee_bps,
        min_wager,
        max_wager,
        paused: false,
        multipliers: default_multipliers_spec(),
        min_reserve_threshold: 0,
        oracle_vrf_pk,
    }
}

/// The first guard `initialize` fails, if any.
pub open spec fn initialize_error(
    initialized: bool,
    admin: Address,
    treasury: Address,
    fee_bps: u32,
    min_wager: i128,
    max_wager: i128,
) -> Option<Error> {
    if initialized {
        Some(Error::AlreadyInitialized)
    } else if !valid_fee(fee_bps) {
        Some(Error::InvalidFeePercentage)
    } else if !valid_limits(min_wager, max_wager) {
        Some(Error::InvalidWagerLimits)
    } else if admin == treasury {
        Some(Error::AdminTreasuryConflict)
    } else {
        None
    }
}

pub fn touch(sequence: u32) -> (t: u32)
    ensures
        t == touched_until(sequence),
{
    sequence.saturating_add(TTL_EXTEND_TO)
}

impl CoinflipContract {
    /// The contract's invariant: the live configuration and every retained
    /// version are valid, at most `MAX_CONFIG_HISTORY` versions are kept in
    /// increasing order of number, all below `next_version`, and labels
    /// respect their length limit.
    pub open spec fn wf(&self) -> bool {
        &&& (self.config matches Some(c) ==> valid_config(c))
        &&& self.versions@.len() <= MAX_CONFIG_HISTORY
        &&& forall|i: int| 0 <= i < self.versions@.len() ==> valid_config(#[trigger] self.versions@[i].config)
        &&& forall|i: int| 0 <= i < self.versions@.len() ==>
            (#[trigger] self.versions@[i]).label@.len() <= MAX_LABEL_BYTES
        &&& forall|i: int| 0 <= i < self.versions@.len() ==>
            (#[trigger] self.versions@[i]).version_number < self.next_version
        &&& forall|i: int, j: int| 0 <= i < j < self.versions@.len() ==>
            (#[trigger] self.versions@[i]).version_number < (#[trigger] self.versions@[j]).version_number
    }

    /// A contract that has not been initialized.
    pub fn new() -> (c: CoinflipContract)
        ensures
            c.config is None,
            c.stats == zero_stats(),
            c.games@ == Map::<u64, GameState>::empty(),
            c.history@ == Map::<u64, Vec<HistoryEntry>>::empty(),
            c.roles@ == Map::<u64, Role>::empty(),
            c.versions@.len() == 0,
            c.next_version == 1,
            c.voters@.len() == 0,
            c.proposals@.len() == 0,
            c.events@.len() == 0,
            c.used_commitments@.len() == 0,
            c.entropy.pool@ == zeros(32),
            c.entropy.pool_size == 0,
            c.entropy.mix_count == 0,
            c.config_live_until == 0,
            c.stats_live_until == 0,
            c.game_live_until@ == Map::<u64, u32>::empty(),
            c.wf(),
    {
        let pool = [0u8; 32];
        assert(pool@ =~= zeros(32));
        CoinflipContract {
            config: None,
            stats: ContractStats {
                total_games: 0,
                total_volume: 0,
                total_fees: 0,
                reserve_balance: 0,
                pool_size: 0,
                mix_count: 0,
            },
            games: HashMap::new(),
            history: HashMap::new(),
            entropy: EntropyPool { pool, pool_size: 0, mix_count: 0 },
            used_commitments: Vec::new(),
            roles: HashMap::new(),
            versions: Vec::new(),
            next_version: 1,
            voters: Vec::new(),
            proposals: Vec::new(),
            events: Vec::new(),
            config_live_until: 0,
            stats_live_until: 0,
            game_live_until: HashMap::new(),
        }
    }

    /// Ledgers a storage entry still lives after the current ledger.
    pub open spec fn get_ttl_spec(&self, env: &Env, key: StorageKey) -> u32 {
        match key {
            StorageKey::Config => remaining_ttl(self.config_live_until, env.sequence),
            StorageKey::Stats => remaining_ttl(self.stats_live_until, env.sequence),
            StorageKey::PlayerGame(p) => if self.game_live_until@.contains_key(p.id) {
                remaining_ttl(self.game_live_until@[p.id], env.sequence)
            } else {
                0
            },
        }
    }

    /// Ledgers a storage entry still lives; 0 for an absent player game.
    pub fn get_ttl(&self, env: &Env, key: StorageKey) -> (t: u32)
        ensures
            t == self.get_ttl_spec(env, key),
            t == (match key {
                StorageKey::Config => remaining_ttl(self.config_live_until, env.sequence),
                StorageKey::Stats => remaining_ttl(self.stats_live_until, env.sequence),
                StorageKey::PlayerGame(p) => if self.game_live_until@.contains_key(p.id) {
                    remaining_ttl(self.game_live_until@[p.id], env.sequence)
                } else {
                    0
                },
            }),
    {
        let until = match key {
            StorageKey::Config => self.config_live_until,
            StorageKey::Stats => self.stats_live_until,
            StorageKey::PlayerGame(p) => match self.game_live_until.get(&p.id) {
                Some(u) => *u,
                None => 0,
            },
        };
        if until > env.sequence {
            until - env.sequence
        } else {
            0
        }
    }

    /// Reads the configuration, refreshing its lifetime.
    pub fn load_config(&mut self, env: &Env) -> (c: ContractConfig)
        requires
            old(self).config is Some,
        ensures
            c == old(self).config.unwrap(),
            *final(self) == (CoinflipContract { config_live_until: touched_until(env.sequence), ..*old(self) }),
    {
        self.config_live_until = touch(env.sequence);
        self.config.unwrap()
    }

    /// Reads the running totals, refreshing their lifetime.
    pub fn load_stats(&mut self, env: &Env) -> (s: ContractStats)
        ensures
            s == old(self).stats,
            *final(self) == (CoinflipContract { stats_live_until: touched_until(env.sequence), ..*old(self) }),
    {
        self.stats_live_until = touch(env.sequence);
        self.stats
    }

    /// Replaces the running totals, refreshing their lifetime.
    pub fn save_stats(&mut self, env: &Env, stats: ContractStats)
        ensures
            *final(self) == (CoinflipContract {
                stats,
                stats_live_until: touched_until(env.sequence),
                ..*old(self)
            }),
    {
        self.stats = stats;
        self.stats_live_until = touch(env.sequence);
    }

    /// Reads a player's game, refreshing its lifetime when it exists.
    pub fn load_player_game(&mut self, env: &Env, player: Address) -> (g: Option<GameState>)
        ensures
            g == (if old(self).games@.contains_key(player.id) {
                Some(old(self).games@[player.id])
            } else {
                None::<GameState>
            }),
            final(self).game_live_until@ == (if old(self).games@.contains_key(player.id) {
                old(self).game_live_until@.insert(player.id, touched_until(env.sequence))
            } else {
                old(self).game_live_until@
            }),
            *final(self) == (CoinflipContract { game_live_until: final(self).game_live_until, ..*old(self) }),
    {
        match self.games.get(&player.id) {
            Some(g) => {
                let g = *g;
                self.game_live_until.insert(player.id, touch(env.sequence));
                Some(g)
            },
            None => None,
        }
    }

    /// Stores a player's game, refreshing its lifetime.
    pub fn save_player_game(&mut self, env: &Env, player: Address, game: GameState)
        ensures
            final(self).games@ == old(self).games@.insert(player.id, game),
            final(self).game_live_until@ == old(self).game_live_until@.insert(player.id, touched_until(env.sequence)),
            *final(self) == (CoinflipContract {
                games: final(self).games,
                game_live_until: final(self).game_live_until,
                ..*old(self)
            }),
    {
        self.games.insert(player.id, game);
        self.game_live_until.insert(player.id, touch(env.sequence));
    }

    /// The current entropy pool.
    pub fn load_entropy_pool(&self) -> (p: EntropyPool)
        ensures
            p == self.entropy,
    {
        self.entropy
    }
    /// Sets up the contract: validates the fee (2% to 5%), the wager bounds
    /// (`0 < min_wager < max_wager`) and that the admin is not the treasury,
    /// then stores the configuration with the default multipliers, fresh
    /// totals, an entropy pool seeded with the ledger hash, and version 1 of
    /// the configuration history, and publishes `Initialized`.
    pub fn initialize(
        &mut self,
        env: &Env,
        admin: Address,
        treasury: Address,
        token: Address,
        fee_bps: u32,
        min_wager: i128,
        max_wager: i128,
        oracle_vrf_pk: [u8; 32],
    ) -> (r: Result<(), Error>)
        ensures
            old(self).wf() ==> final(self).wf(),
            match initialize_error(old(self).config is Some, admin, treasury, fee_bps, min_wager, max_wager) {
                Some(e) => r == Err::<(), Error>(e) && *final(self) == *old(self),
                None => {
                    let c = initial_config(admin, treasury, token, fee_bps, min_wager, max_wager, oracle_vrf_pk);
                    &&& r is Ok
                    &&& final(self).config == Some(c)
                    &&& final(self).stats == (ContractStats { pool_size: 1, ..zero_stats() })
                    &&& final(self).entropy.pool@ == ledger_hash_spec(env.sequence)
                    &&& final(self).entropy.pool_size == 1
                    &&& final(self).entropy.mix_count == 0
                    &&& final(self).versions@.len() == 1
                    &&& final(self).versions@[0].version_number == 1
                    &&& final(self).versions@[0].config == c
                    &&& final(self).versions@[0].label@.len() == 0
                    &&& final(self).versions@[0].ledger == env.sequence
                    &&& final(self).next_version == 2
                    &&& final(self).events@ == old(self).events@.push(Event::Initialized {
                        admin,
                        treasury,
                        token,
                        fee_bps,
                        min_wager,
                        max_wager,
                    })
                    &&& final(self).config_live_until == touched_until(env.sequence)
                    &&& final(self).stats_live_until == touched_until(env.sequence)
                    &&& final(self).games == old(self).games
                    &&& final(self).history == old(self).history
                    &&& final(self).roles == old(self).roles
                    &&& final(self).used_commitments == old(self).used_commitments
                    &&& final(self).voters == old(self).voters
                    &&& final(self).proposals == old(self).proposals
                    &&& final(self).game_live_until == old(self).game_live_until
                },
            },
    {
        if self.config.is_some() {
            return Err(Error::AlreadyInitialized);
        }
        if fee_bps < MIN_FEE_BPS || fee_bps > MAX_FEE_BPS {
            return Err(Error::InvalidFeePercentage);
        }
        if min_wager <= 0 || min_wager >= max_wager {
            return Err(Error::InvalidWagerLimits);
        }
        if admin == treasury {
            return Err(Error::AdminTreasuryConflict);
        }
        let config = ContractConfig {
            admin,
            treasury,
            token,
            fee_bps,
            min_wager,
            max_wager,
            paused: false,
            multipliers: default_multipliers(),
            min_reserve_threshold: 0,
            oracle_vrf_pk,
        };
        self.config = Some(config);
        self.stats = ContractStats {
            total_games: 0,
            total_volume: 0,
            total_fees: 0,
            reserve_balance: 0,
            pool_size: 1,
            mix_count: 0,
        };
        self.entropy = EntropyPool { pool: ledger_hash(env.sequence), pool_size: 1, mix_count: 0 };
        let mut versions: Vec<ConfigVersion> = Vec::new();
        versions.push(ConfigVersion { version_number: 1, config, label: Vec::new(), ledger: env.sequence });
        self.versions = versions;
        self.next_version = 2;
        self.config_live_until = touch(env.sequence);
        self.stats_live_until = touch(env.sequence);
        self.events.push(Event::Initialized { admin, treasury, token, fee_bps, min_wager, max_wager });
        Ok(())
    }
}

} // verus!
