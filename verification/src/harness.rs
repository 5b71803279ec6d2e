//! Scenario builders: a fresh ledger, an initialized contract with the
//! standard parameters, funding, injected game states and fixed secrets.

use vstd::prelude::*;
use crate::bytes::zeros;
use crate::contract::{initial_config, touched_until, valid_config, zero_stats, CoinflipContract, MIN_REVEAL_DELAY_LEDGERS};
use crate::crypto::sha256_digest;
use crate::env::Env;
use crate::errors::Error;
use crate::governance::VOTING_PERIOD_LEDGERS;
use crate::randomness::commitment_of;
use crate::game::{reserves_cover, reveal_window_open};
use crate::randomness::{ledger_hash_spec, outcome_spec, vrf_accepted, vrf_input_spec};
use crate::types::{
    Address, ContractConfig, ContractStats, EntropyPool, Event, GamePhase, GameState, HistoryEntry, Role, Side, SideBet,
    StorageKey,
};

verus! {

broadcast use vstd::std_specs::hash::group_hash_axioms;

/// Standard parameters: a 3% fee and wagers from 1 to 100 XLM, in stroops.
pub const STANDARD_FEE_BPS: u32 = 300;
pub const STANDARD_MIN_WAGER: i128 = 1_000_000;
pub const STANDARD_MAX_WAGER: i128 = 100_000_000;

/// A fresh ledger.
pub fn env() -> (e: Env)
    ensures
        e.sequence == 0,
        e.next_address == 1,
        e.mpc_next_id == 1,
        e.mpc_sessions@ == Map::<u32, crate::mpc::MpcSession>::empty(),
{
    Env::new()
}

/// An all-zero Ed25519 public key (no key).
pub fn zero_pk() -> (k: [u8; 32])
    ensures
        k@ == zeros(32),
{
    let k = [0u8; 32];
    assert(k@ =~= zeros(32));
    k
}

/// An all-zero signature.
pub fn zero_sig() -> (s: [u8; 64])
    ensures
        s@ == zeros(64),
{
    let s = [0u8; 64];
    assert(s@ =~= zeros(64));
    s
}

/// An all-zero VRF proof, accepted when there is no oracle.
pub fn zero_proof() -> (p: [u8; 64])
    ensures
        p@ == zeros(64),
{
    zero_sig()
}

/// The whole state `initialize` leaves in a new contract, initialized at
/// ledger `sequence` with the standard parameters by `admin`, with
/// `treasury` and `token`, whatever oracle key it was given.
pub open spec fn standard_initialized(c: CoinflipContract, admin: Address, treasury: Address, token: Address, sequence: u32) -> bool {
    let cfg = initial_config(
        admin,
        treasury,
        token,
        STANDARD_FEE_BPS,
        STANDARD_MIN_WAGER,
        STANDARD_MAX_WAGER,
        c.config.unwrap().oracle_vrf_pk,
    );
    &&& c.config == Some(cfg)
    &&& c.stats == (ContractStats { pool_size: 1, ..zero_stats() })
    &&& c.entropy.pool@ == ledger_hash_spec(sequence)
    &&& c.entropy.pool_size == 1
    &&& c.entropy.mix_count == 0
    &&& c.versions@.len() == 1
    &&& c.versions@[0].version_number == 1
    &&& c.versions@[0].config == cfg
    &&& c.versions@[0].label@.len() == 0
    &&& c.versions@[0].ledger == sequence
    &&& c.next_version == 2
    &&& c.events@ == seq![Event::Initialized {
        admin,
        treasury,
        token,
        fee_bps: STANDARD_FEE_BPS,
        min_wager: STANDARD_MIN_WAGER,
        max_wager: STANDARD_MAX_WAGER,
    }]
    &&& c.config_live_until == touched_until(sequence)
    &&& c.stats_live_until == touched_until(sequence)
    &&& c.games@ == Map::<u64, GameState>::empty()
    &&& c.history@ == Map::<u64, Vec<HistoryEntry>>::empty()
    &&& c.roles@ == Map::<u64, Role>::empty()
    &&& c.used_commitments@.len() == 0
    &&& c.voters@.len() == 0
    &&& c.proposals@.len() == 0
    &&& c.game_live_until@ == Map::<u64, u32>::empty()
    &&& c.wf()
}

/// A new contract on a ledger, initialized by a new admin with a new
/// treasury and token, the standard parameters and the given oracle key.
/// Returns the contract, the admin and the treasury.
pub fn setup_with_oracle(env: &mut Env, oracle_pk: [u8; 32]) -> (r: (CoinflipContract, Address, Address))
    requires
        old(env).next_address < u64::MAX - 3,
    ensures
        standard_initialized(r.0, r.1, r.2, Address { id: (old(env).next_address + 2) as u64 }, old(env).sequence),
        r.0.config.unwrap().oracle_vrf_pk == oracle_pk,
        r.1.id == old(env).next_address,
        r.2.id == old(env).next_address + 1,
        final(env).next_address == old(env).next_address + 3,
        final(env).sequence == old(env).sequence,
        final(env).mpc_sessions@ == old(env).mpc_sessions@,
        final(env).mpc_next_id == old(env).mpc_next_id,
{
    let mut contract = CoinflipContract::new();
    let admin = env.generate_address();
    let treasury = env.generate_address();
    let token = env.generate_address();
    let r = contract.initialize(
        env,
        admin,
        treasury,
        token,
        STANDARD_FEE_BPS,
        STANDARD_MIN_WAGER,
        STANDARD_MAX_WAGER,
        oracle_pk,
    );
    assert(r is Ok);
    assert(contract.events@ =~= seq![Event::Initialized {
        admin,
        treasury,
        token,
        fee_bps: STANDARD_FEE_BPS,
        min_wager: STANDARD_MIN_WAGER,
        max_wager: STANDARD_MAX_WAGER,
    }]);
    (contract, admin, treasury)
}

/// `setup_with_oracle` without an oracle: the oracle key is all zero.
pub fn setup(env: &mut Env) -> (r: (CoinflipContract, Address, Address))
    requires
        old(env).next_address < u64::MAX - 3,
    ensures
        standard_initialized(r.0, r.1, r.2, Address { id: (old(env).next_address + 2) as u64 }, old(env).sequence),
        r.0.config.unwrap().oracle_vrf_pk@ == zeros(32),
        r.1.id == old(env).next_address,
        r.2.id == old(env).next_address + 1,
        final(env).next_address == old(env).next_address + 3,
        final(env).sequence == old(env).sequence,
        final(env).mpc_sessions@ == old(env).mpc_sessions@,
        final(env).mpc_next_id == old(env).mpc_next_id,
{
    setup_with_oracle(env, zero_pk())
}

/// `setup` under its other name.
pub fn setup_no_oracle(env: &mut Env) -> (r: (CoinflipContract, Address, Address))
    requires
        old(env).next_address < u64::MAX - 3,
    ensures
        standard_initialized(r.0, r.1, r.2, Address { id: (old(env).next_address + 2) as u64 }, old(env).sequence),
        r.0.config.unwrap().oracle_vrf_pk@ == zeros(32),
        r.1.id == old(env).next_address,
        r.2.id == old(env).next_address + 1,
        final(env).next_address == old(env).next_address + 3,
        final(env).sequence == old(env).sequence,
        final(env).mpc_sessions@ == old(env).mpc_sessions@,
        final(env).mpc_next_id == old(env).mpc_next_id,
{
    setup(env)
}

/// Sets the contract's reserves directly.
pub fn fund(env: &Env, contract: &mut CoinflipContract, amount: i128)
    ensures
        *final(contract) == (CoinflipContract {
            stats: ContractStats { reserve_balance: amount, ..old(contract).stats },
            stats_live_until: touched_until(env.sequence),
            ..*old(contract)
        }),
{
    let mut stats = contract.load_stats(env);
    stats.reserve_balance = amount;
    contract.save_stats(env, stats);
}

/// `fund` under its other name.
pub fn fund_reserves(env: &Env, contract: &mut CoinflipContract, amount: i128)
    ensures
        *final(contract) == (CoinflipContract {
            stats: ContractStats { reserve_balance: amount, ..old(contract).stats },
            stats_live_until: touched_until(env.sequence),
            ..*old(contract)
        }),
{
    fund(env, contract, amount)
}

/// The configured admin.
pub fn get_admin(env: &Env, contract: &mut CoinflipContract) -> (a: Address)
    requires
        old(contract).config is Some,
    ensures
        a == old(contract).config.unwrap().admin,
        *final(contract) == (CoinflipContract { config_live_until: touched_until(env.sequence), ..*old(contract) }),
{
    contract.load_config(env).admin
}

/// The entropy pool.
pub fn load_entropy(contract: &CoinflipContract) -> (p: EntropyPool)
    ensures
        p == contract.entropy,
{
    contract.load_entropy_pool()
}

/// The running totals.
pub fn load_stats(env: &Env, contract: &mut CoinflipContract) -> (s: ContractStats)
    ensures
        s == old(contract).stats,
        *final(contract) == (CoinflipContract { stats_live_until: touched_until(env.sequence), ..*old(contract) }),
{
    contract.load_stats(env)
}

/// The reserves.
pub fn reserve(env: &Env, contract: &mut CoinflipContract) -> (r: i128)
    ensures
        r == old(contract).stats.reserve_balance,
        *final(contract) == (CoinflipContract { stats_live_until: touched_until(env.sequence), ..*old(contract) }),
{
    contract.load_stats(env).reserve_balance
}

/// A player's game, refreshing its lifetime when it exists.
pub fn game(env: &Env, contract: &mut CoinflipContract, player: Address) -> (g: Option<GameState>)
    ensures
        g == (if old(contract).games@.contains_key(player.id) {
            Some(old(contract).games@[player.id])
        } else {
            None::<GameState>
        }),
        final(contract).game_live_until@ == (if old(contract).games@.contains_key(player.id) {
            old(contract).game_live_until@.insert(player.id, touched_until(env.sequence))
        } else {
            old(contract).game_live_until@
        }),
        *final(contract) == (CoinflipContract { game_live_until: final(contract).game_live_until, ..*old(contract) }),
{
    contract.load_player_game(env, player)
}

/// The streak of a player who has a game, refreshing the game's lifetime.
pub fn streak_of(env: &Env, contract: &mut CoinflipContract, player: Address) -> (s: u32)
    requires
        old(contract).games@.contains_key(player.id),
    ensures
        s == old(contract).games@[player.id].streak,
        final(contract).game_live_until@ == old(contract).game_live_until@.insert(player.id, touched_until(env.sequence)),
        *final(contract) == (CoinflipContract { game_live_until: final(contract).game_live_until, ..*old(contract) }),
{
    match contract.load_player_game(env, player) {
        Some(g) => g.streak,
        None => 0,
    }
}

/// A storage entry's remaining lifetime.
pub fn get_ttl(env: &Env, contract: &CoinflipContract, key: StorageKey) -> (t: u32)
    ensures
        t == contract.get_ttl_spec(env, key),
{
    contract.get_ttl(env, key)
}

/// A label made of the given bytes.
pub fn make_label(text: &[u8]) -> (l: Vec<u8>)
    ensures
        l@ == text@,
{
    let mut l: Vec<u8> = Vec::new();
    let mut i: usize = 0;
    while i < text.len()
        invariant
            0 <= i <= text@.len(),
            l@ == text@.take(i as int),
        decreases text@.len() - i,
    {
        l.push(text[i]);
        i = i + 1;
        assert(l@ =~= text@.take(i as int));
    }
    assert(text@.take(text@.len() as int) =~= text@);
    l
}

/// The 32-byte secret made of one repeated byte.
pub fn make_secret(seed: u8) -> (s: Vec<u8>)
    ensures
        s@ == Seq::new(32, |i: int| seed),
{
    let mut s: Vec<u8> = Vec::new();
    let mut i: usize = 0;
    while i < 32
        invariant
            0 <= i <= 32,
            s@ == Seq::new(i as nat, |j: int| seed),
        decreases 32 - i,
    {
        s.push(seed);
        i = i + 1;
        assert(s@ =~= Seq::new(i as nat, |j: int| seed));
    }
    s
}

/// The commitment to `make_secret(seed)`.
pub fn make_commitment(seed: u8) -> (c: [u8; 32])
    ensures
        c@ == sha256_digest(Seq::new(32, |i: int| seed)),
{
    commitment_of(&make_secret(seed))
}

/// The fixed secret `[1; 32]`.
pub fn secret() -> (s: Vec<u8>)
    ensures
        s@ == Seq::new(32, |i: int| 1u8),
{
    make_secret(1)
}

/// The commitment to `secret()`.
pub fn commitment() -> (c: [u8; 32])
    ensures
        c@ == sha256_digest(Seq::new(32, |i: int| 1u8)),
{
    make_commitment(1)
}

/// Closes enough ledgers for a commitment made now to be revealed.
pub fn advance(env: &mut Env)
    ensures
        final(env).sequence == (if old(env).sequence + MIN_REVEAL_DELAY_LEDGERS <= u32::MAX {
            (old(env).sequence + MIN_REVEAL_DELAY_LEDGERS) as u32
        } else {
            u32::MAX
        }),
        final(env).next_address == old(env).next_address,
        final(env).mpc_sessions@ == old(env).mpc_sessions@,
        final(env).mpc_next_id == old(env).mpc_next_id,
{
    env.advance_ledger(MIN_REVEAL_DELAY_LEDGERS)
}

/// Closes the voting period of a proposal made now.
pub fn advance_past_deadline(env: &mut Env)
    ensures
        final(env).sequence == (if old(env).sequence + VOTING_PERIOD_LEDGERS + 1 <= u32::MAX {
            (old(env).sequence + VOTING_PERIOD_LEDGERS + 1) as u32
        } else {
            u32::MAX
        }),
        final(env).next_address == old(env).next_address,
        final(env).mpc_sessions@ == old(env).mpc_sessions@,
        final(env).mpc_next_id == old(env).mpc_next_id,
{
    env.advance_ledger(VOTING_PERIOD_LEDGERS + 1)
}

/// The voter list after registering each of `added` in turn: an account
/// already on the list is skipped, any other is appended.
pub open spec fn with_voters(list: Seq<Address>, added: Seq<Address>) -> Seq<Address>
    decreases added.len(),
{
    if added.len() == 0 {
        list
    } else {
        let before = with_voters(list, added.drop_last());
        if before.contains(added.last()) {
            before
        } else {
            before.push(added.last())
        }
    }
}

/// Registers each of the voters (as the admin).
pub fn add_voters(contract: &mut CoinflipContract, admin: Address, voters: &Vec<Address>) -> (r: Result<(), Error>)
    requires
        old(contract).config is Some,
    ensures
        admin != old(contract).config.unwrap().admin ==> *final(contract) == *old(contract)
            && r == (if voters@.len() == 0 { Ok::<(), Error>(()) } else { Err::<(), Error>(Error::Unauthorized) }),
        admin == old(contract).config.unwrap().admin ==> {
            &&& r is Ok
            &&& final(contract).voters@ == with_voters(old(contract).voters@, voters@)
            &&& forall|a: Address| #[trigger] final(contract).is_voter(a) <==> old(contract).is_voter(a) || voters@.contains(a)
            &&& *final(contract) == (CoinflipContract { voters: final(contract).voters, ..*old(contract) })
        },
{
    let mut i: usize = 0;
    while i < voters.len()
        invariant
            0 <= i <= voters@.len(),
            old(contract).config is Some,
            admin != old(contract).config.unwrap().admin ==> *contract == *old(contract) && i == 0,
            admin == old(contract).config.unwrap().admin ==> {
                &&& contract.voters@ == with_voters(old(contract).voters@, voters@.take(i as int))
                &&& forall|a: Address| #[trigger] contract.is_voter(a) <==> old(contract).is_voter(a)
                    || voters@.take(i as int).contains(a)
                &&& *contract == (CoinflipContract { voters: contract.voters, ..*old(contract) })
            },
        decreases voters@.len() - i,
    {
        let ghost before = *contract;
        match contract.add_voter(admin, voters[i]) {
            Ok(()) => {},
            Err(e) => return Err(e),
        }
        proof {
            broadcast use vstd::seq_lib::group_seq_properties;
            assert(voters@.take(i + 1) =~= voters@.take(i as int).push(voters@[i as int]));
            assert(voters@.take(i + 1).drop_last() =~= voters@.take(i as int));
            assert(voters@.take(i + 1).last() == voters@[i as int]);
            assert forall|a: Address| #[trigger] contract.is_voter(a) <==> old(contract).is_voter(a)
                || voters@.take(i + 1).contains(a) by {
                assert(before.is_voter(a) <==> old(contract).is_voter(a) || voters@.take(i as int).contains(a));
            }
        }
        i = i + 1;
    }
    assert(voters@.take(voters@.len() as int) =~= voters@);
    Ok(())
}

/// Stores a game state for `player`: the commitment opens with `secret()`,
/// the contract randomness is SHA-256 of `[2; 32]`, the fee is the
/// standard fee and the game is dated `start_ledger`.
fn inject_dated(
    env: &Env,
    contract: &mut CoinflipContract,
    player: Address,
    phase: GamePhase,
    streak: u32,
    wager: i128,
    start_ledger: u32,
) -> (g: GameState)
    ensures
        g.wager == wager,
        g.side == Side::Heads,
        g.streak == streak,
        g.phase == phase,
        g.fee_bps == STANDARD_FEE_BPS,
        g.start_ledger == start_ledger,
        g.commitment@ == sha256_digest(Seq::new(32, |i: int| 1u8)),
        g.contract_random@ == sha256_digest(Seq::new(32, |i: int| 2u8)),
        g.vrf_input@ == vrf_input_spec(g.commitment@, g.contract_random@),
        g.side_bet == SideBet::NoBet,
        g.side_bet_amount == 0,
        final(contract).games@ == old(contract).games@.insert(player.id, g),
        final(contract).game_live_until@ == old(contract).game_live_until@.insert(player.id, touched_until(env.sequence)),
        *final(contract) == (CoinflipContract {
            games: final(contract).games,
            game_live_until: final(contract).game_live_until,
            ..*old(contract)
        }),
{
    let commitment = make_commitment(1);
    let contract_random = make_commitment(2);
    let vrf_input = crate::randomness::compute_vrf_input(&commitment, &contract_random);
    let g = GameState {
        wager,
        side: Side::Heads,
        streak,
        commitment,
        contract_random,
        fee_bps: STANDARD_FEE_BPS,
        phase,
        start_ledger,
        vrf_input,
        side_bet: SideBet::NoBet,
        side_bet_amount: 0,
    };
    contract.save_player_game(env, player, g);
    g
}

/// Injects a game for `player` that starts at the current ledger: the
/// commitment opens with `secret()`, the contract randomness is SHA-256 of
/// `[2; 32]` and the fee is the standard fee.
pub fn inject(
    env: &Env,
    contract: &mut CoinflipContract,
    player: Address,
    phase: GamePhase,
    streak: u32,
    wager: i128,
) -> (g: GameState)
    ensures
        g.wager == wager,
        g.side == Side::Heads,
        g.streak == streak,
        g.phase == phase,
        g.fee_bps == STANDARD_FEE_BPS,
        g.start_ledger == env.sequence,
        g.commitment@ == sha256_digest(Seq::new(32, |i: int| 1u8)),
        g.contract_random@ == sha256_digest(Seq::new(32, |i: int| 2u8)),
        g.vrf_input@ == vrf_input_spec(g.commitment@, g.contract_random@),
        g.side_bet == SideBet::NoBet,
        g.side_bet_amount == 0,
        final(contract).games@ == old(contract).games@.insert(player.id, g),
        final(contract).game_live_until@ == old(contract).game_live_until@.insert(player.id, touched_until(env.sequence)),
        *final(contract) == (CoinflipContract {
            games: final(contract).games,
            game_live_until: final(contract).game_live_until,
            ..*old(contract)
        }),
{
    inject_dated(env, contract, player, phase, streak, wager, env.sequence)
}

/// Injects a game for `player` as `inject` does, but dated ledger 0.
pub fn inject_game(
    env: &Env,
    contract: &mut CoinflipContract,
    player: Address,
    phase: GamePhase,
    streak: u32,
    wager: i128,
) -> (g: GameState)
    ensures
        g.wager == wager,
        g.side == Side::Heads,
        g.streak == streak,
        g.phase == phase,
        g.fee_bps == STANDARD_FEE_BPS,
        g.start_ledger == 0,
        g.commitment@ == sha256_digest(Seq::new(32, |i: int| 1u8)),
        g.contract_random@ == sha256_digest(Seq::new(32, |i: int| 2u8)),
        g.vrf_input@ == vrf_input_spec(g.commitment@, g.contract_random@),
        g.side_bet == SideBet::NoBet,
        g.side_bet_amount == 0,
        final(contract).games@ == old(contract).games@.insert(player.id, g),
        final(contract).game_live_until@ == old(contract).game_live_until@.insert(player.id, touched_until(env.sequence)),
        *final(contract) == (CoinflipContract {
            games: final(contract).games,
            game_live_until: final(contract).game_live_until,
            ..*old(contract)
        }),
{
    inject_dated(env, contract, player, phase, streak, wager, 0)
}

/// Injects a won game awaiting settlement, started at ledger 0, whose
/// commitment and contract randomness are both the commitment to
/// `make_secret(1)`.
pub fn inject_revealed(env: &Env, contract: &mut CoinflipContract, player: Address, streak: u32, wager: i128) -> (g: GameState)
    ensures
        g.phase == GamePhase::Revealed,
        g.streak == streak,
        g.wager == wager,
        g.side == Side::Heads,
        g.fee_bps == STANDARD_FEE_BPS,
        g.start_ledger == 0,
        g.commitment@ == sha256_digest(Seq::new(32, |i: int| 1u8)),
        g.contract_random == g.commitment,
        g.vrf_input@ == vrf_input_spec(g.commitment@, g.contract_random@),
        g.side_bet == SideBet::NoBet,
        g.side_bet_amount == 0,
        final(contract).games@ == old(contract).games@.insert(player.id, g),
        final(contract).game_live_until@ == old(contract).game_live_until@.insert(player.id, touched_until(env.sequence)),
        *final(contract) == (CoinflipContract {
            games: final(contract).games,
            game_live_until: final(contract).game_live_until,
            ..*old(contract)
        }),
{
    let commitment = make_commitment(1);
    let vrf_input = crate::randomness::compute_vrf_input(&commitment, &commitment);
    let g = GameState {
        wager,
        side: Side::Heads,
        streak,
        commitment,
        contract_random: commitment,
        fee_bps: STANDARD_FEE_BPS,
        phase: GamePhase::Revealed,
        start_ledger: 0,
        vrf_input,
        side_bet: SideBet::NoBet,
        side_bet_amount: 0,
    };
    contract.save_player_game(env, player, g);
    g
}

/// The 32-byte secret made of one repeated byte.
pub open spec fn seed_secret(seed: u8) -> Seq<u8> {
    Seq::new(32, |i: int| seed)
}

/// A new player starts a Heads game committing to `make_secret(seed)`;
/// returns the player.  Every guard of `start_game` that does not depend
/// on the commitment's digest is required to pass; the two that do (an
/// all-zero or an already used commitment) are reported as errors.
pub fn start(env: &mut Env, contract: &mut CoinflipContract, wager: i128, seed: u8) -> (r: Result<Address, Error>)
    requires
        old(contract).config is Some,
        old(env).next_address < u64::MAX,
        !old(contract).config.unwrap().paused,
        !(old(contract).config.unwrap().min_reserve_threshold > 0
            && old(contract).stats.reserve_balance <= old(contract).config.unwrap().min_reserve_threshold),
        old(contract).config.unwrap().min_wager <= wager <= old(contract).config.unwrap().max_wager,
        !old(contract).games@.contains_key(old(env).next_address),
        reserves_cover(old(contract).stats.reserve_balance, wager, 0, old(contract).config.unwrap().multipliers),
    ensures
        final(env).next_address == old(env).next_address + 1,
        final(env).sequence == old(env).sequence,
        final(env).mpc_sessions@ == old(env).mpc_sessions@,
        final(env).mpc_next_id == old(env).mpc_next_id,
        match r {
            Ok(p) => {
                let c = final(contract).games@[p.id].commitment;
                &&& p.id == old(env).next_address
                &&& c@ == sha256_digest(seed_secret(seed))
                &&& old(contract).start_game_error(p, wager, c) is None
                &&& CoinflipContract::start_post(*old(contract), *final(contract), old(env).sequence, p, Side::Heads, wager, c)
            },
            Err(e) => {
                &&& e == Error::InvalidCommitment || e == Error::DuplicateCommitment
                &&& *final(contract) == *old(contract)
                &&& exists|c: [u8; 32]| c@ == sha256_digest(seed_secret(seed))
                    && #[trigger] old(contract).start_game_error(Address { id: old(env).next_address }, wager, c) == Some(e)
            },
        },
{
    let player = env.generate_address();
    let c = make_commitment(seed);
    let r = contract.start_game(env, player, Side::Heads, wager, c);
    match r {
        Ok(()) => Ok(player),
        Err(e) => {
            assert(old(contract).start_game_error(Address { id: old(env).next_address }, wager, c) == Some(e));
            Err(e)
        },
    }
}

/// What `force_win` returns: the reveal of `make_secret(seed)` with an
/// all-zero proof, at ledger `sequence`, of the player's game with its
/// contract randomness made all zero.
pub open spec fn forced_reveal(c: CoinflipContract, player: Address, seed: u8, sequence: u32) -> Result<bool, Error> {
    let g = c.games@[player.id];
    if !c.games@.contains_key(player.id) {
        Err(Error::NoActiveGame)
    } else if g.phase != GamePhase::Committed {
        Err(Error::InvalidPhase)
    } else if sha256_digest(seed_secret(seed)) != g.commitment@ {
        Err(Error::CommitmentMismatch)
    } else if !reveal_window_open(g, sequence) {
        Err(Error::RevealTimeout)
    } else if !vrf_accepted(c.config.unwrap().oracle_vrf_pk@, g.vrf_input@, zeros(64)) {
        Err(Error::InvalidVrfProof)
    } else {
        Ok(outcome_spec(seed_secret(seed), zeros(32), zeros(64)) == g.side)
    }
}

/// Makes a committed game's randomness all zero, waits out the reveal
/// delay and reveals `make_secret(seed)` with no VRF proof.  Returns
/// whether the flip was won: a lost flip is reported as `Ok(false)`, with
/// the loss already applied, for the caller to act on.  The game must be committed and revealable
/// once the delay has passed, with no oracle; what remains open rests on
/// SHA-256: whether the secret opens the commitment, and the outcome.
pub fn force_win(env: &mut Env, contract: &mut CoinflipContract, player: Address, seed: u8) -> (r: Result<bool, Error>)
    requires
        old(contract).config is Some,
        old(contract).config.unwrap().oracle_vrf_pk@ == zeros(32),
        old(contract).games@.contains_key(player.id),
        old(contract).games@[player.id].phase == GamePhase::Committed,
        old(contract).games@[player.id].start_ledger <= old(env).sequence,
        old(env).sequence + MIN_REVEAL_DELAY_LEDGERS <= u32::MAX,
        old(env).sequence + MIN_REVEAL_DELAY_LEDGERS <= old(contract).games@[player.id].start_ledger
            + crate::contract::REVEAL_TIMEOUT_LEDGERS,
    ensures
        r == forced_reveal(*old(contract), player, seed, final(env).sequence),
        r is Ok || r == Err::<bool, Error>(Error::CommitmentMismatch),
        final(env).sequence == old(env).sequence + MIN_REVEAL_DELAY_LEDGERS,
        final(env).next_address == old(env).next_address,
        final(env).mpc_sessions@ == old(env).mpc_sessions@,
        final(env).mpc_next_id == old(env).mpc_next_id,
        exists|mid: CoinflipContract, proof: [u8; 64]|
            #![trigger mid.games@[player.id], proof@]
            {
            &&& proof@ == zeros(64)
            &&& mid.games@ == old(contract).games@.insert(
                player.id,
                GameState { contract_random: mid.games@[player.id].contract_random, ..old(contract).games@[player.id] },
            )
            &&& mid.games@[player.id].contract_random@ == zeros(32)
            &&& mid.game_live_until@ == old(contract).game_live_until@.insert(player.id, touched_until(old(env).sequence))
            &&& mid == (CoinflipContract { games: mid.games, game_live_until: mid.game_live_until, ..*old(contract) })
            &&& (r is Ok ==> CoinflipContract::reveal_post(
                mid,
                *final(contract),
                final(env).sequence,
                player,
                seed_secret(seed),
                proof,
            ))
            &&& (r is Err ==> *final(contract) == mid)
        },
{
    let g = match contract.load_player_game(env, player) {
        Some(g) => g,
        None => return Err(Error::NoActiveGame),
    };
    let patched = GameState { contract_random: [0u8; 32], ..g };
    assert(patched.contract_random@ =~= zeros(32));
    contract.save_player_game(env, player, patched);
    let ghost mid = *contract;
    assert(mid.game_live_until@ =~= old(contract).game_live_until@.insert(player.id, touched_until(old(env).sequence)));
    advance(env);
    let proof = zero_proof();
    let s = make_secret(seed);
    assert(s@ =~= seed_secret(seed));
    let r = contract.reveal_secret(env, player, &s, proof);
    assert(mid.games@ =~= old(contract).games@.insert(
        player.id,
        GameState { contract_random: mid.games@[player.id].contract_random, ..old(contract).games@[player.id] },
    ));
    assert(r is Ok ==> CoinflipContract::reveal_post(mid, *contract, env.sequence, player, seed_secret(seed), proof));
    assert(r is Err ==> *contract == mid);
    assert(mid == (CoinflipContract { games: mid.games, game_live_until: mid.game_live_until, ..*old(contract) }));
    assert(proof@ == zeros(64));
    assert(mid.games@[player.id].contract_random@ == zeros(32));
    assert(mid.game_live_until@ == old(contract).game_live_until@.insert(player.id, touched_until(old(env).sequence)));
    r
}

} // verus!
