//! The data the contract stores and returns.

use vstd::prelude::*;

verus! {

/// An account known to the ledger, identified by a number the ledger assigns.
#[derive(Clone, Copy, Debug, PartialEq, Eq, Structural, Hash)]
pub struct Address {
    pub id: u64,
}

/// A face of the coin.
#[derive(Clone, Copy, Debug, PartialEq, Eq, Structural)]
pub enum Side {
    Heads,
    Tails,
}

/// Where a player's game stands.
#[derive(Clone, Copy, Debug, PartialEq, Eq, Structural)]
pub enum GamePhase {
    /// A commitment is recorded and awaits its reveal.
    Committed,
    /// The flip was won; the player may cash out, claim or continue.
    Revealed,
    /// Winnings were claimed; the slot is free for a new game.
    Completed,
}

/// Administrative roles, from least to most privileged.
#[derive(Clone, Copy, Debug, PartialEq, Eq, Structural)]
pub enum Role {
    PauseAdmin,
    ConfigAdmin,
    SuperAdmin,
}

/// The privilege level of a role: a role may do what any lower level may.
pub open spec fn role_rank(r: Role) -> int {
    match r {
        Role::PauseAdmin => 1,
        Role::ConfigAdmin => 2,
        Role::SuperAdmin => 3,
    }
}

/// A wager on how long the player's streak will run.
#[derive(Clone, Copy, Debug, PartialEq, Eq, Structural)]
pub enum SideBet {
    /// No side bet is attached.
    NoBet,
    /// Pays when the streak at settlement is exactly the target.
    ExactStreak(u32),
    /// Pays when the streak at settlement is at least the target.
    Sequence(u32),
}

/// Payout multipliers in basis points (10_000 = 1x) per streak tier.
#[derive(Clone, Copy, Debug, PartialEq, Eq, Structural)]
pub struct MultiplierConfig {
    pub streak1: u32,
    pub streak2: u32,
    pub streak3: u32,
    pub streak4_plus: u32,
}

/// The live contract configuration.
#[derive(Clone, Copy, Debug, PartialEq, Eq)]
pub struct ContractConfig {
    pub admin: Address,
    pub treasury: Address,
    pub token: Address,
    /// Protocol fee on gross payouts, in basis points.
    pub fee_bps: u32,
    /// Inclusive wager bounds, in stroops.
    pub min_wager: i128,
    pub max_wager: i128,
    pub paused: bool,
    pub multipliers: MultiplierConfig,
    /// New games are refused while reserves are at or below this value
    /// (0 disables the circuit breaker).
    pub min_reserve_threshold: i128,
    /// Ed25519 key of the randomness oracle; all zero means no oracle.
    pub oracle_vrf_pk: [u8; 32],
}

/// Running totals kept by the contract.
#[derive(Clone, Copy, Debug, PartialEq, Eq)]
pub struct ContractStats {
    pub total_games: u64,
    pub total_volume: i128,
    pub total_fees: i128,
    pub reserve_balance: i128,
    /// Mirrors of the entropy pool's quality counters.
    pub pool_size: u32,
    pub mix_count: u32,
}

/// One player's game.
#[derive(Clone, Copy, Debug, PartialEq, Eq)]
pub struct GameState {
    pub wager: i128,
    pub side: Side,
    pub streak: u32,
    pub commitment: [u8; 32],
    pub contract_random: [u8; 32],
    /// The fee in force when the game started; settlement uses it.
    pub fee_bps: u32,
    pub phase: GamePhase,
    pub start_ledger: u32,
    /// SHA-256(commitment || contract_random), the message the oracle signs.
    pub vrf_input: [u8; 32],
    pub side_bet: SideBet,
    pub side_bet_amount: i128,
}

/// An audit record of a revealed or settled game.
#[derive(Clone, Debug, PartialEq, Eq)]
pub struct HistoryEntry {
    pub wager: i128,
    pub side: Side,
    pub outcome: Side,
    pub won: bool,
    pub streak: u32,
    pub payout: i128,
    pub commitment: [u8; 32],
    /// The revealed secret, or empty where settlement did not receive it.
    pub secret: Vec<u8>,
    pub ledger: u32,
}

/// The contract's accumulated entropy.
#[derive(Clone, Copy, Debug, PartialEq, Eq)]
pub struct EntropyPool {
    pub pool: [u8; 32],
    /// Number of contributions folded into the pool.
    pub pool_size: u32,
    /// Number of times the pool was mixed into a game's randomness.
    pub mix_count: u32,
}

/// A snapshot of the configuration.
#[derive(Clone, Debug, PartialEq, Eq)]
pub struct ConfigVersion {
    pub version_number: u32,
    pub config: ContractConfig,
    pub label: Vec<u8>,
    pub ledger: u32,
}

/// A configuration field, as reported by a version comparison.
#[derive(Clone, Copy, Debug, PartialEq, Eq, Structural)]
pub enum ConfigField {
    Admin,
    Treasury,
    Token,
    FeeBps,
    MinWager,
    MaxWager,
    Paused,
    Multipliers,
    MinReserveThreshold,
    OracleVrfPk,
}

/// One difference between two configuration versions.
#[derive(Clone, Copy, Debug, PartialEq, Eq, Structural)]
pub struct ConfigDiff {
    pub field: ConfigField,
}

/// How a won game was settled.
#[derive(Clone, Copy, Debug, PartialEq, Eq, Structural)]
pub enum SettleMethod {
    CashOut,
    ClaimWinnings,
}

/// The administrative action an `AdminAction` event reports.
#[derive(Clone, Copy, Debug, PartialEq, Eq, Structural)]
pub enum AdminActionKind {
    SetPaused,
    SetTreasury,
    SetWagerLimits,
    SetFee,
    SetMultipliers,
    SetMinReserveThreshold,
    GrantRole,
    RevokeRole,
}

/// Events the contract publishes after a successful state change.
#[derive(Clone, Copy, Debug, PartialEq, Eq)]
pub enum Event {
    Initialized {
        admin: Address,
        treasury: Address,
        token: Address,
        fee_bps: u32,
        min_wager: i128,
        max_wager: i128,
    },
    GameStarted { player: Address, side: Side, wager: i128, commitment: [u8; 32], ledger: u32 },
    GameRevealed { player: Address, won: bool, streak: u32, outcome: Side },
    GameSettled { player: Address, payout: i128, fee: i128, streak: u32, method: SettleMethod },
    StreakContinued { player: Address, streak: u32, new_commitment: [u8; 32] },
    WagerReclaimed { player: Address, wager: i128, ledger: u32 },
    AdminAction { action: AdminActionKind, admin: Address },
    ConfigRollback { target_version: u32, new_version: u32 },
    /// A token transfer out of the contract.
    Transfer { token: Address, to: Address, amount: i128 },
}

/// The persistent storage entries whose lifetime the contract manages.
#[derive(Clone, Copy, Debug, PartialEq, Eq, Structural)]
pub enum StorageKey {
    Config,
    Stats,
    PlayerGame(Address),
}

} // verus!
