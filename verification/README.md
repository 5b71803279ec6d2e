# tossd

A commit–reveal coinflip game for the Stellar/Soroban ledger, written as a
Verus library: every operation carries a `requires`/`ensures` contract and
is proved by Verus.

A player commits to SHA-256 of a secret, waits out a reveal delay, and
reveals; the flip combines the secret, the contract's ledger-derived
randomness (mixed with an entropy pool) and an optional oracle VRF proof.
Wins build a streak with growing multipliers (1.9x, 3.5x, 6x, 10x); the
player cashes out, claims, or continues the streak.  Side bets, role-based
administration, a versioned and rollback-able configuration, voting on
configuration changes and a multi-party randomness ceremony complete the
game.

## Layout

- `src/types.rs`, `src/errors.rs` – stored data, events and error codes.
- `src/payout.rs` – multipliers, fees and side-bet arithmetic.
- `src/randomness.rs`, `src/crypto.rs`, `src/bytes.rs` – outcome
  generation, VRF checks, SHA-256 and Ed25519 (the only trusted items: they
  call the Soroban SDK and `ed25519-dalek`).
- `src/contract.rs` – contract state, its invariant, storage lifetimes and
  initialization.
- `src/game.rs`, `src/settle.rs` – start, reveal, continue, settle,
  reclaim, side bets and the audit trail.
- `src/admin.rs`, `src/versions.rs`, `src/labels.rs` – roles, configuration
  updates, version history, comparison and rollback.
- `src/governance.rs` – voters, proposals, votes and execution.
- `src/mpc.rs` – threshold commit–reveal randomness sessions.
- `src/env.rs` – the ledger: sequence number, accounts, ceremony sessions.
- `src/laws.rs` – properties spanning several operations.
- `src/harness.rs` – scenario builders used by the tests.
- `app/lib.rs` – the Soroban edge: account and byte conversions, event
  publishing and token transfers.
- `tests/` – scenario tests.
