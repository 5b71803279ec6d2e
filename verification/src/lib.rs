//! Tossd: a commit-reveal coinflip game with streak multipliers, side bets,
//! role-based administration, versioned configuration, governance and a
//! multi-party randomness ceremony.  Every state transition is specified
//! and verified with Verus.

pub mod crypto;
pub mod types;
pub mod errors;
pub mod payout;
pub mod bytes;
pub mod randomness;
pub mod env;
pub mod mpc;
pub mod governance;
pub mod contract;
pub mod game;
pub mod settle;
pub mod labels;
pub mod admin;
pub mod versions;
pub mod harness;
pub mod laws;
