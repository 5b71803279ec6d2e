//! Payout arithmetic: streak multipliers, fees and side-bet payouts.

use vstd::prelude::*;
use crate::types::{MultiplierConfig, SideBet};

verus! {

/// Basis points in one whole.
pub const BPS_DENOMINATOR: i128 = 10_000;

/// Default multipliers, in basis points: 1.9x, 3.5x, 6x and 10x.
pub const MULTIPLIER_STREAK_1: u32 = 19_000;
pub const MULTIPLIER_STREAK_2: u32 = 35_000;
pub const MULTIPLIER_STREAK_3: u32 = 60_000;
pub const MULTIPLIER_STREAK_4_PLUS: u32 = 100_000;

/// Side-bet payout factors: an exact-streak bet on `n` pays `10 * n` times
/// the stake, a sequence bet on `n` pays `5 * n` times the stake.
pub const EXACT_STREAK_FACTOR: i128 = 10;
pub const SEQUENCE_FACTOR: i128 = 5;

pub open spec fn default_multipliers_spec() -> MultiplierConfig {
    MultiplierConfig {
        streak1: MULTIPLIER_STREAK_1,
        streak2: MULTIPLIER_STREAK_2,
        streak3: MULTIPLIER_STREAK_3,
        streak4_plus: MULTIPLIER_STREAK_4_PLUS,
    }
}

/// The multiplier that applies at a streak: tiers 1, 2, 3 and 4-or-more
/// (a streak of 0 is priced like the first tier).
pub open spec fn tier_multiplier(m: MultiplierConfig, streak: u32) -> u32 {
    if streak <= 1 {
        m.streak1
    } else if streak == 2 {
        m.streak2
    } else if streak == 3 {
        m.streak3
    } else {
        m.streak4_plus
    }
}

/// Gross payout: the wager times the multiplier, in whole stroops.
pub open spec fn gross_payout(wager: int, multiplier: int) -> int {
    wager * multiplier / BPS_DENOMINATOR as int
}

/// The protocol fee on a gross payout.
pub open spec fn fee_on(gross: int, fee_bps: int) -> int {
    gross * fee_bps / BPS_DENOMINATOR as int
}

pub open spec fn fits_i128(x: int) -> bool {
    i128::MIN <= x <= i128::MAX
}

/// The breakdown `(gross, fee, net)` of a payout, when the wager is not
/// negative and every intermediate product fits in an `i128`.
pub open spec fn breakdown_spec(wager: int, multiplier: int, fee_bps: int) -> Option<(i128, i128, i128)> {
    let gross = gross_payout(wager, multiplier);
    let fee = fee_on(gross, fee_bps);
    if 0 <= wager && wager * multiplier <= i128::MAX && gross * fee_bps <= i128::MAX {
        Some((gross as i128, fee as i128, (gross - fee) as i128))
    } else {
        None
    }
}

/// The default multiplier table.
pub fn default_multipliers() -> (m: MultiplierConfig)
    ensures
        m == default_multipliers_spec(),
{
    MultiplierConfig {
        streak1: MULTIPLIER_STREAK_1,
        streak2: MULTIPLIER_STREAK_2,
        streak3: MULTIPLIER_STREAK_3,
        streak4_plus: MULTIPLIER_STREAK_4_PLUS,
    }
}

/// The multiplier of a table at a streak.
pub fn multiplier_for(m: &MultiplierConfig, streak: u32) -> (r: u32)
    ensures
        r == tier_multiplier(*m, streak),
{
    if streak <= 1 {
        m.streak1
    } else if streak == 2 {
        m.streak2
    } else if streak == 3 {
        m.streak3
    } else {
        m.streak4_plus
    }
}

/// The default multiplier at a streak.
pub fn get_multiplier(streak: u32) -> (r: u32)
    ensures
        r == tier_multiplier(default_multipliers_spec(), streak),
{
    let m = default_multipliers();
    multiplier_for(&m, streak)
}

/// `(gross, fee, net)` for a wager at a given multiplier and fee; `None`
/// when the wager is negative or the arithmetic would overflow.
pub fn payout_with_multiplier(wager: i128, multiplier: u32, fee_bps: u32) -> (r: Option<(i128, i128, i128)>)
    ensures
        r == breakdown_spec(wager as int, multiplier as int, fee_bps as int),
{
    if wager < 0 {
        return None;
    }
    let m = multiplier as i128;
    assert(wager * m >= 0) by (nonlinear_arith)
        requires
            wager >= 0,
            m >= 0,
    ;
    let product = match wager.checked_mul(m) {
        Some(p) => p,
        None => return None,
    };
    let gross = product / BPS_DENOMINATOR;
    let f = fee_bps as i128;
    assert(gross * f >= 0) by (nonlinear_arith)
        requires
            gross >= 0,
            f >= 0,
    ;
    let fee_product = match gross.checked_mul(f) {
        Some(p) => p,
        None => return None,
    };
    let fee = fee_product / BPS_DENOMINATOR;
    Some((gross, fee, gross - fee))
}

/// `(gross, fee, net)` for a wager at a streak under the default multipliers.
pub fn calculate_payout_breakdown(wager: i128, streak: u32, fee_bps: u32) -> (r: Option<(i128, i128, i128)>)
    ensures
        r == breakdown_spec(
            wager as int,
            tier_multiplier(default_multipliers_spec(), streak) as int,
            fee_bps as int,
        ),
{
    payout_with_multiplier(wager, get_multiplier(streak), fee_bps)
}

/// What a side bet pays at a settlement streak (0 when its condition fails).
pub open spec fn side_bet_payout_spec(bet: SideBet, streak: u32, amount: int) -> int {
    match bet {
        SideBet::NoBet => 0,
        SideBet::ExactStreak(n) => if streak == n { EXACT_STREAK_FACTOR * n * amount } else { 0 },
        SideBet::Sequence(n) => if streak >= n { SEQUENCE_FACTOR * n * amount } else { 0 },
    }
}

/// The most a side bet can pay.
pub open spec fn max_side_bet_spec(bet: SideBet, amount: int) -> int {
    match bet {
        SideBet::NoBet => 0,
        SideBet::ExactStreak(n) => EXACT_STREAK_FACTOR * n * amount,
        SideBet::Sequence(n) => SEQUENCE_FACTOR * n * amount,
    }
}

fn scaled_stake(factor: i128, n: u32, amount: i128) -> (r: Option<i128>)
    requires
        0 <= factor <= 10,
    ensures
        r == (if fits_i128(factor * n * amount) { Some((factor * n * amount) as i128) } else { None::<i128> }),
{
    assert(factor * n <= 10 * u32::MAX) by (nonlinear_arith)
        requires
            0 <= factor <= 10,
            n <= u32::MAX,
    ;
    assert(factor * n >= 0) by (nonlinear_arith)
        requires
            0 <= factor,
            n >= 0,
    ;
    let k = factor * (n as i128);
    match k.checked_mul(amount) {
        Some(v) => {
            assert(k * amount == factor * n * amount) by (nonlinear_arith)
                requires
                    k == factor * n,
            ;
            Some(v)
        },
        None => {
            assert(k * amount == factor * n * amount) by (nonlinear_arith)
                requires
                    k == factor * n,
            ;
            None
        },
    }
}

/// The payout of a side bet at a settlement streak; `None` on overflow.
pub fn calculate_side_bet_payout(bet: &SideBet, streak: u32, amount: i128) -> (r: Option<i128>)
    ensures
        r == (if fits_i128(side_bet_payout_spec(*bet, streak, amount as int)) {
            Some(side_bet_payout_spec(*bet, streak, amount as int) as i128)
        } else {
            None::<i128>
        }),
{
    match bet {
        SideBet::NoBet => Some(0),
        SideBet::ExactStreak(n) => if streak == *n {
            scaled_stake(EXACT_STREAK_FACTOR, *n, amount)
        } else {
            Some(0)
        },
        SideBet::Sequence(n) => if streak >= *n {
            scaled_stake(SEQUENCE_FACTOR, *n, amount)
        } else {
            Some(0)
        },
    }
}

/// The most a side bet can pay, whatever the streak; `None` on overflow.
pub fn max_side_bet_payout(bet: &SideBet, amount: i128) -> (r: Option<i128>)
    ensures
        r == (if fits_i128(max_side_bet_spec(*bet, amount as int)) {
            Some(max_side_bet_spec(*bet, amount as int) as i128)
        } else {
            None::<i128>
        }),
{
    match bet {
        SideBet::NoBet => Some(0),
        SideBet::ExactStreak(n) => scaled_stake(EXACT_STREAK_FACTOR, *n, amount),
        SideBet::Sequence(n) => scaled_stake(SEQUENCE_FACTOR, *n, amount),
    }
}

} // verus!
