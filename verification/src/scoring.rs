//! The resilience score of a recovery.
//!
//! Three measures, each a fraction between zero and one, say how fast the
//! book recovered, how far the spread came back and how much of the depth
//! returned. The score is their weighted sum, shifted by a bias that depends
//! on the side of the recovery, and limited to the interval from zero to
//! one.

use crate::book::{BookSnapshot, BookView};
use crate::config::Config;
use crate::fixed::{clamp_unit, floor_div, unit_fraction, unit_fraction_of, UNIT};
use vstd::prelude::*;

verus! {

/// The part of the timeout that was left when the recovery came: one for an
/// immediate recovery, zero for one that took the whole timeout or longer,
/// and zero where the timeout is zero.
pub open spec fn normalized_time(recovery_time: u64, timeout: u64) -> int {
    unit_fraction(timeout - recovery_time, timeout as int)
}

/// The part of the initial spread that was gone at the end. It is zero where
/// either book has no spread or the initial spread is not positive.
pub open spec fn spread_recovery(initial: BookView, end: BookView) -> int {
    match (initial.spread(), end.spread()) {
        (Some(wide), Some(narrow)) => unit_fraction(wide - narrow, wide),
        _ => 0,
    }
}

/// The number of levels at the end relative to the number at the onset. It is
/// zero where the initial book has no level.
pub open spec fn depth_recovery(initial: BookView, end: BookView) -> int {
    unit_fraction(end.level_count() as int, initial.level_count() as int)
}

/// The weighted sum of the three measures, rounded down to a billionth.
pub open spec fn base_score(config: Config, time: int, depth: int, spread: int) -> int {
    (config.time_weight * time + config.depth_weight * depth + config.spread_weight * spread) / (
    UNIT as int)
}

/// The bias for a recovery on the depleted side, or on the other side.
pub open spec fn bias(config: Config, same_side: bool) -> int {
    if same_side {
        config.same_side_bias as int
    } else {
        config.opposite_side_bias as int
    }
}

/// The resilience score: the base score and the bias, limited to the interval
/// from zero to one.
pub open spec fn resilience_score(
    config: Config,
    time: int,
    depth: int,
    spread: int,
    same_side: bool,
) -> int {
    clamp_unit(base_score(config, time, depth, spread) + bias(config, same_side))
}

/// Whether a recovery with this score is a strong reversal: the score reaches
/// the strong threshold and the recovery is on the depleted side.
pub open spec fn strong_reversal(config: Config, score: int, same_side: bool) -> bool {
    score >= config.strong_resilience_threshold && same_side
}

/// Whether a recovery with this score shows the depletion continuing: the
/// score is below the weak threshold and the recovery is on the other side.
pub open spec fn depletion_continuing(config: Config, score: int, same_side: bool) -> bool {
    score < config.weak_resilience_threshold && !same_side
}

/// The three measures of a recovery, in the order time, spread, depth.
pub fn normalized_metrics(
    initial: &BookSnapshot,
    end: &BookSnapshot,
    recovery_time: u64,
    timeout: u64,
) -> (r: (i64, i64, i64))
    ensures
        r.0 == normalized_time(recovery_time, timeout),
        r.1 == spread_recovery(initial@, end@),
        r.2 == depth_recovery(initial@, end@),
        0 <= r.0 <= UNIT,
        0 <= r.1 <= UNIT,
        0 <= r.2 <= UNIT,
{
    let time = unit_fraction_of(timeout as i128 - recovery_time as i128, timeout as i128);
    let spread = match (initial.spread(), end.spread()) {
        (Some(wide), Some(narrow)) => unit_fraction_of(wide - narrow, wide),
        _ => 0,
    };
    let depth = unit_fraction_of(end.level_count() as i128, initial.level_count() as i128);
    (time, spread, depth)
}

/// The resilience score of a recovery with the given measures.
pub fn score_of(config: &Config, time: i64, depth: i64, spread: i64, same_side: bool) -> (r: i64)
    requires
        0 <= time <= UNIT,
        0 <= depth <= UNIT,
        0 <= spread <= UNIT,
    ensures
        r == resilience_score(*config, time as int, depth as int, spread as int, same_side),
        0 <= r <= UNIT,
{
    let by_time: i128 = weighted(config.time_weight, time);
    let by_depth: i128 = weighted(config.depth_weight, depth);
    let by_spread: i128 = weighted(config.spread_weight, spread);
    let base: i128 = floor_div(by_time + by_depth + by_spread, UNIT as i128);
    proof {
        let sum = by_time + by_depth + by_spread;
        assert(-0x1_0000_0000_0000_0000_0000_0000 <= base <= 0x1_0000_0000_0000_0000_0000_0000)
            by (nonlinear_arith)
            requires
                base == sum / (UNIT as int),
                UNIT == 1_000_000_000,
                -0x1_0000_0000_0000_0000_0000_0000 <= sum <= 0x1_0000_0000_0000_0000_0000_0000,
        ;
    }
    let shift: i128 = if same_side {
        config.same_side_bias as i128
    } else {
        config.opposite_side_bias as i128
    };
    let raw: i128 = base + shift;
    if raw < 0 {
        0
    } else if raw > UNIT as i128 {
        UNIT
    } else {
        raw as i64
    }
}

/// The product of a weight and a measure between zero and one.
fn weighted(weight: i64, measure: i64) -> (r: i128)
    requires
        0 <= measure <= UNIT,
    ensures
        r == weight * measure,
        -0x4000_0000_0000_0000_0000_0000 <= r <= 0x4000_0000_0000_0000_0000_0000,
{
    assert(-0x4000_0000_0000_0000_0000_0000 <= weight * measure <= 0x4000_0000_0000_0000_0000_0000)
        by (nonlinear_arith)
        requires
            0 <= measure <= 0x4000_0000,
            -0x8000_0000_0000_0000 <= weight <= 0x8000_0000_0000_0000,
    ;
    (weight as i128) * (measure as i128)
}

} // verus!
