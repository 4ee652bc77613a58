//! The configuration of an indicator.
//!
//! Thresholds, weights and biases are fixed-point fractions in billionths
//! (see `fixed::UNIT`); they may be negative and the weights need not add up
//! to one.

use crate::window::MAX_WINDOW;
use vstd::prelude::*;

verus! {

/// Nanoseconds in a millisecond.
pub const NANOS_PER_MILLI: u64 = 1_000_000;

/// The longest timeout in milliseconds that can be counted in nanoseconds.
pub const MAX_TIMEOUT_MS: u64 = 18_446_744_073_709;

/// The default timeout, in milliseconds.
pub const DEFAULT_TIMEOUT_MS: u64 = 500;

/// The default capacity of the spread window.
pub const DEFAULT_SPREAD_WINDOW_SIZE: usize = 50;

/// The default number of levels whose consumption is a depletion.
pub const DEFAULT_LEVELS_TO_CONSUME: usize = 3;

/// The default spread increase threshold: one.
pub const DEFAULT_SPREAD_INCREASE_THRESHOLD: i64 = 1_000_000_000;

/// The default strong resilience threshold: seven tenths.
pub const DEFAULT_STRONG_RESILIENCE_THRESHOLD: i64 = 700_000_000;

/// The default weak resilience threshold: three tenths.
pub const DEFAULT_WEAK_RESILIENCE_THRESHOLD: i64 = 300_000_000;

/// The default weight of the recovery time: one half.
pub const DEFAULT_TIME_WEIGHT: i64 = 500_000_000;

/// The default weight of the depth recovery: zero.
pub const DEFAULT_DEPTH_WEIGHT: i64 = 0;

/// The default weight of the spread recovery: one half.
pub const DEFAULT_SPREAD_WEIGHT: i64 = 500_000_000;

/// The default bias of a recovery on the depleted side: one half.
pub const DEFAULT_SAME_SIDE_BIAS: i64 = 500_000_000;

/// The default bias of a recovery on the other side: minus one half.
pub const DEFAULT_OPPOSITE_SIDE_BIAS: i64 = -500_000_000;

/// What an indicator is configured with. It does not change while the
/// indicator lives.
#[derive(Clone, Copy, Debug, PartialEq, Eq, Structural)]
pub struct Config {
    /// The longest time an episode may stay open, in nanoseconds.
    pub timeout: u64,
    /// The capacity of the spread window.
    pub spread_window_size: usize,
    /// The rank of the previous book whose price the best price must pass
    /// for a depletion.
    pub levels_to_consume: usize,
    /// The fraction by which the spread must exceed its rolling mean to
    /// confirm a depletion.
    pub spread_increase_threshold: i64,
    /// The score from which a recovery on the depleted side is a strong
    /// reversal.
    pub strong_resilience_threshold: i64,
    /// The score below which a recovery on the other side shows the
    /// depletion continuing.
    pub weak_resilience_threshold: i64,
    /// The weight of the normalized recovery time in the score.
    pub time_weight: i64,
    /// The weight of the depth recovery in the score.
    pub depth_weight: i64,
    /// The weight of the spread recovery in the score.
    pub spread_weight: i64,
    /// What a recovery on the depleted side adds to the score.
    pub same_side_bias: i64,
    /// What a recovery on the other side adds to the score.
    pub opposite_side_bias: i64,
}

/// The given value, or the default where none is given.
pub open spec fn or_default<T>(value: Option<T>, default: T) -> T {
    match value {
        Some(v) => v,
        None => default,
    }
}

impl Config {
    /// Whether an indicator can be made of the configuration: at least one
    /// level is to be consumed, and the window capacity is one that a window
    /// can have.
    pub open spec fn valid(self) -> bool {
        &&& self.levels_to_consume >= 1
        &&& self.spread_window_size <= MAX_WINDOW
    }

    /// The configuration made of the given values, with the default in place
    /// of each value that is not given. The timeout is given in
    /// milliseconds.
    pub open spec fn of_options(
        timeout_ms: Option<u64>,
        spread_window_size: Option<usize>,
        levels_to_consume: Option<usize>,
        spread_increase_threshold: Option<i64>,
        strong_resilience_threshold: Option<i64>,
        weak_resilience_threshold: Option<i64>,
        time_weight: Option<i64>,
        depth_weight: Option<i64>,
        spread_weight: Option<i64>,
        same_side_bias: Option<i64>,
        opposite_side_bias: Option<i64>,
    ) -> Config {
        Config {
            timeout: (or_default(timeout_ms, DEFAULT_TIMEOUT_MS) * NANOS_PER_MILLI) as u64,
            spread_window_size: or_default(spread_window_size, DEFAULT_SPREAD_WINDOW_SIZE),
            levels_to_consume: or_default(levels_to_consume, DEFAULT_LEVELS_TO_CONSUME),
            spread_increase_threshold: or_default(
                spread_increase_threshold,
                DEFAULT_SPREAD_INCREASE_THRESHOLD,
            ),
            strong_resilience_threshold: or_default(
                strong_resilience_threshold,
                DEFAULT_STRONG_RESILIENCE_THRESHOLD,
            ),
            weak_resilience_threshold: or_default(
                weak_resilience_threshold,
                DEFAULT_WEAK_RESILIENCE_THRESHOLD,
            ),
            time_weight: or_default(time_weight, DEFAULT_TIME_WEIGHT),
            depth_weight: or_default(depth_weight, DEFAULT_DEPTH_WEIGHT),
            spread_weight: or_default(spread_weight, DEFAULT_SPREAD_WEIGHT),
            same_side_bias: or_default(same_side_bias, DEFAULT_SAME_SIDE_BIAS),
            opposite_side_bias: or_default(opposite_side_bias, DEFAULT_OPPOSITE_SIDE_BIAS),
        }
    }
}

} // verus!
