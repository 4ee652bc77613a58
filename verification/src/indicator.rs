//! The market resilience indicator.
//!
//! The indicator takes the snapshots of one order book in their order. While
//! idle it keeps a rolling window of spreads and looks for a depletion: a
//! side consumed through a number of levels while the spread widens. It then
//! monitors the book until the spread is back at its rolling mean, and scores
//! the recovery, or until the timeout has passed.

use crate::book::BookSnapshot;
use crate::classifier::{classify_recovery, recovery_side};
use crate::config::{
    or_default, Config, DEFAULT_DEPTH_WEIGHT, DEFAULT_LEVELS_TO_CONSUME,
    DEFAULT_OPPOSITE_SIDE_BIAS, DEFAULT_SAME_SIDE_BIAS, DEFAULT_SPREAD_INCREASE_THRESHOLD,
    DEFAULT_SPREAD_WEIGHT, DEFAULT_SPREAD_WINDOW_SIZE, DEFAULT_STRONG_RESILIENCE_THRESHOLD,
    DEFAULT_TIMEOUT_MS, DEFAULT_TIME_WEIGHT, DEFAULT_WEAK_RESILIENCE_THRESHOLD, MAX_TIMEOUT_MS,
    NANOS_PER_MILLI,
};
use crate::detector::{depletion, detect_depletion};
use crate::model::{spread_back_to_average, spread_increased, IndicatorView};
use crate::scoring::{
    depth_recovery, normalized_metrics, normalized_time, score_of, spread_recovery,
};
use crate::side::OrderSide;
use crate::state::DepletionState;
use crate::window::{SpreadWindow, MAX_WINDOW};
use vstd::prelude::*;

verus! {

/// An indicator of market resilience for one order book.
#[derive(Debug, PartialEq, Eq)]
pub struct MarketResilienceIndicator {
    config: Config,
    score: i64,
    bias_side: OrderSide,
    depletion_side: OrderSide,
    recovery_side: OrderSide,
    recovery_time: u64,
    count: usize,
    initialized: bool,
    has_inputs: bool,
    is_spread_recovered: bool,
    is_strong_reversal: bool,
    is_depletion_continuing: bool,
    recent_spreads: SpreadWindow,
    depletion_state: DepletionState,
    previous_book: Option<BookSnapshot>,
}

/// The given value, or the default where none is given.
fn value_or<T>(value: Option<T>, default: T) -> (r: T)
    ensures
        r == or_default(value, default),
{
    match value {
        Some(v) => v,
        None => default,
    }
}

impl View for MarketResilienceIndicator {
    type V = IndicatorView;

    closed spec fn view(&self) -> IndicatorView {
        IndicatorView {
            config: self.config,
            score: self.score as int,
            bias_side: self.bias_side,
            depletion_side: self.depletion_side,
            recovery_side: self.recovery_side,
            recovery_time: self.recovery_time,
            count: self.count as nat,
            initialized: self.initialized,
            has_inputs: self.has_inputs,
            is_spread_recovered: self.is_spread_recovered,
            is_strong_reversal: self.is_strong_reversal,
            is_depletion_continuing: self.is_depletion_continuing,
            spreads: self.recent_spreads@,
            state: self.depletion_state@,
            previous: match self.previous_book {
                Some(book) => Some(book@),
                None => None,
            },
        }
    }
}

impl MarketResilienceIndicator {
    /// What holds of the indicator whatever phase its episode is in.
    spec fn coherent(&self) -> bool {
        &&& self.recent_spreads.wf()
        &&& self.recent_spreads.spec_capacity() == self.config.spread_window_size
        &&& self@.coherent()
    }

    /// The invariant of the indicator between two snapshots.
    pub closed spec fn wf(&self) -> bool {
        &&& self.coherent()
        &&& self@.wf()
    }

    /// A well-formed indicator has a well-formed view, and has counted no
    /// more snapshots than a machine word holds.
    pub proof fn lemma_wf(&self)
        requires
            self.wf(),
        ensures
            self@.wf(),
            self@.count <= usize::MAX,
    {
    }

    /// Creates an indicator. A value that is not given takes its default.
    ///
    /// `timeout_ms` is the longest time an episode may stay open, in
    /// milliseconds; `spread_window_size` the capacity of the rolling spread
    /// window; `levels_to_consume` the number of levels whose consumption is
    /// a depletion. The thresholds, weights and biases are fractions in
    /// billionths.
    ///
    /// The timeout must be one that can be counted in nanoseconds, the
    /// capacity one that a window can have, and at least one level must be
    /// there to consume.
    pub fn new(
        timeout_ms: Option<u64>,
        spread_window_size: Option<usize>,
        levels_to_consume: Option<usize>,
        spread_increase_threshold: Option<i64>,
        strong_resilience_threshold: Option<i64>,
        weak_resilience_threshold: Option<i64>,
        time_weight: Option<i64>,
        depth_weight: Option<i64>,
        spread_weight: Option<i64>,
        same_side_bias: Option<i64>,
        opposite_side_bias: Option<i64>,
    ) -> (r: Self)
        requires
            or_default(timeout_ms, DEFAULT_TIMEOUT_MS) <= MAX_TIMEOUT_MS,
            or_default(spread_window_size, DEFAULT_SPREAD_WINDOW_SIZE) <= MAX_WINDOW,
            or_default(levels_to_consume, DEFAULT_LEVELS_TO_CONSUME) >= 1,
        ensures
            r.wf(),
            r@ == IndicatorView::initial(
                Config::of_options(
                    timeout_ms,
                    spread_window_size,
                    levels_to_consume,
                    spread_increase_threshold,
                    strong_resilience_threshold,
                    weak_resilience_threshold,
                    time_weight,
                    depth_weight,
                    spread_weight,
                    same_side_bias,
                    opposite_side_bias,
                ),
            ),
    {
        let timeout: u64 = value_or(timeout_ms, DEFAULT_TIMEOUT_MS) * NANOS_PER_MILLI;
        let config = Config {
            timeout,
            spread_window_size: value_or(spread_window_size, DEFAULT_SPREAD_WINDOW_SIZE),
            levels_to_consume: value_or(levels_to_consume, DEFAULT_LEVELS_TO_CONSUME),
            spread_increase_threshold: value_or(
                spread_increase_threshold,
                DEFAULT_SPREAD_INCREASE_THRESHOLD,
            ),
            strong_resilience_threshold: value_or(
                strong_resilience_threshold,
                DEFAULT_STRONG_RESILIENCE_THRESHOLD,
            ),
            weak_resilience_threshold: value_or(
                weak_resilience_threshold,
                DEFAULT_WEAK_RESILIENCE_THRESHOLD,
            ),
            time_weight: value_or(time_weight, DEFAULT_TIME_WEIGHT),
            depth_weight: value_or(depth_weight, DEFAULT_DEPTH_WEIGHT),
            spread_weight: value_or(spread_weight, DEFAULT_SPREAD_WEIGHT),
            same_side_bias: value_or(same_side_bias, DEFAULT_SAME_SIDE_BIAS),
            opposite_side_bias: value_or(opposite_side_bias, DEFAULT_OPPOSITE_SIDE_BIAS),
        };
        MarketResilienceIndicator {
            config,
            score: 0,
            bias_side: OrderSide::NoOrderSide,
            depletion_side: OrderSide::NoOrderSide,
            recovery_side: OrderSide::NoOrderSide,
            recovery_time: timeout,
            count: 0,
            initialized: false,
            has_inputs: false,
            is_spread_recovered: false,
            is_strong_reversal: false,
            is_depletion_continuing: false,
            recent_spreads: SpreadWindow::new(config.spread_window_size),
            depletion_state: DepletionState::new(timeout),
            previous_book: None,
        }
    }

    /// Compares two consecutive snapshots and reports the depleted side, with
    /// the best price that the side had before.
    pub fn detect_depletion(&self, previous: &BookSnapshot, current: &BookSnapshot) -> (r: Option<
        (OrderSide, i64),
    >)
        requires
            self.wf(),
        ensures
            r == depletion(previous@, current@, self@.config.levels_to_consume as int),
    {
        detect_depletion(previous, current, self.config.levels_to_consume)
    }

    /// Whether the spread of `book` exceeds the rolling mean by more than the
    /// configured fraction.
    pub fn is_spread_increased(&self, book: &BookSnapshot) -> (r: bool)
        requires
            self.wf(),
        ensures
            r == spread_increased(self@.spreads, book@, self@.config.spread_increase_threshold),
    {
        match book.spread() {
            Some(spread) => self.recent_spreads.exceeds_average_by(
                spread,
                self.config.spread_increase_threshold,
            ),
            None => false,
        }
    }

    /// Whether the spread of `book` is back at the rolling mean or below.
    pub fn is_spread_back_to_average(&self, book: &BookSnapshot) -> (r: bool)
        requires
            self.wf(),
        ensures
            r == spread_back_to_average(self@.spreads, book@),
    {
        match book.spread() {
            Some(spread) => self.recent_spreads.at_or_below_average(spread),
            None => false,
        }
    }

    /// The side on which `current` shows the market after the depletion that
    /// is monitored; no side when idle.
    pub fn get_book_recovery_side(&self, current: &BookSnapshot) -> (r: OrderSide)
        ensures
            r == recovery_side(
                self@.state.depletion_side(),
                self@.state.initial_price(),
                current@,
            ),
    {
        classify_recovery(
            self.depletion_state.depletion_side(),
            self.depletion_state.initial_price(),
            current,
        )
    }

    /// The three measures of a recovery that took `recovery_time`
    /// nanoseconds from `initial_book` to `end_book`, in the order time,
    /// spread, depth.
    pub fn calculate_normalized_metrics(
        &self,
        initial_book: &BookSnapshot,
        end_book: &BookSnapshot,
        recovery_time: u64,
    ) -> (r: (i64, i64, i64))
        ensures
            r.0 == normalized_time(recovery_time, self@.config.timeout),
            r.1 == spread_recovery(initial_book@, end_book@),
            r.2 == depth_recovery(initial_book@, end_book@),
    {
        normalized_metrics(initial_book, end_book, recovery_time, self.config.timeout)
    }

    /// Scores the resolved episode and publishes the result.
    fn calculate_resilience_metrics(&mut self)
        requires
            old(self).coherent(),
            old(self)@.state.episode is Resolved,
        ensures
            final(self).coherent(),
            final(self)@ == old(self)@.scored(),
    {
        let depletion_side = self.depletion_state.depletion_side();
        let recovery_side = self.depletion_state.recovery_side();
        let recovery_time = self.depletion_state.elapsed();
        let (time, spread, depth) = match (
            self.depletion_state.initial_book(),
            self.depletion_state.end_book(),
        ) {
            (Some(initial_book), Some(end_book)) => normalized_metrics(
                initial_book,
                end_book,
                recovery_time,
                self.config.timeout,
            ),
            _ => (0, 0, 0),
        };
        let has_recovered_same_side = depletion_side == recovery_side;
        self.score = score_of(&self.config, time, depth, spread, has_recovered_same_side);
        self.is_spread_recovered = true;
        self.bias_side = recovery_side;
        self.is_strong_reversal = self.score >= self.config.strong_resilience_threshold
            && has_recovered_same_side;
        self.is_depletion_continuing = self.score < self.config.weak_resilience_threshold
            && !has_recovered_same_side;
        self.depletion_side = depletion_side;
        self.recovery_side = recovery_side;
        self.recovery_time = recovery_time;
    }

    /// Closes the episode and forgets the previous snapshot.
    fn reset_monitoring(&mut self)
        requires
            old(self).coherent(),
        ensures
            final(self).wf(),
            final(self)@ == old(self)@.monitoring_reset(),
    {
        self.depletion_state.reset();
        self.previous_book = None;
    }

    /// The name of the indicator.
    pub fn name(&self) -> (r: String)
        ensures
            r@ == "MarketResilienceIndicator"@,
    {
        "MarketResilienceIndicator".to_owned()
    }

    /// Whether a snapshot was received.
    pub fn has_inputs(&self) -> (r: bool)
        ensures
            r == self@.has_inputs,
    {
        self.has_inputs
    }

    /// Whether a snapshot was handled.
    pub fn initialized(&self) -> (r: bool)
        ensures
            r == self@.initialized,
    {
        self.initialized
    }

    /// Handles the next snapshot of the book.
    pub fn handle_book(&mut self, book: &BookSnapshot)
        requires
            old(self).wf(),
            old(self)@.count < usize::MAX,
        ensures
            final(self).wf(),
            final(self)@ == old(self)@.step(book@),
    {
        self.is_spread_recovered = false;
        self.is_strong_reversal = false;
        self.is_depletion_continuing = false;
        self.has_inputs = true;
        self.count = self.count + 1;
        self.initialized = true;
        if self.depletion_state.is_running() {
            if self.is_spread_back_to_average(book) {
                let recovery_side = self.get_book_recovery_side(book);
                if recovery_side != OrderSide::NoOrderSide {
                    self.depletion_state.set_end(book.clone(), recovery_side);
                    self.calculate_resilience_metrics();
                    self.reset_monitoring();
                }
            } else if self.depletion_state.is_timeout(book.ts_last) {
                self.score = 0;
                self.bias_side = OrderSide::NoOrderSide;
                self.depletion_side = self.depletion_state.depletion_side();
                self.recovery_side = OrderSide::NoOrderSide;
                self.recovery_time = self.config.timeout;
                self.reset_monitoring();
            }
        } else {
            match book.spread() {
                Some(spread) => {
                    self.recent_spreads.push(spread);
                },
                None => {},
            }
            proof {
                self.recent_spreads.lemma_wf();
            }
            let detected = match &self.previous_book {
                Some(previous) => detect_depletion(previous, book, self.config.levels_to_consume),
                None => None,
            };
            match detected {
                Some((side, price)) => {
                    if self.is_spread_increased(book) {
                        self.depletion_state.set_initial(book.clone(), side, price);
                    }
                },
                None => {},
            }
            self.previous_book = Some(book.clone());
        }
    }

    /// Puts the indicator back as it was constructed, with the same
    /// configuration.
    pub fn reset(&mut self)
        requires
            old(self).wf(),
        ensures
            final(self).wf(),
            final(self)@ == old(self)@.reset(),
    {
        self.score = 0;
        self.is_spread_recovered = false;
        self.is_strong_reversal = false;
        self.is_depletion_continuing = false;
        self.bias_side = OrderSide::NoOrderSide;
        self.depletion_side = OrderSide::NoOrderSide;
        self.recovery_side = OrderSide::NoOrderSide;
        self.recovery_time = self.config.timeout;
        self.count = 0;
        self.initialized = false;
        self.has_inputs = false;
        self.recent_spreads.clear();
        self.depletion_state.reset();
        self.previous_book = None;
    }

    /// The configuration.
    pub fn config(&self) -> (r: Config)
        ensures
            r == self@.config,
    {
        self.config
    }

    /// The resilience score of the last resolved episode, in billionths.
    pub fn score(&self) -> (r: i64)
        ensures
            r == self@.score,
    {
        self.score
    }

    /// The side that the last resolved episode speaks for.
    pub fn bias_side(&self) -> (r: OrderSide)
        ensures
            r == self@.bias_side,
    {
        self.bias_side
    }

    /// The side that was depleted in the last resolved episode.
    pub fn depletion_side(&self) -> (r: OrderSide)
        ensures
            r == self@.depletion_side,
    {
        self.depletion_side
    }

    /// The side of the recovery in the last resolved episode.
    pub fn recovery_side(&self) -> (r: OrderSide)
        ensures
            r == self@.recovery_side,
    {
        self.recovery_side
    }

    /// The time that the last resolved episode took, in nanoseconds.
    pub fn recovery_time(&self) -> (r: u64)
        ensures
            r == self@.recovery_time,
    {
        self.recovery_time
    }

    /// The number of snapshots handled.
    pub fn count(&self) -> (r: usize)
        ensures
            r == self@.count,
    {
        self.count
    }

    /// Whether the last snapshot resolved an episode by a recovery.
    pub fn is_spread_recovered(&self) -> (r: bool)
        ensures
            r == self@.is_spread_recovered,
    {
        self.is_spread_recovered
    }

    /// Whether the last snapshot showed a strong reversal.
    pub fn is_strong_reversal(&self) -> (r: bool)
        ensures
            r == self@.is_strong_reversal,
    {
        self.is_strong_reversal
    }

    /// Whether the last snapshot showed the depletion continuing.
    pub fn is_depletion_continuing(&self) -> (r: bool)
        ensures
            r == self@.is_depletion_continuing,
    {
        self.is_depletion_continuing
    }

    /// Whether a depletion is being monitored.
    pub fn is_running(&self) -> (r: bool)
        ensures
            r == self@.is_running(),
    {
        self.depletion_state.is_running()
    }

    /// The number of spreads in the rolling window.
    pub fn spread_count(&self) -> (r: usize)
        ensures
            r == self@.spreads.len(),
    {
        self.recent_spreads.len()
    }
}

} // verus!
