//! The indicator as a mathematical state machine.
//!
//! `IndicatorView` is what an indicator is, and `IndicatorView::step` says
//! what one snapshot makes of it. The executable indicator is held to these
//! definitions by its contracts.

use crate::book::BookView;
use crate::classifier::recovery_side;
use crate::config::Config;
use crate::detector::depletion;
use crate::fixed::UNIT;
use crate::scoring::{
    depletion_continuing, depth_recovery, normalized_time, resilience_score, spread_recovery,
    strong_reversal,
};
use crate::side::OrderSide;
use crate::state::StateView;
use crate::window::{at_or_below_mean, bounded, exceeds_mean_by, pushed};
use vstd::prelude::*;

verus! {

/// What one snapshot does to an indicator.
pub enum Event {
    /// The indicator was idle and stays idle: the snapshot was observed.
    Observed,
    /// The indicator was idle and the snapshot confirmed a depletion of
    /// `side`, whose best price was `price` before.
    Onset { side: OrderSide, price: i64 },
    /// The indicator was monitoring and goes on monitoring.
    Waiting,
    /// The indicator was monitoring and the snapshot confirmed a recovery on
    /// `side`.
    Recovered { side: OrderSide },
    /// The indicator was monitoring and the episode has lasted longer than
    /// the timeout.
    TimedOut,
}

/// The mathematical content of an indicator.
#[verifier::ext_equal]
pub struct IndicatorView {
    /// The configuration.
    pub config: Config,
    /// The resilience score of the last resolved episode, in billionths.
    pub score: int,
    /// The side that the last resolved episode speaks for.
    pub bias_side: OrderSide,
    /// The side that was depleted in the last resolved episode.
    pub depletion_side: OrderSide,
    /// The side of the recovery in the last resolved episode.
    pub recovery_side: OrderSide,
    /// The time that the last resolved episode took, in nanoseconds.
    pub recovery_time: u64,
    /// The number of snapshots handled.
    pub count: nat,
    /// Whether a snapshot was handled.
    pub initialized: bool,
    /// Whether a snapshot was received.
    pub has_inputs: bool,
    /// Whether the last snapshot resolved an episode by a recovery.
    pub is_spread_recovered: bool,
    /// Whether the last snapshot showed a strong reversal.
    pub is_strong_reversal: bool,
    /// Whether the last snapshot showed the depletion continuing.
    pub is_depletion_continuing: bool,
    /// The spread window, oldest observation first.
    pub spreads: Seq<int>,
    /// The monitoring state.
    pub state: StateView,
    /// The last snapshot observed while idle.
    pub previous: Option<BookView>,
}

/// Whether the spread of `book` is more than the mean of `spreads`, taken
/// `1 + threshold` times. A book without a spread and an empty window show
/// no increase.
pub open spec fn spread_increased(spreads: Seq<int>, book: BookView, threshold: i64) -> bool {
    match book.spread() {
        Some(spread) => exceeds_mean_by(spreads, spread, threshold as int),
        None => false,
    }
}

/// Whether the spread of `book` is at most the mean of `spreads`. A book
/// without a spread and an empty window show no return.
pub open spec fn spread_back_to_average(spreads: Seq<int>, book: BookView) -> bool {
    match book.spread() {
        Some(spread) => at_or_below_mean(spreads, spread),
        None => false,
    }
}

impl IndicatorView {
    /// The indicator as it is constructed.
    pub open spec fn initial(config: Config) -> IndicatorView {
        IndicatorView {
            config,
            score: 0,
            bias_side: OrderSide::NoOrderSide,
            depletion_side: OrderSide::NoOrderSide,
            recovery_side: OrderSide::NoOrderSide,
            recovery_time: config.timeout,
            count: 0,
            initialized: false,
            has_inputs: false,
            is_spread_recovered: false,
            is_strong_reversal: false,
            is_depletion_continuing: false,
            spreads: Seq::empty(),
            state: StateView::idle(config.timeout),
            previous: None,
        }
    }

    /// What holds of an indicator whatever phase its episode is in.
    pub open spec fn coherent(self) -> bool {
        &&& self.config.valid()
        &&& 0 <= self.score <= UNIT
        &&& self.spreads.len() <= self.config.spread_window_size
        &&& bounded(self.spreads)
        &&& self.state.timeout == self.config.timeout
        &&& self.state.wf()
    }

    /// The invariant of an indicator between two snapshots: it is coherent,
    /// and its episode is idle or being monitored.
    pub open spec fn wf(self) -> bool {
        &&& self.coherent()
        &&& self.state.episode !is Resolved
    }

    /// Whether a depletion is being monitored.
    pub open spec fn is_running(self) -> bool {
        self.state.is_running()
    }

    /// The spread window after `book` is observed: the spread of the book is
    /// pushed, and a book without a spread leaves the window as it is.
    pub open spec fn observed_spreads(self, book: BookView) -> Seq<int> {
        match book.spread() {
            Some(spread) => pushed(self.spreads, self.config.spread_window_size as nat, spread),
            None => self.spreads,
        }
    }

    /// What `book` does to the indicator.
    ///
    /// While an episode is monitored, a spread back at the rolling mean or
    /// below resolves it by a recovery, provided the recovery has a side;
    /// only where the spread is not back a timeout is looked for. While idle,
    /// the spread is observed first, and a depletion against the previous
    /// snapshot opens an episode if the spread has increased against the
    /// window that already holds it.
    pub open spec fn event(self, book: BookView) -> Event {
        if self.state.is_running() {
            if spread_back_to_average(self.spreads, book) {
                let side = recovery_side(
                    self.state.depletion_side(),
                    self.state.initial_price(),
                    book,
                );
                if side != OrderSide::NoOrderSide {
                    Event::Recovered { side }
                } else {
                    Event::Waiting
                }
            } else if self.state.is_timeout(book.ts_last) {
                Event::TimedOut
            } else {
                Event::Waiting
            }
        } else {
            match self.previous {
                Some(previous) => match depletion(
                    previous,
                    book,
                    self.config.levels_to_consume as int,
                ) {
                    Some((side, price)) => if spread_increased(
                        self.observed_spreads(book),
                        book,
                        self.config.spread_increase_threshold,
                    ) {
                        Event::Onset { side, price }
                    } else {
                        Event::Observed
                    },
                    None => Event::Observed,
                },
                None => Event::Observed,
            }
        }
    }

    /// The indicator once a snapshot has arrived, before anything is made of
    /// it: the flags of the last snapshot are cleared and the snapshot is
    /// counted.
    pub open spec fn touched(self) -> IndicatorView {
        IndicatorView {
            is_spread_recovered: false,
            is_strong_reversal: false,
            is_depletion_continuing: false,
            has_inputs: true,
            initialized: true,
            count: self.count + 1,
            ..self
        }
    }

    /// The indicator after `book` was observed while idle, with the state
    /// that the observation leaves.
    pub open spec fn observed(self, book: BookView, state: StateView) -> IndicatorView {
        IndicatorView {
            spreads: self.observed_spreads(book),
            state,
            previous: Some(book),
            ..self
        }
    }

    /// The published values once the episode in `self.state` is resolved:
    /// the score of the recovery and what follows from it. The state is left
    /// as it is.
    pub open spec fn scored(self) -> IndicatorView {
        let time = self.state.elapsed();
        let same_side = self.state.depletion_side() == self.state.recovery_side();
        let initial = self.state.initial_snapshot().unwrap();
        let end = self.state.end_snapshot().unwrap();
        let score = resilience_score(
            self.config,
            normalized_time(time, self.config.timeout),
            depth_recovery(initial, end),
            spread_recovery(initial, end),
            same_side,
        );
        IndicatorView {
            score,
            is_spread_recovered: true,
            bias_side: self.state.recovery_side(),
            is_strong_reversal: strong_reversal(self.config, score, same_side),
            is_depletion_continuing: depletion_continuing(self.config, score, same_side),
            depletion_side: self.state.depletion_side(),
            recovery_side: self.state.recovery_side(),
            recovery_time: time,
            ..self
        }
    }

    /// The indicator with its episode closed and the previous snapshot
    /// forgotten.
    pub open spec fn monitoring_reset(self) -> IndicatorView {
        IndicatorView { state: self.state.reset(), previous: None, ..self }
    }

    /// The indicator after `book` resolved the monitored episode by a
    /// recovery on `side`.
    pub open spec fn recovered(self, book: BookView, side: OrderSide) -> IndicatorView {
        (IndicatorView { state: self.state.set_end(book, side), ..self }).scored().monitoring_reset()
    }

    /// The indicator after the monitored episode timed out: the score is
    /// zero, there is no recovery, and the recovery time is the timeout.
    pub open spec fn timed_out(self) -> IndicatorView {
        (IndicatorView {
            score: 0,
            bias_side: OrderSide::NoOrderSide,
            depletion_side: self.state.depletion_side(),
            recovery_side: OrderSide::NoOrderSide,
            recovery_time: self.config.timeout,
            ..self
        }).monitoring_reset()
    }

    /// The indicator after `book`.
    pub open spec fn step(self, book: BookView) -> IndicatorView {
        let touched = self.touched();
        match self.event(book) {
            Event::Observed => touched.observed(book, self.state),
            Event::Onset { side, price } => touched.observed(
                book,
                self.state.set_initial(book, side, price),
            ),
            Event::Waiting => touched,
            Event::Recovered { side } => touched.recovered(book, side),
            Event::TimedOut => touched.timed_out(),
        }
    }

    /// The indicator after the snapshots of `books`, in their order.
    pub open spec fn run(self, books: Seq<BookView>) -> IndicatorView
        decreases books.len(),
    {
        if books.len() == 0 {
            self
        } else {
            self.run(books.drop_last()).step(books.last())
        }
    }

    /// The indicator after a reset: as constructed with the same
    /// configuration.
    pub open spec fn reset(self) -> IndicatorView {
        IndicatorView::initial(self.config)
    }
}

} // verus!
