//! The state of depletion monitoring.
//!
//! An episode is idle, or it monitors a depletion that has been confirmed, or
//! it holds a depletion together with the recovery that resolved it. Each
//! phase carries exactly what is known in it, so that a recovery without a
//! depletion, or a running episode without a depleted side, cannot be
//! written down.

use crate::book::{BookSnapshot, BookView};
use crate::side::OrderSide;
use vstd::prelude::*;

verus! {

/// The phases of an episode.
#[derive(Debug, PartialEq, Eq)]
pub enum Episode {
    /// No depletion is being followed.
    Idle,
    /// A depletion was confirmed and its recovery is awaited.
    Monitoring {
        /// The book at the moment the depletion was confirmed.
        initial: BookSnapshot,
        /// The depleted side.
        side: OrderSide,
        /// The best price of the depleted side before the depletion.
        price: i64,
        /// The time of the confirming snapshot.
        start: u64,
    },
    /// The depletion was followed by a recovery.
    Resolved {
        /// The book at the moment the depletion was confirmed.
        initial: BookSnapshot,
        /// The book at the moment the recovery was confirmed.
        end: BookSnapshot,
        /// The depleted side.
        side: OrderSide,
        /// The side of the recovery.
        recovery: OrderSide,
        /// The best price of the depleted side before the depletion.
        price: i64,
        /// The time of the snapshot that confirmed the depletion.
        start: u64,
        /// The time of the snapshot that confirmed the recovery.
        stop: u64,
    },
}

/// The mathematical content of an `Episode`: the same phases, with the
/// books by their content.
#[verifier::ext_equal]
pub enum EpisodeView {
    /// No depletion is being followed.
    Idle,
    /// A depletion was confirmed and its recovery is awaited.
    Monitoring { initial: BookView, side: OrderSide, price: i64, start: u64 },
    /// The depletion was followed by a recovery.
    Resolved {
        initial: BookView,
        end: BookView,
        side: OrderSide,
        recovery: OrderSide,
        price: i64,
        start: u64,
        stop: u64,
    },
}

impl View for Episode {
    type V = EpisodeView;

    open spec fn view(&self) -> EpisodeView {
        match *self {
            Episode::Idle => EpisodeView::Idle,
            Episode::Monitoring { initial, side, price, start } => EpisodeView::Monitoring {
                initial: initial@,
                side,
                price,
                start,
            },
            Episode::Resolved {
                initial,
                end,
                side,
                recovery,
                price,
                start,
                stop,
            } => EpisodeView::Resolved {
                initial: initial@,
                end: end@,
                side,
                recovery,
                price,
                start,
                stop,
            },
        }
    }
}

/// The mathematical content of a `DepletionState`.
#[verifier::ext_equal]
pub struct StateView {
    /// The phase, with what is known in it.
    pub episode: EpisodeView,
    /// The longest time an episode may stay open, in nanoseconds.
    pub timeout: u64,
}

impl StateView {
    /// The idle state with the given timeout.
    pub open spec fn idle(timeout: u64) -> StateView {
        StateView { episode: EpisodeView::Idle, timeout }
    }

    /// Whether a depletion is being monitored.
    pub open spec fn is_running(self) -> bool {
        self.episode is Monitoring
    }

    /// The book at the onset of the depletion.
    pub open spec fn initial_snapshot(self) -> Option<BookView> {
        match self.episode {
            EpisodeView::Idle => None,
            EpisodeView::Monitoring { initial, .. } => Some(initial),
            EpisodeView::Resolved { initial, .. } => Some(initial),
        }
    }

    /// The book at the recovery.
    pub open spec fn end_snapshot(self) -> Option<BookView> {
        match self.episode {
            EpisodeView::Resolved { end, .. } => Some(end),
            _ => None,
        }
    }

    /// The depleted side; no side when idle.
    pub open spec fn depletion_side(self) -> OrderSide {
        match self.episode {
            EpisodeView::Idle => OrderSide::NoOrderSide,
            EpisodeView::Monitoring { side, .. } => side,
            EpisodeView::Resolved { side, .. } => side,
        }
    }

    /// The side of the recovery; no side until there is one.
    pub open spec fn recovery_side(self) -> OrderSide {
        match self.episode {
            EpisodeView::Resolved { recovery, .. } => recovery,
            _ => OrderSide::NoOrderSide,
        }
    }

    /// The best price of the depleted side before the depletion; zero when
    /// idle.
    pub open spec fn initial_price(self) -> i64 {
        match self.episode {
            EpisodeView::Idle => 0,
            EpisodeView::Monitoring { price, .. } => price,
            EpisodeView::Resolved { price, .. } => price,
        }
    }

    /// The time of the onset.
    pub open spec fn start_time(self) -> Option<u64> {
        match self.episode {
            EpisodeView::Idle => None,
            EpisodeView::Monitoring { start, .. } => Some(start),
            EpisodeView::Resolved { start, .. } => Some(start),
        }
    }

    /// The time of the recovery.
    pub open spec fn end_time(self) -> Option<u64> {
        match self.episode {
            EpisodeView::Resolved { stop, .. } => Some(stop),
            _ => None,
        }
    }

    /// The time from onset to recovery once both are known, and the timeout
    /// before. A recovery stamped before its onset took no time.
    pub open spec fn elapsed(self) -> u64 {
        match self.episode {
            EpisodeView::Resolved { start, stop, .. } => if stop >= start {
                (stop - start) as u64
            } else {
                0
            },
            _ => self.timeout,
        }
    }

    /// Whether at time `now` an episode has been open for longer than the
    /// timeout.
    pub open spec fn is_timeout(self, now: u64) -> bool {
        match self.start_time() {
            Some(start) => now - start > self.timeout,
            None => false,
        }
    }

    /// The invariant of the state: an episode that is open or resolved has a
    /// depleted side, and a resolved one has a side of recovery.
    pub open spec fn wf(self) -> bool {
        match self.episode {
            EpisodeView::Idle => true,
            EpisodeView::Monitoring { side, .. } => side != OrderSide::NoOrderSide,
            EpisodeView::Resolved { side, recovery, .. } => side != OrderSide::NoOrderSide
                && recovery != OrderSide::NoOrderSide,
        }
    }

    /// The state after a depletion of `side` is confirmed by `book`.
    pub open spec fn set_initial(self, book: BookView, side: OrderSide, price: i64) -> StateView {
        StateView {
            episode: EpisodeView::Monitoring { initial: book, side, price, start: book.ts_last },
            timeout: self.timeout,
        }
    }

    /// The state after the monitored depletion is resolved by `book` with a
    /// recovery on `side`. Only a monitoring state changes.
    pub open spec fn set_end(self, book: BookView, side: OrderSide) -> StateView {
        match self.episode {
            EpisodeView::Monitoring { initial, side: depleted, price, start } => StateView {
                episode: EpisodeView::Resolved {
                    initial,
                    end: book,
                    side: depleted,
                    recovery: side,
                    price,
                    start,
                    stop: book.ts_last,
                },
                timeout: self.timeout,
            },
            _ => self,
        }
    }

    /// The idle state with the same timeout.
    pub open spec fn reset(self) -> StateView {
        StateView::idle(self.timeout)
    }
}

/// The depletion monitoring state of one indicator.
#[derive(Debug, PartialEq, Eq)]
pub struct DepletionState {
    episode: Episode,
    timeout: u64,
}

impl View for DepletionState {
    type V = StateView;

    closed spec fn view(&self) -> StateView {
        StateView { episode: self.episode@, timeout: self.timeout }
    }
}

impl DepletionState {
    /// The idle state with the given timeout, in nanoseconds.
    pub fn new(timeout: u64) -> (r: Self)
        ensures
            r@ == StateView::idle(timeout),
    {
        DepletionState { episode: Episode::Idle, timeout }
    }

    /// Opens an episode: `book` confirmed a depletion of `side`, whose best
    /// price was `price` before.
    pub fn set_initial(&mut self, book: BookSnapshot, side: OrderSide, price: i64)
        requires
            side != OrderSide::NoOrderSide,
        ensures
            final(self)@ == old(self)@.set_initial(book@, side, price),
    {
        let start = book.ts_last;
        self.episode = Episode::Monitoring { initial: book, side, price, start };
    }

    /// Resolves the monitored episode: `book` confirmed a recovery on
    /// `side`.
    pub fn set_end(&mut self, book: BookSnapshot, side: OrderSide)
        requires
            old(self)@.is_running(),
            side != OrderSide::NoOrderSide,
        ensures
            final(self)@ == old(self)@.set_end(book@, side),
    {
        let mut episode = Episode::Idle;
        std::mem::swap(&mut self.episode, &mut episode);
        match episode {
            Episode::Monitoring { initial, side: depleted, price, start } => {
                let stop = book.ts_last;
                self.episode = Episode::Resolved {
                    initial,
                    end: book,
                    side: depleted,
                    recovery: side,
                    price,
                    start,
                    stop,
                };
            },
            _ => {},
        }
    }

    /// The time from onset to recovery once both are known, and the timeout
    /// before.
    pub fn elapsed(&self) -> (r: u64)
        ensures
            r == self@.elapsed(),
    {
        match &self.episode {
            Episode::Resolved { start, stop, .. } => if *stop >= *start {
                *stop - *start
            } else {
                0
            },
            _ => self.timeout,
        }
    }

    /// Whether at time `now` an episode has been open for longer than the
    /// timeout.
    pub fn is_timeout(&self, now: u64) -> (r: bool)
        ensures
            r == self@.is_timeout(now),
    {
        match &self.episode {
            Episode::Idle => false,
            Episode::Monitoring { start, .. } => now > *start && now - *start > self.timeout,
            Episode::Resolved { start, .. } => now > *start && now - *start > self.timeout,
        }
    }

    /// Whether a depletion is being monitored.
    pub fn is_running(&self) -> (r: bool)
        ensures
            r == self@.is_running(),
    {
        match &self.episode {
            Episode::Monitoring { .. } => true,
            _ => false,
        }
    }

    /// Closes the episode; the timeout stays.
    pub fn reset(&mut self)
        ensures
            final(self)@ == old(self)@.reset(),
    {
        self.episode = Episode::Idle;
    }

    /// The depleted side; no side when idle.
    pub fn depletion_side(&self) -> (r: OrderSide)
        ensures
            r == self@.depletion_side(),
    {
        match &self.episode {
            Episode::Idle => OrderSide::NoOrderSide,
            Episode::Monitoring { side, .. } => *side,
            Episode::Resolved { side, .. } => *side,
        }
    }

    /// The side of the recovery; no side until there is one.
    pub fn recovery_side(&self) -> (r: OrderSide)
        ensures
            r == self@.recovery_side(),
    {
        match &self.episode {
            Episode::Resolved { recovery, .. } => *recovery,
            _ => OrderSide::NoOrderSide,
        }
    }

    /// The best price of the depleted side before the depletion; zero when
    /// idle.
    pub fn initial_price(&self) -> (r: i64)
        ensures
            r == self@.initial_price(),
    {
        match &self.episode {
            Episode::Idle => 0,
            Episode::Monitoring { price, .. } => *price,
            Episode::Resolved { price, .. } => *price,
        }
    }

    /// The longest time an episode may stay open, in nanoseconds.
    pub fn timeout(&self) -> (r: u64)
        ensures
            r == self@.timeout,
    {
        self.timeout
    }

    /// The book at the onset of the depletion.
    pub fn initial_book(&self) -> (r: Option<&BookSnapshot>)
        ensures
            match r {
                Some(book) => self@.initial_snapshot() == Some(book@),
                None => self@.initial_snapshot().is_none(),
            },
    {
        match &self.episode {
            Episode::Idle => None,
            Episode::Monitoring { initial, .. } => Some(initial),
            Episode::Resolved { initial, .. } => Some(initial),
        }
    }

    /// The book at the recovery.
    pub fn end_book(&self) -> (r: Option<&BookSnapshot>)
        ensures
            match r {
                Some(book) => self@.end_snapshot() == Some(book@),
                None => self@.end_snapshot().is_none(),
            },
    {
        match &self.episode {
            Episode::Resolved { end, .. } => Some(end),
            _ => None,
        }
    }
}

} // verus!
