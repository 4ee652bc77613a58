//! Market resilience: detection of liquidity depletion in an order book and
//! scoring of the recovery that follows.
//!
//! The indicator of this crate reads the snapshots of one order book in
//! their order. A depletion is a side of the book consumed through several
//! levels while the spread widens against its rolling mean. The indicator
//! then follows the book until the spread is back, and publishes a score
//! between zero and one that says how resilient the market was, or until a
//! timeout has passed, and publishes a score of zero.
//!
//! All numbers are integers. Prices are fixed-point numbers in the unit of
//! the venue, times are nanoseconds, and fractions (thresholds, weights,
//! biases and the score) are billionths, so that every comparison is exact
//! and every rounding is stated.
//!
//! The modules, from the leaves up:
//!
//! - `fixed`, `wide`: fixed-point fractions, and exact comparison of
//!   products that need more than 128 bits;
//! - `side`, `book`: the sides of a book and the snapshots that are read;
//! - `window`: the rolling window of spreads;
//! - `detector`, `classifier`, `scoring`: the rules for a depletion, for the
//!   side of a recovery and for the score;
//! - `state`: the monitoring state of one episode;
//! - `config`, `model`, `indicator`: the configuration, the indicator as a
//!   mathematical state machine, and the executable indicator;
//! - `laws`: what holds of the indicator on every input.

pub mod fixed;
pub mod wide;
pub mod side;
pub mod book;
pub mod window;
pub mod detector;
pub mod classifier;
pub mod scoring;
pub mod state;
pub mod config;
pub mod model;
pub mod indicator;
pub mod laws;
