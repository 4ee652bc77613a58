//! Detection of a depletion between two consecutive snapshots.
//!
//! A side is depleted when the best price of the current snapshot has moved
//! strictly beyond the price that stood at a given rank of the previous
//! snapshot: below it on the bid side, above it on the ask side. The bid side
//! is examined first, and a depletion of the bid side hides one of the ask
//! side.

use crate::book::{price_at_rank, rank_price, BookSnapshot, BookView};
use crate::side::OrderSide;
use vstd::prelude::*;

verus! {

/// Whether the bids were consumed through `levels` levels of `previous`.
pub open spec fn bid_depleted(previous: BookView, current: BookView, levels: int) -> bool {
    &&& price_at_rank(previous.bids, levels) matches Some(threshold)
    &&& current.best_bid_price() matches Some(best)
    &&& best < threshold
}

/// Whether the asks were consumed through `levels` levels of `previous`.
pub open spec fn ask_depleted(previous: BookView, current: BookView, levels: int) -> bool {
    &&& price_at_rank(previous.asks, levels) matches Some(threshold)
    &&& current.best_ask_price() matches Some(best)
    &&& best > threshold
}

/// The depleted side and the best price that it had in `previous`, if a side
/// was depleted.
pub open spec fn depletion(previous: BookView, current: BookView, levels: int) -> Option<
    (OrderSide, i64),
> {
    if bid_depleted(previous, current, levels) {
        Some((OrderSide::Buy, previous.bids[0].price))
    } else if ask_depleted(previous, current, levels) {
        Some((OrderSide::Sell, previous.asks[0].price))
    } else {
        None
    }
}

/// Compares two consecutive snapshots and reports the depleted side, with the
/// best price that the side had before.
pub fn detect_depletion(previous: &BookSnapshot, current: &BookSnapshot, levels: usize) -> (r:
    Option<(OrderSide, i64)>)
    requires
        levels >= 1,
    ensures
        r == depletion(previous@, current@, levels as int),
{
    match rank_price(&previous.bids, levels) {
        Some(threshold) => {
            match current.best_bid_price() {
                Some(best) => {
                    if best < threshold {
                        return Some((OrderSide::Buy, previous.bids[0].price));
                    }
                },
                None => {},
            }
        },
        None => {},
    }
    match rank_price(&previous.asks, levels) {
        Some(threshold) => {
            match current.best_ask_price() {
                Some(best) => {
                    if best > threshold {
                        return Some((OrderSide::Sell, previous.asks[0].price));
                    }
                },
                None => {},
            }
        },
        None => {},
    }
    None
}

} // verus!
