//! Classification of a recovery: did the price come back on the side that was
//! depleted, or did the market turn?

use crate::book::{BookSnapshot, BookView};
use crate::side::OrderSide;
use vstd::prelude::*;

verus! {

/// The side on which `current` shows the market after a depletion of
/// `depletion_side` that started from `initial_price`.
///
/// After a depletion of the bids the bid side has recovered when the best bid
/// is back at the initial price or above; otherwise the recovery is counted
/// for the asks. After a depletion of the asks the ask side has recovered when
/// the best ask is back at the initial price or below; otherwise the recovery
/// is counted for the bids. Without a best price on the depleted side there
/// is no side.
pub open spec fn recovery_side(
    depletion_side: OrderSide,
    initial_price: i64,
    current: BookView,
) -> OrderSide {
    match depletion_side {
        OrderSide::Buy => match current.best_bid_price() {
            Some(best) => if best >= initial_price {
                OrderSide::Buy
            } else {
                OrderSide::Sell
            },
            None => OrderSide::NoOrderSide,
        },
        OrderSide::Sell => match current.best_ask_price() {
            Some(best) => if best <= initial_price {
                OrderSide::Sell
            } else {
                OrderSide::Buy
            },
            None => OrderSide::NoOrderSide,
        },
        OrderSide::NoOrderSide => OrderSide::NoOrderSide,
    }
}

/// Computes `recovery_side`.
pub fn classify_recovery(
    depletion_side: OrderSide,
    initial_price: i64,
    current: &BookSnapshot,
) -> (r: OrderSide)
    ensures
        r == recovery_side(depletion_side, initial_price, current@),
{
    match depletion_side {
        OrderSide::Buy => match current.best_bid_price() {
            Some(best) => if best >= initial_price {
                OrderSide::Buy
            } else {
                OrderSide::Sell
            },
            None => OrderSide::NoOrderSide,
        },
        OrderSide::Sell => match current.best_ask_price() {
            Some(best) => if best <= initial_price {
                OrderSide::Sell
            } else {
                OrderSide::Buy
            },
            None => OrderSide::NoOrderSide,
        },
        OrderSide::NoOrderSide => OrderSide::NoOrderSide,
    }
}

} // verus!
