//! The side of an order book.

use vstd::prelude::*;

verus! {

/// A side of the book, or none.
#[derive(Clone, Copy, Debug, PartialEq, Eq, Structural)]
pub enum OrderSide {
    /// No side: nothing was depleted, or nothing recovered.
    NoOrderSide,
    /// The bid side.
    Buy,
    /// The ask side.
    Sell,
}

} // verus!
