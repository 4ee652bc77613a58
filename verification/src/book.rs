//! Order-book snapshots: what the indicator reads of a book at one instant.
//!
//! Prices and sizes are fixed-point integers in the unit of the venue. A
//! snapshot lists the bid levels from the best (highest) price down and the
//! ask levels from the best (lowest) price up. Nothing here checks that
//! order: the best price of a side is the price of its first level.

use vstd::prelude::*;

verus! {

/// One price level of a book side.
#[derive(Clone, Copy, Debug, PartialEq, Eq, Structural)]
pub struct PriceLevel {
    /// The price of the level.
    pub price: i64,
    /// The aggregate size resting at that price.
    pub size: u64,
}

/// A snapshot of an order book.
#[derive(Debug, PartialEq, Eq)]
pub struct BookSnapshot {
    /// The bid levels, best first.
    pub bids: Vec<PriceLevel>,
    /// The ask levels, best first.
    pub asks: Vec<PriceLevel>,
    /// The time of the last update, in nanoseconds.
    pub ts_last: u64,
}

/// The mathematical content of a `BookSnapshot`.
#[verifier::ext_equal]
pub struct BookView {
    /// The bid levels, best first.
    pub bids: Seq<PriceLevel>,
    /// The ask levels, best first.
    pub asks: Seq<PriceLevel>,
    /// The time of the last update, in nanoseconds.
    pub ts_last: u64,
}

/// The price of the best level of a side, if the side has a level.
pub open spec fn best_price(levels: Seq<PriceLevel>) -> Option<i64> {
    if levels.len() > 0 {
        Some(levels[0].price)
    } else {
        None
    }
}

/// The price at `rank` on a side, the best level having rank one.
pub open spec fn price_at_rank(levels: Seq<PriceLevel>, rank: int) -> Option<i64> {
    if 1 <= rank <= levels.len() {
        Some(levels[rank - 1].price)
    } else {
        None
    }
}

impl BookView {
    /// The best bid price.
    pub open spec fn best_bid_price(self) -> Option<i64> {
        best_price(self.bids)
    }

    /// The best ask price.
    pub open spec fn best_ask_price(self) -> Option<i64> {
        best_price(self.asks)
    }

    /// The best ask price less the best bid price; none when a side is empty.
    pub open spec fn spread(self) -> Option<int> {
        if self.bids.len() > 0 && self.asks.len() > 0 {
            Some(self.asks[0].price - self.bids[0].price)
        } else {
            None
        }
    }

    /// The number of levels on both sides together.
    pub open spec fn level_count(self) -> nat {
        self.bids.len() + self.asks.len()
    }
}

impl View for BookSnapshot {
    type V = BookView;

    open spec fn view(&self) -> BookView {
        BookView { bids: self.bids@, asks: self.asks@, ts_last: self.ts_last }
    }
}

/// Copies the levels of one side.
fn copy_levels(levels: &Vec<PriceLevel>) -> (r: Vec<PriceLevel>)
    ensures
        r@ == levels@,
{
    let mut out: Vec<PriceLevel> = Vec::new();
    let mut i: usize = 0;
    while i < levels.len()
        invariant
            i <= levels.len(),
            out@ == levels@.subrange(0, i as int),
        decreases levels.len() - i,
    {
        out.push(levels[i]);
        i = i + 1;
    }
    assert(levels@.subrange(0, levels.len() as int) == levels@);
    out
}

/// The price of the level at `rank` of a side, the best level having rank
/// one.
pub fn rank_price(levels: &Vec<PriceLevel>, rank: usize) -> (r: Option<i64>)
    ensures
        r == price_at_rank(levels@, rank as int),
{
    if 1 <= rank && rank <= levels.len() {
        Some(levels[rank - 1].price)
    } else {
        None
    }
}

impl Clone for BookSnapshot {
    fn clone(&self) -> (r: Self)
        ensures
            r@ == self@,
    {
        BookSnapshot {
            bids: copy_levels(&self.bids),
            asks: copy_levels(&self.asks),
            ts_last: self.ts_last,
        }
    }
}

impl BookSnapshot {
    /// A snapshot of the given levels and time.
    pub fn new(bids: Vec<PriceLevel>, asks: Vec<PriceLevel>, ts_last: u64) -> (r: Self)
        ensures
            r@ == (BookView { bids: bids@, asks: asks@, ts_last }),
    {
        BookSnapshot { bids, asks, ts_last }
    }

    /// The best bid price.
    pub fn best_bid_price(&self) -> (r: Option<i64>)
        ensures
            r == self@.best_bid_price(),
    {
        if self.bids.len() > 0 {
            Some(self.bids[0].price)
        } else {
            None
        }
    }

    /// The best ask price.
    pub fn best_ask_price(&self) -> (r: Option<i64>)
        ensures
            r == self@.best_ask_price(),
    {
        if self.asks.len() > 0 {
            Some(self.asks[0].price)
        } else {
            None
        }
    }

    /// The best ask price less the best bid price; none when a side is empty.
    pub fn spread(&self) -> (r: Option<i128>)
        ensures
            match r {
                Some(s) => self@.spread() == Some(s as int),
                None => self@.spread().is_none(),
            },
    {
        if self.bids.len() > 0 && self.asks.len() > 0 {
            Some(self.asks[0].price as i128 - self.bids[0].price as i128)
        } else {
            None
        }
    }

    /// The number of levels on both sides together.
    pub fn level_count(&self) -> (r: u128)
        ensures
            r == self@.level_count(),
            r <= 2 * usize::MAX,
    {
        self.bids.len() as u128 + self.asks.len() as u128
    }
}

} // verus!
