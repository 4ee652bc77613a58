//! The rolling window of recent spreads.
//!
//! The window keeps the most recent observations up to its capacity, oldest
//! first, together with their sum, so that comparisons with the mean take
//! constant time. Comparisons with the mean are exact: they are made between
//! products, never with a rounded mean.

use crate::fixed::{floor_div, UNIT};
use crate::wide::{product_gt, product_le};
use std::collections::VecDeque;
use vstd::prelude::*;

verus! {

/// The largest absolute value of an observation: no difference of two 64-bit
/// prices exceeds it.
pub const MAX_SPREAD: i128 = 0x1_0000_0000_0000_0000;

/// The largest capacity of a window: the most 128-bit observations that fit
/// in an address space of two to the power 63 bytes.
pub const MAX_WINDOW: u64 = 0x07ff_ffff_ffff_ffff;

/// The sum of the observations.
pub open spec fn total(s: Seq<int>) -> int
    decreases s.len(),
{
    if s.len() == 0 {
        0
    } else {
        total(s.drop_last()) + s.last()
    }
}

/// The window after `x` is observed: `x` is appended, and where that exceeds
/// the capacity the oldest observation leaves.
pub open spec fn pushed(s: Seq<int>, capacity: nat, x: int) -> Seq<int> {
    let appended = s.push(x);
    if appended.len() > capacity {
        appended.subrange(1, appended.len() as int)
    } else {
        appended
    }
}

/// The mean of the observations, rounded down; none of an empty window.
pub open spec fn mean(s: Seq<int>) -> Option<int> {
    if s.len() == 0 {
        None
    } else {
        Some(total(s) / (s.len() as int))
    }
}

/// Whether `x` is at most the mean of a window that is not empty.
pub open spec fn at_or_below_mean(s: Seq<int>, x: int) -> bool {
    s.len() > 0 && x * s.len() <= total(s)
}

/// Whether `x` is more than the mean of a window that is not empty, taken
/// `1 + fraction` times, `fraction` counted in billionths.
pub open spec fn exceeds_mean_by(s: Seq<int>, x: int, fraction: int) -> bool {
    s.len() > 0 && x * (s.len() * UNIT) > total(s) * (UNIT + fraction)
}

/// Whether every observation lies within `MAX_SPREAD` of zero.
pub open spec fn bounded(s: Seq<int>) -> bool {
    forall|i: int| 0 <= i < s.len() ==> -MAX_SPREAD <= #[trigger] s[i] <= MAX_SPREAD
}

/// Appending an observation adds it to the sum.
pub proof fn lemma_total_push(s: Seq<int>, x: int)
    ensures
        total(s.push(x)) == total(s) + x,
{
    assert(s.push(x).drop_last() == s);
}

/// Dropping the oldest observation takes it from the sum.
pub proof fn lemma_total_skip_first(s: Seq<int>)
    requires
        s.len() > 0,
    ensures
        total(s.subrange(1, s.len() as int)) == total(s) - s[0],
    decreases s.len(),
{
    let rest = s.subrange(1, s.len() as int);
    if s.len() == 1 {
        assert(total(s.drop_last()) == 0);
        assert(total(rest) == 0);
    } else {
        lemma_total_skip_first(s.drop_last());
        assert(rest.drop_last() == s.drop_last().subrange(1, s.drop_last().len() as int));
        assert(rest.last() == s.last());
    }
}

/// The sum of bounded observations is bounded by their number.
pub proof fn lemma_total_bounded(s: Seq<int>)
    requires
        bounded(s),
    ensures
        -(s.len() * MAX_SPREAD) <= total(s) <= s.len() * MAX_SPREAD,
    decreases s.len(),
{
    if s.len() > 0 {
        lemma_total_bounded(s.drop_last());
        assert(s.last() == s[s.len() - 1]);
    }
}

/// A bounded rolling window of spread observations.
#[derive(Debug, PartialEq, Eq)]
pub struct SpreadWindow {
    capacity: usize,
    values: VecDeque<i128>,
    sum: i128,
}

impl View for SpreadWindow {
    type V = Seq<int>;

    closed spec fn view(&self) -> Seq<int> {
        self.values@.map_values(|v: i128| v as int)
    }
}

impl SpreadWindow {
    /// The most observations the window keeps.
    pub closed spec fn spec_capacity(&self) -> usize {
        self.capacity
    }

    /// The invariant of the window: it holds no more than its capacity, its
    /// observations are bounded, and its running sum is their sum.
    pub closed spec fn wf(&self) -> bool {
        &&& self.values@.len() <= self.capacity
        &&& self.capacity <= MAX_WINDOW
        &&& bounded(self@)
        &&& self.sum == total(self@)
    }

    /// What `wf` promises of the view.
    pub proof fn lemma_wf(&self)
        requires
            self.wf(),
        ensures
            self@.len() <= self.spec_capacity() <= MAX_WINDOW,
            bounded(self@),
    {
    }

    /// An empty window of the given capacity.
    pub fn new(capacity: usize) -> (r: Self)
        requires
            capacity <= MAX_WINDOW,
        ensures
            r.wf(),
            r@ == Seq::<int>::empty(),
            r.spec_capacity() == capacity,
    {
        let r = SpreadWindow { capacity, values: VecDeque::new(), sum: 0 };
        assert(r@ == Seq::<int>::empty());
        r
    }

    /// The most observations the window keeps.
    #[verifier::when_used_as_spec(spec_capacity)]
    pub fn capacity(&self) -> (r: usize)
        ensures
            r == self.spec_capacity(),
    {
        self.capacity
    }

    /// The number of observations held.
    pub fn len(&self) -> (r: usize)
        ensures
            r == self@.len(),
    {
        self.values.len()
    }

    /// Whether the window holds no observation.
    pub fn is_empty(&self) -> (r: bool)
        ensures
            r == (self@.len() == 0),
    {
        self.values.len() == 0
    }

    /// The observation at `index`, the oldest having index zero.
    pub fn get(&self, index: usize) -> (r: Option<i128>)
        ensures
            match r {
                Some(x) => index < self@.len() && self@[index as int] == x,
                None => index >= self@.len(),
            },
    {
        if index < self.values.len() {
            Some(self.values[index])
        } else {
            None
        }
    }

    /// Observes `spread`, evicting the oldest observation where the window
    /// would exceed its capacity.
    pub fn push(&mut self, spread: i128)
        requires
            old(self).wf(),
            -MAX_SPREAD <= spread <= MAX_SPREAD,
        ensures
            final(self).wf(),
            final(self)@ == pushed(old(self)@, old(self).spec_capacity() as nat, spread as int),
            final(self).spec_capacity() == old(self).spec_capacity(),
    {
        proof {
            lemma_total_bounded(self@);
            lemma_total_push(self@, spread as int);
            assert(self@.len() * MAX_SPREAD <= MAX_WINDOW * MAX_SPREAD) by (nonlinear_arith)
                requires
                    self@.len() <= MAX_WINDOW,
                    MAX_SPREAD > 0,
            ;
        }
        let ghost before = self@;
        self.values.push_back(spread);
        self.sum = self.sum + spread;
        assert(self@ == before.push(spread as int));
        if self.values.len() > self.capacity {
            let ghost appended = self@;
            let oldest = self.values.pop_front();
            proof {
                lemma_total_skip_first(appended);
                assert(self@ == appended.subrange(1, appended.len() as int));
            }
            match oldest {
                Some(x) => {
                    self.sum = self.sum - x;
                },
                None => {},
            }
        }
    }

    /// Empties the window; the capacity stays.
    pub fn clear(&mut self)
        requires
            old(self).wf(),
        ensures
            final(self).wf(),
            final(self)@ == Seq::<int>::empty(),
            final(self).spec_capacity() == old(self).spec_capacity(),
    {
        self.values.clear();
        self.sum = 0;
        assert(self@ == Seq::<int>::empty());
    }

    /// The mean of the observations, rounded down; none of an empty window.
    pub fn average(&self) -> (r: Option<i128>)
        requires
            self.wf(),
        ensures
            match r {
                Some(m) => mean(self@) == Some(m as int),
                None => mean(self@).is_none(),
            },
    {
        let n = self.values.len();
        if n == 0 {
            None
        } else {
            Some(floor_div(self.sum, n as i128))
        }
    }

    /// Whether `spread` is at most the mean of a window that is not empty.
    pub fn at_or_below_average(&self, spread: i128) -> (r: bool)
        requires
            self.wf(),
        ensures
            r == at_or_below_mean(self@, spread as int),
    {
        let n = self.values.len();
        if n == 0 {
            false
        } else {
            proof {
                assert(self.sum * 1 == self.sum) by (nonlinear_arith);
            }
            product_le(spread, n as i128, self.sum, 1)
        }
    }

    /// Whether `spread` is more than the mean of a window that is not empty,
    /// taken `1 + fraction` times, `fraction` counted in billionths.
    pub fn exceeds_average_by(&self, spread: i128, fraction: i64) -> (r: bool)
        requires
            self.wf(),
        ensures
            r == exceeds_mean_by(self@, spread as int, fraction as int),
    {
        let n = self.values.len();
        if n == 0 {
            false
        } else {
            let scale: i128 = (n as i128) * (UNIT as i128);
            let factor: i128 = UNIT as i128 + fraction as i128;
            product_gt(spread, scale, self.sum, factor)
        }
    }
}

} // verus!
