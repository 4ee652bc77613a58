//! What holds of the indicator on every input.
//!
//! The laws are stated of `IndicatorView`, the mathematical content of an
//! indicator, and of its transition `step`; the contracts of the executable
//! indicator tie each call to them.

use crate::book::BookView;
use crate::config::Config;
use crate::detector::depletion;
use crate::fixed::{clamp_unit, UNIT};
use crate::indicator::MarketResilienceIndicator;
use crate::model::{spread_back_to_average, spread_increased, IndicatorView};
use crate::scoring::{
    base_score, bias, depth_recovery, normalized_time, resilience_score, spread_recovery,
};
use crate::side::OrderSide;
use crate::state::StateView;
use crate::window::{at_or_below_mean, mean, pushed, total};
use vstd::arithmetic::div_mod::{lemma_fundamental_div_mod, lemma_mod_bound};
use vstd::prelude::*;

verus! {

/// A score lies between zero and one, whatever the measures, the weights and
/// the bias are.
pub proof fn law_score_in_unit_interval(
    config: Config,
    time: int,
    depth: int,
    spread: int,
    same_side: bool,
)
    ensures
        0 <= resilience_score(config, time, depth, spread, same_side) <= UNIT,
{
}

/// A recovery on the depleted side adds the same-side bias to the base
/// score, a recovery on the other side the opposite-side bias, and only the
/// sum is limited to the interval from zero to one.
pub proof fn law_bias_added_before_clamping(config: Config, time: int, depth: int, spread: int)
    ensures
        resilience_score(config, time, depth, spread, true) == clamp_unit(
            base_score(config, time, depth, spread) + config.same_side_bias,
        ),
        resilience_score(config, time, depth, spread, false) == clamp_unit(
            base_score(config, time, depth, spread) + config.opposite_side_bias,
        ),
{
}

/// A window that is within its capacity stays within it when an observation
/// is pushed. Below the capacity the observation is appended; at the
/// capacity the oldest observation leaves, the others move up by one place
/// and the new one comes last.
pub proof fn law_window_fifo(s: Seq<int>, capacity: nat, x: int)
    requires
        s.len() <= capacity,
    ensures
        pushed(s, capacity, x).len() <= capacity,
        s.len() < capacity ==> pushed(s, capacity, x) == s.push(x),
        s.len() == capacity ==> pushed(s, capacity, x).len() == capacity,
        s.len() == capacity ==> forall|i: int|
            0 <= i < capacity - 1 ==> #[trigger] pushed(s, capacity, x)[i] == s[i + 1],
        s.len() == capacity && capacity > 0 ==> pushed(s, capacity, x).last() == x,
{
}

/// A spread is at most the exact mean of a window exactly when it is at most
/// the mean rounded down: the comparison that resolves an episode agrees
/// with the average that the window reports.
pub proof fn law_rolling_mean_comparison(s: Seq<int>, x: int)
    requires
        s.len() > 0,
    ensures
        at_or_below_mean(s, x) <==> x <= mean(s).unwrap(),
{
    let n = s.len() as int;
    let t = total(s);
    let q = t / n;
    let r = t % n;
    lemma_fundamental_div_mod(t, n);
    lemma_mod_bound(t, n);
    assert(x * n <= t <==> x <= q) by (nonlinear_arith)
        requires
            t == n * q + r,
            0 <= r < n,
    ;
}

/// Every indicator that the library hands out publishes a score between
/// zero and one, keeps its spread window within the configured capacity, and
/// has a depleted side whenever it is running.
pub proof fn law_indicator_invariant(indicator: &MarketResilienceIndicator)
    requires
        indicator.wf(),
    ensures
        indicator@.wf(),
        0 <= indicator@.score <= UNIT,
        indicator@.spreads.len() <= indicator@.config.spread_window_size,
        indicator@.is_running() ==> indicator@.state.depletion_side() != OrderSide::NoOrderSide,
{
    indicator.lemma_wf();
}

/// Of a well-formed monitoring state: a recovery is known only where an
/// onset is known, the state is running exactly when it has a start and no
/// end, and a running state has a depleted side.
pub proof fn law_state_invariant(state: StateView)
    requires
        state.wf(),
    ensures
        state.end_snapshot().is_some() ==> state.initial_snapshot().is_some(),
        state.is_running() <==> state.start_time().is_some() && state.end_time().is_none(),
        state.is_running() ==> state.depletion_side() != OrderSide::NoOrderSide,
{
}

/// While an episode is monitored, a spread that is back at the rolling mean
/// always has a side of recovery: a snapshot leaves the episode open only
/// where the spread is not back and the timeout has not passed.
pub proof fn law_monitoring_outcomes(v: IndicatorView, book: BookView)
    requires
        v.wf(),
        v.is_running(),
    ensures
        v.event(book) is Recovered <==> spread_back_to_average(v.spreads, book),
        v.event(book) is TimedOut <==> !spread_back_to_average(v.spreads, book)
            && v.state.is_timeout(book.ts_last),
        v.event(book) is Waiting <==> !spread_back_to_average(v.spreads, book)
            && !v.state.is_timeout(book.ts_last),
{
}

/// A snapshot leaves a well-formed indicator well formed. In particular the
/// score stays between zero and one and the spread window within its
/// capacity.
pub proof fn law_step_preserves_wf(v: IndicatorView, book: BookView)
    requires
        v.wf(),
    ensures
        v.step(book).wf(),
        v.step(book).config == v.config,
        0 <= v.step(book).score <= UNIT,
        v.step(book).spreads.len() <= v.config.spread_window_size,
{
}

/// Any sequence of snapshots leaves a well-formed indicator well formed, with
/// its configuration, and has each snapshot counted once.
pub proof fn law_run_preserves_wf(v: IndicatorView, books: Seq<BookView>)
    requires
        v.wf(),
    ensures
        v.run(books).wf(),
        v.run(books).config == v.config,
        v.run(books).count == v.count + books.len(),
        0 <= v.run(books).score <= UNIT,
        v.run(books).spreads.len() <= v.config.spread_window_size,
    decreases books.len(),
{
    if books.len() > 0 {
        law_run_preserves_wf(v, books.drop_last());
        law_step_preserves_wf(v.run(books.drop_last()), books.last());
    }
}

/// An indicator as it is constructed is well formed, idle and empty.
pub proof fn law_fresh_indicator(config: Config)
    requires
        config.valid(),
    ensures
        IndicatorView::initial(config).wf(),
        !IndicatorView::initial(config).is_running(),
        IndicatorView::initial(config).score == 0,
        IndicatorView::initial(config).count == 0,
        IndicatorView::initial(config).spreads.len() == 0,
        IndicatorView::initial(config).recovery_time == config.timeout,
{
}

/// A reset gives the indicator as it is constructed with the same
/// configuration, whatever it has handled before; a second reset changes
/// nothing.
pub proof fn law_reset_is_fresh(v: IndicatorView, books: Seq<BookView>)
    ensures
        v.run(books).reset() == IndicatorView::initial(v.config),
        v.reset() == IndicatorView::initial(v.config),
        v.reset().reset() == v.reset(),
{
    law_run_keeps_config(v, books);
}

/// No sequence of snapshots changes the configuration.
pub proof fn law_run_keeps_config(v: IndicatorView, books: Seq<BookView>)
    ensures
        v.run(books).config == v.config,
    decreases books.len(),
{
    if books.len() > 0 {
        law_run_keeps_config(v, books.drop_last());
    }
}

/// The number of episodes that the snapshots of `books` open, handled in
/// their order from `v`.
pub open spec fn onsets(v: IndicatorView, books: Seq<BookView>) -> nat
    decreases books.len(),
{
    if books.len() == 0 {
        0
    } else {
        let before = onsets(v, books.drop_last());
        if v.run(books.drop_last()).event(books.last()) is Onset {
            before + 1
        } else {
            before
        }
    }
}

/// The number of episodes that the snapshots of `books` resolve, by a
/// recovery or by a timeout, handled in their order from `v`.
pub open spec fn resolutions(v: IndicatorView, books: Seq<BookView>) -> nat
    decreases books.len(),
{
    if books.len() == 0 {
        0
    } else {
        let before = resolutions(v, books.drop_last());
        let event = v.run(books.drop_last()).event(books.last());
        if event is Recovered || event is TimedOut {
            before + 1
        } else {
            before
        }
    }
}

/// The number of episodes that are open after the snapshots of `books`: the
/// one that was open in `v`, if any, and those opened since, less those
/// resolved since.
pub open spec fn open_episodes(v: IndicatorView, books: Seq<BookView>) -> int {
    (if v.is_running() {
        1int
    } else {
        0int
    }) + onsets(v, books) - resolutions(v, books)
}

/// An episode opens only from idle and makes the indicator run; an episode
/// is resolved only while running and leaves the indicator idle; every other
/// snapshot leaves it running or idle as it was.
pub proof fn law_event_and_running(v: IndicatorView, book: BookView)
    requires
        v.wf(),
    ensures
        v.event(book) is Onset ==> !v.is_running() && v.step(book).is_running(),
        v.event(book) is Recovered || v.event(book) is TimedOut ==> v.is_running() && !v.step(
            book,
        ).is_running(),
        v.event(book) is Observed ==> !v.is_running() && !v.step(book).is_running(),
        v.event(book) is Waiting ==> v.is_running() && v.step(book).is_running(),
{
}

/// After any sequence of snapshots at most one episode is open, and the
/// indicator is running exactly when one is.
pub proof fn law_one_episode_at_a_time(v: IndicatorView, books: Seq<BookView>)
    requires
        v.wf(),
    ensures
        open_episodes(v, books) == 0 || open_episodes(v, books) == 1,
        v.run(books).is_running() <==> open_episodes(v, books) == 1,
    decreases books.len(),
{
    if books.len() > 0 {
        let earlier = books.drop_last();
        law_one_episode_at_a_time(v, earlier);
        law_run_preserves_wf(v, earlier);
        law_event_and_running(v.run(earlier), books.last());
    }
}

/// Every snapshot is counted, marks the indicator as initialized and as
/// having inputs, and never changes the configuration.
pub proof fn law_every_snapshot_is_counted(v: IndicatorView, book: BookView)
    ensures
        v.step(book).count == v.count + 1,
        v.step(book).has_inputs,
        v.step(book).initialized,
        v.step(book).config == v.config,
{
}

/// A snapshot that neither resolves the monitored episode nor times it out
/// changes nothing but the count and the flags of the last snapshot: the
/// window, the state, the previous snapshot and the published values stay.
pub proof fn law_waiting_changes_nothing(v: IndicatorView, book: BookView)
    requires
        v.event(book) is Waiting,
    ensures
        v.step(book) == v.touched(),
        v.step(book).spreads == v.spreads,
        v.step(book).state == v.state,
        v.step(book).previous == v.previous,
        v.step(book).score == v.score,
        v.step(book).bias_side == v.bias_side,
        v.step(book).depletion_side == v.depletion_side,
        v.step(book).recovery_side == v.recovery_side,
        v.step(book).recovery_time == v.recovery_time,
{
}

/// A snapshot that arrives while the indicator is idle is observed: its
/// spread enters the window, it becomes the previous snapshot, and the
/// published values stay. An episode opens exactly when a side was depleted
/// against the previous snapshot and the spread has increased.
pub proof fn law_idle_observation(v: IndicatorView, book: BookView)
    requires
        !v.is_running(),
    ensures
        v.step(book).spreads == v.observed_spreads(book),
        v.step(book).previous == Some(book),
        v.step(book).score == v.score,
        v.step(book).bias_side == v.bias_side,
        v.step(book).depletion_side == v.depletion_side,
        v.step(book).recovery_side == v.recovery_side,
        v.step(book).recovery_time == v.recovery_time,
        v.event(book) is Onset || v.event(book) is Observed,
        v.event(book) is Onset <==> v.previous.is_some() && depletion(
            v.previous.unwrap(),
            book,
            v.config.levels_to_consume as int,
        ).is_some() && spread_increased(
            v.observed_spreads(book),
            book,
            v.config.spread_increase_threshold,
        ),
        v.event(book) is Onset ==> v.step(book).state == v.state.set_initial(
            book,
            depletion(v.previous.unwrap(), book, v.config.levels_to_consume as int).unwrap().0,
            depletion(v.previous.unwrap(), book, v.config.levels_to_consume as int).unwrap().1,
        ),
        v.event(book) is Observed ==> v.step(book).state == v.state,
{
}

/// A timeout publishes a score of zero, no side of recovery, no bias side
/// and the configured timeout as the recovery time; it keeps the depleted
/// side for the report and leaves the indicator idle.
pub proof fn law_timeout_outcome(v: IndicatorView, book: BookView)
    requires
        v.event(book) is TimedOut,
    ensures
        v.step(book).score == 0,
        v.step(book).recovery_side == OrderSide::NoOrderSide,
        v.step(book).bias_side == OrderSide::NoOrderSide,
        v.step(book).recovery_time == v.config.timeout,
        v.step(book).depletion_side == v.state.depletion_side(),
        !v.step(book).is_running(),
        !v.step(book).is_spread_recovered,
        !v.step(book).is_strong_reversal,
        !v.step(book).is_depletion_continuing,
{
}

/// A recovery publishes the score of the episode: the base score of the
/// three measures taken between the onset and the resolving snapshot, and
/// the bias of the side on which the recovery came. The bias side is the
/// side of the recovery.
pub proof fn law_recovery_outcome(v: IndicatorView, book: BookView)
    requires
        v.wf(),
        v.event(book) is Recovered,
    ensures
        ({
            let side = v.event(book)->Recovered_side;
            let initial = v.state.initial_snapshot().unwrap();
            let time = v.state.set_end(book, side).elapsed();
            let same_side = v.state.depletion_side() == side;
            &&& v.step(book).score == clamp_unit(
                base_score(
                    v.config,
                    normalized_time(time, v.config.timeout),
                    depth_recovery(initial, book),
                    spread_recovery(initial, book),
                ) + bias(v.config, same_side),
            )
            &&& v.step(book).bias_side == side
            &&& v.step(book).recovery_side == side
            &&& v.step(book).depletion_side == v.state.depletion_side()
            &&& v.step(book).recovery_time == time
            &&& v.step(book).is_spread_recovered
            &&& !v.step(book).is_running()
        }),
{
}

} // verus!
