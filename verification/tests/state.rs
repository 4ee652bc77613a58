use market_resilience::book::{BookSnapshot, PriceLevel};
use market_resilience::side::OrderSide;
use market_resilience::state::DepletionState;

fn snapshot(bid: i64, ask: i64, ts_last: u64) -> BookSnapshot {
    BookSnapshot::new(
        vec![PriceLevel { price: bid, size: 1 }],
        vec![PriceLevel { price: ask, size: 1 }],
        ts_last,
    )
}

#[test]
fn new_state_is_idle() {
    let state = DepletionState::new(500);
    assert!(!state.is_running());
    assert_eq!(state.timeout(), 500);
    assert_eq!(state.depletion_side(), OrderSide::NoOrderSide);
    assert_eq!(state.recovery_side(), OrderSide::NoOrderSide);
    assert_eq!(state.initial_price(), 0);
    assert_eq!(state.initial_book(), None);
    assert_eq!(state.end_book(), None);
    assert_eq!(state.elapsed(), 500);
    assert!(!state.is_timeout(0));
    assert!(!state.is_timeout(u64::MAX));
}

#[test]
fn set_initial_opens_an_episode() {
    let mut state = DepletionState::new(500);
    let onset = snapshot(970, 1010, 1_000);
    state.set_initial(onset.clone(), OrderSide::Buy, 1000);
    assert!(state.is_running());
    assert_eq!(state.depletion_side(), OrderSide::Buy);
    assert_eq!(state.recovery_side(), OrderSide::NoOrderSide);
    assert_eq!(state.initial_price(), 1000);
    assert_eq!(state.initial_book(), Some(&onset));
    assert_eq!(state.end_book(), None);
    // Before the end is known the timeout stands for the time elapsed.
    assert_eq!(state.elapsed(), 500);
    assert_eq!(state.timeout(), 500);
}

#[test]
fn timeout_is_strictly_more_than_the_limit() {
    let mut state = DepletionState::new(500);
    state.set_initial(snapshot(970, 1010, 1_000), OrderSide::Sell, 1010);
    assert!(!state.is_timeout(1_000));
    assert!(!state.is_timeout(1_499));
    assert!(!state.is_timeout(1_500));
    assert!(state.is_timeout(1_501));
    assert!(state.is_timeout(u64::MAX));
    // A time before the onset is no timeout.
    assert!(!state.is_timeout(0));
    assert!(!state.is_timeout(999));
}

#[test]
fn timeout_of_zero_and_of_the_longest_time() {
    let mut immediate = DepletionState::new(0);
    immediate.set_initial(snapshot(1, 2, 10), OrderSide::Buy, 1);
    assert!(!immediate.is_timeout(10));
    assert!(immediate.is_timeout(11));

    let mut never = DepletionState::new(u64::MAX);
    never.set_initial(snapshot(1, 2, 0), OrderSide::Buy, 1);
    assert!(!never.is_timeout(u64::MAX));
}

#[test]
fn set_end_resolves_the_episode() {
    let mut state = DepletionState::new(500);
    let onset = snapshot(970, 1010, 1_000);
    let end = snapshot(1000, 1010, 1_200);
    state.set_initial(onset.clone(), OrderSide::Buy, 1000);
    state.set_end(end.clone(), OrderSide::Sell);
    assert!(!state.is_running());
    assert_eq!(state.depletion_side(), OrderSide::Buy);
    assert_eq!(state.recovery_side(), OrderSide::Sell);
    assert_eq!(state.initial_price(), 1000);
    assert_eq!(state.initial_book(), Some(&onset));
    assert_eq!(state.end_book(), Some(&end));
    assert_eq!(state.elapsed(), 200);
    assert!(state.is_timeout(1_501));
    assert!(!state.is_timeout(1_500));
}

#[test]
fn end_before_the_onset_took_no_time() {
    let mut state = DepletionState::new(500);
    state.set_initial(snapshot(970, 1010, 1_000), OrderSide::Buy, 1000);
    state.set_end(snapshot(1000, 1010, 400), OrderSide::Buy);
    assert_eq!(state.elapsed(), 0);
}

#[test]
fn elapsed_over_the_whole_range_of_time() {
    let mut state = DepletionState::new(500);
    state.set_initial(snapshot(970, 1010, 0), OrderSide::Buy, 1000);
    state.set_end(snapshot(1000, 1010, u64::MAX), OrderSide::Buy);
    assert_eq!(state.elapsed(), u64::MAX);
}

#[test]
fn reset_closes_the_episode_and_keeps_the_timeout() {
    let mut state = DepletionState::new(500);
    state.set_initial(snapshot(970, 1010, 1_000), OrderSide::Buy, 1000);
    state.reset();
    assert_eq!(state, DepletionState::new(500));

    state.set_initial(snapshot(970, 1010, 1_000), OrderSide::Buy, 1000);
    state.set_end(snapshot(1000, 1010, 1_200), OrderSide::Buy);
    state.reset();
    assert_eq!(state, DepletionState::new(500));
    assert!(!state.is_running());
    assert_eq!(state.elapsed(), 500);
    assert!(!state.is_timeout(u64::MAX));
}

#[test]
fn a_new_onset_replaces_the_episode() {
    let mut state = DepletionState::new(500);
    state.set_initial(snapshot(970, 1010, 1_000), OrderSide::Buy, 1000);
    let later = snapshot(1000, 1050, 2_000);
    state.set_initial(later.clone(), OrderSide::Sell, 1010);
    assert!(state.is_running());
    assert_eq!(state.depletion_side(), OrderSide::Sell);
    assert_eq!(state.initial_price(), 1010);
    assert_eq!(state.initial_book(), Some(&later));
    assert!(!state.is_timeout(2_500));
    assert!(state.is_timeout(2_501));
}
