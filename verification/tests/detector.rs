use market_resilience::book::{rank_price, BookSnapshot, PriceLevel};
use market_resilience::classifier::classify_recovery;
use market_resilience::detector::detect_depletion;
use market_resilience::indicator::MarketResilienceIndicator;
use market_resilience::side::OrderSide;

/// A price with five decimal places.
fn px(units: i64, hundred_thousandths: i64) -> i64 {
    units * 100_000 + hundred_thousandths
}

fn levels(prices: &[i64]) -> Vec<PriceLevel> {
    prices.iter().map(|p| PriceLevel { price: *p, size: 10 }).collect()
}

fn snapshot(bids: &[i64], asks: &[i64]) -> BookSnapshot {
    BookSnapshot::new(levels(bids), levels(asks), 0)
}

#[test]
fn test_detect_depletion_bid_side() {
    let indicator = MarketResilienceIndicator::new(
        Some(500),
        Some(50),
        Some(3),
        Some(1_000_000_000),
        Some(700_000_000),
        Some(300_000_000),
        Some(500_000_000),
        Some(0),
        Some(500_000_000),
        Some(500_000_000),
        Some(-500_000_000),
    );

    let book1 = snapshot(
        &[px(10, 0), px(9, 90_000), px(9, 80_000)],
        &[px(10, 10_000), px(10, 20_000), px(10, 30_000)],
    );
    let book2 = snapshot(
        &[px(9, 70_000), px(9, 60_000), px(9, 50_000)],
        &[px(10, 10_000), px(10, 20_000), px(10, 30_000)],
    );

    if let Some((side, price)) = indicator.detect_depletion(&book1, &book2) {
        assert_eq!(side, OrderSide::Buy);
        assert_eq!(price, px(10, 0));
    } else {
        panic!("Should detect bid side depletion");
    }
}

#[test]
fn test_detect_depletion_ask_side() {
    let indicator = MarketResilienceIndicator::new(
        Some(500),
        Some(50),
        Some(3),
        Some(1_000_000_000),
        Some(700_000_000),
        Some(300_000_000),
        Some(500_000_000),
        Some(0),
        Some(500_000_000),
        Some(500_000_000),
        Some(-500_000_000),
    );

    let book1 = snapshot(
        &[px(9, 80_000), px(9, 70_000), px(9, 60_000)],
        &[px(10, 0), px(10, 10_000), px(10, 20_000)],
    );
    let book2 = snapshot(
        &[px(9, 80_000), px(9, 70_000), px(9, 60_000)],
        &[px(10, 30_000), px(10, 40_000), px(10, 50_000)],
    );

    if let Some((side, price)) = indicator.detect_depletion(&book1, &book2) {
        assert_eq!(side, OrderSide::Sell);
        assert_eq!(price, px(10, 0));
    } else {
        panic!("Should detect ask side depletion");
    }
}

#[test]
fn best_bid_at_the_threshold_is_no_depletion() {
    let previous = snapshot(&[1000, 990, 980], &[1010, 1020, 1030]);
    let at = snapshot(&[980, 970], &[1010]);
    let below = snapshot(&[979, 970], &[1010]);
    assert_eq!(detect_depletion(&previous, &at, 3), None);
    assert_eq!(detect_depletion(&previous, &below, 3), Some((OrderSide::Buy, 1000)));
}

#[test]
fn best_ask_at_the_threshold_is_no_depletion() {
    let previous = snapshot(&[1000, 990, 980], &[1010, 1020, 1030]);
    let at = snapshot(&[1000], &[1030, 1040]);
    let above = snapshot(&[1000], &[1031, 1040]);
    assert_eq!(detect_depletion(&previous, &at, 3), None);
    assert_eq!(detect_depletion(&previous, &above, 3), Some((OrderSide::Sell, 1010)));
}

#[test]
fn rank_counts_from_the_best_level() {
    let previous = snapshot(&[1000, 990, 980], &[1010, 1020, 1030]);
    let current = snapshot(&[995], &[1015]);
    assert_eq!(detect_depletion(&previous, &current, 1), Some((OrderSide::Buy, 1000)));
    assert_eq!(detect_depletion(&previous, &current, 2), None);
    let deeper = snapshot(&[985], &[1015]);
    assert_eq!(detect_depletion(&previous, &deeper, 2), Some((OrderSide::Buy, 1000)));
    assert_eq!(detect_depletion(&previous, &deeper, 3), None);
}

#[test]
fn side_with_too_few_levels_is_not_checked() {
    let previous = snapshot(&[1000, 990], &[1010, 1020, 1030]);
    // The best bid is far below, but the previous book has only two bids.
    let current = snapshot(&[500], &[1010]);
    assert_eq!(detect_depletion(&previous, &current, 3), None);
    // The asks are still checked.
    let lifted = snapshot(&[500], &[1040]);
    assert_eq!(detect_depletion(&previous, &lifted, 3), Some((OrderSide::Sell, 1010)));
    assert_eq!(detect_depletion(&previous, &lifted, usize::MAX), None);
}

#[test]
fn bid_side_goes_first_when_both_are_depleted() {
    let previous = snapshot(&[1000, 990, 980], &[1010, 1020, 1030]);
    let current = snapshot(&[970], &[1040]);
    assert_eq!(detect_depletion(&previous, &current, 3), Some((OrderSide::Buy, 1000)));
}

#[test]
fn empty_books_show_no_depletion() {
    let full = snapshot(&[1000, 990, 980], &[1010, 1020, 1030]);
    let empty = snapshot(&[], &[]);
    assert_eq!(detect_depletion(&full, &empty, 3), None);
    assert_eq!(detect_depletion(&empty, &full, 3), None);
    assert_eq!(detect_depletion(&empty, &empty, 1), None);
    // One side gone, the other lifted.
    let asks_only = snapshot(&[], &[1040]);
    assert_eq!(detect_depletion(&full, &asks_only, 3), Some((OrderSide::Sell, 1010)));
}

#[test]
fn prices_compare_as_plain_numbers() {
    let previous = snapshot(&[-1000, -1010, -1020], &[-1010, -1000, -990]);
    let current = snapshot(&[-1030], &[-1010]);
    assert_eq!(detect_depletion(&previous, &current, 3), Some((OrderSide::Buy, -1000)));
    let extreme_previous = snapshot(&[i64::MAX, 0, i64::MIN + 1], &[i64::MIN, 0, i64::MAX - 1]);
    let extreme = snapshot(&[i64::MIN], &[i64::MAX]);
    assert_eq!(
        detect_depletion(&extreme_previous, &extreme, 3),
        Some((OrderSide::Buy, i64::MAX))
    );
    let lifted = snapshot(&[], &[i64::MAX]);
    assert_eq!(
        detect_depletion(&extreme_previous, &lifted, 3),
        Some((OrderSide::Sell, i64::MIN))
    );
}

#[test]
fn rank_price_reads_one_level() {
    let side = levels(&[30, 20, 10]);
    assert_eq!(rank_price(&side, 0), None);
    assert_eq!(rank_price(&side, 1), Some(30));
    assert_eq!(rank_price(&side, 3), Some(10));
    assert_eq!(rank_price(&side, 4), None);
    assert_eq!(rank_price(&Vec::new(), 1), None);
}

#[test]
fn recovery_after_a_bid_depletion() {
    let back = snapshot(&[1000], &[1010]);
    let higher = snapshot(&[1005], &[1010]);
    let lower = snapshot(&[999], &[1010]);
    let no_bids = snapshot(&[], &[1010]);
    assert_eq!(classify_recovery(OrderSide::Buy, 1000, &back), OrderSide::Buy);
    assert_eq!(classify_recovery(OrderSide::Buy, 1000, &higher), OrderSide::Buy);
    assert_eq!(classify_recovery(OrderSide::Buy, 1000, &lower), OrderSide::Sell);
    assert_eq!(classify_recovery(OrderSide::Buy, 1000, &no_bids), OrderSide::NoOrderSide);
}

#[test]
fn recovery_after_an_ask_depletion() {
    let back = snapshot(&[1000], &[1010]);
    let lower = snapshot(&[1000], &[1005]);
    let higher = snapshot(&[1000], &[1011]);
    let no_asks = snapshot(&[1000], &[]);
    assert_eq!(classify_recovery(OrderSide::Sell, 1010, &back), OrderSide::Sell);
    assert_eq!(classify_recovery(OrderSide::Sell, 1010, &lower), OrderSide::Sell);
    assert_eq!(classify_recovery(OrderSide::Sell, 1010, &higher), OrderSide::Buy);
    assert_eq!(classify_recovery(OrderSide::Sell, 1010, &no_asks), OrderSide::NoOrderSide);
}

#[test]
fn no_recovery_without_a_depletion() {
    let book = snapshot(&[1000], &[1010]);
    assert_eq!(classify_recovery(OrderSide::NoOrderSide, 0, &book), OrderSide::NoOrderSide);
}

#[test]
fn snapshot_reads() {
    let book = BookSnapshot::new(levels(&[1000, 990]), levels(&[1010, 1020, 1030]), 77);
    assert_eq!(book.best_bid_price(), Some(1000));
    assert_eq!(book.best_ask_price(), Some(1010));
    assert_eq!(book.spread(), Some(10));
    assert_eq!(book.level_count(), 5);
    assert_eq!(book.ts_last, 77);
    let copy = book.clone();
    assert_eq!(copy, book);

    let crossed = snapshot(&[1010], &[1000]);
    assert_eq!(crossed.spread(), Some(-10));

    let bids_only = snapshot(&[1000], &[]);
    assert_eq!(bids_only.best_bid_price(), Some(1000));
    assert_eq!(bids_only.best_ask_price(), None);
    assert_eq!(bids_only.spread(), None);
    assert_eq!(bids_only.level_count(), 1);

    let empty = snapshot(&[], &[]);
    assert_eq!(empty.best_bid_price(), None);
    assert_eq!(empty.spread(), None);
    assert_eq!(empty.level_count(), 0);

    let widest = snapshot(&[i64::MIN], &[i64::MAX]);
    assert_eq!(widest.spread(), Some(i64::MAX as i128 - i64::MIN as i128));
    let narrowest = snapshot(&[i64::MAX], &[i64::MIN]);
    assert_eq!(narrowest.spread(), Some(i64::MIN as i128 - i64::MAX as i128));
}
