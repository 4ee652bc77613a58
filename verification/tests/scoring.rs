use market_resilience::book::{BookSnapshot, PriceLevel};
use market_resilience::config::Config;
use market_resilience::fixed::{floor_div, unit_fraction_of, MAX_DENOMINATOR, UNIT};
use market_resilience::scoring::{normalized_metrics, score_of};
use market_resilience::wide::{full_product, magnitude_of, product_gt, product_le};

fn levels(prices: &[i64]) -> Vec<PriceLevel> {
    prices.iter().map(|p| PriceLevel { price: *p, size: 1 }).collect()
}

fn snapshot(bids: &[i64], asks: &[i64]) -> BookSnapshot {
    BookSnapshot::new(levels(bids), levels(asks), 0)
}

fn config(time: i64, depth: i64, spread: i64, same: i64, opposite: i64) -> Config {
    Config {
        timeout: 500_000_000,
        spread_window_size: 50,
        levels_to_consume: 3,
        spread_increase_threshold: UNIT,
        strong_resilience_threshold: 700_000_000,
        weak_resilience_threshold: 300_000_000,
        time_weight: time,
        depth_weight: depth,
        spread_weight: spread,
        same_side_bias: same,
        opposite_side_bias: opposite,
    }
}

#[test]
fn unit_fraction_of_proper_fractions() {
    assert_eq!(unit_fraction_of(1, 2), 500_000_000);
    assert_eq!(unit_fraction_of(3, 4), 750_000_000);
    assert_eq!(unit_fraction_of(1, 3), 333_333_333);
    assert_eq!(unit_fraction_of(2, 3), 666_666_666);
    assert_eq!(unit_fraction_of(1, 1_000_000_000), 1);
    assert_eq!(unit_fraction_of(1, 1_000_000_001), 0);
    assert_eq!(unit_fraction_of(999_999_999, 1_000_000_000), 999_999_999);
}

#[test]
fn unit_fraction_of_is_limited_to_the_unit_interval() {
    assert_eq!(unit_fraction_of(5, 5), UNIT);
    assert_eq!(unit_fraction_of(7, 5), UNIT);
    assert_eq!(unit_fraction_of(i128::MAX, 1), UNIT);
    assert_eq!(unit_fraction_of(0, 5), 0);
    assert_eq!(unit_fraction_of(-1, 5), 0);
    assert_eq!(unit_fraction_of(i128::MIN, 5), 0);
}

#[test]
fn unit_fraction_of_a_denominator_that_is_not_positive() {
    assert_eq!(unit_fraction_of(1, 0), 0);
    assert_eq!(unit_fraction_of(0, 0), 0);
    assert_eq!(unit_fraction_of(1, -1), 0);
    assert_eq!(unit_fraction_of(-1, -2), 0);
    assert_eq!(unit_fraction_of(5, i128::MIN), 0);
}

#[test]
fn unit_fraction_of_the_largest_denominator() {
    assert_eq!(unit_fraction_of(MAX_DENOMINATOR - 1, MAX_DENOMINATOR), 999_999_999);
    assert_eq!(unit_fraction_of(MAX_DENOMINATOR, MAX_DENOMINATOR), UNIT);
    assert_eq!(unit_fraction_of(1, MAX_DENOMINATOR), 0);
}

#[test]
fn floor_div_rounds_down() {
    assert_eq!(floor_div(7, 2), 3);
    assert_eq!(floor_div(-7, 2), -4);
    assert_eq!(floor_div(-8, 2), -4);
    assert_eq!(floor_div(-1, 1_000_000_000), -1);
    assert_eq!(floor_div(0, 3), 0);
    assert_eq!(floor_div(-1, 1), -1);
    assert_eq!(floor_div(i128::MIN, 1), i128::MIN);
    assert_eq!(floor_div(i128::MAX, 1), i128::MAX);
    assert_eq!(floor_div(i128::MIN, i128::MAX), -2);
    assert_eq!(floor_div(i128::MIN, 2), i128::MIN / 2);
}

#[test]
fn magnitude_of_signed_values() {
    assert_eq!(magnitude_of(0), 0);
    assert_eq!(magnitude_of(5), 5);
    assert_eq!(magnitude_of(-5), 5);
    assert_eq!(magnitude_of(i128::MAX), i128::MAX as u128);
    assert_eq!(magnitude_of(i128::MIN), 1u128 << 127);
}

#[test]
fn full_product_in_two_halves() {
    assert_eq!(full_product(0, u128::MAX), (0, 0));
    assert_eq!(full_product(6, 7), (0, 42));
    assert_eq!(full_product(1u128 << 64, 1u128 << 64), (1, 0));
    assert_eq!(full_product(u128::MAX, 2), (1, u128::MAX - 1));
    assert_eq!(full_product(u128::MAX, u128::MAX), (u128::MAX - 1, 1));
    assert_eq!(
        full_product((1u128 << 64) + 1, (1u128 << 64) + 1),
        (1, (1u128 << 65) + 1)
    );
    assert_eq!(full_product(u128::MAX, 1u128 << 64), ((1u128 << 64) - 1, u128::MAX << 64));
}

#[test]
fn products_compare_exactly() {
    assert!(product_le(2, 3, 3, 2));
    assert!(!product_gt(2, 3, 3, 2));
    assert!(product_le(2, 3, 7, 1));
    assert!(product_gt(7, 1, 2, 3));
    assert!(product_le(-2, 3, 2, 3));
    assert!(product_gt(-2, -3, 5, 1));
    assert!(product_le(-2, 3, -3, 2));
    assert!(product_le(-7, 1, -2, 3));
    assert!(!product_le(-2, 3, -7, 1));
    assert!(product_le(0, i128::MIN, 0, i128::MAX));
    assert!(product_le(0, -5, 5, 0));
    assert!(!product_gt(-1, 0, 0, 1));
    assert!(product_gt(1, 1, -1, 1));
}

#[test]
fn products_beyond_128_bits_compare_exactly() {
    assert!(product_le(i128::MAX, i128::MAX, i128::MIN, i128::MIN));
    assert!(!product_le(i128::MIN, i128::MIN, i128::MAX, i128::MAX));
    assert!(product_le(i128::MIN, i128::MAX, i128::MAX, i128::MAX));
    assert!(product_le(i128::MIN, i128::MAX, i128::MAX, i128::MIN));
    assert!(product_gt(i128::MAX, i128::MIN + 1, i128::MAX, i128::MIN));
    assert!(product_gt(i128::MAX, i128::MAX, i128::MAX, i128::MAX - 1));
    assert!(!product_gt(i128::MAX, i128::MAX - 1, i128::MAX - 1, i128::MAX));
    // (2^100 + 1) * (2^100 - 1) = 2^200 - 1 < 2^100 * 2^100
    let p = 1i128 << 100;
    assert!(product_le(p + 1, p - 1, p, p));
    assert!(!product_le(p, p, p + 1, p - 1));
    assert!(product_gt(-(p + 1), p - 1, -p, p));
}

#[test]
fn normalized_metrics_of_a_recovery() {
    let initial = snapshot(&[1000, 990, 980], &[1040, 1050, 1060]);
    let end = snapshot(&[1000, 990, 980], &[1010, 1020, 1030]);
    assert_eq!(
        normalized_metrics(&initial, &end, 100, 1000),
        (900_000_000, 750_000_000, UNIT)
    );
    assert_eq!(normalized_metrics(&initial, &end, 0, 1000).0, UNIT);
    assert_eq!(normalized_metrics(&initial, &end, 999, 1000).0, 1_000_000);
    assert_eq!(normalized_metrics(&initial, &end, 1000, 1000).0, 0);
    assert_eq!(normalized_metrics(&initial, &end, u64::MAX, 1000).0, 0);
    assert_eq!(normalized_metrics(&initial, &end, 1, u64::MAX).0, 999_999_999);
    assert_eq!(normalized_metrics(&initial, &end, 0, 0).0, 0);
    assert_eq!(normalized_metrics(&initial, &end, 5, 0).0, 0);
}

#[test]
fn spread_recovery_of_degenerate_spreads() {
    let wide = snapshot(&[1000], &[1040]);
    let narrow = snapshot(&[1000], &[1010]);
    let wider = snapshot(&[1000], &[1080]);
    let crossed = snapshot(&[1000], &[990]);
    let locked = snapshot(&[1000], &[1000]);
    let one_sided = snapshot(&[1000], &[]);
    assert_eq!(normalized_metrics(&wide, &narrow, 0, 1).1, 750_000_000);
    assert_eq!(normalized_metrics(&wide, &wide, 0, 1).1, 0);
    assert_eq!(normalized_metrics(&wide, &wider, 0, 1).1, 0);
    assert_eq!(normalized_metrics(&wide, &locked, 0, 1).1, UNIT);
    assert_eq!(normalized_metrics(&wide, &crossed, 0, 1).1, UNIT);
    assert_eq!(normalized_metrics(&locked, &narrow, 0, 1).1, 0);
    assert_eq!(normalized_metrics(&crossed, &narrow, 0, 1).1, 0);
    assert_eq!(normalized_metrics(&crossed, &crossed, 0, 1).1, 0);
    assert_eq!(normalized_metrics(&one_sided, &narrow, 0, 1).1, 0);
    assert_eq!(normalized_metrics(&wide, &one_sided, 0, 1).1, 0);
    let widest = snapshot(&[i64::MIN], &[i64::MAX]);
    let narrowest = snapshot(&[i64::MAX], &[i64::MIN]);
    assert_eq!(normalized_metrics(&widest, &narrowest, 0, 1).1, UNIT);
    assert_eq!(normalized_metrics(&widest, &locked, 0, 1).1, UNIT);
    assert_eq!(normalized_metrics(&narrowest, &widest, 0, 1).1, 0);
}

#[test]
fn depth_recovery_counts_levels_not_sizes() {
    let six = snapshot(&[3, 2, 1], &[4, 5, 6]);
    let four = snapshot(&[3, 2], &[4, 5]);
    let one = snapshot(&[], &[4]);
    let none = snapshot(&[], &[]);
    assert_eq!(normalized_metrics(&six, &four, 0, 1).2, 666_666_666);
    assert_eq!(normalized_metrics(&six, &six, 0, 1).2, UNIT);
    assert_eq!(normalized_metrics(&four, &six, 0, 1).2, UNIT);
    assert_eq!(normalized_metrics(&six, &one, 0, 1).2, 166_666_666);
    assert_eq!(normalized_metrics(&six, &none, 0, 1).2, 0);
    assert_eq!(normalized_metrics(&none, &six, 0, 1).2, 0);
    assert_eq!(normalized_metrics(&none, &none, 0, 1).2, 0);
    let heavy = BookSnapshot::new(
        vec![PriceLevel { price: 3, size: u64::MAX }],
        vec![PriceLevel { price: 4, size: 0 }],
        0,
    );
    assert_eq!(normalized_metrics(&four, &heavy, 0, 1).2, 500_000_000);
}

#[test]
fn score_is_the_weighted_sum_and_the_bias() {
    let c = config(500_000_000, 0, 500_000_000, 100_000_000, -200_000_000);
    assert_eq!(score_of(&c, 900_000_000, UNIT, 750_000_000, true), 925_000_000);
    assert_eq!(score_of(&c, 900_000_000, UNIT, 750_000_000, false), 625_000_000);
    let d = config(200_000_000, 300_000_000, 400_000_000, 0, 0);
    // 0.2 * 0.5 + 0.3 * 0.25 + 0.4 * 0.125
    assert_eq!(score_of(&d, 500_000_000, 250_000_000, 125_000_000, true), 225_000_000);
    assert_eq!(score_of(&d, 0, 0, 0, true), 0);
    assert_eq!(score_of(&d, UNIT, UNIT, UNIT, false), 900_000_000);
}

#[test]
fn score_is_limited_to_the_unit_interval() {
    let c = config(500_000_000, 0, 500_000_000, 500_000_000, -500_000_000);
    assert_eq!(score_of(&c, 900_000_000, UNIT, 750_000_000, true), UNIT);
    assert_eq!(score_of(&c, 900_000_000, UNIT, 750_000_000, false), 325_000_000);
    assert_eq!(score_of(&c, 0, 0, 500_000_000, false), 0);
    assert_eq!(score_of(&c, UNIT, UNIT, UNIT, true), UNIT);
    let high = config(i64::MAX, i64::MAX, i64::MAX, i64::MAX, i64::MAX);
    assert_eq!(score_of(&high, UNIT, UNIT, UNIT, true), UNIT);
    assert_eq!(score_of(&high, 0, 0, 0, false), UNIT);
    let low = config(i64::MIN, i64::MIN, i64::MIN, i64::MIN, i64::MIN);
    assert_eq!(score_of(&low, UNIT, UNIT, UNIT, true), 0);
    assert_eq!(score_of(&low, 0, 0, 0, false), 0);
}

#[test]
fn score_rounds_the_weighted_sum_down() {
    // 1 * 0.999999999 / 10^9 is below one billionth.
    let c = config(1, 0, 0, 0, 0);
    assert_eq!(score_of(&c, 999_999_999, 0, 0, true), 0);
    assert_eq!(score_of(&c, UNIT, 0, 0, true), 1);
    // A negative sum is rounded down too, and the bias lifts it back.
    let n = config(-1, 0, 0, 2, 1);
    assert_eq!(score_of(&n, 1, 0, 0, true), 1);
    assert_eq!(score_of(&n, 1, 0, 0, false), 0);
    assert_eq!(score_of(&n, 0, 0, 0, false), 1);
}
