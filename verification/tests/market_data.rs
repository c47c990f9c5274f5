use arbitrage::band::{band_of_window, isqrt_u128};
use arbitrage::dec::{Dec, DEC_UNIT};
use arbitrage::diffrate::{compute_diff_rate, DiffRateTracker};
use arbitrage::kline::{Candle, KlineWindow};
use arbitrage::model::Direction;
use arbitrage::price::parse_price;
use arbitrage::shard::{shard_of, SHARD_COUNT};

fn candle(open_time: i64, close_units: i128) -> Candle {
    Candle {
        open_time,
        open: Dec::from_units(close_units),
        high: Dec::from_units(close_units),
        low: Dec::from_units(close_units),
        close: Dec::from_units(close_units),
    }
}

#[test]
fn positive_rate_is_diff_over_from_price() {
    // from 1.0000, to 1.0600 -> diff 0.06, rate 0.0600
    let q = compute_diff_rate(
        Direction::Positive,
        Dec::from_units(DEC_UNIT),
        Dec::from_units(106_000_000),
    );
    assert_eq!(q.diff.units, 6_000_000);
    assert_eq!(q.rate.units, 6_000_000);
    assert_eq!(q.info_rate.units, 6_000_000);
}

#[test]
fn reverse_rate_is_diff_over_to_price() {
    // from 1.0600, to 1.0000 -> diff 0.06, rate 0.06
    let q = compute_diff_rate(
        Direction::Reverse,
        Dec::from_units(106_000_000),
        Dec::from_units(DEC_UNIT),
    );
    assert_eq!(q.diff.units, 6_000_000);
    assert_eq!(q.rate.units, 6_000_000);
}

#[test]
fn rate_truncates_at_four_then_three_places() {
    // diff 0.01 over 3.0: 0.00333333... -> rate 0.0033, info rate 0.003
    let q = compute_diff_rate(
        Direction::Positive,
        Dec::from_i64(3),
        Dec::from_units(3 * DEC_UNIT + 1_000_000),
    );
    assert_eq!(q.diff.units, 1_000_000);
    assert_eq!(q.rate.units, 330_000);
    assert_eq!(q.info_rate.units, 300_000);
}

#[test]
fn missing_price_fails_safe_with_zero_rate() {
    let q = compute_diff_rate(Direction::Positive, Dec::zero(), Dec::from_i64(1));
    assert_eq!(q.diff.units, DEC_UNIT);
    assert_eq!(q.rate.units, 0);
    assert_eq!(q.info_rate.units, 0);
}

#[test]
fn history_rows_are_change_triggered() {
    let mut t = DiffRateTracker::new();
    assert!(t.record(1, Dec::from_units(6_000_000)));
    assert!(!t.record(1, Dec::from_units(6_000_000)));
    assert!(t.record(1, Dec::from_units(7_000_000)));
    assert!(!t.record(1, Dec::from_units(7_000_000)));
    // other ids are tracked independently
    assert!(t.record(2, Dec::from_units(7_000_000)));
    assert!(t.record(1, Dec::from_units(6_000_000)));
}

#[test]
fn window_keeps_order_and_capacity() {
    let fetched = vec![candle(1, DEC_UNIT), candle(2, DEC_UNIT + 5), candle(3, DEC_UNIT + 9)];
    let mut w = KlineWindow::new(3, fetched).unwrap();
    assert_eq!(w.len(), 3);

    // one candle: the still-open last entry is refreshed in place
    let refreshed = vec![candle(3, DEC_UNIT + 70)];
    assert!(w.apply_increment(&refreshed));
    assert_eq!(w.len(), 3);
    assert_eq!(w.candles()[2].close.units, DEC_UNIT + 70);
    assert_eq!(w.candles()[0].open_time, 1);

    // several candles: first replaces the last, the rest evict the oldest
    let page = vec![candle(3, DEC_UNIT + 80), candle(4, DEC_UNIT + 90), candle(5, DEC_UNIT + 95)];
    assert!(w.apply_increment(&page));
    assert_eq!(w.len(), 3);
    assert_eq!(w.candles()[0].open_time, 3);
    assert_eq!(w.candles()[1].open_time, 4);
    assert_eq!(w.candles()[2].open_time, 5);
    assert_eq!(w.candles()[0].close.units, DEC_UNIT + 80);
}

#[test]
fn window_rejects_disorder() {
    assert!(KlineWindow::new(0, vec![]).is_none());
    assert!(KlineWindow::new(2, vec![candle(5, DEC_UNIT), candle(4, DEC_UNIT)]).is_none());
    assert!(KlineWindow::new(1, vec![candle(1, DEC_UNIT), candle(2, DEC_UNIT)]).is_none());

    let mut w = KlineWindow::new(3, vec![candle(1, DEC_UNIT), candle(2, DEC_UNIT)]).unwrap();
    // a page landing before the second-to-last entry cannot apply
    let stale = vec![candle(0, DEC_UNIT)];
    assert!(!w.apply_increment(&stale));
    assert_eq!(w.len(), 2);
    assert_eq!(w.candles()[0].open_time, 1);
    // an empty page is a no-op
    assert!(w.apply_increment(&vec![]));
    assert_eq!(w.len(), 2);
}

#[test]
fn empty_window_takes_no_increment() {
    let mut w = KlineWindow::new(5, vec![]).unwrap();
    assert!(!w.apply_increment(&vec![candle(1, DEC_UNIT)]));
    assert_eq!(w.len(), 0);
}

#[test]
fn isqrt_exact_values() {
    assert_eq!(isqrt_u128(0), 0);
    assert_eq!(isqrt_u128(1), 1);
    assert_eq!(isqrt_u128(3), 1);
    assert_eq!(isqrt_u128(4), 2);
    assert_eq!(isqrt_u128(10_000_000_000_000_000), 100_000_000);
    assert_eq!(isqrt_u128(u128::MAX), 0xFFFF_FFFF_FFFF_FFFF);
}

#[test]
fn band_over_two_closes() {
    // closes 1.0 and 3.0: mean 2.0, deviation 1.0, k = 2 -> band 0.0 .. 4.0
    let w = KlineWindow::new(10, vec![candle(1, DEC_UNIT), candle(2, 3 * DEC_UNIT)]).unwrap();
    let b = band_of_window(&w, 20, 2, 4).unwrap();
    assert_eq!(b.upper.units, 4 * DEC_UNIT);
    assert_eq!(b.lower.units, 0);
}

#[test]
fn band_of_flat_closes_is_flat() {
    let w = KlineWindow::new(10, vec![candle(1, DEC_UNIT), candle(2, DEC_UNIT)]).unwrap();
    let b = band_of_window(&w, 20, 2, 4).unwrap();
    assert_eq!(b.upper.units, DEC_UNIT);
    assert_eq!(b.lower.units, DEC_UNIT);
}

#[test]
fn band_needs_a_populated_window() {
    let w = KlineWindow::new(10, vec![]).unwrap();
    assert!(band_of_window(&w, 20, 2, 4).is_none());
}

#[test]
fn sharding_is_deterministic_by_id() {
    assert_eq!(shard_of(12, SHARD_COUNT), 2);
    assert_eq!(shard_of(12, SHARD_COUNT), 2);
    assert_eq!(shard_of(0, SHARD_COUNT), 0);
    assert_eq!(shard_of(19, SHARD_COUNT), 9);
    assert_eq!(shard_of(20, SHARD_COUNT), 0);
}

#[test]
fn price_strings_decode_exactly() {
    assert_eq!(parse_price("1.0600").unwrap().units, 106_000_000);
    assert_eq!(parse_price("0.9990").unwrap().units, 99_900_000);
    assert_eq!(parse_price("42").unwrap().units, 42 * DEC_UNIT);
    assert_eq!(parse_price(".5").unwrap().units, 50_000_000);
    assert_eq!(parse_price("5.").unwrap().units, 5 * DEC_UNIT);
    assert_eq!(parse_price("0.00000001").unwrap().units, 1);
    assert_eq!(parse_price("10000000000").unwrap().units, 1_000_000_000_000_000_000);
}

#[test]
fn bad_price_strings_are_rejected() {
    assert!(parse_price("").is_none());
    assert!(parse_price(".").is_none());
    assert!(parse_price("1.2.3").is_none());
    assert!(parse_price("-1.0").is_none());
    assert!(parse_price("1,06").is_none());
    assert!(parse_price("0.000000001").is_none());  // nine fractional places
    assert!(parse_price("10000000001").is_none());  // over the envelope
    assert!(parse_price("1e3").is_none());
}

#[test]
fn band_uses_only_the_last_period_closes() {
    // period 2 over three candles: the first close is outside the window
    let w = KlineWindow::new(
        10,
        vec![candle(1, 9 * DEC_UNIT), candle(2, DEC_UNIT), candle(3, 3 * DEC_UNIT)],
    )
    .unwrap();
    let b = band_of_window(&w, 2, 2, 4).unwrap();
    assert_eq!(b.upper.units, 4 * DEC_UNIT);
    assert_eq!(b.lower.units, 0);
}
