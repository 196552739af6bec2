use ta::arith::{floor_div, isqrt};
use ta::commodity_channel_index::CommodityChannelIndex;
use ta::simple_moving_average::SimpleMovingAverage;
use ta::trend_magic::{cross, crossover, crossunder, TrendMagic};
use ta::true_range::TrueRange;
use ta::{Bar, TaError};

fn bar(high: u32, low: u32, close: u32) -> Bar {
    Bar { open: close, high, low, close, volume: 100 }
}

#[test]
fn trend_magic_new_validates_periods() {
    assert!(matches!(TrendMagic::new(0, 1000, 20), Err(TaError::InvalidParameter)));
    assert!(matches!(TrendMagic::new(5, 1000, 0), Err(TaError::InvalidParameter)));
    assert!(TrendMagic::new(1, 1000, 1).is_ok());
}

#[test]
fn trend_magic_first_bar_crosses_zero_line() {
    // On the first bar everything previous is zero, so a bar whose low is at or
    // above the new line reports a low crossover.
    let mut tm = TrendMagic::new(1, 1000, 1).unwrap();
    // tr = 10, atr = 10, cci = 0 (single value): line = low - 10 = 90
    let (close_cross, low_cross, high_cross) = tm.next(&bar(110, 100, 105));
    assert!(close_cross);
    assert!(low_cross);
    assert!(!high_cross);
}

#[test]
fn trend_magic_signals_on_break_below_line() {
    let mut tm = TrendMagic::new(1, 1000, 2).unwrap();
    // line 90
    tm.next(&bar(110, 100, 105));
    // rising: true range 15, index positive, support 112 - 15 = 97 lifts the line to 97
    assert_eq!(tm.next(&bar(120, 112, 118)), (false, false, false));
    // falling: true range 38, index negative, resistance 100 + 38 = 138 is above the
    // line, so it holds at 97; the close falls from 118 to 82 through it
    assert_eq!(tm.next(&bar(100, 80, 82)), (true, false, false));
}

#[test]
fn trend_magic_reset_matches_fresh() {
    let bars = vec![bar(110, 100, 105), bar(120, 112, 118), bar(100, 80, 82), bar(95, 85, 90)];
    let mut used = TrendMagic::new(2, 1500, 3).unwrap();
    for b in &bars {
        used.next(b);
    }
    used.reset();
    let mut fresh = TrendMagic::new(2, 1500, 3).unwrap();
    for b in &bars {
        assert_eq!(used.next(b), fresh.next(b));
    }
}

#[test]
fn trend_magic_default_runs() {
    let mut tm = TrendMagic::default();
    let mut other = TrendMagic::new(5, 1000, 20).unwrap();
    for b in [bar(110, 100, 105), bar(120, 112, 118), bar(100, 80, 82)] {
        assert_eq!(tm.next(&b), other.next(&b));
    }
}

#[test]
fn cross_helpers_follow_touch_rules() {
    assert!(crossover(1, 2, 3, 2));
    assert!(crossover(2, 2, 2, 2));
    assert!(!crossover(3, 2, 3, 2));
    assert!(crossunder(3, 2, 1, 2));
    assert!(!crossunder(1, 2, 1, 2));
    assert!(cross(3, 2, 1, 2));
    assert!(cross(1, 2, 3, 2));
    assert!(!cross(1, 2, 1, 2));
    assert!(!cross(5, 2, 6, 3));
}

#[test]
fn true_range_uses_previous_close() {
    let mut tr = TrueRange::new();
    assert_eq!(tr.next(&bar(110, 100, 105)), 10);
    // gap up: high - previous close = 125 - 105
    assert_eq!(tr.next(&bar(125, 120, 122)), 20);
    // gap down: previous close - low = 122 - 90
    assert_eq!(tr.next(&bar(95, 90, 92)), 32);
    tr.reset();
    assert_eq!(tr.next(&bar(95, 90, 92)), 5);
}

#[test]
fn moving_average_slides() {
    assert!(matches!(SimpleMovingAverage::new(0), Err(TaError::InvalidParameter)));
    let mut sma = SimpleMovingAverage::new(3).unwrap();
    assert_eq!(sma.next(4), 4);
    assert_eq!(sma.next(5), 4);
    assert_eq!(sma.next(9), 6);
    assert_eq!(sma.next(13), 9);
    sma.reset();
    assert_eq!(sma.next(7), 7);
}

#[test]
fn commodity_channel_index_values() {
    assert!(matches!(CommodityChannelIndex::new(0), Err(TaError::InvalidParameter)));
    let mut cci = CommodityChannelIndex::new(3).unwrap();
    // a single value has no deviation
    assert_eq!(cci.next(&bar(10, 10, 10)), 0);
    // sums 30 and 60: mean 45, deviation 15, index (60 - 45) / (0.015 * 15) = 66.67
    assert_eq!(cci.next(&bar(20, 20, 20)), 66);
    // the falling side rounds down: sums 60 and 30 give -66.67
    let mut down = CommodityChannelIndex::new(2).unwrap();
    down.next(&bar(20, 20, 20));
    assert_eq!(down.next(&bar(10, 10, 10)), -67);
}

#[test]
fn integer_helpers() {
    assert_eq!(isqrt(0), 0);
    assert_eq!(isqrt(24), 4);
    assert_eq!(isqrt(25), 5);
    assert_eq!(isqrt(u128::MAX), u64::MAX);
    assert_eq!(floor_div(7, 2), 3);
    assert_eq!(floor_div(-7, 2), -4);
    assert_eq!(floor_div(-6, 2), -3);
}
