use ta::{
    Bar, TaError, VolumeWeightedAveragePrice, VolumeWeightedAveragePriceBands,
};
use VolumeWeightedAveragePriceBands::{Down, Up};

const SCALE: f64 = 1000.0;

fn ticks(x: f64) -> u32 {
    (x * SCALE).round() as u32
}

fn price(t: i128) -> f64 {
    t as f64 / SCALE
}

fn generate_bar(record: (f64, f64, f64, f64)) -> Bar {
    let (high, low, close, volume) = record;
    // open doesn't matter in our context
    Bar {
        open: ticks(high),
        high: ticks(high),
        low: ticks(low),
        close: ticks(close),
        volume: volume as u32,
    }
}

fn assert_near(actual: f64, expected: f64, tolerance: f64) {
    assert!(
        (actual - expected).abs() <= tolerance,
        "{} is not within {} of {}",
        actual,
        tolerance,
        expected
    );
}

#[test]
fn test_new() {
    assert!(VolumeWeightedAveragePrice::new(0).is_err());
    assert!(VolumeWeightedAveragePrice::new(1).is_ok());
}

fn generate_bars_next() -> Vec<Bar> {
    let values = vec![
        (150.39, 150.22, 150.31, 380.0),
        (150.47, 150.38, 150.41, 5270.0),
        (150.49, 150.33, 150.46, 990.0),
        (150.63, 150.44, 150.61, 1031.0),
        (151.10, 150.67, 151.01, 2675.0),
        (151.30, 150.77, 150.80, 3334.0),
        (150.95, 150.78, 150.93, 430.0),
        (151.12, 150.80, 151.10, 220.0),
        (151.27, 151.01, 151.25, 900.0),
        (151.35, 151.26, 151.33, 4088.0),
        (151.52, 151.32, 151.51, 650.0),
        (151.69, 151.49, 151.67, 1582.0),
        (152.03, 151.66, 151.80, 1892.0),
        (151.90, 151.75, 151.88, 2200.0),
        (152.15, 151.86, 152.10, 3043.0),
        (152.43, 152.03, 152.33, 675.0),
        (152.57, 152.25, 152.50, 1243.0),
    ];
    values.into_iter().map(generate_bar).collect()
}

#[test]
fn test_next() {
    let bars = generate_bars_next();
    let mut vwap = VolumeWeightedAveragePrice::new(18).unwrap();
    let result = vec![
        150.31, 150.41, 150.41, 150.43, 150.56, 150.66, 150.66, 150.67, 150.70, 150.83, 150.85,
        150.91, 150.98, 151.05, 151.16, 151.18, 151.24,
    ];
    for (r, b) in result.into_iter().zip(bars) {
        assert_near(price(vwap.next(b) as i128), r, 0.01);
    }
}

fn generate_bars_std_dev() -> Vec<Bar> {
    let values = vec![
        // high    ,low     ,close   ,Volume
        (76.529, 76.529, 76.529, 1.0),
        (76.073, 76.043, 76.073, 121.0),
        (76.323, 76.053, 76.193, 181.0),
        (76.208, 75.918, 75.988, 146.0),
        (76.088, 75.883, 76.058, 149.0),
        (76.183, 76.063, 76.153, 93.0),
        (76.178, 76.098, 76.158, 75.0),
        (76.153, 75.984, 76.034, 141.0),
        (76.092, 75.903, 75.929, 205.0),
        (76.017, 75.812, 75.958, 204.0),
        (76.012, 75.922, 75.937, 107.0),
        (76.049, 75.943, 75.977, 122.0),
        (76.069, 75.938, 76.048, 82.0),
        (76.117, 75.997, 76.068, 148.0),
        (76.167, 76.027, 76.093, 200.0),
        (76.109, 76.048, 76.104, 123.0),
    ];
    values.into_iter().map(generate_bar).collect()
}

#[test]
fn test_next_std_dev() {
    let bars = generate_bars_std_dev();
    let mut vwap = VolumeWeightedAveragePrice::new(18).unwrap();

    let result = vec![
        76.529,
        76.06681967213113,
        76.14020352035202,
        76.1069703043801,
        76.08272575250835,
        76.08949204052098,
        76.09489425587466,
        76.0890033076075,
        76.06792505995203,
        76.04638956433638,
        76.03966807214805,
        76.03571974110032,
        76.03484347469781,
        76.03699661971831,
        76.04293789029535,
        76.0455211312361,
    ];

    let result_vwap_offset_2 = vec![
        // upper, lower (bands)
        (76.529, 76.529),
        (76.15085245902783, 75.98278688523443),
        (76.27197010203601, 76.00843693866803),
        (76.25148729829992, 75.96245331046028),
        (76.23361138086482, 75.93184012415189),
        (76.23399096258677, 75.94499311845519),
        (76.23600089361555, 75.95378761813377),
        (76.22155470994076, 75.95645190527424),
        (76.21690062084983, 75.91894949905424),
        (76.21628813403485, 75.8764909946379),
        (76.20971995401032, 75.86961619028577),
        (76.20113288848688, 75.87030659371376),
        (76.19621376886145, 75.87347318053416),
        (76.19215131179875, 75.88184192763786),
        (76.19422672735257, 75.89164905323813),
        (76.19376091244948, 75.89728135002272),
    ];

    let result_vwap_offset_3 = vec![
        // upper, lower (bands)
        (76.529, 76.529),
        (76.19286885247618, 75.94077049178608),
        (76.33785339287802, 75.94255364782602),
        (76.32374579525984, 75.89019481350036),
        (76.30905419504305, 75.85639730997366),
        (76.30624042361966, 75.8727436574223),
        (76.30655421248599, 75.88323429926334),
        (76.28783041110741, 75.89017620410759),
        (76.29138840129872, 75.84446171860534),
        (76.30123741888409, 75.79154170978867),
        (76.29474589494147, 75.78459024935462),
        (76.28383946218017, 75.78760002002048),
        (76.27689891594328, 75.79278803345234),
        (76.26972865783898, 75.80426458159764),
        (76.2698711458812, 75.8160046347095),
        (76.26788080305617, 75.82316145941603),
    ];

    for (i, b) in bars.into_iter().enumerate() {
        let (rv2u, rv2d) = result_vwap_offset_2[i];
        let (rv3u, rv3d) = result_vwap_offset_3[i];
        assert_near(price(vwap.next(b) as i128), result[i], 0.01);
        assert_near(price(vwap.std_dev(2, Up)), rv2u, 0.01);
        assert_near(price(vwap.std_dev(2, Down)), rv2d, 0.01);
        assert_near(price(vwap.std_dev(3, Up)), rv3u, 0.01);
        assert_near(price(vwap.std_dev(3, Down)), rv3d, 0.01);
    }
}

#[test]
fn test_reset() {
    let mut vwap = VolumeWeightedAveragePrice::new(5).unwrap();

    assert_near(
        price(vwap.next(generate_bar((150.39, 150.22, 150.31, 380.0))) as i128),
        150.31,
        0.01,
    );
    vwap.next(generate_bar((150.47, 150.38, 150.41, 5270.0)));
    assert_ne!(
        price(vwap.next(generate_bar((150.49, 150.33, 150.46, 990.0))) as i128),
        150.31
    );

    vwap.reset();
    assert_near(
        price(vwap.next(generate_bar((150.39, 150.22, 150.31, 380.0))) as i128),
        150.31,
        0.01,
    );
}

#[test]
fn test_default() {
    let vwap = VolumeWeightedAveragePrice::default();
    assert_eq!(vwap.period(), 14);
}

#[test]
fn new_zero_period_is_invalid_parameter() {
    assert!(matches!(VolumeWeightedAveragePrice::new(0), Err(TaError::InvalidParameter)));
    assert_eq!(VolumeWeightedAveragePrice::new(7).unwrap().period(), 7);
}

#[test]
fn single_bar_session_has_no_spread() {
    let b = Bar { open: 76529, high: 76529, low: 76529, close: 76529, volume: 1 };
    let mut vwap = VolumeWeightedAveragePrice::new(18).unwrap();
    assert_eq!(vwap.next(b), 76529);
    assert_eq!(vwap.std_dev(2, Up), 76529);
    assert_eq!(vwap.std_dev(2, Down), 76529);
}

#[test]
fn exact_mean_and_deviation() {
    // typical prices 10 and 20 with equal volume: mean 15, deviation 5
    let mut vwap = VolumeWeightedAveragePrice::new(3).unwrap();
    assert_eq!(vwap.next(Bar { open: 10, high: 10, low: 10, close: 10, volume: 2 }), 10);
    assert_eq!(vwap.next(Bar { open: 20, high: 20, low: 20, close: 20, volume: 2 }), 15);
    assert_eq!(vwap.std_dev(1, Up), 20);
    assert_eq!(vwap.std_dev(1, Down), 10);
    assert_eq!(vwap.std_dev(3, Up), 30);
    assert_eq!(vwap.std_dev(3, Down), 0);
    assert_eq!(vwap.std_dev(0, Up), 15);
}

#[test]
fn mean_rounds_down_to_a_tick() {
    let mut vwap = VolumeWeightedAveragePrice::new(3).unwrap();
    // typical price (10 + 11 + 11) / 3 = 10.67
    assert_eq!(vwap.next(Bar { open: 10, high: 11, low: 10, close: 11, volume: 1 }), 10);
    let b = Bar { open: 10, high: 11, low: 10, close: 11, volume: 1 };
    assert_eq!(vwap.typical_price(&b), 10);
}

#[test]
fn no_volume_keeps_mean_at_zero() {
    let mut vwap = VolumeWeightedAveragePrice::new(3).unwrap();
    assert_eq!(vwap.next(Bar { open: 50, high: 60, low: 40, close: 50, volume: 0 }), 0);
    assert_eq!(vwap.std_dev(2, Up), 0);
    assert_eq!(vwap.next(Bar { open: 30, high: 30, low: 30, close: 30, volume: 4 }), 30);
}

#[test]
fn mean_stays_between_lowest_and_highest_typical_price() {
    let bars = generate_bars_next();
    let mut vwap = VolumeWeightedAveragePrice::new(18).unwrap();
    let mut lo = u64::MAX;
    let mut hi = 0u64;
    for b in bars {
        let t = vwap.typical_price(&b);
        lo = lo.min(t);
        hi = hi.max(t);
        let m = vwap.next(b);
        assert!(lo <= m && m <= hi);
    }
}

#[test]
fn bands_are_symmetric_and_spread_is_nonnegative() {
    let mut vwap = VolumeWeightedAveragePrice::new(18).unwrap();
    for b in generate_bars_std_dev() {
        let mean = vwap.next(b) as i128;
        for k in [-3, 0, 1, 2, 7] {
            assert_eq!(vwap.std_dev(k, Up) - mean, mean - vwap.std_dev(k, Down));
        }
        assert!(vwap.std_dev(1, Up) >= mean);
    }
}

#[test]
fn near_constant_prices_with_large_volume_keep_spread_nonnegative() {
    let mut vwap = VolumeWeightedAveragePrice::new(1).unwrap();
    for i in 0..64u32 {
        let p = 1_000_000 + (i % 2);
        vwap.next(Bar { open: p, high: p, low: p, close: p, volume: 10_000_000 });
    }
    let mean = vwap.std_dev(0, Up);
    assert!(vwap.std_dev(1, Up) >= mean);
    assert!(vwap.std_dev(1, Down) <= mean);
}

#[test]
fn reset_matches_fresh_instance() {
    let mut used = VolumeWeightedAveragePrice::new(4).unwrap();
    for b in generate_bars_next() {
        used.next(b);
    }
    used.reset();
    let mut fresh = VolumeWeightedAveragePrice::new(4).unwrap();
    let b = generate_bar((150.49, 150.33, 150.46, 990.0));
    assert_eq!(used.next(b), fresh.next(b));
    assert_eq!(used.std_dev(2, Up), fresh.std_dev(2, Up));
    assert_eq!(used.period(), 4);
}
