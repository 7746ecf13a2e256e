use baby_charts::plotly::Ratio;
use baby_charts::rolling::{rolling_stats, MinMeanMax};

const HOUR: i64 = 3_600_000;

fn value(r: Ratio) -> f64 {
    r.num as f64 / r.den as f64
}

#[test]
fn nothing_recorded_has_no_statistics() {
    let s = MinMeanMax::new();
    assert_eq!(s, MinMeanMax { ct: 0, sm: None, mn: None, mx: None });
    assert_eq!(s.min(), None);
    assert_eq!(s.mean(), None);
    assert_eq!(s.max(), None);
}

#[test]
fn record_tracks_count_sum_and_extremes() {
    let mut s = MinMeanMax::new();
    s.record(6);
    assert_eq!(s, MinMeanMax { ct: 1, sm: Some(6), mn: Some(6), mx: Some(6) });
    s.record(-2);
    s.record(11);
    s.record(6);
    assert_eq!(s, MinMeanMax { ct: 4, sm: Some(21), mn: Some(-2), mx: Some(11) });
    assert_eq!(s.min(), Some(-2));
    assert_eq!(s.max(), Some(11));
    assert_eq!(s.mean(), Some(Ratio { num: 21, den: 4 }));
    assert_eq!(value(s.mean().unwrap()), 5.25);
}

#[test]
fn record_sums_beyond_sixty_four_bits() {
    let mut s = MinMeanMax::new();
    s.record(i64::MIN);
    s.record(i64::MIN);
    assert_eq!(s.sm, Some(2 * (i64::MIN as i128)));
    assert_eq!(s.mn, Some(i64::MIN));
    assert_eq!(s.mx, Some(i64::MIN));
}

#[test]
fn five_days_of_sleep_give_one_window() {
    let series = vec![(1, 6 * HOUR), (2, 7 * HOUR), (3, 5 * HOUR), (4, 8 * HOUR), (5, 6 * HOUR)];
    let out = rolling_stats(&series, 5);
    assert_eq!(out.len(), 1);
    let (day, stat) = out[0];
    assert_eq!(day, 5);
    assert_eq!(stat.min(), Some(5 * HOUR));
    assert_eq!(stat.max(), Some(8 * HOUR));
    assert_eq!(stat.mean(), Some(Ratio { num: 32 * HOUR as i128, den: 5 }));
    assert_eq!(value(stat.mean().unwrap()) / HOUR as f64, 6.4);
}

#[test]
fn rolling_length_is_len_minus_window_plus_one() {
    for len in 0..12usize {
        let series: Vec<(i32, i64)> = (0..len).map(|i| (i as i32, (i * i) as i64)).collect();
        for window in 1..8usize {
            let expected = if len >= window { len - window + 1 } else { 0 };
            assert_eq!(rolling_stats(&series, window).len(), expected);
        }
    }
}

#[test]
fn series_shorter_than_the_window_gives_nothing() {
    let series = vec![(1, 10), (2, 20), (3, 30), (4, 40)];
    assert!(rolling_stats(&series, 5).is_empty());
    assert!(rolling_stats(&[], 1).is_empty());
}

#[test]
fn windows_run_over_positions_not_calendar_days() {
    let series = vec![(1, 10), (2, 30), (40, 20), (41, 5), (300, 50)];
    let out = rolling_stats(&series, 3);
    assert_eq!(
        out,
        vec![
            (40, MinMeanMax { ct: 3, sm: Some(60), mn: Some(10), mx: Some(30) }),
            (41, MinMeanMax { ct: 3, sm: Some(55), mn: Some(5), mx: Some(30) }),
            (300, MinMeanMax { ct: 3, sm: Some(75), mn: Some(5), mx: Some(50) }),
        ]
    );
}

#[test]
fn window_of_one_repeats_the_series() {
    let series = vec![(4, -3), (9, 8)];
    assert_eq!(
        rolling_stats(&series, 1),
        vec![
            (4, MinMeanMax { ct: 1, sm: Some(-3), mn: Some(-3), mx: Some(-3) }),
            (9, MinMeanMax { ct: 1, sm: Some(8), mn: Some(8), mx: Some(8) }),
        ]
    );
}

#[test]
fn mean_lies_between_min_and_max() {
    let series: Vec<(i32, i64)> =
        vec![(1, 5), (2, -9), (3, 14), (4, 14), (5, 0), (6, i64::MAX), (7, i64::MIN), (8, 3)];
    for window in 1..=8usize {
        for (_, stat) in rolling_stats(&series, window) {
            let (min, max) = (stat.min().unwrap() as i128, stat.max().unwrap() as i128);
            let mean = stat.mean().unwrap();
            assert_eq!(mean.den, window as u128);
            assert!(min <= max);
            assert!(min * window as i128 <= mean.num);
            assert!(mean.num <= max * window as i128);
        }
    }
}

#[test]
fn rolling_twice_gives_the_same() {
    let series = vec![(1, 10), (2, 30), (40, 20), (41, 5), (300, 50)];
    assert_eq!(rolling_stats(&series, 2), rolling_stats(&series, 2));
}
