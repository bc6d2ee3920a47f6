use bvar::reducer::AddTo;
use bvar::series::{DataPoint, Series};
use bvar::text::{i64_text, u64_text};
use bvar::variable::SeriesOptions;

#[test]
fn ring_eviction_keeps_most_recent() {
    // The second tier holds sixty points; push sixty-five admitted points
    // through it and only the most recent sixty remain, in order.
    let mut series: Series<i64, AddTo> = Series::new(AddTo);
    for i in 0..65u64 {
        series.append_at(i as i64, 1000 * (i + 1));
    }
    let mut out = String::new();
    series.describe(&mut out, &SeriesOptions::default());
    // The oldest surviving point is the sixth one appended.
    assert!(out.contains("\"second\":{\"timestamps\":[6000,"));
    assert!(!out.contains("[5000,"));
    assert!(out.contains(",64]"));
}

#[test]
fn tier_coupling_thirty_second_cadence() {
    // Appending once per thirty seconds for ten minutes feeds only the
    // second tier: the shared watermark advances on every append, so a
    // minute never elapses against it.
    let mut series: Series<i64, AddTo> = Series::new(AddTo);
    let mut t: u64 = 0;
    for i in 0..21i64 {
        series.append_at(i, t);
        t += 30_000;
    }
    let mut out = String::new();
    series.describe(&mut out, &SeriesOptions::default());
    assert!(out.contains("\"minute\":{\"timestamps\":[],\"values\":[]}"));
    assert!(out.contains("\"hour\":{\"timestamps\":[],\"values\":[]}"));
    assert!(out.contains("\"day\":{\"timestamps\":[],\"values\":[]}"));
    // Every append was admitted to the second tier.
    assert!(out.contains(",20]"));
    assert!(out.contains("[0,"));
}

#[test]
fn minute_tier_fills_on_slow_cadence() {
    let mut series: Series<i64, AddTo> = Series::new(AddTo);
    series.append_at(1, 0);
    series.append_at(2, 61_000);
    let mut out = String::new();
    series.describe(&mut out, &SeriesOptions::default());
    assert!(out.contains("\"minute\":{\"timestamps\":[61000],\"values\":[2]}"));
}

#[test]
fn sub_second_appends_only_refresh_last_point() {
    let mut series: Series<i64, AddTo> = Series::new(AddTo);
    series.append_at(1, 1000);
    series.append_at(2, 1200);
    series.append_at(3, 1900);
    let last = series.last_point().unwrap();
    assert_eq!(last.value, 3);
    assert_eq!(last.timestamp, 1900);
    let mut out = String::new();
    series.describe(&mut out, &SeriesOptions::default());
    assert!(out.contains("\"second\":{\"timestamps\":[1000],\"values\":[1]}"));
}

#[test]
fn describe_produces_exact_json() {
    let mut series: Series<i64, AddTo> = Series::new(AddTo);
    series.append_at(-5, 1000);
    series.append_at(7, 2500);
    let mut out = String::new();
    series.describe(&mut out, &SeriesOptions::default());
    assert_eq!(
        out,
        "{\"meta\":{\"name\":\"time_series\",\"fixed_length\":false},\
         \"data\":{\
         \"second\":{\"timestamps\":[1000,2500],\"values\":[-5,7]},\
         \"minute\":{\"timestamps\":[],\"values\":[]},\
         \"hour\":{\"timestamps\":[],\"values\":[]},\
         \"day\":{\"timestamps\":[],\"values\":[]}}}"
    );
}

#[test]
fn describe_reports_fixed_length_flag() {
    let series: Series<i64, AddTo> = Series::new(AddTo);
    let mut out = String::new();
    series.describe(&mut out, &SeriesOptions { fixed_length: true });
    assert!(out.starts_with("{\"meta\":{\"name\":\"time_series\",\"fixed_length\":true},"));
}

#[test]
fn append_with_clock_updates_last_point() {
    let mut series: Series<i64, AddTo> = Series::new(AddTo);
    series.append(11);
    let last = series.last_point().unwrap();
    assert_eq!(last.value, 11);
    // The wall clock is well past the epoch.
    assert!(last.timestamp > 0);
}

#[test]
fn data_point_now_carries_value() {
    let p = DataPoint::now(9i64);
    assert_eq!(p.value, 9);
    let q = DataPoint::new(4i64, 123);
    assert_eq!(q.timestamp, 123);
}

#[test]
fn decimal_text_renders_signs_and_digits() {
    assert_eq!(u64_text(0), "0");
    assert_eq!(u64_text(9876543210), "9876543210");
    assert_eq!(i64_text(-123), "-123");
    assert_eq!(i64_text(0), "0");
    assert_eq!(i64_text(i64::MIN), "-9223372036854775808");
    assert_eq!(i64_text(i64::MAX), "9223372036854775807");
}
