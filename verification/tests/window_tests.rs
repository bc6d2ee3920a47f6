use bvar::variable::{Variable, VarRegistry};
use bvar::window::{CommonWindows, Window, WindowType};

#[test]
fn test_window_duration() {
    assert_eq!(WindowType::Second10.duration_secs(), 10);
    assert_eq!(WindowType::Minute1.duration_secs(), 60);
    assert_eq!(WindowType::Minute5.duration_secs(), 300);
    assert_eq!(WindowType::Hour1.duration_secs(), 3600);
    assert_eq!(WindowType::Day1.duration_secs(), 86400);
}

#[test]
fn test_window_name() {
    assert_eq!(WindowType::Second10.name(), "10_second");
    assert_eq!(WindowType::Minute1.name(), "1_minute");
    assert_eq!(WindowType::Hour1.name(), "1_hour");
    assert_eq!(WindowType::Day1.name(), "1_day");
}

#[test]
fn test_common_windows() {
    let windows: Vec<WindowType> = CommonWindows::iter();
    assert_eq!(windows.len(), 7);
    assert!(windows.contains(&WindowType::Minute1));
    assert!(windows.contains(&WindowType::Hour1));
    assert!(windows.contains(&WindowType::Day1));

    let all_windows: Vec<WindowType> = CommonWindows::all();
    assert_eq!(all_windows.len(), 10);
}

#[test]
fn test_window_duration_std() {
    assert_eq!(
        WindowType::Second10.duration(),
        std::time::Duration::from_secs(10)
    );
    assert_eq!(
        WindowType::Day30.duration(),
        std::time::Duration::from_secs(2_592_000)
    );
}

#[test]
fn test_window_contains_ms() {
    let now: u64 = 1_000_000;
    assert!(WindowType::Second10.contains(now, now));
    assert!(WindowType::Minute1.contains(now, now));
    // A future point is never inside the window.
    assert!(!WindowType::Second10.contains(now + 50, now));
    // Still inside the ten-second window a little later.
    assert!(WindowType::Second10.contains(now, now + 60));
    // Beyond the window's whole span.
    assert!(!WindowType::Second10.contains(now, now + 10_001));
    assert!(WindowType::Second10.contains(now, now + 10_000));
}

#[test]
fn test_window_eviction() {
    // A three-slot window sampling every second.
    let mut w: Window<i64, 3> = Window::new(1);
    w.add_sample(1, 10_000);
    w.add_sample(2, 10_100);
    w.add_sample(3, 10_200);
    w.add_sample(4, 10_300);
    // Capacity eviction: only the three most recent samples remain.
    assert_eq!(w.get_value(), Some(4));
    // A sample far in the future evicts everything older than the span.
    w.add_sample(5, 100_000);
    assert_eq!(w.get_value(), Some(5));
}

#[test]
fn test_window_empty_value() {
    let w: Window<i64, 3> = Window::new(1);
    assert_eq!(w.get_value(), None);
}

#[test]
fn window_describes_last_value_or_absence() {
    let mut reg = VarRegistry::new();
    let mut w: Window<i64, 3> = Window::with_name(&mut reg, "latency", 1);
    assert_eq!(w.name(), "latency");
    assert_eq!(w.get_description(), "N/A");
    w.add_sample(17, 5_000);
    assert_eq!(w.get_description(), "17");
}
