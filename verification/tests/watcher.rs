use asahi::sunrise_watcher::{WatchStep, WatcherState};

fn state(is_dark_mode: bool) -> WatcherState {
    WatcherState { sunrise: 1000, sunset: 2000, year: 2024, month: 6, day: 1, is_dark_mode }
}

#[test]
fn waits_for_location() {
    let mut s = WatcherState { sunrise: 0, sunset: 0, year: 2024, month: 6, day: 1, is_dark_mode: false };
    assert_eq!(s.observe_sunrise(1500, 2024, 6, 1), WatchStep::WaitForLocation);
}

#[test]
fn recalculates_on_new_day() {
    let mut s = state(false);
    assert_eq!(s.observe_sunrise(1500, 2024, 6, 2), WatchStep::Recalculate);
    assert_eq!(s.observe_sunrise(1500, 2025, 6, 1), WatchStep::Recalculate);
}

#[test]
fn switches_only_on_transitions() {
    let mut s = state(true);
    assert_eq!(s.observe_sunrise(1500, 2024, 6, 1), WatchStep::Decided(Some(2)));
    assert!(!s.is_dark_mode);
    assert_eq!(s.observe_sunrise(1600, 2024, 6, 1), WatchStep::Decided(None));
    assert_eq!(s.observe_sunrise(2000, 2024, 6, 1), WatchStep::Decided(Some(1)));
    assert!(s.is_dark_mode);
    assert_eq!(s.observe_sunrise(2100, 2024, 6, 1), WatchStep::Decided(None));
    assert_eq!(s.observe_sunrise(999, 2024, 6, 1), WatchStep::Decided(None));
    assert_eq!(s.observe_sunrise(1000, 2024, 6, 1), WatchStep::Decided(Some(2)));
}
