use asahi::clock::{LocalTime, SysTime, ZonedTime};
use asahi::config::{parse_config, Config};
use asahi::context::Context;
use asahi::daemon::{broadcast_current_theme, Action, Daemon, Event, Phase, Request};
use asahi::dbus::listener::{network_signal_event, sleep_signal_event, startup_plan, wakeup_plan, WaitOutcome, WakeEvent};
use asahi::dbus_portal::control::Control as FirstControl;
use asahi::dbus_portal::management::Control;
use asahi::location::providers::wrapper::ProviderKind;
use asahi::location::types::Location;
use asahi::sun::sun_info::SunInfo;
use asahi::sun::sun_stats::SunStats;

const DAY: i64 = 86400;

fn day(d: i64) -> SunInfo {
    // sunrise 06:00, sunset 18:00 UTC on day d
    SunInfo::new(ZonedTime::new(d * DAY + 6 * 3600, 0, 0).unwrap(), ZonedTime::new(d * DAY + 18 * 3600, 0, 0).unwrap())
}

fn at(d: i64, hour: i64) -> LocalTime {
    LocalTime { secs: d * DAY + hour * 3600, nanos: 0 }
}

fn daemon_with(cfg: &Config) -> Daemon {
    Daemon::new(Context::new(cfg, None, None, None))
}

fn new_daemon() -> Daemon {
    daemon_with(&Config::new())
}

/// Runs a flow to its end: the clock always reads `now`, sun times are `today`,
/// a location fetch fails. Returns the values broadcast.
fn run(d: &mut Daemon, first: Action, now: LocalTime, today: i64) -> Vec<u32> {
    let mut sent = Vec::new();
    let mut action = first;
    loop {
        action = match action {
            Action::FetchLocation => d.step(Event::LocationFetched(None)),
            Action::ReadClock => d.step(Event::ClockRead(now)),
            Action::ComputeSunTimes(_) => d.step(Event::SunTimes(day(today))),
            Action::Broadcast(v) => {
                sent.push(v);
                d.step(Event::Broadcasted)
            }
            Action::Done => return sent,
        };
    }
}

#[test]
fn theme_follows_sun() {
    let s = day(3);
    assert_eq!(s.calculate_theme(at(3, 5)), 1);
    assert_eq!(s.calculate_theme(at(3, 6)), 2);
    assert_eq!(s.calculate_theme(at(3, 17)), 2);
    assert_eq!(s.calculate_theme(at(3, 18)), 1);
    assert_eq!(s.calculate_theme_with_offsets(30, -30, at(3, 6)), 1);
    assert_eq!(s.calculate_theme_with_offsets(30, -30, LocalTime { secs: 3 * DAY + 6 * 3600 + 1800, nanos: 0 }), 2);
    assert_eq!(s.calculate_theme_with_offsets(30, -30, LocalTime { secs: 3 * DAY + 17 * 3600 + 1800, nanos: 0 }), 1);
    assert_eq!(s.calculate_theme_with_offsets(0, 0, at(3, 12)), s.calculate_theme(at(3, 12)));
}

#[test]
fn local_time_of_zoned_sun_times() {
    let s = SunInfo::new(ZonedTime::new(0, 0, 8 * 3600).unwrap(), ZonedTime::new(12 * 3600, 0, 8 * 3600).unwrap());
    assert_eq!(s.calculate_theme(LocalTime { secs: 9 * 3600, nanos: 0 }), 2);
    assert_eq!(s.calculate_theme(LocalTime { secs: 7 * 3600, nanos: 0 }), 1);
}

#[test]
fn wakeup_broadcasts_only_changes() {
    let mut d = new_daemon();
    let a = broadcast_current_theme(&mut d, false);
    assert_eq!(run(&mut d, a, at(2, 12), 2), vec![2]);
    assert_eq!(d.prev_broadcast_val, 2);
    let a = broadcast_current_theme(&mut d, false);
    assert_eq!(run(&mut d, a, at(2, 13), 2), Vec::<u32>::new());
    let a = broadcast_current_theme(&mut d, false);
    assert_eq!(run(&mut d, a, at(2, 20), 2), vec![1]);
    assert_eq!(d.phase, Phase::Idle);
}

#[test]
fn request_during_unfinished_flow_is_not_lost() {
    let mut d = new_daemon();
    let a = broadcast_current_theme(&mut d, true);
    assert!(matches!(a, Action::FetchLocation));
    let a = Control::new().set_manual_darkmode(&mut d, 1);
    assert_eq!(run(&mut d, a, at(1, 12), 1), vec![1]);
    assert!(Control::new().is_override_set(&d));
}

#[test]
fn wakeup_with_location_recomputes() {
    let mut d = new_daemon();
    let a = broadcast_current_theme(&mut d, true);
    assert!(matches!(a, Action::FetchLocation));
    let a = d.step(Event::LocationFetched(Some(Location {
        lat_bits: 1,
        lon_bits: 2,
        timezone: "UTC".to_string(),
        last_updated: SysTime { secs: 9, nanos: 0 },
    })));
    match &a {
        Action::ComputeSunTimes(l) => assert_eq!(l.timezone, "UTC"),
        _ => panic!("sun times expected"),
    }
    assert_eq!(d.ctx.location.timezone, "UTC");
    assert_eq!(run(&mut d, a, at(5, 7), 5), vec![2]);
}

#[test]
fn stale_day_triggers_recompute_fresh_day_does_not() {
    let mut d = new_daemon();
    d.ctx.sun_stats = SunStats::Calculated(day(4));
    let a = broadcast_current_theme(&mut d, false);
    assert!(matches!(a, Action::ReadClock));
    assert!(matches!(d.step(Event::ClockRead(at(4, 12))), Action::ReadClock));
    assert!(matches!(d.step(Event::ClockRead(at(4, 12))), Action::Broadcast(2)));
    d.step(Event::Broadcasted);
    let a = broadcast_current_theme(&mut d, false);
    assert!(matches!(a, Action::ReadClock));
    assert!(matches!(d.step(Event::ClockRead(at(5, 1))), Action::ComputeSunTimes(_)));
}

#[test]
fn override_silences_wakeups() {
    let mut d = new_daemon();
    let c = Control::new();
    let a = c.set_manual_darkmode(&mut d, 1);
    assert_eq!(run(&mut d, a, at(1, 12), 1), vec![1]);
    assert!(c.is_override_set(&d));
    assert_eq!(c.current_theme(&d), 1);
    assert!(matches!(broadcast_current_theme(&mut d, true), Action::Done));
    assert!(matches!(c.force_update(&mut d), Action::Done));
    assert_eq!(FirstControl::new().current_darkmode_setting(&d), 1);
    let a = c.set_manual_darkmode(&mut d, 1);
    assert_eq!(run(&mut d, a, at(1, 12), 1), Vec::<u32>::new());
    let a = c.set_manual_darkmode(&mut d, 0);
    assert_eq!(run(&mut d, a, at(1, 12), 1), vec![0]);
}

#[test]
fn clearing_override_follows_sun_again() {
    let mut d = new_daemon();
    let c = Control::new();
    let a = c.set_manual_darkmode(&mut d, 1);
    run(&mut d, a, at(1, 12), 1);
    let a = c.set_manual_darkmode(&mut d, -1);
    assert!(matches!(a, Action::ComputeSunTimes(_)));
    assert_eq!(run(&mut d, a, at(1, 12), 1), vec![2]);
    assert!(!c.is_override_set(&d));
    assert_eq!(FirstControl::new().current_darkmode_setting(&d), -1);
}

#[test]
fn unknown_override_values_are_ignored() {
    let mut d = new_daemon();
    let c = Control::new();
    for mode in [-2, 3, i32::MIN, i32::MAX] {
        let a = c.set_manual_darkmode(&mut d, mode);
        assert!(matches!(a, Action::Done));
        assert!(!c.is_override_set(&d));
        assert_eq!(c.current_theme(&d), 0);
    }
    let a = FirstControl::new().set_manual_darkmode(&mut d, 7);
    assert!(matches!(a, Action::Done));
    assert_eq!(FirstControl::new().current_darkmode_setting(&d), -1);
}

#[test]
fn second_wakeup_with_same_theme_is_silent() {
    let mut d = new_daemon();
    let a = broadcast_current_theme(&mut d, true);
    assert_eq!(run(&mut d, a, at(3, 12), 3), vec![2]);
    let a = broadcast_current_theme(&mut d, false);
    assert_eq!(run(&mut d, a, at(3, 13), 3), Vec::<u32>::new());
    assert_eq!(Control::new().current_theme(&d), 2);
}

#[test]
fn context_starts_with_manual_provider_first() {
    let ctx = Context::new(&Config::new(), Some(1), Some(2), None);
    assert_eq!(ctx.providers, vec![ProviderKind::Manual, ProviderKind::Ip]);
    assert_eq!(ctx.location_provider.provider_count, 2);
    assert_eq!((ctx.manual_provider.lat, ctx.manual_provider.lon), (Some(1), Some(2)));
    assert_eq!(ctx.location_provider.ttl, 3600);
    assert_eq!(ctx.sunset_check_frequency, 600);
}

#[test]
fn override_keeps_providers_and_cache() {
    let mut d = new_daemon();
    let before_ttl = d.ctx.location_provider.ttl;
    let a = Control::new().set_manual_darkmode(&mut d, 1);
    assert_eq!(run(&mut d, a, at(1, 12), 1), vec![1]);
    let a = broadcast_current_theme(&mut d, true);
    assert!(matches!(a, Action::Done));
    assert_eq!(d.ctx.location_provider.ttl, before_ttl);
    assert!(d.ctx.location_provider.asking.is_none());
}

#[test]
fn refresh_never_broadcasts() {
    let mut d = new_daemon();
    let c = Control::new();
    let a = c.today_transition_times(&mut d);
    assert_eq!(run(&mut d, a, at(3, 12), 3), Vec::<u32>::new());
    let (rise, set) = c.transition_times(&d).unwrap();
    assert_eq!(rise, "1970-01-04T06:00:00+00:00");
    assert_eq!(set, "1970-01-04T18:00:00+00:00");
    let a = c.set_manual_darkmode(&mut d, 2);
    run(&mut d, a, at(3, 12), 3);
    assert!(matches!(c.today_transition_times(&mut d), Action::Done));
    assert!(c.transition_times(&d).is_none());
}

#[test]
fn next_transition_of_the_day() {
    let mut d = new_daemon();
    let c = Control::new();
    let a = c.today_transition_times(&mut d);
    run(&mut d, a, at(3, 12), 3);
    let tomorrow = day(4);
    assert_eq!(c.next_transition_at(&d, at(3, 5), &tomorrow).unwrap().timestamp(), 3 * DAY + 6 * 3600);
    assert_eq!(c.next_transition_at(&d, at(3, 12), &tomorrow).unwrap().timestamp(), 3 * DAY + 18 * 3600);
    assert_eq!(c.next_transition_at(&d, at(3, 19), &tomorrow).unwrap().timestamp(), 4 * DAY + 6 * 3600);
    let a = c.set_manual_darkmode(&mut d, 1);
    run(&mut d, a, at(3, 19), 3);
    assert!(c.next_transition_at(&d, at(3, 19), &tomorrow).is_none());
}

#[test]
fn unexpected_event_ends_flow() {
    let mut d = new_daemon();
    assert!(matches!(d.step(Event::Broadcasted), Action::Done));
    let _ = broadcast_current_theme(&mut d, false);
    assert!(matches!(d.step(Event::SunTimes(day(1))), Action::Done));
    assert_eq!(d.phase, Phase::Idle);
}

#[test]
fn configured_offsets_shift_transitions() {
    let cfg = parse_config(Some("sunrise_offset = 60\nsunset_offset = -60\nsunset_check_frequency = 30\n"), None);
    let mut d = daemon_with(&cfg);
    assert_eq!(d.ctx.sunset_check_frequency, 30);
    let a = broadcast_current_theme(&mut d, false);
    assert_eq!(run(&mut d, a, LocalTime { secs: 2 * DAY + 6 * 3600 + 1800, nanos: 0 }, 2), vec![1]);
    let a = broadcast_current_theme(&mut d, false);
    assert_eq!(run(&mut d, a, at(2, 7), 2), vec![2]);
    let a = broadcast_current_theme(&mut d, false);
    assert_eq!(run(&mut d, a, LocalTime { secs: 2 * DAY + 17 * 3600 + 1, nanos: 0 }, 2), vec![1]);
}

#[test]
fn wake_events() {
    assert_eq!(sleep_signal_event(Some(false)), Some(WakeEvent::SystemResume));
    assert_eq!(sleep_signal_event(Some(true)), None);
    assert_eq!(sleep_signal_event(None), None);
    assert_eq!(network_signal_event(Some(70)), Some(WakeEvent::NetworkConnect));
    assert_eq!(network_signal_event(Some(60)), None);
    assert_eq!(network_signal_event(None), None);
    assert_eq!(wakeup_plan(WaitOutcome::Woken(WakeEvent::SystemResume)), Some(vec![false]));
    assert_eq!(wakeup_plan(WaitOutcome::Woken(WakeEvent::NetworkConnect)), Some(vec![true]));
    assert_eq!(wakeup_plan(WaitOutcome::Timeout), Some(vec![false, true]));
    assert_eq!(wakeup_plan(WaitOutcome::Disconnected), None);
    assert_eq!(startup_plan(), vec![false, true]);
}

#[test]
fn request_kinds_compare() {
    assert_eq!(Request::Wakeup { with_location: true }, Request::Wakeup { with_location: true });
    assert_ne!(Request::Refresh, Request::SetOverride { mode: 1 });
}

#[test]
fn rfc3339_carries_the_offset() {
    let z = ZonedTime::new(1717183560, 0, 9 * 3600).unwrap();
    assert_eq!(asahi::clock::rfc3339(&z), "2024-06-01T04:26:00+09:00");
    let far = ZonedTime::new(1_000_000_000_000_000, 0, 0).unwrap();
    assert_eq!(asahi::clock::rfc3339(&far), "");
}
