use asahi::clock::SysTime;
use asahi::location::cache::{from_cache, to_cache, CacheError};
use asahi::location::providers::ip::{read_ip_answer, IpFix, IpLocateError, IpLocationProvider, IpStep, RETRY_DELAY_SECS};
use asahi::location::providers::manual::{ManualError, ManualLocationProvider};
use asahi::location::providers::wrapper::{LocationProviderWrapper, LookupStep};
use asahi::location::types::{Location, SHINJUKU_LAT_BITS, SHINJUKU_LON_BITS};

fn loc(tz: &str, secs: u64) -> Location {
    Location { lat_bits: 1.0f64.to_bits(), lon_bits: 2.0f64.to_bits(), timezone: tz.to_string(), last_updated: SysTime { secs, nanos: 0 } }
}

#[test]
fn default_location_is_shinjuku() {
    let l = Location::default();
    assert_eq!(f64::from_bits(l.lat_bits), 35.6887);
    assert_eq!(f64::from_bits(l.lon_bits), 139.7007);
    assert_eq!(l.lat_bits, SHINJUKU_LAT_BITS);
    assert_eq!(l.lon_bits, SHINJUKU_LON_BITS);
    assert_eq!(l.timezone, "Japan");
    assert_eq!(l.last_updated, SysTime { secs: 0, nanos: 0 });
}

#[test]
fn validate_by_age_and_clock_direction() {
    let l = loc("UTC", 1000);
    assert!(l.validate(3600, SysTime { secs: 1000, nanos: 0 }));
    assert!(l.validate(3600, SysTime { secs: 4600, nanos: 999 }));
    assert!(!l.validate(3600, SysTime { secs: 4601, nanos: 0 }));
    assert!(!l.validate(3600, SysTime { secs: 999, nanos: 0 }));
}

#[test]
fn fresh_cache_answers_without_providers() {
    let mut w = LocationProviderWrapper::new(2, Some(loc("UTC", 1000)), 3600);
    match w.get_location(SysTime { secs: 1500, nanos: 0 }) {
        LookupStep::Done(l) => assert_eq!(l.last_updated.secs, 1000),
        _ => panic!("cache should answer"),
    }
}

#[test]
fn expired_cache_asks_providers_in_order() {
    let mut w = LocationProviderWrapper::new(2, None, 3600);
    assert!(matches!(w.get_location(SysTime { secs: 100_000, nanos: 0 }), LookupStep::AskProvider(0)));
    assert!(matches!(w.provider_answered(None), LookupStep::AskProvider(1)));
    match w.provider_answered(Some(loc("Europe/Paris", 100_000))) {
        LookupStep::Done(l) => assert_eq!(l.timezone, "Europe/Paris"),
        _ => panic!("answer expected"),
    }
    assert_eq!(w.latest_location.timezone, "Europe/Paris");
    assert!(matches!(w.get_location(SysTime { secs: 100_010, nanos: 0 }), LookupStep::Done(_)));
}

#[test]
fn all_providers_failing_falls_back_to_cache() {
    let mut w = LocationProviderWrapper::new(2, None, 10);
    assert!(matches!(w.get_location(SysTime { secs: 50, nanos: 0 }), LookupStep::AskProvider(0)));
    assert!(matches!(w.provider_answered(None), LookupStep::AskProvider(1)));
    match w.provider_answered(None) {
        LookupStep::Done(l) => assert_eq!(l.timezone, "Japan"),
        _ => panic!("fallback expected"),
    }
}

#[test]
fn manual_provider_needs_both_coordinates() {
    let now = SysTime { secs: 5, nanos: 6 };
    assert!(matches!(ManualLocationProvider::new(Some(1), None).get_location(Ok("UTC".to_string()), now), Err(ManualError::NotSet)));
    assert!(matches!(ManualLocationProvider::new(None, None).get_location(Ok("UTC".to_string()), now), Err(ManualError::NotSet)));
    let l = ManualLocationProvider::new(Some(1), Some(2)).get_location(Ok("Asia/Manila".to_string()), now).ok().unwrap();
    assert_eq!((l.lat_bits, l.lon_bits, l.timezone.as_str(), l.last_updated), (1, 2, "Asia/Manila", now));
    match ManualLocationProvider::new(Some(1), Some(2)).get_location(Err("no tz".to_string()), now) {
        Err(ManualError::Timezone(m)) => assert_eq!(m, "no tz"),
        _ => panic!("timezone error expected"),
    }
}

#[test]
fn ip_answer_read() {
    let fix = read_ip_answer(200, r#"{"status":"success","lat":14.5,"lon":121.0,"timezone":"Asia/Manila"}"#).ok().unwrap();
    assert_eq!(f64::from_bits(fix.lat_bits), 14.5);
    assert_eq!(f64::from_bits(fix.lon_bits), 121.0);
    assert_eq!(fix.timezone, "Asia/Manila");
}

#[test]
fn ip_answer_errors() {
    assert!(matches!(read_ip_answer(500, "{}"), Err(IpLocateError::ServerStatus(500))));
    assert!(matches!(read_ip_answer(199, "{}"), Err(IpLocateError::ServerStatus(199))));
    assert!(matches!(read_ip_answer(200, "not json"), Err(IpLocateError::InvalidJson(_))));
    assert!(matches!(read_ip_answer(200, "[1, 2]"), Err(IpLocateError::NotAnObject)));
    assert!(matches!(read_ip_answer(200, r#"{"lon":1,"timezone":"UTC"}"#), Err(IpLocateError::MissingLatitude)));
    assert!(matches!(read_ip_answer(200, r#"{"lat":"1","lon":1,"timezone":"UTC"}"#), Err(IpLocateError::MissingLatitude)));
    assert!(matches!(read_ip_answer(200, r#"{"lat":1,"timezone":"UTC"}"#), Err(IpLocateError::MissingLongitude)));
    assert!(matches!(read_ip_answer(200, r#"{"lat":1,"lon":1}"#), Err(IpLocateError::MissingTimezone)));
    match read_ip_answer(299, r#"{"lat":1,"lon":1,"timezone":"Mars/Olympus"}"#) {
        Err(IpLocateError::InvalidTimezone(name, _)) => assert_eq!(name, "Mars/Olympus"),
        _ => panic!("invalid timezone expected"),
    }
}

#[test]
fn ip_lookup_retries_three_times() {
    let started = SysTime { secs: 77, nanos: 1 };
    let (mut p, first) = IpLocationProvider::get_location(started);
    assert!(matches!(first, IpStep::Fetch));
    for _ in 0..3 {
        match p.attempt_finished(Err(IpLocateError::Request("down".to_string()))) {
            IpStep::WaitThenFetch(s) => assert_eq!(s, RETRY_DELAY_SECS),
            _ => panic!("retry expected"),
        }
    }
    match p.attempt_finished(Err(IpLocateError::MissingTimezone)) {
        IpStep::Finished(Err(IpLocateError::MissingTimezone)) => {}
        _ => panic!("last error expected"),
    }
}

#[test]
fn ip_lookup_success_is_stamped_with_start() {
    let started = SysTime { secs: 77, nanos: 1 };
    let (mut p, _) = IpLocationProvider::get_location(started);
    assert!(matches!(p.attempt_finished(Err(IpLocateError::NotAnObject)), IpStep::WaitThenFetch(2)));
    let fix = IpFix { lat_bits: 3, lon_bits: 4, timezone: "UTC".to_string() };
    match p.attempt_finished(Ok(fix)) {
        IpStep::Finished(Ok(l)) => {
            assert_eq!((l.lat_bits, l.lon_bits, l.timezone.as_str(), l.last_updated), (3, 4, "UTC", started));
        }
        _ => panic!("location expected"),
    }
}

fn lines(v: &[&str]) -> Vec<Option<String>> {
    v.iter().map(|s| Some(s.to_string())).collect()
}

#[test]
fn cache_round_trip() {
    let written = to_cache("35.6887", "139.7007", "Asia/Tokyo", SysTime { secs: 1700000000, nanos: 5 });
    assert_eq!(written, vec!["35.6887", "139.7007", "Asia/Tokyo", "1700000000"]);
    let back: Vec<Option<String>> = written.into_iter().map(Some).collect();
    let r = from_cache(&back).ok().unwrap();
    assert_eq!(r.lat_text, "35.6887");
    assert_eq!(r.lon_text, "139.7007");
    assert_eq!(r.timezone, "Asia/Tokyo");
    assert_eq!(r.last_updated, SysTime { secs: 1700000000, nanos: 0 });
}

#[test]
fn cache_values_are_trimmed_and_time_defaults() {
    let r = from_cache(&lines(&[" 1.0 ", "2.0\r", "  UTC", " 12 "])).ok().unwrap();
    assert_eq!((r.lat_text.as_str(), r.lon_text.as_str(), r.timezone.as_str()), ("1.0", "2.0", "UTC"));
    assert_eq!(r.last_updated.secs, 12);
    assert_eq!(from_cache(&lines(&["1", "2", "UTC"])).ok().unwrap().last_updated.secs, 0);
    assert_eq!(from_cache(&lines(&["1", "2", "UTC", "soon"])).ok().unwrap().last_updated.secs, 0);
    assert_eq!(from_cache(&lines(&["1", "2", "UTC", "18446744073709551615"])).ok().unwrap().last_updated.secs, 0);
    let mut l = lines(&["1", "2", "UTC"]);
    l.push(None);
    assert_eq!(from_cache(&l).ok().unwrap().last_updated.secs, 0);
}

#[test]
fn cache_errors() {
    assert!(matches!(from_cache(&lines(&[])), Err(CacheError::MissingLatitude)));
    assert!(matches!(from_cache(&lines(&["1"])), Err(CacheError::MissingLongitude)));
    assert!(matches!(from_cache(&lines(&["1", "2"])), Err(CacheError::MissingTimezone)));
    assert!(matches!(from_cache(&lines(&["1", "2", "Nowhere/City"])), Err(CacheError::InvalidTimezone(_))));
    assert!(matches!(from_cache(&vec![None]), Err(CacheError::Unreadable)));
}

#[test]
fn answer_nested_too_deep_is_refused() {
    let body = format!("{}{}", "[".repeat(200), "]".repeat(200));
    assert!(matches!(read_ip_answer(200, &body), Err(IpLocateError::TooDeeplyNested)));
    let nested = format!("{{\"x\":{}1{},\"lat\":1,\"lon\":2,\"timezone\":\"UTC\"}}", "[".repeat(10), "]".repeat(10));
    assert!(read_ip_answer(200, &nested).is_ok());
}

#[test]
fn brackets_in_strings_or_side_by_side_are_accepted() {
    let in_string = format!("{{\"isp\":\"{}\\\"{}\",\"lat\":1,\"lon\":2,\"timezone\":\"UTC\"}}", "[".repeat(300), "{".repeat(300));
    assert!(read_ip_answer(200, &in_string).is_ok());
    let side_by_side = format!("{{\"a\":[{}[]],\"lat\":1,\"lon\":2,\"timezone\":\"UTC\"}}", "[],".repeat(300));
    assert!(read_ip_answer(200, &side_by_side).is_ok());
}

#[test]
fn ip_lookup_ends_with_the_last_error_itself() {
    let (mut p, _) = IpLocationProvider::get_location(SysTime { secs: 1, nanos: 0 });
    for _ in 0..3 {
        p.attempt_finished(Err(IpLocateError::Request("first".to_string())));
    }
    match p.attempt_finished(Err(IpLocateError::Request("last words".to_string()))) {
        IpStep::Finished(Err(IpLocateError::Request(m))) => assert_eq!(m, "last words"),
        _ => panic!("last error expected"),
    }
}

#[test]
fn timezone_errors_carry_the_parser_message() {
    match read_ip_answer(200, r#"{"lat":1,"lon":1,"timezone":"Mars/Olympus"}"#) {
        Err(IpLocateError::InvalidTimezone(_, m)) => assert_eq!(m, "failed to parse timezone"),
        _ => panic!("invalid timezone expected"),
    }
    match from_cache(&lines(&["1", "2", "Nowhere/City"])) {
        Err(CacheError::InvalidTimezone(m)) => assert_eq!(m, "failed to parse timezone"),
        _ => panic!("invalid timezone expected"),
    }
}
