use asahi::clock::{LocalTime, SysTime, ZonedTime};
use asahi::text::{parse_u64, trim, u64_to_decimal};

#[test]
fn trim_unicode_white_space() {
    assert_eq!(trim("  a b \t\n"), "a b");
    assert_eq!(trim("\u{3000}x\u{a0}"), "x");
    assert_eq!(trim("   "), "");
    assert_eq!(trim(""), "");
}

#[test]
fn parse_u64_like_std() {
    for s in ["0", "42", "+7", "18446744073709551615", "18446744073709551616", "", "+", "-1", "1a", " 1", "007"] {
        assert_eq!(parse_u64(s), s.parse::<u64>().ok(), "input {:?}", s);
    }
}

#[test]
fn decimal_round_trip() {
    for n in [0u64, 9, 10, 123456789, u64::MAX] {
        let s = u64_to_decimal(n);
        assert_eq!(s, n.to_string());
        assert_eq!(parse_u64(&s), Some(n));
    }
}

#[test]
fn day_numbers() {
    assert_eq!(LocalTime { secs: 0, nanos: 0 }.date(), 0);
    assert_eq!(LocalTime { secs: 86399, nanos: 0 }.date(), 0);
    assert_eq!(LocalTime { secs: 86400, nanos: 0 }.date(), 1);
    assert_eq!(LocalTime { secs: -1, nanos: 0 }.date(), -1);
    assert_eq!(LocalTime { secs: -86400, nanos: 0 }.date(), -1);
    assert_eq!(LocalTime { secs: -86401, nanos: 0 }.date(), -2);
}

#[test]
fn elapsed_whole_seconds() {
    let a = SysTime { secs: 10, nanos: 500 };
    assert_eq!(SysTime { secs: 12, nanos: 400 }.elapsed_since(&a), 1);
    assert_eq!(SysTime { secs: 12, nanos: 500 }.elapsed_since(&a), 2);
    assert_eq!(SysTime { secs: 9, nanos: 0 }.elapsed_since(&a), 0);
}

#[test]
fn zoned_time_local_reading() {
    let z = ZonedTime::new(1000, 5, 3600).unwrap();
    assert_eq!(z.naive_local(), LocalTime { secs: 4600, nanos: 5 });
    assert!(ZonedTime::new(0, 0, 86400).is_none());
    assert!(ZonedTime::new(i64::MAX, 0, 0).is_none());
    assert!(ZonedTime::new(0, 2_000_000_000, 0).is_none());
}
