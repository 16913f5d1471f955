use asahi::cast::{cast_unsigned_i32, cast_unsigned_i64};
use asahi::config::{coordinate_setting, Coordinate, load_file, location_ttl, log_level, parse_config, parse_level, sunset_check_frequency, Config,
    LogLevel, TomlScalar, Value};

#[test]
fn load_file_keeps_strings_integers_floats() {
    let c = load_file("log_level = \"debug\"\nlocation_ttl = 60\noverride_lat = 1.5\nflag = true\n[table]\nx = 1\n").unwrap();
    assert_eq!(c.get("log_level").unwrap().as_str(), Some("debug"));
    assert_eq!(c.get("location_ttl").unwrap().as_integer(), Some(60));
    match c.get("override_lat") {
        Some(Value::Float(bits)) => assert_eq!(f64::from_bits(*bits), 1.5),
        _ => panic!("float expected"),
    }
    assert!(c.get("flag").is_none());
    assert!(c.get("table").is_none());
    assert!(c.get("x").is_none());
}

#[test]
fn load_file_rejects_bad_toml() {
    assert!(load_file("this is = = not toml").is_none());
}

#[test]
fn local_file_overrides_system_file() {
    let c = parse_config(Some("location_ttl = 10\nsunset_check_frequency = 20\n"), Some("location_ttl = 30\n"));
    assert_eq!(location_ttl(&c), 30);
    assert_eq!(sunset_check_frequency(&c), 20);
}

#[test]
fn missing_or_broken_files_are_skipped() {
    let c = parse_config(None, Some("location_ttl = 5\n"));
    assert_eq!(location_ttl(&c), 5);
    let d = parse_config(Some("location_ttl = 7\n"), Some("= broken"));
    assert_eq!(location_ttl(&d), 7);
    let e = parse_config(None, None);
    assert_eq!(location_ttl(&e), 3600);
    assert_eq!(sunset_check_frequency(&e), 600);
}

#[test]
fn wrong_kind_falls_back_to_default() {
    let c = parse_config(Some("location_ttl = \"soon\"\nsunset_check_frequency = 2.5\n"), None);
    assert_eq!(location_ttl(&c), 3600);
    assert_eq!(sunset_check_frequency(&c), 600);
}

#[test]
fn negative_setting_wraps_to_unsigned() {
    let c = parse_config(Some("location_ttl = -1\n"), None);
    assert_eq!(location_ttl(&c), u64::MAX);
}

#[test]
fn config_set_and_extend() {
    let mut a = Config::new();
    a.set("k".to_string(), Value::Integer(1));
    a.set("k".to_string(), Value::Integer(2));
    assert_eq!(a.get("k").unwrap().as_integer(), Some(2));
    let mut b = Config::new();
    b.set("k".to_string(), Value::String("s".to_string()));
    b.set("j".to_string(), Value::Integer(3));
    a.extend(b);
    assert_eq!(a.get("k").unwrap().as_str(), Some("s"));
    assert_eq!(a.get("j").unwrap().as_integer(), Some(3));
}

#[test]
fn from_boml_drops_other_kinds() {
    assert!(Value::from_boml(&TomlScalar::Other).is_none());
    assert_eq!(Value::from_boml(&TomlScalar::Integer(4)).unwrap().as_integer(), Some(4));
    assert_eq!(Value::from_boml(&TomlScalar::String("a".to_string())).unwrap().as_str(), Some("a"));
    assert!(Value::from_boml(&TomlScalar::Float(0)).unwrap().as_integer().is_none());
}

#[test]
fn log_levels() {
    assert_eq!(parse_level("debug"), Some(LogLevel::Debug));
    assert_eq!(parse_level("WARN"), Some(LogLevel::Warn));
    assert_eq!(parse_level("Error"), Some(LogLevel::Error));
    assert_eq!(parse_level("trace"), Some(LogLevel::Trace));
    assert_eq!(parse_level("info"), Some(LogLevel::Info));
    assert_eq!(parse_level("off"), None);
    assert_eq!(parse_level("verbose"), None);
    assert_eq!(log_level(&parse_config(Some("log_level = \"trace\"\n"), None)), LogLevel::Trace);
    assert_eq!(log_level(&parse_config(Some("log_level = \"loud\"\n"), None)), LogLevel::Info);
    assert_eq!(log_level(&parse_config(None, None)), LogLevel::Info);
}

#[test]
fn unsigned_casts() {
    assert_eq!(cast_unsigned_i64(-1), u64::MAX);
    assert_eq!(cast_unsigned_i64(i64::MIN), 1u64 << 63);
    assert_eq!(cast_unsigned_i64(5), 5);
    assert_eq!(cast_unsigned_i32(-1), u32::MAX);
    assert_eq!(cast_unsigned_i32(2), 2);
}

#[test]
fn escape_cut_inside_a_character_is_not_parsed() {
    assert!(load_file("a = \"\\x0\u{e9}\"\n").is_none());
    assert!(load_file("a = \"\\u00\u{e9}1\"\n").is_none());
    let c = load_file("a = \"\\x41\"\n").unwrap();
    assert_eq!(c.get("a").unwrap().as_str(), Some("A"));
}

#[test]
fn texts_the_parser_could_fault_on_are_not_parsed() {
    let long = format!("a = 1.{}\n", "5".repeat(800));
    assert!(load_file(&long).is_none());
    let long_negative = format!("a = -{}\n", "5".repeat(800));
    assert!(load_file(&long_negative).is_none());
    let deep = format!("a = {}1{}\n", "[".repeat(300), "]".repeat(300));
    assert!(load_file(&deep).is_none());
    let comments = "# note\n".repeat(20000) + "a = 1\n";
    assert!(load_file(&comments).is_none());
    assert!(load_file("t = 12:30:00.123456789\n").is_none());
    assert!(load_file("d = 2024-01-01T12\n").is_none());
    let fine = "# note\n".repeat(10) + "t = 12:30:00.12345678\nd = 2024-01-01T12:00:00\n[[x]]\ny = [1, [2]]\n";
    assert!(load_file(&fine).is_some());
}

#[test]
fn texts_the_parser_reads_safely_are_parsed() {
    let dashes = format!("log_level = \"debug\"\n# {}\n", "-".repeat(800));
    assert_eq!(load_file(&dashes).unwrap().get("log_level").unwrap().as_str(), Some("debug"));
    let path = "x".repeat(2000);
    let long_string = format!("p = \"{path}\"\nq = '{path}'\nr = \"\"\"{path}\"\"\"\n");
    let c = load_file(&long_string).unwrap();
    assert_eq!(c.get("p").unwrap().as_str(), Some(path.as_str()));
    assert_eq!(c.get("r").unwrap().as_str(), Some(path.as_str()));
    let many_arrays = "a = [1]\n".to_string() + &(0..300).map(|i| format!("k{i} = [{i}]\n")).collect::<String>();
    assert!(load_file(&many_arrays).is_some());
    let many_comments = "# note\n".repeat(5000) + "a = 1\n";
    assert_eq!(load_file(&many_comments).unwrap().get("a").unwrap().as_integer(), Some(1));
    let brackets_in_strings = format!("s = \"{}\"\n# {}\n", "[".repeat(300), "{".repeat(300));
    assert!(load_file(&brackets_in_strings).is_some());
    let escaped_in_comment = "# C:\\x\u{e9}\u{e9}\na = 2\n";
    assert_eq!(load_file(escaped_in_comment).unwrap().get("a").unwrap().as_integer(), Some(2));
}

#[test]
fn coordinates_are_floats_or_integers() {
    let c = load_file("override_lat = 1.5\noverride_lon = 3\nname = \"x\"\n").unwrap();
    assert_eq!(coordinate_setting(&c, "override_lat"), Some(Coordinate::Float(1.5f64.to_bits())));
    assert_eq!(coordinate_setting(&c, "override_lon"), Some(Coordinate::Integer(3)));
    assert_eq!(coordinate_setting(&c, "name"), None);
    assert_eq!(coordinate_setting(&c, "missing"), None);
}
