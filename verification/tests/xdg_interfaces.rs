use asahi::dbus_portal::xdg_interfaces::glob;

#[test]
fn empty_patterns_array_matches_everything() {
    assert!(glob(&[], "org.freedesktop.appearance"));
}

#[test]
fn single_empty_pattern_matches_everything() {
    assert!(glob(&[""], "org.freedesktop.appearance"));
}

#[test]
fn exact_pattern_matches_only_itself() {
    assert!(glob(&["org.freedesktop.appearance"], "org.freedesktop.appearance"));
    assert!(!glob(&["org.freedesktop.appearance"], "org.freedesktop.other"));
}

#[test]
fn wildcard_pattern_matches_prefix() {
    assert!(glob(&["org.freedesktop.*"], "org.freedesktop.appearance"));
    assert!(!glob(&["org.freedesktop.*"], "org.other.appearance"));
}

#[test]
fn non_matching_pattern_does_not_match() {
    assert!(!glob(&["org.other"], "org.freedesktop.appearance"));
}
