use asahi::dbus_portal::portal::{glob as portal_glob, Portal};
use asahi::dbus_portal::settings::{PortalError, SettingValue};
use asahi::dbus_portal::xdg_interfaces::{glob, XDGInterfaces};

fn error_message(r: Result<SettingValue, PortalError>) -> String {
    match r {
        Err(PortalError::UnknownProperty(m)) => m,
        Ok(v) => panic!("expected an error, got {:?}", v),
    }
}

#[test]
fn glob_several_patterns_any_one_selects() {
    assert!(glob(&["org.other", "org.freedesktop.*"], "org.freedesktop.appearance"));
    assert!(!glob(&["org.other", "com.*"], "org.freedesktop.appearance"));
}

#[test]
fn glob_trailing_stars_are_all_trimmed() {
    assert!(glob(&["org.free**"], "org.freedesktop.appearance"));
    assert!(glob(&["*"], "anything"));
}

#[test]
fn glob_star_in_middle_is_literal() {
    assert!(!glob(&["org.*.appearance"], "org.freedesktop.appearance"));
    assert!(glob(&["org.*.appearance"], "org.*.appearance"));
}

#[test]
fn portal_glob_matches_inside_namespace() {
    assert!(portal_glob(&["desktop*"], "org.freedesktop.appearance"));
    assert!(portal_glob(&[""], "org.freedesktop.appearance"));
    assert!(!portal_glob(&[], "org.freedesktop.appearance"));
    assert!(!portal_glob(&["org.freedesktop.appearance"], "org.freedesktop.appearance"));
    assert!(!portal_glob(&["other*"], "org.freedesktop.appearance"));
}

#[test]
fn new_portal_serves_no_preference() {
    let p = XDGInterfaces::new();
    assert_eq!(p.read("org.freedesktop.appearance", "color-scheme").unwrap(), SettingValue::Int32(0));
    assert_eq!(p.version(), 0);
}

#[test]
fn read_unknown_namespace_and_key() {
    let p = XDGInterfaces::new();
    assert_eq!(error_message(p.read("org.other", "color-scheme")), "Namespace not found");
    assert_eq!(error_message(p.read("org.freedesktop.appearance", "accent")), "Key not found");
}

#[test]
fn read_gives_back_what_change_setting_wrote() {
    let mut p = XDGInterfaces::new();
    p.change_setting("org.freedesktop.appearance", "color-scheme", SettingValue::Uint32(1));
    assert_eq!(p.read("org.freedesktop.appearance", "color-scheme").unwrap(), SettingValue::Uint32(1));
    p.change_setting("org.freedesktop.appearance", "color-scheme", SettingValue::Uint32(2));
    assert_eq!(p.read("org.freedesktop.appearance", "color-scheme").unwrap(), SettingValue::Uint32(2));
}

#[test]
fn change_setting_creates_namespace_and_keeps_others() {
    let mut p = XDGInterfaces::new();
    p.change_setting("org.example", "key", SettingValue::Uint32(7));
    assert_eq!(p.read("org.example", "key").unwrap(), SettingValue::Uint32(7));
    assert_eq!(p.read("org.freedesktop.appearance", "color-scheme").unwrap(), SettingValue::Int32(0));
    p.change_setting("org.freedesktop.appearance", "contrast", SettingValue::Uint32(1));
    assert_eq!(p.read("org.freedesktop.appearance", "color-scheme").unwrap(), SettingValue::Int32(0));
    assert_eq!(p.read("org.freedesktop.appearance", "contrast").unwrap(), SettingValue::Uint32(1));
}

#[test]
fn read_all_filters_namespaces() {
    let mut p = XDGInterfaces::new();
    p.change_setting("org.example", "key", SettingValue::Uint32(7));
    let all = p.read_all(&[]);
    assert_eq!(all.len(), 2);
    let some = p.read_all(&["org.freedesktop.*"]);
    assert_eq!(some.len(), 1);
    assert_eq!(some[0].0, "org.freedesktop.appearance");
    assert_eq!(some[0].1.len(), 1);
    assert_eq!(some[0].1[0].0, "color-scheme");
    assert_eq!(some[0].1[0].1, SettingValue::Int32(0));
    let none = p.read_all(&["com.*"]);
    assert_eq!(none.len(), 0);
}

#[test]
fn first_portal_reads_and_writes_alike() {
    let mut p = Portal::new();
    assert_eq!(p.read("org.freedesktop.appearance", "color-scheme").unwrap(), SettingValue::Int32(0));
    p.change_setting("org.freedesktop.appearance", "color-scheme", SettingValue::Uint32(2));
    assert_eq!(p.read("org.freedesktop.appearance", "color-scheme").unwrap(), SettingValue::Uint32(2));
    assert_eq!(p.read_all(&["desktop*"]).len(), 1);
    assert_eq!(p.read_all(&[]).len(), 0);
    assert_eq!(error_message(p.read("x", "y")), "Namespace not found");
}
