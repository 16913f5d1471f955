use asahi::hooks::{hook_dirs, hook_subdir, is_executable, run_hooks, scripts_in_dir, HookCandidate};
use asahi::paths::{cache_path, local_config_path, local_config_path_bytes};

fn cand(path: &str, is_file: bool, mode: Option<u32>) -> HookCandidate {
    HookCandidate { path: path.as_bytes().to_vec(), is_file, mode }
}

#[test]
fn subdir_per_theme() {
    assert_eq!(hook_subdir(1), Some("dark.d"));
    assert_eq!(hook_subdir(2), Some("light.d"));
    assert_eq!(hook_subdir(0), None);
    assert_eq!(hook_subdir(3), None);
}

#[test]
fn dirs_with_xdg_config_home() {
    let d = hook_dirs("dark.d", Some("/home/u/.cfg"), Some("/home/u"));
    assert_eq!(d, vec!["/etc/asahi/dark.d".to_string(), "/home/u/.cfg/asahi/dark.d".to_string()]);
}

#[test]
fn dirs_with_home_only() {
    let d = hook_dirs("light.d", None, Some("/home/u/"));
    assert_eq!(d, vec!["/etc/asahi/light.d".to_string(), "/home/u/.config/asahi/light.d".to_string()]);
    let e = hook_dirs("light.d", None, None);
    assert_eq!(e[1], ".config/asahi/light.d");
}

#[test]
fn run_hooks_only_for_dark_and_light() {
    assert!(run_hooks(0, None, Some("/h")).is_empty());
    assert!(run_hooks(5, None, Some("/h")).is_empty());
    assert_eq!(run_hooks(1, None, Some("/h"))[1], "/h/.config/asahi/dark.d");
    assert_eq!(run_hooks(2, Some("/x"), None)[0], "/etc/asahi/light.d");
}

#[test]
fn executable_bits() {
    assert!(is_executable(Some(0o755)));
    assert!(is_executable(Some(0o001)));
    assert!(is_executable(Some(0o010)));
    assert!(!is_executable(Some(0o644)));
    assert!(!is_executable(None));
}

#[test]
fn scripts_sorted_and_filtered() {
    let entries = vec![
        cand("/d/b-script", true, Some(0o755)),
        cand("/d/a-script", true, Some(0o700)),
        cand("/d/readme", true, Some(0o644)),
        cand("/d/subdir", false, Some(0o755)),
        cand("/d/broken", true, None),
        cand("/d/a", true, Some(0o111)),
    ];
    let s = scripts_in_dir(entries);
    let names: Vec<&[u8]> = s.iter().map(|v| v.as_slice()).collect();
    assert_eq!(names, vec![b"/d/a".as_slice(), b"/d/a-script".as_slice(), b"/d/b-script".as_slice()]);
}

#[test]
fn scripts_empty_dir() {
    assert!(scripts_in_dir(vec![]).is_empty());
}

#[test]
fn config_and_cache_paths() {
    assert_eq!(local_config_path(Some("/x"), Some("/h")), "/x/asahi/config.toml");
    assert_eq!(local_config_path(None, Some("/h")), "/h/.config/asahi/config.toml");
    assert_eq!(local_config_path(None, None), ".config/asahi/config.toml");
    assert_eq!(cache_path("/h"), "/h/.cache/asahi-location-cache");
}

#[test]
fn config_path_keeps_non_unicode_bytes() {
    assert_eq!(local_config_path_bytes(Some(&b"/x\xff"[..]), Some(&b"/h"[..])), b"/x\xff/asahi/config.toml".to_vec());
    assert_eq!(local_config_path_bytes(None, Some(&b"/h/"[..])), b"/h/.config/asahi/config.toml".to_vec());
    assert_eq!(local_config_path_bytes(None, None), b".config/asahi/config.toml".to_vec());
}
