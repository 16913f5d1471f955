//! File system paths built from environment values.
use vstd::prelude::*;
use vstd::string::{StringExecFns, StrSliceExecFns, StringSliceAdditionalSpecFns};

verus! {

/// `base` extended by a relative path `component`, as a Unix path buffer
/// does it: a `/` goes between them unless `base` is empty or already ends
/// with one.
pub open spec fn path_join(base: Seq<char>, component: Seq<char>) -> Seq<char> {
    if base.len() == 0 || base.last() == '/' {
        base + component
    } else {
        base + seq!['/'] + component
    }
}

/// Extends `base` by the relative path `component`.
pub fn join_path(base: String, component: &str) -> (r: String)
    ensures
        r@ == path_join(base@, component@),
{
    let n = base.as_str().unicode_len();
    if n == 0 || base.as_str().get_char(n - 1) == '/' {
        base.concat(component)
    } else {
        let with_sep = base.concat("/");
        proof {
            reveal_strlit("/");
        }
        with_sep.concat(component)
    }
}

/// The user-local configuration file: `$XDG_CONFIG_HOME/asahi/config.toml`
/// when the variable is set, else `$HOME/.config/asahi/config.toml` (an unset
/// `HOME` counts as empty).
pub open spec fn local_config_path_spec(xdg_config_home: Option<Seq<char>>, home: Option<Seq<char>>) -> Seq<char> {
    match xdg_config_home {
        Some(base) => path_join(base, "asahi/config.toml"@),
        None => path_join(
            match home {
                Some(h) => h,
                None => Seq::empty(),
            },
            ".config/asahi/config.toml"@,
        ),
    }
}

/// Resolves the user-local config path from the values of
/// `XDG_CONFIG_HOME` and `HOME`.
pub fn local_config_path(xdg_config_home: Option<&str>, home: Option<&str>) -> (r: String)
    ensures
        r@ == local_config_path_spec(
            match xdg_config_home { Some(x) => Some(x@), None => None },
            match home { Some(h) => Some(h@), None => None },
        ),
{
    match xdg_config_home {
        Some(base) => join_path(String::from_str(base), "asahi/config.toml"),
        None => {
            let h = match home {
                Some(h) => String::from_str(h),
                None => String::new(),
            };
            join_path(h, ".config/asahi/config.toml")
        },
    }
}

/// The location cache file under the home directory `home`:
/// `$HOME/.cache/asahi-location-cache`.
pub fn cache_path(home: &str) -> (r: String)
    ensures
        r@ == path_join(path_join(home@, ".cache"@), "asahi-location-cache"@),
{
    join_path(join_path(String::from_str(home), ".cache"), "asahi-location-cache")
}

/// `base` extended by `component`, on the bytes of Unix paths: a `/` goes
/// between them unless `base` is empty or already ends with one.
pub open spec fn path_join_bytes(base: Seq<u8>, component: Seq<u8>) -> Seq<u8> {
    if base.len() == 0 || base.last() == 47u8 {
        base + component
    } else {
        base + seq![47u8] + component
    }
}

/// Extends the path `base` by the relative path `component`, on bytes.
fn join_path_bytes(base: Vec<u8>, component: &str) -> (r: Vec<u8>)
    ensures
        r@ == path_join_bytes(base@, component.spec_bytes()),
{
    let mut r = base;
    let n = r.len();
    if n > 0 && r[n - 1] != 47u8 {
        r.push(47u8);
    }
    let mut tail = component.as_bytes_vec();
    r.append(&mut tail);
    r
}

/// The user-local configuration file, on the bytes of the values of
/// `XDG_CONFIG_HOME` and `HOME` (which need not be Unicode):
/// `$XDG_CONFIG_HOME/asahi/config.toml` when the variable is set, else
/// `$HOME/.config/asahi/config.toml` (an unset `HOME` counts as empty).
pub open spec fn local_config_path_bytes_spec(xdg_config_home: Option<Seq<u8>>, home: Option<Seq<u8>>) -> Seq<u8> {
    match xdg_config_home {
        Some(base) => path_join_bytes(base, "asahi/config.toml".spec_bytes()),
        None => path_join_bytes(
            match home {
                Some(h) => h,
                None => Seq::empty(),
            },
            ".config/asahi/config.toml".spec_bytes(),
        ),
    }
}

/// Resolves the user-local config path from the bytes of the values of
/// `XDG_CONFIG_HOME` and `HOME`.
pub fn local_config_path_bytes(xdg_config_home: Option<&[u8]>, home: Option<&[u8]>) -> (r: Vec<u8>)
    ensures
        r@ == local_config_path_bytes_spec(
            match xdg_config_home { Some(x) => Some(x@), None => None },
            match home { Some(h) => Some(h@), None => None },
        ),
{
    match xdg_config_home {
        Some(base) => join_path_bytes(vstd::slice::slice_to_vec(base), "asahi/config.toml"),
        None => {
            let h = match home {
                Some(h) => vstd::slice::slice_to_vec(h),
                None => Vec::new(),
            };
            join_path_bytes(h, ".config/asahi/config.toml")
        },
    }
}

} // verus!
