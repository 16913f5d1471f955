//! The daemon's configuration: TOML files read into a map of keys to values,
//! the user's file overriding the system-wide one.
use vstd::prelude::*;
use crate::keyed::{keys_unique, to_map, lemma_to_map_dom, lemma_to_map_index, lemma_to_map_update,
    lemma_push_unique, find_key};
use crate::cast::{cast_unsigned_i64, u64_of_i64};
use crate::toml_input::{toml_input_ok, toml_input_supported};

verus! {

/// A configuration value the daemon reads.
pub enum Value {
    String(String),
    Integer(i64),
    /// A float, held as the bit pattern of the IEEE 754 double.
    Float(u64),
}

/// A configuration value with its string as characters.
pub enum ValueView {
    String(Seq<char>),
    Integer(i64),
    Float(u64),
}

impl View for Value {
    type V = ValueView;

    open spec fn view(&self) -> ValueView {
        match self {
            Value::String(s) => ValueView::String(s@),
            Value::Integer(i) => ValueView::Integer(*i),
            Value::Float(f) => ValueView::Float(*f),
        }
    }
}

/// A top-level value of a TOML document, as far as the configuration cares.
pub enum TomlScalar {
    String(String),
    Integer(i64),
    /// A float, as the bit pattern of the IEEE 754 double.
    Float(u64),
    /// A boolean, a date or time, an array or a table.
    Other,
}

/// A top-level TOML value with its string as characters.
pub enum TomlScalarView {
    String(Seq<char>),
    Integer(i64),
    Float(u64),
    Other,
}

impl View for TomlScalar {
    type V = TomlScalarView;

    open spec fn view(&self) -> TomlScalarView {
        match self {
            TomlScalar::String(s) => TomlScalarView::String(s@),
            TomlScalar::Integer(i) => TomlScalarView::Integer(*i),
            TomlScalar::Float(f) => TomlScalarView::Float(*f),
            TomlScalar::Other => TomlScalarView::Other,
        }
    }
}

/// The top-level keys of a TOML document and their values, or `None` when
/// the text is not TOML that `boml::parse` accepts.
pub uninterp spec fn toml_top_level(text: Seq<char>) -> Option<Map<Seq<char>, TomlScalarView>>;

/// Entries keyed by owned strings, read as pairs of characters and views.
pub open spec fn scalar_entries(s: Seq<(String, TomlScalar)>) -> Seq<(Seq<char>, TomlScalarView)> {
    s.map_values(|e: (String, TomlScalar)| (e.0@, e.1@))
}

/// `boml::parse` on `text`, with the top-level entries of the document read
/// out one for one: strings, integers and floats (by bit pattern) keep their
/// value, everything else becomes `Other`. `boml` keeps the entries in a hash
/// map, so no key occurs twice; the order of the entries is left open. Only
/// texts that `toml_input_ok` admits are handed over: the others are the
/// texts on which `boml` could panic or recurse too deep.
#[verifier::external_body]
fn parse_toml(text: &str) -> (r: Option<Vec<(String, TomlScalar)>>)
    requires
        toml_input_ok(text@),
    ensures
        r is Some <==> toml_top_level(text@) is Some,
        r matches Some(v) ==> keys_unique(scalar_entries(v@)) && to_map(scalar_entries(v@)) == toml_top_level(text@)->0,
{
    let toml = boml::parse(text).ok()?;
    Some(toml.iter().map(|(k, v)| (k.as_str().to_owned(), match v {
        boml::types::TomlValue::String(s) => TomlScalar::String(s.as_str().to_owned()),
        boml::types::TomlValue::Integer(i) => TomlScalar::Integer(*i),
        boml::types::TomlValue::Float(f) => TomlScalar::Float(f.to_bits()),
        _ => TomlScalar::Other,
    })).collect())
}

/// The configuration value a TOML value gives: strings, integers and floats
/// are kept, every other kind is dropped.
pub open spec fn from_boml_spec(v: TomlScalarView) -> Option<ValueView> {
    match v {
        TomlScalarView::String(s) => Some(ValueView::String(s)),
        TomlScalarView::Integer(i) => Some(ValueView::Integer(i)),
        TomlScalarView::Float(f) => Some(ValueView::Float(f)),
        TomlScalarView::Other => None,
    }
}

/// The view of an optional value.
pub open spec fn opt_value_view(v: Option<Value>) -> Option<ValueView> {
    match v {
        Some(x) => Some(x@),
        None => None,
    }
}

impl Value {
    /// The configuration value of a TOML value, if it is of a kind the
    /// configuration holds.
    pub fn from_boml(val: &TomlScalar) -> (r: Option<Value>)
        ensures
            opt_value_view(r) == from_boml_spec(val@),
    {
        match val {
            TomlScalar::String(s) => Some(Value::String(s.clone())),
            TomlScalar::Integer(i) => Some(Value::Integer(*i)),
            TomlScalar::Float(f) => Some(Value::Float(*f)),
            TomlScalar::Other => None,
        }
    }

    /// The string, if this is a string.
    pub fn as_str(&self) -> (r: Option<&str>)
        ensures
            match self@ {
                ValueView::String(s) => r is Some && r->0@ == s,
                _ => r is None,
            },
    {
        match self {
            Value::String(s) => Some(s.as_str()),
            _ => None,
        }
    }

    /// The integer, if this is an integer.
    pub fn as_integer(&self) -> (r: Option<i64>)
        ensures
            match self@ {
                ValueView::Integer(i) => r == Some(i),
                _ => r is None,
            },
    {
        match self {
            Value::Integer(i) => Some(*i),
            _ => None,
        }
    }

    /// A copy of this value.
    pub fn copy(&self) -> (r: Value)
        ensures
            r@ == self@,
    {
        match self {
            Value::String(s) => Value::String(s.clone()),
            Value::Integer(i) => Value::Integer(*i),
            Value::Float(f) => Value::Float(*f),
        }
    }
}

/// The configuration entries of a parsed TOML document: the keys whose value
/// is of a kind the configuration holds.
pub open spec fn config_of_toml(m: Map<Seq<char>, TomlScalarView>) -> Map<Seq<char>, ValueView> {
    Map::new(
        |k: Seq<char>| m.dom().contains(k) && from_boml_spec(m[k]) is Some,
        |k: Seq<char>| from_boml_spec(m[k])->0,
    )
}

/// Entries keyed by owned strings, read as pairs of characters and views.
pub open spec fn value_entries(s: Seq<(String, Value)>) -> Seq<(Seq<char>, ValueView)> {
    s.map_values(|e: (String, Value)| (e.0@, e.1@))
}

/// The configuration: keys to values.
pub struct Config {
    entries: Vec<(String, Value)>,
}

impl Config {
    /// The configuration as a map.
    pub closed spec fn view(&self) -> Map<Seq<char>, ValueView> {
        to_map(value_entries(self.entries@))
    }

    /// No key is held twice.
    pub closed spec fn wf(&self) -> bool {
        keys_unique(value_entries(self.entries@))
    }

    /// The empty configuration.
    pub fn new() -> (r: Config)
        ensures
            r.wf(),
            r.view() == Map::<Seq<char>, ValueView>::empty(),
    {
        let r = Config { entries: Vec::new() };
        assert(value_entries(r.entries@) =~= Seq::empty());
        r
    }

    /// The value of `key`, if the configuration has one.
    pub fn get(&self, key: &str) -> (r: Option<&Value>)
        requires
            self.wf(),
        ensures
            match r {
                Some(v) => self.view().dom().contains(key@) && self.view()[key@] == v@,
                None => !self.view().dom().contains(key@),
            },
    {
        let ghost ev = value_entries(self.entries@);
        match find_key(&self.entries, key) {
            Some(i) => {
                proof {
                    lemma_to_map_index(ev, i as int);
                }
                Some(&self.entries[i].1)
            },
            None => {
                proof {
                    lemma_to_map_dom(ev, key@);
                    assert forall|j: int| 0 <= j < ev.len() implies #[trigger] ev[j].0 != key@ by {
                        assert(ev[j].0 == self.entries@[j].0@);
                    }
                }
                None
            },
        }
    }

    /// Sets `key` to `value`.
    pub fn set(&mut self, key: String, value: Value)
        requires
            old(self).wf(),
        ensures
            final(self).wf(),
            final(self).view() == old(self).view().insert(key@, value@),
    {
        let ghost ev = value_entries(self.entries@);
        let ghost kv = key@;
        let ghost vv = value@;
        match find_key(&self.entries, key.as_str()) {
            Some(i) => {
                proof {
                    lemma_to_map_update(ev, i as int, vv);
                }
                self.entries.set(i, (key, value));
                assert(value_entries(self.entries@) =~= ev.update(i as int, (ev[i as int].0, vv)));
            },
            None => {
                proof {
                    assert forall|j: int| 0 <= j < ev.len() implies #[trigger] ev[j].0 != kv by {
                        assert(ev[j].0 == self.entries@[j].0@);
                    }
                    lemma_push_unique(ev, kv, vv);
                }
                self.entries.push((key, value));
                assert(value_entries(self.entries@) =~= ev.push((kv, vv)));
            },
        }
    }

    /// Adds every entry of `other`, whose values win over this one's.
    pub fn extend(&mut self, other: Config)
        requires
            old(self).wf(),
            other.wf(),
        ensures
            final(self).wf(),
            final(self).view() == old(self).view().union_prefer_right(other.view()),
    {
        let ghost ov = value_entries(other.entries@);
        let ghost start = self.view();
        let mut rest = other.entries;
        let mut taken: Vec<(String, Value)> = Vec::new();
        // Entries are moved out from the back of `rest` and set in reverse
        // order; keys are unique, so the order does not matter.
        let ghost total = rest@.len();
        proof {
            assert(value_entries(rest@) =~= ov);
        }
        while rest.len() > 0
            invariant
                self.wf(),
                keys_unique(ov),
                rest@.len() <= total,
                total == ov.len(),
                value_entries(rest@) == ov.take(rest@.len() as int),
                self.view() == start.union_prefer_right(to_map(ov.skip(rest@.len() as int))),
            decreases rest@.len(),
        {
            let ghost n = rest@.len();
            let (k, v) = rest.pop().unwrap();
            proof {
                assert(value_entries(rest@) =~= ov.take(n - 1));
                assert(ov[n - 1] == (k@, v@)) by {
                    assert(ov.take(n as int)[n - 1] == ov[n - 1]);
                }
                let tail = ov.skip(n - 1);
                assert(tail.drop_first() =~= ov.skip(n as int));
                lemma_to_map_first(tail);
                assert forall|j: int| 0 <= j < tail.len() - 1 implies #[trigger] tail.drop_first()[j].0 != tail[0].0 by {
                    assert(tail.drop_first()[j] == ov[n + j]);
                    assert(tail[0] == ov[n - 1]);
                }
            }
            self.set(k, v);
            proof {
                let tail = ov.skip(n - 1);
                assert(self.view() =~= start.union_prefer_right(to_map(tail)));
            }
        }
        proof {
            assert(ov.skip(0) =~= ov);
        }
    }
}

/// Putting an entry in front of a list whose keys differ from it adds it to
/// the map.
proof fn lemma_to_map_first<V>(s: Seq<(Seq<char>, V)>)
    requires
        s.len() > 0,
        forall|j: int| 0 <= j < s.len() - 1 ==> #[trigger] s.drop_first()[j].0 != s[0].0,
    ensures
        to_map(s) == to_map(s.drop_first()).insert(s[0].0, s[0].1),
    decreases s.len(),
{
    if s.len() == 1 {
        assert(s.drop_first() =~= Seq::<(Seq<char>, V)>::empty());
        assert(s.drop_last() =~= Seq::<(Seq<char>, V)>::empty());
        assert(to_map(s) =~= to_map(s.drop_first()).insert(s[0].0, s[0].1));
    } else {
        let t = s.drop_last();
        assert forall|j: int| 0 <= j < t.len() - 1 implies #[trigger] t.drop_first()[j].0 != t[0].0 by {
            assert(t.drop_first()[j] == s.drop_first()[j]);
        }
        lemma_to_map_first(t);
        assert(t.drop_first() =~= s.drop_first().drop_last());
        assert(s.drop_first().last() == s.last());
        assert(s.last().0 != s[0].0) by {
            assert(s.drop_first()[s.len() - 2] == s.last());
        }
        assert(to_map(s) =~= to_map(s.drop_first()).insert(s[0].0, s[0].1));
    }
}

/// What reading one configuration file gives: `None` for text that is not
/// TOML or that the TOML parser is not given (see `toml_input_ok`), else the
/// top-level entries with a string, integer or float value.
pub open spec fn parse_config_file_spec(text: Seq<char>) -> Option<Map<Seq<char>, ValueView>> {
    if !toml_input_ok(text) {
        None
    } else {
        match toml_top_level(text) {
            Some(m) => Some(config_of_toml(m)),
            None => None,
        }
    }
}

/// The view of an optional configuration.
pub open spec fn opt_config_view(c: Option<Config>) -> Option<Map<Seq<char>, ValueView>> {
    match c {
        Some(x) => Some(x.view()),
        None => None,
    }
}

/// Parses the text of one configuration file into a map of keys to values.
/// Returns None if the text cannot be parsed, or is one that the TOML
/// parser could fault on.
pub fn load_file(text: &str) -> (r: Option<Config>)
    ensures
        opt_config_view(r) == parse_config_file_spec(text@),
        r matches Some(c) ==> c.wf(),
{
    if !toml_input_supported(text) {
        return None;
    }
    let entries = match parse_toml(text) {
        Some(e) => e,
        None => return None,
    };
    let ghost m = toml_top_level(text@)->0;
    let ghost se = scalar_entries(entries@);
    let mut cfg = Config::new();
    let mut i: usize = 0;
    while i < entries.len()
        invariant
            i <= entries@.len(),
            se == scalar_entries(entries@),
            keys_unique(se),
            to_map(se) == m,
            cfg.wf(),
            cfg.view() == config_of_toml(to_map(se.take(i as int))),
        decreases entries@.len() - i,
    {
        let ghost before = to_map(se.take(i as int));
        proof {
            assert(se.take(i + 1).drop_last() =~= se.take(i as int));
            assert(se[i as int] == (entries@[i as int].0@, entries@[i as int].1@));
        }
        match Value::from_boml(&entries[i].1) {
            Some(v) => {
                let key = entries[i].0.clone();
                cfg.set(key, v);
                proof {
                    assert(cfg.view() =~= config_of_toml(to_map(se.take(i + 1))));
                }
            },
            None => {
                proof {
                    let k = se[i as int].0;
                    lemma_to_map_dom(se.take(i as int), k);
                    if before.dom().contains(k) {
                        let j = choose|j: int| 0 <= j < se.take(i as int).len() && #[trigger] se.take(i as int)[j].0 == k;
                        assert(se[j].0 == se[i as int].0);
                    }
                    assert(cfg.view() =~= config_of_toml(to_map(se.take(i + 1))));
                }
            },
        }
        i = i + 1;
    }
    assert(se.take(entries@.len() as int) =~= se);
    Some(cfg)
}

/// The merged configuration: the system-wide file's entries, overridden by
/// the user's; a missing or unparsable file counts as empty.
pub open spec fn parse_config_spec(system: Option<Seq<char>>, local: Option<Seq<char>>) -> Map<Seq<char>, ValueView> {
    let base = match system {
        Some(t) => match parse_config_file_spec(t) {
            Some(m) => m,
            None => Map::empty(),
        },
        None => Map::empty(),
    };
    match local {
        Some(t) => match parse_config_file_spec(t) {
            Some(m) => base.union_prefer_right(m),
            None => base,
        },
        None => base,
    }
}

/// Merges config from two files: the system-wide file (`/etc/asahi/config.toml`)
/// and the user-local one (`~/.config/asahi/config.toml`), whose keys take
/// priority. A file that is missing (`None`) or unparseable is skipped.
pub fn parse_config(system: Option<&str>, local: Option<&str>) -> (r: Config)
    ensures
        r.wf(),
        r.view() == parse_config_spec(
            match system { Some(t) => Some(t@), None => None },
            match local { Some(t) => Some(t@), None => None },
        ),
{
    let mut config = match system {
        Some(t) => match load_file(t) {
            Some(c) => c,
            None => Config::new(),
        },
        None => Config::new(),
    };
    match local {
        Some(t) => match load_file(t) {
            Some(c) => {
                config.extend(c);
            },
            None => {},
        },
        None => {},
    }
    config
}

/// Where keys are present in both files, the user-local file's value wins;
/// keys of only one file keep that file's value.
pub proof fn lemma_user_config_takes_priority(system: Seq<char>, local: Seq<char>, key: Seq<char>)
    requires
        parse_config_file_spec(system) is Some,
        parse_config_file_spec(local) is Some,
    ensures
        parse_config_file_spec(local)->0.dom().contains(key) ==> parse_config_spec(Some(system), Some(local)).dom().contains(key)
            && parse_config_spec(Some(system), Some(local))[key] == parse_config_file_spec(local)->0[key],
        !parse_config_file_spec(local)->0.dom().contains(key) && parse_config_file_spec(system)->0.dom().contains(key)
            ==> parse_config_spec(Some(system), Some(local)).dom().contains(key)
            && parse_config_spec(Some(system), Some(local))[key] == parse_config_file_spec(system)->0[key],
{
}

/// Neither file is required to exist: with none, the configuration is empty
/// and every setting takes its default.
pub proof fn lemma_no_config_files(key: Seq<char>, default: i64)
    ensures
        parse_config_spec(None, None) == Map::<Seq<char>, ValueView>::empty(),
        integer_or(parse_config_spec(None, None), key, default) == default,
{
}

/// The integer under `key`, or `default` when the key is missing or holds
/// another kind of value.
pub open spec fn integer_or(c: Map<Seq<char>, ValueView>, key: Seq<char>, default: i64) -> i64 {
    if c.dom().contains(key) && c[key] is Integer {
        c[key]->Integer_0
    } else {
        default
    }
}

/// The integer setting `key` of the configuration, or `default`.
pub fn integer_setting(cfg: &Config, key: &str, default: i64) -> (r: i64)
    requires
        cfg.wf(),
    ensures
        r == integer_or(cfg.view(), key@, default),
{
    match cfg.get(key) {
        Some(val) => match val.as_integer() {
            Some(i) => i,
            None => default,
        },
        None => default,
    }
}

/// A configured coordinate: a float (the bit pattern of the double), or an
/// integer, which stands for the float of the same value.
#[derive(Clone, Copy, PartialEq, Eq, Structural, Debug)]
pub enum Coordinate {
    Float(u64),
    Integer(i64),
}

/// The coordinate under `key`: a float or an integer; `None` when the key
/// is missing or holds a string.
pub open spec fn coordinate_spec(c: Map<Seq<char>, ValueView>, key: Seq<char>) -> Option<Coordinate> {
    if c.dom().contains(key) {
        match c[key] {
            ValueView::Float(bits) => Some(Coordinate::Float(bits)),
            ValueView::Integer(i) => Some(Coordinate::Integer(i)),
            ValueView::String(_) => None,
        }
    } else {
        None
    }
}

/// The coordinate setting `key` (`override_lat` or `override_lon`) of the
/// configuration.
pub fn coordinate_setting(cfg: &Config, key: &str) -> (r: Option<Coordinate>)
    requires
        cfg.wf(),
    ensures
        r == coordinate_spec(cfg.view(), key@),
{
    match cfg.get(key) {
        Some(Value::Float(bits)) => Some(Coordinate::Float(*bits)),
        Some(Value::Integer(i)) => Some(Coordinate::Integer(*i)),
        _ => None,
    }
}

/// The integer setting `key` of the configuration, or `default`, with its
/// bits read as an unsigned number (so a negative value becomes a huge one).
pub fn unsigned_setting(cfg: &Config, key: &str, default: i64) -> (r: u64)
    requires
        cfg.wf(),
    ensures
        r == u64_of_i64(integer_or(cfg.view(), key@, default)),
{
    let v = integer_setting(cfg, key, default);
    cast_unsigned_i64(v)
}

/// Seconds before a location fix is refreshed (`location_ttl`, default 3600).
pub fn location_ttl(cfg: &Config) -> (r: u64)
    requires
        cfg.wf(),
    ensures
        r == u64_of_i64(integer_or(cfg.view(), "location_ttl"@, 3600)),
{
    unsigned_setting(cfg, "location_ttl", 3600)
}

/// Seconds between sunrise/sunset checks (`sunset_check_frequency`,
/// default 600).
pub fn sunset_check_frequency(cfg: &Config) -> (r: u64)
    requires
        cfg.wf(),
    ensures
        r == u64_of_i64(integer_or(cfg.view(), "sunset_check_frequency"@, 600)),
{
    unsigned_setting(cfg, "sunset_check_frequency", 600)
}

/// How much the daemon logs.
#[derive(Clone, Copy, PartialEq, Eq, Structural, Debug)]
pub enum LogLevel {
    Error,
    Warn,
    Info,
    Debug,
    Trace,
}

/// `c` with an ASCII capital turned into its small letter.
pub open spec fn ascii_lower(c: char) -> char {
    if 'A' <= c && c <= 'Z' {
        ((c as u32) + 32) as char
    } else {
        c
    }
}

/// The two strings are equal up to the case of ASCII letters.
pub open spec fn eq_ignore_ascii_case(a: Seq<char>, b: Seq<char>) -> bool {
    a.len() == b.len() && forall|i: int| 0 <= i < a.len() ==> ascii_lower(#[trigger] a[i]) == ascii_lower(b[i])
}

/// The level a name stands for, as `log::Level` parses it: `error`, `warn`,
/// `info`, `debug` or `trace`, in any ASCII case.
pub open spec fn parse_level_spec(s: Seq<char>) -> Option<LogLevel> {
    if eq_ignore_ascii_case(s, "error"@) {
        Some(LogLevel::Error)
    } else if eq_ignore_ascii_case(s, "warn"@) {
        Some(LogLevel::Warn)
    } else if eq_ignore_ascii_case(s, "info"@) {
        Some(LogLevel::Info)
    } else if eq_ignore_ascii_case(s, "debug"@) {
        Some(LogLevel::Debug)
    } else if eq_ignore_ascii_case(s, "trace"@) {
        Some(LogLevel::Trace)
    } else {
        None
    }
}

fn to_ascii_lower(c: char) -> (r: char)
    ensures
        r == ascii_lower(c),
{
    if 'A' <= c && c <= 'Z' {
        let code: u32 = (c as u32) + 32;
        proof {
            assert(code <= 0x7f);
        }
        code as u8 as char
    } else {
        c
    }
}

/// Whether `a` equals `b` up to the case of ASCII letters.
pub fn equals_ignore_ascii_case(a: &str, b: &str) -> (r: bool)
    ensures
        r == eq_ignore_ascii_case(a@, b@),
{
    let n = a.unicode_len();
    if n != b.unicode_len() {
        return false;
    }
    let mut i: usize = 0;
    while i < n
        invariant
            n == a@.len(),
            n == b@.len(),
            i <= n,
            forall|j: int| 0 <= j < i ==> ascii_lower(#[trigger] a@[j]) == ascii_lower(b@[j]),
        decreases n - i,
    {
        if to_ascii_lower(a.get_char(i)) != to_ascii_lower(b.get_char(i)) {
            return false;
        }
        i = i + 1;
    }
    true
}

/// The log level a name stands for.
pub fn parse_level(s: &str) -> (r: Option<LogLevel>)
    ensures
        r == parse_level_spec(s@),
{
    if equals_ignore_ascii_case(s, "error") {
        Some(LogLevel::Error)
    } else if equals_ignore_ascii_case(s, "warn") {
        Some(LogLevel::Warn)
    } else if equals_ignore_ascii_case(s, "info") {
        Some(LogLevel::Info)
    } else if equals_ignore_ascii_case(s, "debug") {
        Some(LogLevel::Debug)
    } else if equals_ignore_ascii_case(s, "trace") {
        Some(LogLevel::Trace)
    } else {
        None
    }
}

/// The configured log level: `log_level` when it is a string naming a level,
/// else `info`.
pub open spec fn log_level_spec(c: Map<Seq<char>, ValueView>) -> LogLevel {
    if c.dom().contains("log_level"@) && c["log_level"@] is String
        && parse_level_spec(c["log_level"@]->String_0) is Some {
        parse_level_spec(c["log_level"@]->String_0)->0
    } else {
        LogLevel::Info
    }
}

/// Log verbosity from the configuration. Accepts "error", "warn", "info",
/// "debug", "trace"; defaults to "info".
pub fn log_level(cfg: &Config) -> (r: LogLevel)
    requires
        cfg.wf(),
    ensures
        r == log_level_spec(cfg.view()),
{
    match cfg.get("log_level") {
        Some(v) => match v.as_str() {
            Some(s) => match parse_level(s) {
                Some(l) => l,
                None => LogLevel::Info,
            },
            None => LogLevel::Info,
        },
        None => LogLevel::Info,
    }
}

} // verus!
