//! The settings portal (`org.freedesktop.impl.portal.Settings`): the namespace
//! filter used by `ReadAll`.
use vstd::prelude::*;
use crate::text::{is_prefix_of, trim_end_char, ends_with_char, str_eq, trim_end_char_len, starts_with_prefix};
use crate::keyed::to_map;
use crate::dbus_portal::settings::{SettingsStore, SettingsView, SettingValue, PortalError, NamespaceSettings,
    namespaces_keyed, namespaces_wf, read_spec, change_spec, read_result_view};

verus! {

/// Whether a single namespace filter selects `namespace`: an empty pattern
/// selects everything, a pattern equal to the namespace selects it, and a
/// pattern ending in `*` selects every namespace that starts with the pattern
/// minus its trailing stars.
pub open spec fn pattern_selects(pattern: Seq<char>, namespace: Seq<char>) -> bool {
    ||| pattern.len() == 0
    ||| pattern == namespace
    ||| (ends_with_char(pattern, '*') && is_prefix_of(trim_end_char(pattern, '*'), namespace))
}

/// Whether a list of namespace filters selects `namespace`: an empty list
/// selects every namespace, otherwise one of the filters has to.
pub open spec fn glob_spec(patterns: Seq<Seq<char>>, namespace: Seq<char>) -> bool {
    patterns.len() == 0 || exists|i: int| 0 <= i < patterns.len() && pattern_selects(#[trigger] patterns[i], namespace)
}

/// `k` stars.
pub open spec fn stars(k: nat) -> Seq<char> {
    Seq::new(k, |_i: int| '*')
}

proof fn lemma_trim_stars(stem: Seq<char>, k: nat)
    requires
        stem.len() == 0 || stem.last() != '*',
    ensures
        trim_end_char(stem + stars(k), '*') == stem,
    decreases k,
{
    let p = stem + stars(k);
    if k == 0 {
        assert(p =~= stem);
    } else {
        assert(p.last() == '*');
        assert(p.drop_last() =~= stem + stars((k - 1) as nat));
        lemma_trim_stars(stem, (k - 1) as nat);
    }
}

/// An empty filter selects every namespace, and every filter selects the
/// namespace equal to it.
pub proof fn lemma_empty_pattern_selects_all(namespace: Seq<char>)
    ensures
        pattern_selects(Seq::empty(), namespace),
        pattern_selects(namespace, namespace),
{
}

/// A filter that is a stem followed by one or more stars selects a
/// namespace other than itself exactly when the stem is where the namespace
/// starts; a stem found anywhere else in the namespace does not count.
pub proof fn lemma_star_pattern_selects_prefixes(stem: Seq<char>, k: nat, namespace: Seq<char>)
    requires
        k >= 1,
        stem.len() == 0 || stem.last() != '*',
        stem + stars(k) != namespace,
    ensures
        pattern_selects(stem + stars(k), namespace) == (stem.len() <= namespace.len()
            && namespace.subrange(0, stem.len() as int) == stem),
{
    let p = stem + stars(k);
    lemma_trim_stars(stem, k);
    assert(p.len() > 0);
    assert(p.last() == '*');
}

/// A filter that does not end with a star selects only the namespace equal
/// to it.
pub proof fn lemma_plain_pattern_selects_itself(pattern: Seq<char>, namespace: Seq<char>)
    requires
        pattern.len() > 0,
        pattern.last() != '*',
    ensures
        pattern_selects(pattern, namespace) == (pattern == namespace),
{
}

/// No filter selects every namespace; one filter selects what it selects;
/// adding a filter to a non-empty list adds the namespaces it selects.
pub proof fn lemma_glob_is_union(patterns: Seq<Seq<char>>, p: Seq<char>, namespace: Seq<char>)
    ensures
        glob_spec(Seq::empty(), namespace),
        glob_spec(seq![p], namespace) == pattern_selects(p, namespace),
        patterns.len() > 0 ==> glob_spec(patterns.push(p), namespace) == (glob_spec(patterns, namespace)
            || pattern_selects(p, namespace)),
{
    if pattern_selects(p, namespace) {
        assert(seq![p][0] == p);
        assert(patterns.push(p)[patterns.len() as int] == p);
    }
    if glob_spec(seq![p], namespace) {
        let i = choose|i: int| 0 <= i < seq![p].len() && pattern_selects(#[trigger] seq![p][i], namespace);
        assert(i == 0);
    }
    if patterns.len() > 0 {
        let q = patterns.push(p);
        if glob_spec(patterns, namespace) {
            let i = choose|i: int| 0 <= i < patterns.len() && pattern_selects(#[trigger] patterns[i], namespace);
            assert(q[i] == patterns[i]);
        }
        if glob_spec(q, namespace) {
            let i = choose|i: int| 0 <= i < q.len() && pattern_selects(#[trigger] q[i], namespace);
            if i < patterns.len() {
                assert(q[i] == patterns[i]);
            }
        }
    }
}

/// The patterns of a slice of filters, as character sequences.
pub open spec fn patterns_view(patterns: &[&str]) -> Seq<Seq<char>> {
    patterns@.map_values(|p: &str| p@)
}

/// Whether one filter selects `namespace`.
pub fn pattern_selects_exec(pattern: &str, namespace: &str) -> (r: bool)
    ensures
        r == pattern_selects(pattern@, namespace@),
{
    let n = pattern.unicode_len();
    if n == 0 {
        return true;
    }
    if str_eq(pattern, namespace) {
        return true;
    }
    if pattern.get_char(n - 1) != '*' {
        return false;
    }
    let k = trim_end_char_len(pattern, '*');
    starts_with_prefix(namespace, pattern, k)
}

/// Matching helper for `ReadAll`.
///
/// Per the XDG Desktop Portal Settings spec, a namespace filter matches if:
/// - The patterns array itself is empty (match all)
/// - The pattern is empty (match all)
/// - The pattern ends with `*` and the namespace starts with the prefix
/// - The pattern is an exact match for the namespace
pub fn glob(patterns: &[&str], namespace: &str) -> (r: bool)
    ensures
        r == glob_spec(patterns_view(patterns), namespace@),
{
    let ghost pv = patterns_view(patterns);
    if patterns.len() == 0 {
        return true;
    }
    let mut ret = false;
    let mut i: usize = 0;
    while i < patterns.len()
        invariant
            pv == patterns_view(patterns),
            pv.len() == patterns@.len(),
            i <= patterns@.len(),
            ret == exists|j: int| 0 <= j < i && pattern_selects(#[trigger] pv[j], namespace@),
        decreases patterns@.len() - i,
    {
        let m = pattern_selects_exec(patterns[i], namespace);
        proof {
            assert(pv[i as int] == patterns@[i as int]@);
            if m {
                assert(pattern_selects(pv[i as int], namespace@));
            }
            if ret {
                let j = choose|j: int| 0 <= j < i && pattern_selects(#[trigger] pv[j], namespace@);
                assert(0 <= j < i + 1);
            }
            if exists|j: int| 0 <= j < i + 1 && pattern_selects(#[trigger] pv[j], namespace@) {
                let j = choose|j: int| 0 <= j < i + 1 && pattern_selects(#[trigger] pv[j], namespace@);
                if j < i {
                } else {
                    assert(j == i);
                }
            }
        }
        ret = ret || m;
        i = i + 1;
    }
    ret
}

/// What `ReadAll` answers: the namespaces that the filters select, with all
/// of their settings.
pub open spec fn read_all_spec(v: SettingsView, patterns: Seq<Seq<char>>) -> SettingsView {
    v.restrict(v.dom().filter(|ns: Seq<char>| glob_spec(patterns, ns)))
}

/// The `org.freedesktop.impl.portal.Settings` portal: namespace to key to value.
pub struct XDGInterfaces {
    values: SettingsStore,
}

impl XDGInterfaces {
    /// The settings served, namespace to key to value.
    pub closed spec fn view(&self) -> SettingsView {
        self.values.view()
    }

    /// No namespace, and no key within a namespace, is held twice.
    pub closed spec fn wf(&self) -> bool {
        self.values.wf()
    }

    /// The portal as it starts: `org.freedesktop.appearance` holds
    /// `color-scheme` = 0 (no preference).
    pub fn new() -> (r: Self)
        ensures
            r.wf(),
            r.view() == map!["org.freedesktop.appearance"@ => map!["color-scheme"@ => SettingValue::Int32(0)]],
    {
        let mut values = SettingsStore::empty();
        values.change_setting("org.freedesktop.appearance", "color-scheme", SettingValue::Int32(0));
        let r = XDGInterfaces { values };
        proof {
            let inner = Map::<Seq<char>, SettingValue>::empty().insert("color-scheme"@, SettingValue::Int32(0));
            assert(inner =~= map!["color-scheme"@ => SettingValue::Int32(0)]);
            assert(r.view() =~= map!["org.freedesktop.appearance"@ => map!["color-scheme"@ => SettingValue::Int32(0)]]);
        }
        r
    }

    /// Stores `value` under `key` in namespace `ns` (the caller then emits
    /// the `SettingChanged` signal).
    pub fn change_setting(&mut self, ns: &str, key: &str, value: SettingValue)
        requires
            old(self).wf(),
        ensures
            final(self).wf(),
            final(self).view() == change_spec(old(self).view(), ns@, key@, value),
    {
        self.values.change_setting(ns, key, value);
    }

    /// `Read` method: the value of `key` in namespace `ns`, or
    /// `UnknownProperty` ("Namespace not found", "Key not found").
    pub fn read(&self, ns: &str, key: &str) -> (r: Result<SettingValue, PortalError>)
        requires
            self.wf(),
        ensures
            read_result_view(r) == read_spec(self.view(), ns@, key@),
    {
        self.values.read(ns, key)
    }

    /// `ReadAll` method: every namespace that `namespaces` selects, with its
    /// settings.
    pub fn read_all(&self, namespaces: &[&str]) -> (r: Vec<(String, NamespaceSettings)>)
        requires
            self.wf(),
        ensures
            namespaces_wf(r@),
            to_map(namespaces_keyed(r@)) == read_all_spec(self.view(), patterns_view(namespaces)),
    {
        let ghost pv = patterns_view(namespaces);
        let ghost pred = |ns: Seq<char>| glob_spec(pv, ns);
        let mut keep: Vec<bool> = Vec::new();
        let mut i: usize = 0;
        while i < self.values.namespaces.len()
            invariant
                i <= self.values.namespaces@.len(),
                keep@.len() == i,
                pv == patterns_view(namespaces),
                forall|j: int| 0 <= j < i ==> #[trigger] keep@[j] == glob_spec(pv, self.values.namespaces@[j].0@),
            decreases self.values.namespaces@.len() - i,
        {
            let selected = glob(namespaces, self.values.namespaces[i].0.as_str());
            keep.push(selected);
            i = i + 1;
        }
        assert forall|j: int| 0 <= j < keep@.len() implies #[trigger] keep@[j] == pred(self.values.namespaces@[j].0@) by {
        }
        let r = self.values.select_namespaces(&keep, Ghost(pred));
        assert(self.view().dom().filter(pred) =~= self.view().dom().filter(|ns: Seq<char>| glob_spec(patterns_view(namespaces), ns)));
        r
    }

    /// `version` property.
    pub fn version(&self) -> (r: u32)
        ensures
            r == 0,
    {
        0
    }
}

/// A list holding the empty pattern, or the namespace itself, selects the
/// namespace; a list of patterns that are neither empty, equal to the
/// namespace, nor end in `*` selects nothing.
pub proof fn lemma_glob_basics(patterns: Seq<Seq<char>>, namespace: Seq<char>, i: int)
    requires
        0 <= i < patterns.len(),
    ensures
        patterns[i].len() == 0 ==> glob_spec(patterns, namespace),
        patterns[i] == namespace ==> glob_spec(patterns, namespace),
        (forall|j: int| 0 <= j < patterns.len() ==> #[trigger] patterns[j].len() > 0 && patterns[j] != namespace
            && !ends_with_char(patterns[j], '*')) ==> !glob_spec(patterns, namespace),
{
    if patterns[i].len() == 0 || patterns[i] == namespace {
        assert(pattern_selects(patterns[i], namespace));
    }
}

/// A read of the setting just written gives back the written value.
pub proof fn lemma_read_after_change(v: SettingsView, ns: Seq<char>, key: Seq<char>, value: SettingValue)
    ensures
        read_spec(change_spec(v, ns, key, value), ns, key) == Ok::<SettingValue, Seq<char>>(value),
{
}

/// Writing one setting leaves every other setting as it was.
pub proof fn lemma_change_keeps_others(
    v: SettingsView,
    ns: Seq<char>,
    key: Seq<char>,
    value: SettingValue,
    other_ns: Seq<char>,
    other_key: Seq<char>,
)
    requires
        v.dom().contains(other_ns),
        other_ns != ns || other_key != key,
    ensures
        read_spec(change_spec(v, ns, key, value), other_ns, other_key) == read_spec(v, other_ns, other_key),
{
}

/// An empty filter list makes `ReadAll` answer with every namespace.
pub proof fn lemma_read_all_empty_filter(v: SettingsView)
    ensures
        read_all_spec(v, Seq::empty()) == v,
{
    assert(read_all_spec(v, Seq::empty()) =~= v);
}

/// `ReadAll` answers with exactly the namespaces that the filters select, and
/// each with the settings that `Read` gives for it.
pub proof fn lemma_read_all_agrees_with_read(v: SettingsView, patterns: Seq<Seq<char>>, ns: Seq<char>, key: Seq<char>)
    ensures
        read_all_spec(v, patterns).dom().contains(ns) <==> (v.dom().contains(ns) && glob_spec(patterns, ns)),
        read_all_spec(v, patterns).dom().contains(ns) ==> read_spec(read_all_spec(v, patterns), ns, key) == read_spec(v, ns, key),
{
}

} // verus!
