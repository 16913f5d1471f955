//! The first form of the settings portal, whose namespace filter matches a
//! pattern ending in `*` anywhere inside the namespace.
use vstd::prelude::*;
use crate::text::{occurs_in, trim_end_char, ends_with_char, trim_end_char_len, contains_prefix};
use crate::keyed::to_map;
use crate::dbus_portal::settings::{SettingsStore, SettingsView, SettingValue, PortalError, NamespaceSettings,
    namespaces_keyed, namespaces_wf, read_spec, change_spec, read_result_view};
use crate::dbus_portal::xdg_interfaces::patterns_view;

verus! {

/// Whether one filter of this portal selects `namespace`: an empty pattern
/// selects everything; a pattern ending in `*` selects every namespace that
/// contains the pattern minus its trailing stars.
pub open spec fn portal_pattern_selects(pattern: Seq<char>, namespace: Seq<char>) -> bool {
    ||| pattern.len() == 0
    ||| (ends_with_char(pattern, '*') && occurs_in(trim_end_char(pattern, '*'), namespace))
}

/// Whether some filter of the list selects `namespace`.
pub open spec fn portal_glob_spec(patterns: Seq<Seq<char>>, namespace: Seq<char>) -> bool {
    exists|i: int| 0 <= i < patterns.len() && portal_pattern_selects(#[trigger] patterns[i], namespace)
}

/// What this portal's `ReadAll` answers.
pub open spec fn portal_read_all_spec(v: SettingsView, patterns: Seq<Seq<char>>) -> SettingsView {
    v.restrict(v.dom().filter(|ns: Seq<char>| portal_glob_spec(patterns, ns)))
}

fn portal_pattern_selects_exec(pattern: &str, namespace: &str) -> (r: bool)
    ensures
        r == portal_pattern_selects(pattern@, namespace@),
{
    let n = pattern.unicode_len();
    if n == 0 {
        return true;
    }
    if pattern.get_char(n - 1) != '*' {
        return false;
    }
    let k = trim_end_char_len(pattern, '*');
    contains_prefix(namespace, pattern, k)
}

/// Matching helper for `ReadAll`.
pub fn glob(patterns: &[&str], namespace: &str) -> (r: bool)
    ensures
        r == portal_glob_spec(patterns_view(patterns), namespace@),
{
    let ghost pv = patterns_view(patterns);
    let mut ret = false;
    let mut i: usize = 0;
    while i < patterns.len()
        invariant
            pv == patterns_view(patterns),
            pv.len() == patterns@.len(),
            i <= patterns@.len(),
            ret == exists|j: int| 0 <= j < i && portal_pattern_selects(#[trigger] pv[j], namespace@),
        decreases patterns@.len() - i,
    {
        let m = portal_pattern_selects_exec(patterns[i], namespace);
        proof {
            assert(pv[i as int] == patterns@[i as int]@);
            if ret {
                let j = choose|j: int| 0 <= j < i && portal_pattern_selects(#[trigger] pv[j], namespace@);
                assert(0 <= j < i + 1);
            }
            if exists|j: int| 0 <= j < i + 1 && portal_pattern_selects(#[trigger] pv[j], namespace@) {
                let j = choose|j: int| 0 <= j < i + 1 && portal_pattern_selects(#[trigger] pv[j], namespace@);
                if j == i {
                    assert(m);
                }
            }
        }
        ret = ret || m;
        i = i + 1;
    }
    ret
}

/// The settings portal: namespace to key to value.
pub struct Portal {
    values: SettingsStore,
}

impl Portal {
    /// The settings served, namespace to key to value.
    pub closed spec fn view(&self) -> SettingsView {
        self.values.view()
    }

    /// No namespace, and no key within a namespace, is held twice.
    pub closed spec fn wf(&self) -> bool {
        self.values.wf()
    }

    /// The portal as it starts: `org.freedesktop.appearance` holds
    /// `color-scheme` = 0 (no preference).
    pub fn new() -> (r: Self)
        ensures
            r.wf(),
            r.view() == map!["org.freedesktop.appearance"@ => map!["color-scheme"@ => SettingValue::Int32(0)]],
    {
        let mut values = SettingsStore::empty();
        values.change_setting("org.freedesktop.appearance", "color-scheme", SettingValue::Int32(0));
        let r = Portal { values };
        proof {
            let inner = Map::<Seq<char>, SettingValue>::empty().insert("color-scheme"@, SettingValue::Int32(0));
            assert(inner =~= map!["color-scheme"@ => SettingValue::Int32(0)]);
            assert(r.view() =~= map!["org.freedesktop.appearance"@ => map!["color-scheme"@ => SettingValue::Int32(0)]]);
        }
        r
    }

    /// Stores `value` under `key` in namespace `ns` (the caller then emits
    /// the `SettingChanged` signal).
    pub fn change_setting(&mut self, ns: &str, key: &str, value: SettingValue)
        requires
            old(self).wf(),
        ensures
            final(self).wf(),
            final(self).view() == change_spec(old(self).view(), ns@, key@, value),
    {
        self.values.change_setting(ns, key, value);
    }

    /// `Read` method: the value of `key` in namespace `ns`, or
    /// `UnknownProperty` ("Namespace not found", "Key not found").
    pub fn read(&self, ns: &str, key: &str) -> (r: Result<SettingValue, PortalError>)
        requires
            self.wf(),
        ensures
            read_result_view(r) == read_spec(self.view(), ns@, key@),
    {
        self.values.read(ns, key)
    }

    /// `ReadAll` method: every namespace that `namespaces` selects, with its
    /// settings.
    pub fn read_all(&self, namespaces: &[&str]) -> (r: Vec<(String, NamespaceSettings)>)
        requires
            self.wf(),
        ensures
            namespaces_wf(r@),
            to_map(namespaces_keyed(r@)) == portal_read_all_spec(self.view(), patterns_view(namespaces)),
    {
        let ghost pv = patterns_view(namespaces);
        let ghost pred = |ns: Seq<char>| portal_glob_spec(pv, ns);
        let mut keep: Vec<bool> = Vec::new();
        let mut i: usize = 0;
        while i < self.values.namespaces.len()
            invariant
                i <= self.values.namespaces@.len(),
                keep@.len() == i,
                pv == patterns_view(namespaces),
                forall|j: int| 0 <= j < i ==> #[trigger] keep@[j] == portal_glob_spec(pv, self.values.namespaces@[j].0@),
            decreases self.values.namespaces@.len() - i,
        {
            let selected = glob(namespaces, self.values.namespaces[i].0.as_str());
            keep.push(selected);
            i = i + 1;
        }
        assert forall|j: int| 0 <= j < keep@.len() implies #[trigger] keep@[j] == pred(self.values.namespaces@[j].0@) by {
        }
        let r = self.values.select_namespaces(&keep, Ghost(pred));
        assert(self.view().dom().filter(pred) =~= self.view().dom().filter(|ns: Seq<char>| portal_glob_spec(patterns_view(namespaces), ns)));
        r
    }

    /// `version` property.
    pub fn version(&self) -> (r: u32)
        ensures
            r == 0,
    {
        0
    }
}

} // verus!
