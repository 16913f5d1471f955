//! The settings that the portal serves: namespaces holding keys holding values.
use vstd::prelude::*;
use vstd::string::StringExecFns;
use crate::keyed::{keys_unique, to_map, string_keyed, lemma_to_map_dom, lemma_to_map_index,
    lemma_to_map_update, lemma_push_unique, find_key};

verus! {

/// A value the portal hands out for a setting.
#[derive(Clone, Copy, PartialEq, Eq, Structural, Debug)]
pub enum SettingValue {
    Int32(i32),
    Uint32(u32),
}

/// Errors the portal answers a read with.
#[derive(Debug)]
pub enum PortalError {
    /// `org.freedesktop.portal.Error.UnknownProperty`, with its message.
    UnknownProperty(String),
}

/// What a portal error says: the message of the unknown property.
pub open spec fn portal_error_message(e: PortalError) -> Seq<char> {
    match e {
        PortalError::UnknownProperty(m) => m@,
    }
}

/// The settings of one namespace, keyed by setting name.
pub type NamespaceSettings = Vec<(String, SettingValue)>;

/// Namespace name to setting name to value.
pub type SettingsView = Map<Seq<char>, Map<Seq<char>, SettingValue>>;

/// The map that the settings of one namespace stand for.
pub open spec fn settings_map(s: Seq<(String, SettingValue)>) -> Map<Seq<char>, SettingValue> {
    to_map(string_keyed(s))
}

/// One namespace with its settings, read as a name and a map.
pub open spec fn namespace_view(e: (String, NamespaceSettings)) -> (Seq<char>, Map<Seq<char>, SettingValue>) {
    (e.0@, settings_map(e.1@))
}

/// A list of namespaces read as name/map pairs.
pub open spec fn namespaces_keyed(s: Seq<(String, NamespaceSettings)>) -> Seq<(Seq<char>, Map<Seq<char>, SettingValue>)> {
    s.map_values(|e: (String, NamespaceSettings)| namespace_view(e))
}

/// A list of namespaces is well formed when no namespace and no key within
/// a namespace occurs twice.
pub open spec fn namespaces_wf(s: Seq<(String, NamespaceSettings)>) -> bool {
    &&& keys_unique(namespaces_keyed(s))
    &&& forall|i: int| 0 <= i < s.len() ==> keys_unique(string_keyed(#[trigger] s[i].1@))
}

/// What a read of `key` in namespace `ns` answers: the value, or the message
/// of the error.
pub open spec fn read_spec(v: SettingsView, ns: Seq<char>, key: Seq<char>) -> Result<SettingValue, Seq<char>> {
    if !v.dom().contains(ns) {
        Err("Namespace not found"@)
    } else if !v[ns].dom().contains(key) {
        Err("Key not found"@)
    } else {
        Ok(v[ns][key])
    }
}

/// The settings after `key` in namespace `ns` is set to `value`; a missing
/// namespace is created.
pub open spec fn change_spec(v: SettingsView, ns: Seq<char>, key: Seq<char>, value: SettingValue) -> SettingsView {
    let current = if v.dom().contains(ns) { v[ns] } else { Map::empty() };
    v.insert(ns, current.insert(key, value))
}

/// The answer to a read, as a value or an error message.
pub open spec fn read_result_view(r: Result<SettingValue, PortalError>) -> Result<SettingValue, Seq<char>> {
    match r {
        Ok(v) => Ok(v),
        Err(e) => Err(portal_error_message(e)),
    }
}

/// A copy of the settings of one namespace.
pub fn copy_settings(s: &NamespaceSettings) -> (r: NamespaceSettings)
    ensures
        string_keyed(r@) == string_keyed(s@),
{
    let mut r: NamespaceSettings = Vec::new();
    let mut i: usize = 0;
    while i < s.len()
        invariant
            i <= s@.len(),
            string_keyed(r@) == string_keyed(s@).take(i as int),
        decreases s@.len() - i,
    {
        let ghost old_r = r@;
        let name = s[i].0.clone();
        assert(name@ == s@[i as int].0@);
        r.push((name, s[i].1));
        assert(r@ == old_r.push((name, s@[i as int].1)));
        assert(string_keyed(r@) =~= string_keyed(old_r).push((s@[i as int].0@, s@[i as int].1)));
        assert(string_keyed(r@) =~= string_keyed(s@).take(i + 1));
        i = i + 1;
    }
    assert(string_keyed(s@).take(s@.len() as int) =~= string_keyed(s@));
    r
}

/// Namespace name to setting name to value, held as association lists.
pub struct SettingsStore {
    pub namespaces: Vec<(String, NamespaceSettings)>,
}

impl SettingsStore {
    /// The namespaces and settings as nested maps.
    pub open spec fn view(&self) -> SettingsView {
        to_map(namespaces_keyed(self.namespaces@))
    }

    /// No namespace and no key within a namespace occurs twice.
    pub open spec fn wf(&self) -> bool {
        namespaces_wf(self.namespaces@)
    }

    /// The namespaces, in the order they are held.
    pub open spec fn entries(&self) -> Seq<(String, NamespaceSettings)> {
        self.namespaces@
    }

    /// A store with no namespace.
    pub fn empty() -> (r: Self)
        ensures
            r.wf(),
            r.view() == Map::<Seq<char>, Map<Seq<char>, SettingValue>>::empty(),
    {
        let r = SettingsStore { namespaces: Vec::new() };
        assert(namespaces_keyed(r.namespaces@) =~= Seq::empty());
        r
    }

    /// The value of `key` in namespace `ns`, or `UnknownProperty` with
    /// "Namespace not found" or "Key not found".
    pub fn read(&self, ns: &str, key: &str) -> (r: Result<SettingValue, PortalError>)
        requires
            self.wf(),
        ensures
            read_result_view(r) == read_spec(self.view(), ns@, key@),
    {
        let ghost outer = namespaces_keyed(self.namespaces@);
        match find_key(&self.namespaces, ns) {
            None => {
                proof {
                    lemma_to_map_dom(outer, ns@);
                    assert forall|i: int| 0 <= i < outer.len() implies #[trigger] outer[i].0 != ns@ by {
                        assert(outer[i].0 == self.namespaces@[i].0@);
                    }
                }
                Err(PortalError::UnknownProperty(String::from_str("Namespace not found")))
            },
            Some(i) => {
                proof {
                    lemma_to_map_index(outer, i as int);
                    assert(outer[i as int].0 == ns@);
                }
                let inner = &self.namespaces[i].1;
                let ghost keyed = string_keyed(inner@);
                assert(keys_unique(keyed));
                match find_key(inner, key) {
                    None => {
                        proof {
                            lemma_to_map_dom(keyed, key@);
                            assert forall|j: int| 0 <= j < keyed.len() implies #[trigger] keyed[j].0 != key@ by {
                                assert(keyed[j].0 == inner@[j].0@);
                            }
                        }
                        Err(PortalError::UnknownProperty(String::from_str("Key not found")))
                    },
                    Some(j) => {
                        proof {
                            lemma_to_map_index(keyed, j as int);
                            assert(keyed[j as int] == (key@, inner@[j as int].1));
                        }
                        Ok(inner[j].1)
                    },
                }
            },
        }
    }

    /// Sets `key` in namespace `ns` to `value`, creating the namespace when
    /// it is missing.
    pub fn change_setting(&mut self, ns: &str, key: &str, value: SettingValue)
        requires
            old(self).wf(),
        ensures
            final(self).wf(),
            final(self).view() == change_spec(old(self).view(), ns@, key@, value),
    {
        let ghost old_ns = self.namespaces@;
        let ghost outer = namespaces_keyed(old_ns);
        match find_key(&self.namespaces, ns) {
            None => {
                let mut settings: NamespaceSettings = Vec::new();
                settings.push((String::from_str(key), value));
                let name = String::from_str(ns);
                proof {
                    lemma_to_map_dom(outer, ns@);
                    assert forall|i: int| 0 <= i < outer.len() implies #[trigger] outer[i].0 != ns@ by {
                        assert(outer[i].0 == old_ns[i].0@);
                    }
                    let keyed = string_keyed(settings@);
                    assert(keyed.len() == 1);
                    assert(keyed[0] == (key@, value));
                    assert(keyed.drop_last() =~= Seq::<(Seq<char>, SettingValue)>::empty());
                    assert(to_map(keyed.drop_last()) == Map::<Seq<char>, SettingValue>::empty());
                    assert(settings_map(settings@) =~= Map::<Seq<char>, SettingValue>::empty().insert(key@, value));
                    assert(keys_unique(keyed));
                    lemma_push_unique(outer, ns@, settings_map(settings@));
                }
                self.namespaces.push((name, settings));
                proof {
                    assert(namespaces_keyed(self.namespaces@) =~= outer.push((ns@, settings_map(settings@))));
                    assert(!old(self).view().dom().contains(ns@));
                    assert forall|i: int| 0 <= i < self.namespaces@.len() implies keys_unique(string_keyed(#[trigger] self.namespaces@[i].1@)) by {
                        if i < old_ns.len() {
                            assert(self.namespaces@[i] == old_ns[i]);
                        }
                    }
                }
            },
            Some(i) => {
                let (name, mut settings) = self.namespaces.remove(i);
                let ghost old_settings = settings@;
                let ghost keyed = string_keyed(old_settings);
                proof {
                    assert(old_ns[i as int] == (name, settings));
                    assert(keys_unique(keyed));
                    lemma_to_map_index(outer, i as int);
                    assert(outer[i as int] == (ns@, settings_map(old_settings)));
                }
                match find_key(&settings, key) {
                    None => {
                        proof {
                            assert forall|j: int| 0 <= j < keyed.len() implies #[trigger] keyed[j].0 != key@ by {
                                assert(keyed[j].0 == old_settings[j].0@);
                            }
                            lemma_push_unique(keyed, key@, value);
                        }
                        settings.push((String::from_str(key), value));
                        proof {
                            assert(string_keyed(settings@) =~= keyed.push((key@, value)));
                        }
                    },
                    Some(j) => {
                        let k = String::from_str(key);
                        proof {
                            assert(keyed[j as int].0 == key@);
                            lemma_to_map_update(keyed, j as int, value);
                        }
                        settings.set(j, (k, value));
                        proof {
                            assert(string_keyed(settings@) =~= keyed.update(j as int, (keyed[j as int].0, value)));
                        }
                    },
                }
                let ghost new_map = settings_map(settings@);
                proof {
                    assert(new_map == settings_map(old_settings).insert(key@, value));
                    lemma_to_map_update(outer, i as int, new_map);
                }
                self.namespaces.insert(i, (name, settings));
                proof {
                    assert(self.namespaces@ =~= old_ns.update(i as int, (name, settings)));
                    assert(namespaces_keyed(self.namespaces@) =~= outer.update(i as int, (outer[i as int].0, new_map)));
                    assert forall|a: int| 0 <= a < self.namespaces@.len() implies keys_unique(string_keyed(#[trigger] self.namespaces@[a].1@)) by {
                        if a != i {
                            assert(self.namespaces@[a] == old_ns[a]);
                        }
                    }
                }
            },
        }
    }

    /// Copies of the namespaces whose flag in `keep` is set, where the flags
    /// are `pred` of each namespace's name.
    pub(crate) fn select_namespaces(&self, keep: &Vec<bool>, Ghost(pred): Ghost<spec_fn(Seq<char>) -> bool>) -> (r: Vec<(String, NamespaceSettings)>)
        requires
            self.wf(),
            keep@.len() == self.namespaces@.len(),
            forall|i: int| 0 <= i < keep@.len() ==> #[trigger] keep@[i] == pred(self.namespaces@[i].0@),
        ensures
            namespaces_wf(r@),
            to_map(namespaces_keyed(r@)) == self.view().restrict(self.view().dom().filter(pred)),
    {
        let ghost outer = namespaces_keyed(self.namespaces@);
        let mut r: Vec<(String, NamespaceSettings)> = Vec::new();
        let mut i: usize = 0;
        proof {
            assert(outer.take(0) =~= Seq::empty());
            assert(namespaces_keyed(r@) =~= Seq::empty());
            assert(to_map(namespaces_keyed(r@)) =~= to_map(outer.take(0)).restrict(to_map(outer.take(0)).dom().filter(pred)));
        }
        while i < self.namespaces.len()
            invariant
                self.wf(),
                outer == namespaces_keyed(self.namespaces@),
                keep@.len() == self.namespaces@.len(),
                forall|j: int| 0 <= j < keep@.len() ==> #[trigger] keep@[j] == pred(self.namespaces@[j].0@),
                i <= self.namespaces@.len(),
                namespaces_wf(r@),
                to_map(namespaces_keyed(r@)) == to_map(outer.take(i as int)).restrict(to_map(outer.take(i as int)).dom().filter(pred)),
            decreases self.namespaces@.len() - i,
        {
            let ghost before = to_map(outer.take(i as int));
            let ghost rk = namespaces_keyed(r@);
            proof {
                assert(outer.take(i + 1).drop_last() =~= outer.take(i as int));
                assert(outer.take(i + 1).last() == outer[i as int]);
                assert(outer[i as int] == namespace_view(self.namespaces@[i as int]));
            }
            if keep[i] {
                let copy = copy_settings(&self.namespaces[i].1);
                let name = self.namespaces[i].0.clone();
                proof {
                    let k = outer[i as int].0;
                    lemma_to_map_dom(outer.take(i as int), k);
                    assert forall|j: int| 0 <= j < rk.len() implies #[trigger] rk[j].0 != k by {
                        lemma_to_map_dom(rk, rk[j].0);
                        lemma_to_map_dom(outer.take(i as int), rk[j].0);
                        if rk[j].0 == k {
                            let a = choose|a: int| 0 <= a < outer.take(i as int).len() && #[trigger] outer.take(i as int)[a].0 == k;
                            assert(outer[a].0 == outer[i as int].0);
                        }
                    }
                    lemma_push_unique(rk, k, outer[i as int].1);
                }
                r.push((name, copy));
                proof {
                    assert(namespaces_keyed(r@) =~= rk.push(outer[i as int]));
                    assert(self.namespaces@[i as int].0@ == outer[i as int].0);
                    let after = to_map(outer.take(i + 1));
                    assert(after == before.insert(outer[i as int].0, outer[i as int].1));
                    assert(to_map(namespaces_keyed(r@)) =~= after.restrict(after.dom().filter(pred)));
                    assert forall|a: int| 0 <= a < r@.len() implies keys_unique(string_keyed(#[trigger] r@[a].1@)) by {
                        if a < r@.len() - 1 {
                        }
                    }
                }
            } else {
                proof {
                    let after = to_map(outer.take(i + 1));
                    assert(after == before.insert(outer[i as int].0, outer[i as int].1));
                    assert(!pred(outer[i as int].0));
                    assert(to_map(namespaces_keyed(r@)) =~= after.restrict(after.dom().filter(pred)));
                }
            }
            i = i + 1;
        }
        proof {
            assert(outer.take(self.namespaces@.len() as int) =~= outer);
        }
        r
    }
}

} // verus!
