//! Hook scripts run on a theme change: which directories are searched, and
//! which of their files run, in which order.
use vstd::prelude::*;
use vstd::relations::{sorted_by, total_ordering};
use vstd::seq_lib::to_multiset_insert;
use vstd::multiset::Multiset;
use vstd::string::StringExecFns;
use crate::paths::{path_join, join_path};

verus! {

/// The sub-directory that holds the hooks for a theme value: `dark.d` for 1
/// (dark), `light.d` for 2 (light), none for any other value.
pub open spec fn hook_subdir_spec(mode: u32) -> Option<Seq<char>> {
    if mode == 1 {
        Some("dark.d"@)
    } else if mode == 2 {
        Some("light.d"@)
    } else {
        None
    }
}

/// The sub-directory of hooks for a theme value.
pub fn hook_subdir(mode: u32) -> (r: Option<&'static str>)
    ensures
        match r {
            Some(s) => hook_subdir_spec(mode) == Some(s@),
            None => hook_subdir_spec(mode) is None,
        },
{
    match mode {
        1 => Some("dark.d"),
        2 => Some("light.d"),
        _ => None,
    }
}

/// The user's configuration directory: `$XDG_CONFIG_HOME` when it is set,
/// else `$HOME/.config` (an unset `HOME` counts as empty).
pub open spec fn user_config_base(xdg_config_home: Option<Seq<char>>, home: Option<Seq<char>>) -> Seq<char> {
    match xdg_config_home {
        Some(x) => x,
        None => path_join(
            match home {
                Some(h) => h,
                None => Seq::empty(),
            },
            ".config"@,
        ),
    }
}

/// The view of an optional string argument.
pub open spec fn opt_str_view(s: Option<&str>) -> Option<Seq<char>> {
    match s {
        Some(x) => Some(x@),
        None => None,
    }
}

/// The hook directories for `subdir`, in the order they are searched:
/// `/etc/asahi/<subdir>`, then `<user config>/asahi/<subdir>`.
pub open spec fn hook_dirs_spec(subdir: Seq<char>, xdg_config_home: Option<Seq<char>>, home: Option<Seq<char>>) -> Seq<Seq<char>> {
    seq![
        path_join("/etc/asahi"@, subdir),
        path_join(path_join(user_config_base(xdg_config_home, home), "asahi"@), subdir),
    ]
}

/// The ordered list of hook directories to search, given the values of
/// `XDG_CONFIG_HOME` and `HOME` (`None` where a variable is unset or not
/// Unicode).
pub fn hook_dirs(subdir: &str, xdg_config_home: Option<&str>, home: Option<&str>) -> (r: Vec<String>)
    ensures
        r@.map_values(|s: String| s@) == hook_dirs_spec(subdir@, opt_str_view(xdg_config_home), opt_str_view(home)),
{
    let user_base = match xdg_config_home {
        Some(x) => String::from_str(x),
        None => {
            let h = match home {
                Some(h) => String::from_str(h),
                None => String::new(),
            };
            join_path(h, ".config")
        },
    };
    let system_dir = join_path(String::from_str("/etc/asahi"), subdir);
    let user_dir = join_path(join_path(user_base, "asahi"), subdir);
    let mut r: Vec<String> = Vec::new();
    r.push(system_dir);
    r.push(user_dir);
    assert(r@.map_values(|s: String| s@) =~= hook_dirs_spec(subdir@, opt_str_view(xdg_config_home), opt_str_view(home)));
    r
}

/// The hook directories to search for a theme value: none unless the value
/// is 1 (dark) or 2 (light).
pub open spec fn run_hooks_spec(mode: u32, xdg_config_home: Option<Seq<char>>, home: Option<Seq<char>>) -> Seq<Seq<char>> {
    match hook_subdir_spec(mode) {
        Some(sub) => hook_dirs_spec(sub, xdg_config_home, home),
        None => Seq::empty(),
    }
}

/// Which directories the hooks for theme value `mode` are taken from, in
/// order (1 = dark, 2 = light; any other value runs nothing). Every
/// executable file of each directory is then run, see [`scripts_in_dir`].
pub fn run_hooks(mode: u32, xdg_config_home: Option<&str>, home: Option<&str>) -> (r: Vec<String>)
    ensures
        r@.map_values(|s: String| s@) == run_hooks_spec(mode, opt_str_view(xdg_config_home), opt_str_view(home)),
{
    match hook_subdir(mode) {
        Some(sub) => hook_dirs(sub, xdg_config_home, home),
        None => {
            let r: Vec<String> = Vec::new();
            assert(r@.map_values(|s: String| s@) =~= Seq::<Seq<char>>::empty());
            r
        },
    }
}

/// Whether Unix permission bits allow someone to execute the file.
pub open spec fn is_executable_spec(mode: Option<u32>) -> bool {
    match mode {
        Some(m) => m & 0o111 != 0,
        None => false,
    }
}

/// Whether a file with these permission bits (none when its metadata could
/// not be read) is executable by anyone.
pub fn is_executable(mode: Option<u32>) -> (r: bool)
    ensures
        r == is_executable_spec(mode),
{
    match mode {
        Some(m) => m & 0o111 != 0,
        None => false,
    }
}

/// One entry of a hook directory: its path as bytes, whether it is a regular
/// file (following links), and its permission bits when they could be read.
pub struct HookCandidate {
    pub path: Vec<u8>,
    pub is_file: bool,
    pub mode: Option<u32>,
}

/// The paths of the entries that are executable regular files, in the order
/// given.
pub open spec fn runnable_paths(s: Seq<HookCandidate>) -> Seq<Seq<u8>>
    decreases s.len(),
{
    if s.len() == 0 {
        Seq::empty()
    } else {
        let rest = runnable_paths(s.drop_last());
        if s.last().is_file && is_executable_spec(s.last().mode) {
            rest.push(s.last().path@)
        } else {
            rest
        }
    }
}

/// Byte strings in lexicographic order, as slices compare them.
pub open spec fn bytes_le(a: Seq<u8>, b: Seq<u8>) -> bool
    decreases a.len(),
{
    if a.len() == 0 {
        true
    } else if b.len() == 0 {
        false
    } else if a[0] != b[0] {
        a[0] < b[0]
    } else {
        bytes_le(a.drop_first(), b.drop_first())
    }
}

/// A byte string comes no later than every byte string it is a prefix of,
/// whatever their lengths.
pub proof fn lemma_prefix_comes_first(a: Seq<u8>, b: Seq<u8>)
    requires
        a.len() <= b.len(),
        b.subrange(0, a.len() as int) == a,
    ensures
        bytes_le(a, b),
        a.len() < b.len() ==> !bytes_le(b, a),
    decreases a.len(),
{
    if a.len() > 0 {
        assert(b[0] == b.subrange(0, a.len() as int)[0]);
        assert(b.drop_first().subrange(0, a.drop_first().len() as int) =~= a.drop_first()) by {
            assert forall|j: int| 0 <= j < a.len() - 1 implies #[trigger] b.drop_first().subrange(0, a.len() - 1)[j]
                == a.drop_first()[j] by {
                assert(b.subrange(0, a.len() as int)[j + 1] == b[j + 1]);
            }
        }
        lemma_prefix_comes_first(a.drop_first(), b.drop_first());
    }
}

/// Of two byte strings that agree up to position `i` and differ there, the
/// one with the smaller byte at `i` comes first and the other does not,
/// whatever their lengths.
pub proof fn lemma_first_difference_decides(a: Seq<u8>, b: Seq<u8>, i: int)
    requires
        0 <= i < a.len(),
        i < b.len(),
        a.subrange(0, i) == b.subrange(0, i),
        a[i] < b[i],
    ensures
        bytes_le(a, b),
        !bytes_le(b, a),
    decreases i,
{
    if i > 0 {
        assert(a[0] == a.subrange(0, i)[0]);
        assert(b[0] == b.subrange(0, i)[0]);
        assert(a.drop_first().subrange(0, i - 1) =~= b.drop_first().subrange(0, i - 1)) by {
            assert forall|j: int| 0 <= j < i - 1 implies #[trigger] a.drop_first().subrange(0, i - 1)[j]
                == b.drop_first().subrange(0, i - 1)[j] by {
                assert(a.subrange(0, i)[j + 1] == b.subrange(0, i)[j + 1]);
                assert(a.subrange(0, i)[j + 1] == a[j + 1]);
                assert(b.subrange(0, i)[j + 1] == b[j + 1]);
            }
        }
        lemma_first_difference_decides(a.drop_first(), b.drop_first(), i - 1);
    }
}

/// `bytes_le` as a relation.
pub open spec fn bytes_order() -> spec_fn(Seq<u8>, Seq<u8>) -> bool {
    |a: Seq<u8>, b: Seq<u8>| bytes_le(a, b)
}

proof fn lemma_bytes_le_reflexive(a: Seq<u8>)
    ensures
        bytes_le(a, a),
    decreases a.len(),
{
    if a.len() > 0 {
        lemma_bytes_le_reflexive(a.drop_first());
    }
}

proof fn lemma_bytes_le_total(a: Seq<u8>, b: Seq<u8>)
    ensures
        bytes_le(a, b) || bytes_le(b, a),
    decreases a.len(),
{
    if a.len() > 0 && b.len() > 0 && a[0] == b[0] {
        lemma_bytes_le_total(a.drop_first(), b.drop_first());
    }
}

proof fn lemma_bytes_le_antisymmetric(a: Seq<u8>, b: Seq<u8>)
    requires
        bytes_le(a, b),
        bytes_le(b, a),
    ensures
        a == b,
    decreases a.len(),
{
    if a.len() > 0 && b.len() > 0 {
        lemma_bytes_le_antisymmetric(a.drop_first(), b.drop_first());
        assert(a =~= seq![a[0]] + a.drop_first());
        assert(b =~= seq![b[0]] + b.drop_first());
    } else {
        assert(a.len() == 0 && b.len() == 0);
        assert(a =~= b);
    }
}

proof fn lemma_bytes_le_transitive(a: Seq<u8>, b: Seq<u8>, c: Seq<u8>)
    requires
        bytes_le(a, b),
        bytes_le(b, c),
    ensures
        bytes_le(a, c),
    decreases a.len(),
{
    if a.len() > 0 && b.len() > 0 && c.len() > 0 && a[0] == b[0] && b[0] == c[0] {
        lemma_bytes_le_transitive(a.drop_first(), b.drop_first(), c.drop_first());
    }
}

/// Lexicographic order on byte strings is a total order.
pub proof fn lemma_bytes_order_total()
    ensures
        total_ordering(bytes_order()),
{
    assert forall|a: Seq<u8>| #[trigger] bytes_order()(a, a) by {
        lemma_bytes_le_reflexive(a);
    }
    assert forall|a: Seq<u8>, b: Seq<u8>| #[trigger] bytes_order()(a, b) && #[trigger] bytes_order()(b, a) implies a == b by {
        lemma_bytes_le_antisymmetric(a, b);
    }
    assert forall|a: Seq<u8>, b: Seq<u8>, c: Seq<u8>| #[trigger] bytes_order()(a, b) && #[trigger] bytes_order()(b, c) implies bytes_order()(a, c) by {
        lemma_bytes_le_transitive(a, b, c);
    }
    assert forall|a: Seq<u8>, b: Seq<u8>| #[trigger] bytes_order()(a, b) || #[trigger] bytes_order()(b, a) by {
        lemma_bytes_le_total(a, b);
    }
}

/// Whether `a` comes no later than `b` in lexicographic byte order.
pub fn bytes_le_exec(a: &Vec<u8>, b: &Vec<u8>) -> (r: bool)
    ensures
        r == bytes_le(a@, b@),
{
    let mut i: usize = 0;
    assert(a@.skip(0) =~= a@);
    assert(b@.skip(0) =~= b@);
    while i < a.len() && i < b.len() && a[i] == b[i]
        invariant
            i <= a@.len(),
            i <= b@.len(),
            bytes_le(a@, b@) == bytes_le(a@.skip(i as int), b@.skip(i as int)),
        decreases a@.len() - i,
    {
        proof {
            assert(a@.skip(i as int).drop_first() =~= a@.skip(i + 1));
            assert(b@.skip(i as int).drop_first() =~= b@.skip(i + 1));
        }
        i = i + 1;
    }
    if i == a.len() {
        true
    } else if i == b.len() {
        false
    } else {
        a[i] < b[i]
    }
}

/// The byte strings of a list of owned byte buffers.
pub open spec fn bytes_view(s: Seq<Vec<u8>>) -> Seq<Seq<u8>> {
    s.map_values(|v: Vec<u8>| v@)
}

/// Sorts byte strings into lexicographic order (insertion sort, stable).
pub fn sort_paths(paths: Vec<Vec<u8>>) -> (r: Vec<Vec<u8>>)
    ensures
        sorted_by(bytes_view(r@), bytes_order()),
        bytes_view(r@).to_multiset() == bytes_view(paths@).to_multiset(),
{
    proof {
        lemma_bytes_order_total();
    }
    broadcast use vstd::seq_lib::group_to_multiset_ensures, vstd::multiset::group_multiset_axioms;
    let ghost orig = bytes_view(paths@);
    let mut r: Vec<Vec<u8>> = Vec::new();
    let mut rest = paths;
    assert(bytes_view(r@) =~= Seq::<Seq<u8>>::empty());
    assert(bytes_view(r@).to_multiset().add(bytes_view(rest@).to_multiset()) =~= orig.to_multiset());
    // Items are taken from the back of `rest`, so `r` holds the last ones.
    while rest.len() > 0
        invariant
            total_ordering(bytes_order()),
            sorted_by(bytes_view(r@), bytes_order()),
            bytes_view(r@).to_multiset().add(bytes_view(rest@).to_multiset()) == orig.to_multiset(),
        decreases rest@.len(),
    {
        let ghost before_rest = bytes_view(rest@);
        let ghost before_r = bytes_view(r@);
        let x = rest.pop().unwrap();
        proof {
            assert(bytes_view(rest@) =~= before_rest.drop_last());
            assert(before_rest =~= bytes_view(rest@).push(x@));
            vstd::seq_lib::lemma_multiset_commutative(bytes_view(rest@), seq![x@]);
            assert(bytes_view(rest@).push(x@) =~= bytes_view(rest@) + seq![x@]);
            assert(seq![x@].to_multiset() =~= Multiset::<Seq<u8>>::empty().insert(x@)) by {
                broadcast use vstd::seq_lib::group_to_multiset_ensures;
                assert(seq![x@] =~= Seq::<Seq<u8>>::empty().push(x@));
            }
        }
        // Find the first position whose element is greater than x.
        let mut pos: usize = 0;
        while pos < r.len() && bytes_le_exec(&r[pos], &x)
            invariant
                pos <= r@.len(),
                forall|j: int| 0 <= j < pos ==> bytes_le(#[trigger] bytes_view(r@)[j], x@),
            decreases r@.len() - pos,
        {
            pos = pos + 1;
        }
        let ghost rv = bytes_view(r@);
        proof {
            if pos < r@.len() {
                assert(!bytes_le(rv[pos as int], x@));
                lemma_bytes_le_total(rv[pos as int], x@);
            }
        }
        r.insert(pos, x);
        proof {
            let nv = bytes_view(r@);
            assert(nv =~= rv.insert(pos as int, x@));
            to_multiset_insert(rv, pos as int, x@);
            assert(nv.to_multiset().add(bytes_view(rest@).to_multiset()) =~= orig.to_multiset());
            assert forall|a: int, b: int| 0 <= a < b < nv.len() implies #[trigger] bytes_order()(nv[a], nv[b]) by {
                if b < pos {
                    assert(nv[a] == rv[a] && nv[b] == rv[b]);
                } else if b == pos {
                    assert(nv[a] == rv[a]);
                } else if a == pos {
                    assert(nv[b] == rv[b - 1]);
                    if b - 1 > pos {
                        assert(bytes_order()(rv[pos as int], rv[b - 1]));
                        lemma_bytes_le_transitive(x@, rv[pos as int], rv[b - 1]);
                    }
                } else if a < pos {
                    assert(nv[a] == rv[a] && nv[b] == rv[b - 1]);
                    assert(bytes_order()(rv[a], rv[b - 1]));
                } else {
                    assert(nv[a] == rv[a - 1] && nv[b] == rv[b - 1]);
                    assert(bytes_order()(rv[a - 1], rv[b - 1]));
                }
            }
        }
    }
    proof {
        assert(bytes_view(rest@) =~= Seq::<Seq<u8>>::empty());
        assert(bytes_view(r@).to_multiset().add(Multiset::empty()) =~= bytes_view(r@).to_multiset());
    }
    r
}

/// The paths of a directory's entries that are executable regular files,
/// sorted by path.
pub fn scripts_in_dir(entries: Vec<HookCandidate>) -> (r: Vec<Vec<u8>>)
    ensures
        sorted_by(bytes_view(r@), bytes_order()),
        bytes_view(r@).to_multiset() == runnable_paths(entries@).to_multiset(),
{
    let mut selected: Vec<Vec<u8>> = Vec::new();
    let mut i: usize = 0;
    while i < entries.len()
        invariant
            i <= entries@.len(),
            bytes_view(selected@) == runnable_paths(entries@.take(i as int)),
        decreases entries@.len() - i,
    {
        proof {
            assert(entries@.take(i + 1).drop_last() =~= entries@.take(i as int));
        }
        let e = &entries[i];
        if e.is_file && is_executable(e.mode) {
            let p = e.path.clone();
            selected.push(p);
            assert(bytes_view(selected@) =~= runnable_paths(entries@.take(i + 1)));
        }
        i = i + 1;
    }
    assert(entries@.take(entries@.len() as int) =~= entries@);
    sort_paths(selected)
}

} // verus!
