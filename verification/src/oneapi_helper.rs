//! The layout of a oneAPI installation, the environment its runtime needs,
//! the link settings of a build against the Unified Runtime loader, and the
//! search for the `ocloc` offline compiler.

use vstd::prelude::*;
use vstd::string::StringExecFns;

use crate::paths::{
    texts, is_absolute, join_path, lemma_empty_not_absolute_path, lemma_split_after_piece,
    lemma_split_first_piece, lemma_split_without_separator, path_join, paths_equal, same_path, split_on,
    split_search_path,
};

verus! {

/// The oneAPI installation this project is built against.
pub const ONEAPI_ROOT: &'static str = "/home/rrudnick/oneapi_2026.0.0.391";

/// `<root>/compiler/latest/lib`.
pub fn compiler_lib_dir() -> (p: String)
    ensures
        p@ == path_join(ONEAPI_ROOT@, "compiler/latest/lib"@),
{
    join_path(ONEAPI_ROOT, "compiler/latest/lib")
}

/// `<root>/compiler/latest/opt/compiler/lib`.
pub fn compiler_opt_lib_dir() -> (p: String)
    ensures
        p@ == path_join(ONEAPI_ROOT@, "compiler/latest/opt/compiler/lib"@),
{
    join_path(ONEAPI_ROOT, "compiler/latest/opt/compiler/lib")
}

/// `<root>/compiler/latest/bin`.
pub fn compiler_bin_dir() -> (p: String)
    ensures
        p@ == path_join(ONEAPI_ROOT@, "compiler/latest/bin"@),
{
    join_path(ONEAPI_ROOT, "compiler/latest/bin")
}

/// `<root>/compiler/latest/bin-llvm`.
pub fn compiler_bin_llvm_dir() -> (p: String)
    ensures
        p@ == path_join(ONEAPI_ROOT@, "compiler/latest/bin-llvm"@),
{
    join_path(ONEAPI_ROOT, "compiler/latest/bin-llvm")
}

/// `<root>/umf/latest/lib`.
pub fn umf_lib_dir() -> (p: String)
    ensures
        p@ == path_join(ONEAPI_ROOT@, "umf/latest/lib"@),
{
    join_path(ONEAPI_ROOT, "umf/latest/lib")
}

/// `<root>/tcm/latest/lib`.
pub fn tcm_lib_dir() -> (p: String)
    ensures
        p@ == path_join(ONEAPI_ROOT@, "tcm/latest/lib"@),
{
    join_path(ONEAPI_ROOT, "tcm/latest/lib")
}

/// The Level Zero adapter library in the compiler's library directory.
pub fn level_zero_adapter_path() -> (p: String)
    ensures
        p@ == path_join(path_join(ONEAPI_ROOT@, "compiler/latest/lib"@), "libur_adapter_level_zero.so"@),
{
    let dir = compiler_lib_dir();
    join_path(dir.as_str(), "libur_adapter_level_zero.so")
}

/// The OpenCL ICD library in the compiler's library directory.
pub fn opencl_icd_path() -> (p: String)
    ensures
        p@ == path_join(path_join(ONEAPI_ROOT@, "compiler/latest/lib"@), "libintelocl.so"@),
{
    let dir = compiler_lib_dir();
    join_path(dir.as_str(), "libintelocl.so")
}

/// The directories that hold the runtime's shared libraries, in search order.
pub open spec fn runtime_dir_paths() -> Seq<Seq<char>> {
    seq![
        path_join(ONEAPI_ROOT@, "compiler/latest/lib"@),
        path_join(ONEAPI_ROOT@, "compiler/latest/opt/compiler/lib"@),
        path_join(ONEAPI_ROOT@, "umf/latest/lib"@),
        path_join(ONEAPI_ROOT@, "tcm/latest/lib"@),
    ]
}

/// The directories that hold the runtime's shared libraries: the compiler's
/// libraries, its optional libraries, UMF and TCM.
pub fn runtime_dirs() -> (dirs: [String; 4])
    ensures
        forall|i: int| 0 <= i < 4 ==> #[trigger] dirs@[i]@ == runtime_dir_paths()[i],
{
    [compiler_lib_dir(), compiler_opt_lib_dir(), umf_lib_dir(), tcm_lib_dir()]
}

/// The value of a search-path variable once `extra` is put in front: the
/// old value follows after a `':'` unless it is absent or empty.
pub open spec fn joined_env_value(existing: Option<Seq<char>>, extra: Seq<char>) -> Seq<char> {
    match existing {
        Some(value) => if value.len() > 0 {
            extra + seq![':'] + value
        } else {
            extra
        },
        None => extra,
    }
}

/// Puts `extra_dir` in front of the value `existing` of a search-path variable.
pub fn join_env_path(existing: Option<&str>, extra_dir: &str) -> (s: String)
    ensures
        s@ == joined_env_value(
            match existing {
                Some(v) => Some(v@),
                None => None,
            },
            extra_dir@,
        ),
{
    proof {
        reveal_strlit(":");
    }
    match existing {
        Some(value) if !value.is_empty() => {
            let mut s = String::from_str(extra_dir);
            s.append(":");
            s.append(value);
            s
        },
        _ => String::from_str(extra_dir),
    }
}

/// Whether some entry of the search-path value `value` is the path `dir`.
pub open spec fn search_path_has(value: Seq<char>, dir: Seq<char>) -> bool {
    exists|i: int| 0 <= i < split_on(value, ':').len() && same_path(#[trigger] split_on(value, ':')[i], dir)
}

/// The new value of a search-path variable holding `existing` when the
/// existing directory `dir` is to come first: `None` when some entry already
/// is `dir`, otherwise the value with `dir` put in front.
pub open spec fn prepended_value(existing: Option<Seq<char>>, dir: Seq<char>) -> Option<Seq<char>> {
    match existing {
        Some(value) if search_path_has(value, dir) => None,
        _ => Some(joined_env_value(existing, dir)),
    }
}

/// The mathematical form of an optional text.
pub open spec fn opt_text(s: Option<&str>) -> Option<Seq<char>> {
    match s {
        Some(v) => Some(v@),
        None => None,
    }
}

/// The mathematical form of an optional string.
pub open spec fn opt_string(s: Option<String>) -> Option<Seq<char>> {
    match s {
        Some(v) => Some(v@),
        None => None,
    }
}

/// Whether some entry of the search-path value `value` is the path `dir`.
pub fn search_path_contains(value: &str, dir: &str) -> (b: bool)
    ensures
        b == search_path_has(value@, dir@),
{
    let entries = split_search_path(value);
    for i in 0..entries.len()
        invariant
            entries@.len() == split_on(value@, ':').len(),
            forall|k: int| 0 <= k < entries@.len() ==> #[trigger] entries@[k]@ == split_on(value@, ':')[k],
            forall|k: int| 0 <= k < i ==> !same_path(#[trigger] split_on(value@, ':')[k], dir@),
    {
        if paths_equal(entries[i].as_str(), dir) {
            assert(same_path(split_on(value@, ':')[i as int], dir@));
            return true;
        }
    }
    false
}

/// The new value of a search-path variable holding `existing` when the
/// existing directory `dir` is to come first, or `None` when an entry already
/// is `dir` and the variable stays as it is.
pub fn prepend_env_path(existing: Option<&str>, dir: &str) -> (r: Option<String>)
    ensures
        opt_string(r) == prepended_value(opt_text(existing), dir@),
{
    match existing {
        Some(value) => {
            if search_path_contains(value, dir) {
                None
            } else {
                Some(join_env_path(existing, dir))
            }
        },
        None => Some(join_env_path(existing, dir)),
    }
}

/// Putting a directory in front of a search path twice changes it once: the
/// value it gives already has the directory as its first entry. A directory
/// whose path holds `':'` is left out, since the variable cannot hold it as
/// one entry.
pub proof fn lemma_prepend_idempotent(existing: Option<Seq<char>>, dir: Seq<char>)
    requires
        !dir.contains(':'),
    ensures
        search_path_has(joined_env_value(existing, dir), dir),
        prepended_value(existing, dir) matches Some(v) ==> prepended_value(Some(v), dir) is None,
{
    let v = joined_env_value(existing, dir);
    if v == dir {
        lemma_split_without_separator(dir, ':');
    } else {
        let rest = existing->0;
        lemma_split_first_piece(dir, rest, ':');
    }
    assert(same_path(split_on(v, ':')[0], dir));
}

/// The line a build script prints to put `dir` on the run-time search path
/// of the linked program.
pub open spec fn rpath_line(dir: Seq<char>) -> Seq<char> {
    "cargo:rustc-link-arg=-Wl,-rpath,"@ + dir
}

/// The lines for each directory in `dirs`.
pub open spec fn rpath_lines(dirs: Seq<Seq<char>>) -> Seq<Seq<char>> {
    dirs.map_values(|d: Seq<char>| rpath_line(d))
}

/// The first `n` of `dirs` whose flag in `exists` is set, in order.
pub open spec fn existing_dirs(dirs: Seq<Seq<char>>, exists: Seq<bool>, n: nat) -> Seq<Seq<char>>
    decreases n,
{
    if n == 0 {
        Seq::empty()
    } else {
        let rest = existing_dirs(dirs, exists, (n - 1) as nat);
        if exists[n - 1] {
            rest.push(dirs[n - 1])
        } else {
            rest
        }
    }
}

/// The test that keeps a set flag.
pub open spec fn flag_set() -> spec_fn(bool) -> bool {
    |b: bool| b
}

/// Whether `d` is one of the first `n` of `dirs` whose flag is set.
pub open spec fn kept_among(dirs: Seq<Seq<char>>, flags: Seq<bool>, n: nat, d: Seq<char>) -> bool {
    exists|k: int| 0 <= k < n && flags[k] && d == dirs[k]
}

/// The directories kept from the first `n` are as many as the set flags
/// among them; each directory whose flag is set is kept, and each kept one
/// has its flag set.
pub proof fn lemma_existing_dirs(dirs: Seq<Seq<char>>, flags: Seq<bool>, n: nat)
    requires
        n <= dirs.len(),
        n <= flags.len(),
    ensures
        existing_dirs(dirs, flags, n).len() == flags.take(n as int).filter(flag_set()).len(),
        forall|i: int|
            0 <= i < n ==> #[trigger] flags.take(i).filter(flag_set()).len() + (if flags[i] {
                1int
            } else {
                0int
            }) <= flags.take(n as int).filter(flag_set()).len(),
        forall|i: int|
            0 <= i < n && flags[i] ==> existing_dirs(dirs, flags, n)[#[trigger] flags.take(i).filter(
                flag_set(),
            ).len() as int] == dirs[i],
        forall|k: int| 0 <= k < n && flags[k] ==> existing_dirs(dirs, flags, n).contains(#[trigger] dirs[k]),
        forall|j: int|
            0 <= j < existing_dirs(dirs, flags, n).len() ==> #[trigger] kept_among(dirs, flags, n, existing_dirs(dirs, flags, n)[j]),
    decreases n,
{
    if n == 0 {
        assert(flags.take(0) =~= Seq::<bool>::empty());
        assert(existing_dirs(dirs, flags, n).len() == 0);
    } else {
        let m = (n - 1) as nat;
        lemma_existing_dirs(dirs, flags, m);
        let rest = existing_dirs(dirs, flags, m);
        let cur = existing_dirs(dirs, flags, n);
        flags.take(m as int).lemma_filter_push(flags[m as int], flag_set());
        assert(flags.take(n as int) =~= flags.take(m as int).push(flags[m as int]));
        assert forall|i: int| 0 <= i < n && flags[i] implies cur[#[trigger] flags.take(i).filter(
            flag_set(),
        ).len() as int] == dirs[i] by {
            if i < m {
                assert(flags.take(i).filter(flag_set()).len() + 1 <= flags.take(m as int).filter(
                    flag_set(),
                ).len());
            } else {
                assert(flags.take(i) == flags.take(m as int));
            }
        }
        assert forall|k: int| 0 <= k < n && flags[k] implies cur.contains(#[trigger] dirs[k]) by {
            if k < m {
                let i = choose|i: int| 0 <= i < rest.len() && rest[i] == dirs[k];
                assert(cur[i] == dirs[k]);
            } else {
                assert(cur[rest.len() as int] == dirs[k]);
            }
        }
        assert forall|j: int| 0 <= j < cur.len() implies #[trigger] kept_among(dirs, flags, n, cur[j]) by {
            if j < rest.len() {
                assert(cur[j] == rest[j]);
                assert(kept_among(dirs, flags, m, rest[j]));
                let k = choose|k: int| 0 <= k < m && flags[k] && rest[j] == dirs[k];
                assert(0 <= k < n && flags[k] && cur[j] == dirs[k]);
            } else {
                assert(0 <= m < n && flags[m as int] && cur[j] == dirs[m as int]);
            }
        }
    }
}

/// Whether `line` is the rpath line of one of the runtime directories whose
/// flag in `dir_exists` is set.
pub open spec fn rpath_of_existing_dir(dir_exists: Seq<bool>, line: Seq<char>) -> bool {
    exists|i: int| 0 <= i < 4 && dir_exists[i] && line == rpath_line(runtime_dir_paths()[i])
}

/// The build-script lines that add each runtime directory that exists
/// (`dir_exists[i]` for the `i`-th of [`runtime_dirs`]) to the run-time
/// search path, in order.
pub fn emit_runtime_rpath_args(dir_exists: [bool; 4]) -> (lines: Vec<String>)
    ensures
        texts(lines@) == rpath_lines(existing_dirs(runtime_dir_paths(), dir_exists@, 4)),
        lines@.len() == dir_exists@.filter(flag_set()).len(),
        forall|i: int|
            0 <= i < 4 && dir_exists[i] ==> texts(lines@).contains(#[trigger] rpath_line(runtime_dir_paths()[i])),
        forall|i: int|
            0 <= i < 4 && dir_exists[i] ==> lines@[#[trigger] dir_exists@.take(i).filter(flag_set()).len() as int]@
                == rpath_line(runtime_dir_paths()[i]),
        forall|j: int|
            0 <= j < lines@.len() ==> #[trigger] rpath_of_existing_dir(dir_exists@, lines@[j]@),
{
    let dirs = runtime_dirs();
    let mut lines: Vec<String> = Vec::new();
    for i in 0..4
        invariant
            forall|k: int| 0 <= k < 4 ==> #[trigger] dirs@[k]@ == runtime_dir_paths()[k],
            texts(lines@) == rpath_lines(existing_dirs(runtime_dir_paths(), dir_exists@, i as nat)),
    {
        let ghost before = existing_dirs(runtime_dir_paths(), dir_exists@, i as nat);
        if dir_exists[i] {
            let mut line = String::from_str("cargo:rustc-link-arg=-Wl,-rpath,");
            let dir = &dirs[i];
            assert(dir@ == runtime_dir_paths()[i as int]);
            line.append(dir.as_str());
            assert(line@ == rpath_line(runtime_dir_paths()[i as int]));
            let ghost old_lines = lines@;
            let ghost line_text = line@;
            lines.push(line);
            assert(texts(lines@) =~= texts(old_lines).push(line_text));
            assert(rpath_lines(before.push(runtime_dir_paths()[i as int])) =~= rpath_lines(before).push(
                line_text,
            ));
        }
    }
    proof {
        let kept = existing_dirs(runtime_dir_paths(), dir_exists@, 4);
        lemma_existing_dirs(runtime_dir_paths(), dir_exists@, 4);
        assert(dir_exists@.take(4) =~= dir_exists@);
        assert(texts(lines@).len() == lines@.len());
        assert forall|i: int| 0 <= i < 4 && dir_exists[i] implies texts(lines@).contains(
            #[trigger] rpath_line(runtime_dir_paths()[i]),
        ) by {
            assert(kept.contains(runtime_dir_paths()[i]));
            let m = choose|m: int| 0 <= m < kept.len() && kept[m] == runtime_dir_paths()[i];
            assert(texts(lines@)[m] == rpath_line(kept[m]));
        }
        assert forall|i: int| 0 <= i < 4 && dir_exists[i] implies lines@[#[trigger] dir_exists@.take(
            i,
        ).filter(flag_set()).len() as int]@ == rpath_line(runtime_dir_paths()[i]) by {
            let j = dir_exists@.take(i).filter(flag_set()).len() as int;
            assert(kept[j] == runtime_dir_paths()[i]);
            assert(texts(lines@)[j] == rpath_line(kept[j]));
            assert(texts(lines@)[j] == lines@[j]@);
        }
        assert forall|j: int| 0 <= j < lines@.len() implies #[trigger] rpath_of_existing_dir(
            dir_exists@,
            lines@[j]@,
        ) by {
            assert(texts(lines@)[j] == lines@[j]@);
            assert(texts(lines@)[j] == rpath_line(kept[j]));
            assert(kept_among(runtime_dir_paths(), dir_exists@, 4, kept[j]));
            let k = choose|k: int| 0 <= k < 4 && dir_exists@[k] && kept[j] == runtime_dir_paths()[k];
            assert(lines@[j]@ == rpath_line(runtime_dir_paths()[k]));
        }
    }
    lines
}


/// Whether an environment value counts as unset: absent or empty.
pub open spec fn unset_or_empty(value: Option<Seq<char>>) -> bool {
    match value {
        Some(v) => v.len() == 0,
        None => true,
    }
}

fn is_unset_or_empty(value: &Option<String>) -> (b: bool)
    ensures
        b == unset_or_empty(opt_string(*value)),
{
    match value {
        Some(v) => v.as_str().is_empty(),
        None => true,
    }
}

/// The value of a search-path variable after `dir` is put in front of it,
/// when `dir` exists and is not already an entry.
pub open spec fn updated_search_path(value: Option<Seq<char>>, dir: Seq<char>, exists: bool) -> Option<
    Seq<char>,
> {
    if exists {
        match prepended_value(value, dir) {
            Some(v) => Some(v),
            None => value,
        }
    } else {
        value
    }
}

fn update_search_path(value: Option<String>, dir: &str, exists: bool) -> (r: Option<String>)
    ensures
        opt_string(r) == updated_search_path(opt_string(value), dir@, exists),
{
    if !exists {
        return value;
    }
    let update = match &value {
        Some(v) => prepend_env_path(Some(v.as_str()), dir),
        None => prepend_env_path(None, dir),
    };
    match update {
        Some(v) => Some(v),
        None => value,
    }
}

/// The environment variables the oneAPI runtime reads, as text.
#[derive(Clone, Debug, PartialEq, Eq)]
pub struct RuntimeEnvironment {
    pub oneapi_root: Option<String>,
    pub ur_adapters_search_path: Option<String>,
    pub ocl_icd_filenames: Option<String>,
    pub path: Option<String>,
    pub ld_library_path: Option<String>,
    pub library_path: Option<String>,
    pub ur_adapters_force_load: Option<String>,
    pub oneapi_device_selector: Option<String>,
}

/// What the file system says of the installation: whether the OpenCL ICD
/// library is a file, whether the compiler's two binary directories exist,
/// and whether each of the [`runtime_dirs`] exists.
#[derive(Clone, Copy, Debug, PartialEq, Eq)]
pub struct InstallProbe {
    pub opencl_icd_is_file: bool,
    pub bin_dirs_exist: [bool; 2],
    pub runtime_dirs_exist: [bool; 4],
}

/// Whether a search-path value keeps every entry of the value it replaced:
/// a non-empty old value is still there, at the end of the new one.
pub open spec fn keeps_entries(old: Option<Seq<char>>, new: Option<Seq<char>>) -> bool {
    match old {
        Some(v) => v.len() > 0 ==> (new matches Some(w) && v.is_suffix_of(w)),
        None => true,
    }
}

proof fn lemma_suffix_trans(u: Seq<char>, v: Seq<char>, w: Seq<char>)
    requires
        u.is_suffix_of(v),
        v.is_suffix_of(w),
    ensures
        u.is_suffix_of(w),
{
    let tail = w.subrange(w.len() - u.len(), w.len() as int);
    assert forall|i: int| 0 <= i < u.len() implies tail[i] == u[i] by {
        assert(u[i] == v[v.len() - u.len() + i]);
        assert(v[v.len() - u.len() + i] == w[w.len() - v.len() + (v.len() - u.len() + i)]);
    }
    assert(tail =~= u);
}

/// Putting a directory in front of a search path, when it exists and is not
/// already an entry, keeps every entry the path had; a directory that does
/// not exist leaves the path as it is.
pub proof fn lemma_update_keeps_entries(value: Option<Seq<char>>, dir: Seq<char>, present: bool)
    ensures
        keeps_entries(value, updated_search_path(value, dir, present)),
        !present ==> updated_search_path(value, dir, present) == value,
{
    if let Some(v) = value {
        if v.len() > 0 {
            let w = updated_search_path(value, dir, present).unwrap();
            if w != v {
                assert(w == dir + seq![':'] + v);
            }
            assert(v =~= w.subrange(w.len() - v.len(), w.len() as int));
        }
    }
}

/// Putting the runtime directories in front of a search path never drops
/// an entry it had, and with none of them present leaves it as it is.
pub proof fn lemma_runtime_dirs_keep_entries(value: Option<Seq<char>>, present: Seq<bool>, n: nat)
    requires
        n <= 4,
        n <= present.len(),
    ensures
        keeps_entries(value, with_runtime_dirs(value, present, n)),
        (forall|k: int| 0 <= k < n ==> !present[k]) ==> with_runtime_dirs(value, present, n) == value,
    decreases n,
{
    if n > 0 {
        let m = (n - 1) as nat;
        lemma_runtime_dirs_keep_entries(value, present, m);
        let before = with_runtime_dirs(value, present, m);
        lemma_update_keeps_entries(before, runtime_dir_paths()[m as int], present[m as int]);
        if let Some(v) = value {
            if v.len() > 0 {
                lemma_suffix_trans(v, before.unwrap(), with_runtime_dirs(value, present, n).unwrap());
            }
        }
    } else {
        if let Some(v) = value {
            assert(v =~= v.subrange(0, v.len() as int));
        }
    }
}

/// The runtime directories and the compiler's binary directories are
/// absolute paths without `':'`.
proof fn lemma_install_dirs_plain()
    ensures
        forall|k: int|
            0 <= k < 4 ==> is_absolute(#[trigger] runtime_dir_paths()[k]) && !runtime_dir_paths()[k].contains(
                ':',
            ),
        is_absolute(path_join(ONEAPI_ROOT@, "compiler/latest/bin"@)),
        !path_join(ONEAPI_ROOT@, "compiler/latest/bin"@).contains(':'),
        is_absolute(path_join(ONEAPI_ROOT@, "compiler/latest/bin-llvm"@)),
        !path_join(ONEAPI_ROOT@, "compiler/latest/bin-llvm"@).contains(':'),
{
    reveal_strlit("/home/rrudnick/oneapi_2026.0.0.391");
    reveal_strlit("compiler/latest/lib");
    reveal_strlit("compiler/latest/opt/compiler/lib");
    reveal_strlit("umf/latest/lib");
    reveal_strlit("tcm/latest/lib");
    reveal_strlit("compiler/latest/bin");
    reveal_strlit("compiler/latest/bin-llvm");
    assert(is_absolute(runtime_dir_paths()[0]) && !runtime_dir_paths()[0].contains(':'));
    assert(is_absolute(runtime_dir_paths()[1]) && !runtime_dir_paths()[1].contains(':'));
    assert(is_absolute(runtime_dir_paths()[2]) && !runtime_dir_paths()[2].contains(':'));
    assert(is_absolute(runtime_dir_paths()[3]) && !runtime_dir_paths()[3].contains(':'));
}

/// An entry of a non-empty search path stays an entry once a directory
/// without `':'` is put in front.
proof fn lemma_prepend_keeps_entry(v: Seq<char>, d: Seq<char>, e: Seq<char>)
    requires
        v.len() > 0,
        !d.contains(':'),
        search_path_has(v, e),
    ensures
        search_path_has(joined_env_value(Some(v), d), e),
{
    lemma_split_after_piece(d, v, ':');
    let i = choose|i: int| 0 <= i < split_on(v, ':').len() && same_path(#[trigger] split_on(v, ':')[i], e);
    let w = joined_env_value(Some(v), d);
    assert(split_on(w, ':')[i + 1] == split_on(v, ':')[i]);
}

/// Putting an absolute directory without `':'` in front of a search path,
/// when it exists, leaves it an entry of a non-empty value; an entry of a
/// non-empty value stays an entry.
proof fn lemma_update_entries(value: Option<Seq<char>>, d: Seq<char>, present: bool, e: Seq<char>)
    requires
        is_absolute(d),
        !d.contains(':'),
    ensures
        present ==> (updated_search_path(value, d, present) matches Some(w) && w.len() > 0
            && search_path_has(w, d)),
        (value matches Some(v) && v.len() > 0 && search_path_has(v, e)) ==> (updated_search_path(
            value,
            d,
            present,
        ) matches Some(w) && w.len() > 0 && search_path_has(w, e)),
{
    if present {
        lemma_prepend_idempotent(value, d);
        if let Some(v) = value {
            if search_path_has(v, d) && v.len() == 0 {
                assert(v =~= Seq::<char>::empty());
                assert(split_on(v, ':') =~= seq![Seq::<char>::empty()]);
                lemma_empty_not_absolute_path(d);
            }
            if v.len() > 0 && search_path_has(v, e) && !search_path_has(v, d) {
                lemma_prepend_keeps_entry(v, d, e);
            }
        }
    }
}

/// Each runtime directory that exists is an entry of the search path once
/// the runtime directories are put in front of it.
pub proof fn lemma_runtime_dirs_become_entries(value: Option<Seq<char>>, present: Seq<bool>, n: nat)
    requires
        n <= 4,
        n <= present.len(),
    ensures
        forall|k: int|
            0 <= k < n && present[k] ==> (with_runtime_dirs(value, present, n) matches Some(w) && w.len() > 0
                && search_path_has(w, #[trigger] runtime_dir_paths()[k])),
    decreases n,
{
    if n > 0 {
        let m = (n - 1) as nat;
        lemma_runtime_dirs_become_entries(value, present, m);
        lemma_install_dirs_plain();
        let before = with_runtime_dirs(value, present, m);
        let d = runtime_dir_paths()[m as int];
        assert forall|k: int| 0 <= k < n && present[k] implies (with_runtime_dirs(value, present, n) matches Some(
            w,
        ) && w.len() > 0 && search_path_has(w, #[trigger] runtime_dir_paths()[k])) by {
            lemma_update_entries(before, d, present[m as int], runtime_dir_paths()[k]);
        }
    }
}

/// The value of a search-path variable after each existing runtime
/// directory, in order, is put in front of it unless already there.
pub open spec fn with_runtime_dirs(value: Option<Seq<char>>, exists: Seq<bool>, n: nat) -> Option<Seq<char>>
    decreases n,
{
    if n == 0 {
        value
    } else {
        updated_search_path(
            with_runtime_dirs(value, exists, (n - 1) as nat),
            runtime_dir_paths()[n - 1],
            exists[n - 1],
        )
    }
}

fn update_with_runtime_dirs(value: Option<String>, dirs: &[String; 4], exists: [bool; 4]) -> (r: Option<String>)
    requires
        forall|k: int| 0 <= k < 4 ==> #[trigger] dirs@[k]@ == runtime_dir_paths()[k],
    ensures
        opt_string(r) == with_runtime_dirs(opt_string(value), exists@, 4),
{
    let ghost start = opt_string(value);
    let mut value = value;
    for i in 0..4
        invariant
            forall|k: int| 0 <= k < 4 ==> #[trigger] dirs@[k]@ == runtime_dir_paths()[k],
            opt_string(value) == with_runtime_dirs(start, exists@, i as nat),
    {
        let dir = &dirs[i];
        assert(dir@ == runtime_dir_paths()[i as int]);
        value = update_search_path(value, dir.as_str(), exists[i]);
    }
    value
}

/// The environment that [`configure_runtime_environment`] leaves.
pub open spec fn configured_environment(env: RuntimeEnvironment, probe: InstallProbe) -> (
    Option<Seq<char>>,
    Option<Seq<char>>,
    Option<Seq<char>>,
    Option<Seq<char>>,
    Option<Seq<char>>,
    Option<Seq<char>>,
) {
    (
        Some(ONEAPI_ROOT@),
        if unset_or_empty(opt_string(env.ur_adapters_search_path)) {
            Some(path_join(ONEAPI_ROOT@, "compiler/latest/lib"@))
        } else {
            opt_string(env.ur_adapters_search_path)
        },
        if probe.opencl_icd_is_file && unset_or_empty(opt_string(env.ocl_icd_filenames)) {
            Some(path_join(path_join(ONEAPI_ROOT@, "compiler/latest/lib"@), "libintelocl.so"@))
        } else {
            opt_string(env.ocl_icd_filenames)
        },
        updated_search_path(
            updated_search_path(
                opt_string(env.path),
                path_join(ONEAPI_ROOT@, "compiler/latest/bin"@),
                probe.bin_dirs_exist[0],
            ),
            path_join(ONEAPI_ROOT@, "compiler/latest/bin-llvm"@),
            probe.bin_dirs_exist[1],
        ),
        with_runtime_dirs(opt_string(env.ld_library_path), probe.runtime_dirs_exist@, 4),
        with_runtime_dirs(opt_string(env.library_path), probe.runtime_dirs_exist@, 4),
    )
}

/// The view of the variables that the runtime configuration sets.
pub open spec fn runtime_variables(env: RuntimeEnvironment) -> (
    Option<Seq<char>>,
    Option<Seq<char>>,
    Option<Seq<char>>,
    Option<Seq<char>>,
    Option<Seq<char>>,
    Option<Seq<char>>,
) {
    (
        opt_string(env.oneapi_root),
        opt_string(env.ur_adapters_search_path),
        opt_string(env.ocl_icd_filenames),
        opt_string(env.path),
        opt_string(env.ld_library_path),
        opt_string(env.library_path),
    )
}

/// The environment the oneAPI runtime needs: `ONEAPI_ROOT` set to the
/// installation, the adapter search path and the OpenCL ICD defaulted when
/// unset or empty, the compiler's binary directories put in front of
/// `PATH`, and the runtime directories put in front of `LD_LIBRARY_PATH` and
/// `LIBRARY_PATH`, each only when the directory exists and is not already an
/// entry.
pub fn configure_runtime_environment(env: RuntimeEnvironment, probe: InstallProbe) -> (r:
    RuntimeEnvironment)
    ensures
        runtime_variables(r) == configured_environment(env, probe),
        keeps_entries(opt_string(env.path), opt_string(r.path)),
        keeps_entries(opt_string(env.ld_library_path), opt_string(r.ld_library_path)),
        keeps_entries(opt_string(env.library_path), opt_string(r.library_path)),
        !probe.bin_dirs_exist[0] && !probe.bin_dirs_exist[1] ==> opt_string(r.path) == opt_string(env.path),
        (forall|k: int| 0 <= k < 4 ==> !probe.runtime_dirs_exist[k]) ==> opt_string(r.ld_library_path)
            == opt_string(env.ld_library_path) && opt_string(r.library_path) == opt_string(env.library_path),
        forall|k: int|
            0 <= k < 4 && probe.runtime_dirs_exist[k] ==> (opt_string(r.ld_library_path) matches Some(w)
                && search_path_has(w, #[trigger] runtime_dir_paths()[k])),
        forall|k: int|
            0 <= k < 4 && probe.runtime_dirs_exist[k] ==> (opt_string(r.library_path) matches Some(w)
                && search_path_has(w, #[trigger] runtime_dir_paths()[k])),
        probe.bin_dirs_exist[0] ==> (opt_string(r.path) matches Some(w) && search_path_has(
            w,
            path_join(ONEAPI_ROOT@, "compiler/latest/bin"@),
        )),
        probe.bin_dirs_exist[1] ==> (opt_string(r.path) matches Some(w) && search_path_has(
            w,
            path_join(ONEAPI_ROOT@, "compiler/latest/bin-llvm"@),
        )),
        r.ur_adapters_force_load == env.ur_adapters_force_load,
        r.oneapi_device_selector == env.oneapi_device_selector,
{
    let ur_adapters_search_path = if is_unset_or_empty(&env.ur_adapters_search_path) {
        Some(compiler_lib_dir())
    } else {
        env.ur_adapters_search_path
    };
    let ocl_icd_filenames = if probe.opencl_icd_is_file && is_unset_or_empty(&env.ocl_icd_filenames) {
        Some(opencl_icd_path())
    } else {
        env.ocl_icd_filenames
    };
    let bin = compiler_bin_dir();
    let bin_llvm = compiler_bin_llvm_dir();
    let path = update_search_path(env.path, bin.as_str(), probe.bin_dirs_exist[0]);
    let path = update_search_path(path, bin_llvm.as_str(), probe.bin_dirs_exist[1]);
    let dirs = runtime_dirs();
    let ld_library_path = update_with_runtime_dirs(env.ld_library_path, &dirs, probe.runtime_dirs_exist);
    let library_path = update_with_runtime_dirs(env.library_path, &dirs, probe.runtime_dirs_exist);
    proof {
        let p0 = opt_string(env.path);
        let p1 = updated_search_path(p0, path_join(ONEAPI_ROOT@, "compiler/latest/bin"@), probe.bin_dirs_exist[0]);
        let p2 = updated_search_path(
            p1,
            path_join(ONEAPI_ROOT@, "compiler/latest/bin-llvm"@),
            probe.bin_dirs_exist[1],
        );
        lemma_update_keeps_entries(p0, path_join(ONEAPI_ROOT@, "compiler/latest/bin"@), probe.bin_dirs_exist[0]);
        lemma_update_keeps_entries(
            p1,
            path_join(ONEAPI_ROOT@, "compiler/latest/bin-llvm"@),
            probe.bin_dirs_exist[1],
        );
        if let Some(v) = p0 {
            if v.len() > 0 {
                lemma_suffix_trans(v, p1.unwrap(), p2.unwrap());
            }
        }
        lemma_runtime_dirs_keep_entries(opt_string(env.ld_library_path), probe.runtime_dirs_exist@, 4);
        lemma_runtime_dirs_keep_entries(opt_string(env.library_path), probe.runtime_dirs_exist@, 4);
        lemma_runtime_dirs_become_entries(opt_string(env.ld_library_path), probe.runtime_dirs_exist@, 4);
        lemma_runtime_dirs_become_entries(opt_string(env.library_path), probe.runtime_dirs_exist@, 4);
        lemma_install_dirs_plain();
        let bin = path_join(ONEAPI_ROOT@, "compiler/latest/bin"@);
        let bin_llvm = path_join(ONEAPI_ROOT@, "compiler/latest/bin-llvm"@);
        lemma_update_entries(p0, bin, probe.bin_dirs_exist[0], bin);
        lemma_update_entries(p1, bin_llvm, probe.bin_dirs_exist[1], bin);
        lemma_update_entries(p1, bin_llvm, probe.bin_dirs_exist[1], bin_llvm);
    }
    RuntimeEnvironment {
        oneapi_root: Some(String::from_str(ONEAPI_ROOT)),
        ur_adapters_search_path,
        ocl_icd_filenames,
        path,
        ld_library_path,
        library_path,
        ur_adapters_force_load: env.ur_adapters_force_load,
        oneapi_device_selector: env.oneapi_device_selector,
    }
}

/// The runtime environment restricted to the Level Zero adapter: the
/// general configuration, then the Level Zero adapter forced and the GPU
/// devices of Level Zero selected, each when not already set to something.
pub fn configure_level_zero_runtime_environment(env: RuntimeEnvironment, probe: InstallProbe) -> (r:
    RuntimeEnvironment)
    ensures
        runtime_variables(r) == configured_environment(env, probe),
        keeps_entries(opt_string(env.path), opt_string(r.path)),
        keeps_entries(opt_string(env.ld_library_path), opt_string(r.ld_library_path)),
        keeps_entries(opt_string(env.library_path), opt_string(r.library_path)),
        !probe.bin_dirs_exist[0] && !probe.bin_dirs_exist[1] ==> opt_string(r.path) == opt_string(env.path),
        (forall|k: int| 0 <= k < 4 ==> !probe.runtime_dirs_exist[k]) ==> opt_string(r.ld_library_path)
            == opt_string(env.ld_library_path) && opt_string(r.library_path) == opt_string(env.library_path),
        forall|k: int|
            0 <= k < 4 && probe.runtime_dirs_exist[k] ==> (opt_string(r.ld_library_path) matches Some(w)
                && search_path_has(w, #[trigger] runtime_dir_paths()[k])),
        forall|k: int|
            0 <= k < 4 && probe.runtime_dirs_exist[k] ==> (opt_string(r.library_path) matches Some(w)
                && search_path_has(w, #[trigger] runtime_dir_paths()[k])),
        probe.bin_dirs_exist[0] ==> (opt_string(r.path) matches Some(w) && search_path_has(
            w,
            path_join(ONEAPI_ROOT@, "compiler/latest/bin"@),
        )),
        probe.bin_dirs_exist[1] ==> (opt_string(r.path) matches Some(w) && search_path_has(
            w,
            path_join(ONEAPI_ROOT@, "compiler/latest/bin-llvm"@),
        )),
        opt_string(r.ur_adapters_force_load) == if unset_or_empty(opt_string(env.ur_adapters_force_load)) {
            Some(path_join(path_join(ONEAPI_ROOT@, "compiler/latest/lib"@), "libur_adapter_level_zero.so"@))
        } else {
            opt_string(env.ur_adapters_force_load)
        },
        opt_string(r.oneapi_device_selector) == if unset_or_empty(opt_string(env.oneapi_device_selector)) {
            Some("level_zero:gpu"@)
        } else {
            opt_string(env.oneapi_device_selector)
        },
{
    let mut r = configure_runtime_environment(env, probe);
    if is_unset_or_empty(&r.ur_adapters_force_load) {
        r.ur_adapters_force_load = Some(level_zero_adapter_path());
    }
    if is_unset_or_empty(&r.oneapi_device_selector) {
        r.oneapi_device_selector = Some(String::from_str("level_zero:gpu"));
    }
    r
}

/// The directory of a Unified Runtime build next to the project, used when
/// no other loader directory is known.
pub fn ur_loader_fallback_dir(manifest_dir: &str) -> (p: String)
    ensures
        p@ == path_join(manifest_dir@, "../unified-runtime/build-cuda/install/lib"@),
{
    join_path(manifest_dir, "../unified-runtime/build-cuda/install/lib")
}

/// The line that adds `dir` to the native library search path.
pub open spec fn link_search_line(dir: Seq<char>) -> Seq<char> {
    "cargo:rustc-link-search=native="@ + dir
}

fn link_search(dir: &str) -> (line: String)
    ensures
        line@ == link_search_line(dir@),
{
    let mut line = String::from_str("cargo:rustc-link-search=native=");
    line.append(dir);
    line
}

/// The build-script lines that link the Unified Runtime loader: rebuild
/// when `UR_LOADER_LIB_DIR` changes, link `ur_loader`, and search the
/// directory that `UR_LOADER_LIB_DIR` names, else the installation's
/// compiler library directory when it exists, else the fallback build
/// directory when it exists.
pub fn emit_ur_loader_link_settings(
    ur_loader_lib_dir: Option<&str>,
    oneapi_lib_dir_exists: bool,
    manifest_dir: &str,
    fallback_dir_exists: bool,
) -> (lines: Vec<String>)
    ensures
        texts(lines@) == seq![
            "cargo:rerun-if-env-changed=UR_LOADER_LIB_DIR"@,
            "cargo:rustc-link-lib=dylib=ur_loader"@,
        ] + match ur_loader_lib_dir {
            Some(dir) => seq![link_search_line(dir@)],
            None => if oneapi_lib_dir_exists {
                seq![link_search_line(path_join(ONEAPI_ROOT@, "compiler/latest/lib"@))]
            } else if fallback_dir_exists {
                seq![link_search_line(path_join(manifest_dir@, "../unified-runtime/build-cuda/install/lib"@))]
            } else {
                Seq::empty()
            },
        },
{
    let mut lines: Vec<String> = Vec::new();
    lines.push(String::from_str("cargo:rerun-if-env-changed=UR_LOADER_LIB_DIR"));
    lines.push(String::from_str("cargo:rustc-link-lib=dylib=ur_loader"));
    let ghost head = texts(lines@);
    match ur_loader_lib_dir {
        Some(dir) => {
            lines.push(link_search(dir));
        },
        None => {
            if oneapi_lib_dir_exists {
                let dir = compiler_lib_dir();
                lines.push(link_search(dir.as_str()));
            } else if fallback_dir_exists {
                let dir = ur_loader_fallback_dir(manifest_dir);
                lines.push(link_search(dir.as_str()));
            }
        },
    }
    assert(texts(lines@) =~= head + texts(lines@).skip(2));
    lines
}


/// The error when `OCLOC_PATH` names no file.
pub open spec fn ocloc_env_error(path: Seq<char>) -> Seq<char> {
    "OCLOC_PATH is set but does not point to a file: "@ + path
}

/// The error when `PATH` is not set.
pub open spec fn ocloc_no_path_error() -> Seq<char> {
    "PATH is not set; install intel-ocloc or set OCLOC_PATH to the ocloc binary"@
}

/// The error when no entry of `PATH` holds `ocloc`.
pub open spec fn ocloc_not_found_error() -> Seq<char> {
    "ocloc was not found in PATH; install intel-ocloc or set OCLOC_PATH"@
}

/// The `ocloc` candidates of a `PATH` value: `ocloc` in each entry, in order.
pub open spec fn ocloc_candidates(path_env: Seq<char>) -> Seq<Seq<char>> {
    split_on(path_env, ':').map_values(|dir: Seq<char>| path_join(dir, "ocloc"@))
}

/// Where the search for `ocloc` stands.
pub enum OclocPhase {
    /// The path that `OCLOC_PATH` names is to be checked.
    CheckEnv { path: Seq<char> },
    /// The `ocloc` of the installation is to be checked; `path_env` is `PATH`.
    CheckBundled { path_env: Option<Seq<char>> },
    /// `candidates[index]` is to be checked.
    CheckPath { candidates: Seq<Seq<char>>, index: int },
    /// The search has ended with the file found, or the error text.
    Finished { outcome: Result<Seq<char>, Seq<char>> },
}

impl OclocPhase {
    pub open spec fn bundled() -> Seq<char> {
        path_join(path_join(ONEAPI_ROOT@, "compiler/latest/bin-llvm"@), "ocloc"@)
    }

    pub open spec fn at_candidate(candidates: Seq<Seq<char>>, index: int) -> OclocPhase {
        if index < candidates.len() {
            OclocPhase::CheckPath { candidates, index }
        } else {
            OclocPhase::Finished { outcome: Err(ocloc_not_found_error()) }
        }
    }

    /// The state at the start, given `OCLOC_PATH` and `PATH`.
    pub open spec fn initial(ocloc_path: Option<Seq<char>>, path_env: Option<Seq<char>>) -> OclocPhase {
        match ocloc_path {
            Some(path) => OclocPhase::CheckEnv { path },
            None => OclocPhase::CheckBundled { path_env },
        }
    }

    pub open spec fn wf(self) -> bool {
        match self {
            OclocPhase::CheckPath { candidates, index } => 0 <= index < candidates.len(),
            _ => true,
        }
    }

    /// The path to check next; `None` once the search has ended.
    pub open spec fn probe(self) -> Option<Seq<char>> {
        match self {
            OclocPhase::CheckEnv { path } => Some(path),
            OclocPhase::CheckBundled { .. } => Some(Self::bundled()),
            OclocPhase::CheckPath { candidates, index } => Some(candidates[index]),
            OclocPhase::Finished { .. } => None,
        }
    }

    /// The state once the probed path was found to be a file or not.
    pub open spec fn after(self, is_file: bool) -> OclocPhase {
        match self {
            OclocPhase::CheckEnv { path } => OclocPhase::Finished {
                outcome: if is_file {
                    Ok(path)
                } else {
                    Err(ocloc_env_error(path))
                },
            },
            OclocPhase::CheckBundled { path_env } => if is_file {
                OclocPhase::Finished { outcome: Ok(Self::bundled()) }
            } else {
                match path_env {
                    Some(value) => Self::at_candidate(ocloc_candidates(value), 0),
                    None => OclocPhase::Finished { outcome: Err(ocloc_no_path_error()) },
                }
            },
            OclocPhase::CheckPath { candidates, index } => if is_file {
                OclocPhase::Finished { outcome: Ok(candidates[index]) }
            } else {
                Self::at_candidate(candidates, index + 1)
            },
            OclocPhase::Finished { .. } => self,
        }
    }
}

enum OclocStage {
    CheckEnv { path: String },
    CheckBundled { path_env: Option<String> },
    CheckPath { candidates: Vec<String>, index: usize },
    Finished { outcome: Result<String, String> },
}

impl OclocStage {
    spec fn phase(&self) -> OclocPhase {
        match self {
            OclocStage::CheckEnv { path } => OclocPhase::CheckEnv { path: path@ },
            OclocStage::CheckBundled { path_env } => OclocPhase::CheckBundled { path_env: opt_string(*path_env) },
            OclocStage::CheckPath { candidates, index } => OclocPhase::CheckPath {
                candidates: texts(candidates@),
                index: *index as int,
            },
            OclocStage::Finished { outcome } => OclocPhase::Finished {
                outcome: match outcome {
                    Ok(p) => Ok(p@),
                    Err(m) => Err(m@),
                },
            },
        }
    }
}

fn ocloc_at_candidate(candidates: Vec<String>, index: usize) -> (s: OclocStage)
    ensures
        s.phase() == OclocPhase::at_candidate(texts(candidates@), index as int),
{
    if index < candidates.len() {
        OclocStage::CheckPath { candidates, index }
    } else {
        OclocStage::Finished {
            outcome: Err(String::from_str("ocloc was not found in PATH; install intel-ocloc or set OCLOC_PATH")),
        }
    }
}

fn candidate_paths(path_env: &str) -> (c: Vec<String>)
    ensures
        texts(c@) == ocloc_candidates(path_env@),
{
    let dirs = split_search_path(path_env);
    let mut c: Vec<String> = Vec::new();
    for i in 0..dirs.len()
        invariant
            dirs@.len() == split_on(path_env@, ':').len(),
            forall|k: int| 0 <= k < dirs@.len() ==> #[trigger] dirs@[k]@ == split_on(path_env@, ':')[k],
            texts(c@) == ocloc_candidates(path_env@).take(i as int),
    {
        let candidate = join_path(dirs[i].as_str(), "ocloc");
        let ghost before = c@;
        c.push(candidate);
        assert(texts(c@) =~= ocloc_candidates(path_env@).take(i + 1)) by {
            assert(texts(c@) =~= texts(before).push(candidate@));
        }
    }
    assert(ocloc_candidates(path_env@).take(dirs@.len() as int) =~= ocloc_candidates(path_env@));
    c
}

/// The search for the `ocloc` offline compiler, driven one file check at a
/// time: the file that `OCLOC_PATH` names, else the installation's
/// `ocloc`, else `ocloc` in each entry of `PATH` in order.
pub struct OclocSearch {
    stage: OclocStage,
}

impl View for OclocSearch {
    type V = OclocPhase;

    closed spec fn view(&self) -> OclocPhase {
        self.stage.phase()
    }
}

impl OclocSearch {
    /// Starts the search given the values of `OCLOC_PATH` and `PATH`.
    pub fn new(ocloc_path: Option<String>, path_env: Option<String>) -> (s: Self)
        ensures
            s@ == OclocPhase::initial(opt_string(ocloc_path), opt_string(path_env)),
    {
        match ocloc_path {
            Some(path) => OclocSearch { stage: OclocStage::CheckEnv { path } },
            None => OclocSearch { stage: OclocStage::CheckBundled { path_env } },
        }
    }

    /// The path whose kind is to be checked next, or `None` once the search
    /// has ended.
    pub fn next_probe(&self) -> (p: Option<String>)
        requires
            self@.wf(),
        ensures
            opt_string(p) == self@.probe(),
    {
        match &self.stage {
            OclocStage::CheckEnv { path } => Some(path.clone()),
            OclocStage::CheckBundled { .. } => {
                let dir = compiler_bin_llvm_dir();
                Some(join_path(dir.as_str(), "ocloc"))
            },
            OclocStage::CheckPath { candidates, index } => {
                assert(texts(candidates@)[*index as int] == candidates@[*index as int]@);
                Some(candidates[*index].clone())
            },
            OclocStage::Finished { .. } => None,
        }
    }

    /// Takes whether the probed path is a file and moves on.
    pub fn resume(&mut self, is_file: bool)
        requires
            old(self)@.wf(),
            old(self)@.probe() is Some,
        ensures
            final(self)@.wf(),
            final(self)@ == old(self)@.after(is_file),
    {
        let mut stage = OclocStage::Finished { outcome: Err(String::new()) };
        std::mem::swap(&mut stage, &mut self.stage);
        self.stage = match stage {
            OclocStage::CheckEnv { path } => {
                if is_file {
                    OclocStage::Finished { outcome: Ok(path) }
                } else {
                    let mut message = String::from_str("OCLOC_PATH is set but does not point to a file: ");
                    message.append(path.as_str());
                    OclocStage::Finished { outcome: Err(message) }
                }
            },
            OclocStage::CheckBundled { path_env } => {
                if is_file {
                    let dir = compiler_bin_llvm_dir();
                    OclocStage::Finished { outcome: Ok(join_path(dir.as_str(), "ocloc")) }
                } else {
                    match path_env {
                        Some(value) => ocloc_at_candidate(candidate_paths(value.as_str()), 0),
                        None => OclocStage::Finished {
                            outcome: Err(
                                String::from_str(
                                    "PATH is not set; install intel-ocloc or set OCLOC_PATH to the ocloc binary",
                                ),
                            ),
                        },
                    }
                }
            },
            OclocStage::CheckPath { candidates, index } => {
                if is_file {
                    assert(texts(candidates@)[index as int] == candidates@[index as int]@);
                    let found = candidates[index].clone();
                    OclocStage::Finished { outcome: Ok(found) }
                } else {
                    let _ = candidates.len();
                    ocloc_at_candidate(candidates, index + 1)
                }
            },
            OclocStage::Finished { outcome } => OclocStage::Finished { outcome },
        };
    }

    /// Whether the search has ended.
    pub fn is_finished(&self) -> (b: bool)
        ensures
            b <==> self@ is Finished,
    {
        matches!(self.stage, OclocStage::Finished { .. })
    }

    /// The file found, or the text of the error that ended the search.
    pub fn finish(self) -> (r: Result<String, String>)
        requires
            self@ is Finished,
        ensures
            self@ == (OclocPhase::Finished {
                outcome: match r {
                    Ok(p) => Ok(p@),
                    Err(m) => Err(m@),
                },
            }),
    {
        match self.stage {
            OclocStage::Finished { outcome } => outcome,
            _ => Err(String::new()),
        }
    }
}

} // verus!

