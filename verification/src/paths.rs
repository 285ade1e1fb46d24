//! Paths as text: joining a relative path onto a base, and splitting a
//! search-path variable into its entries.

use vstd::prelude::*;
use vstd::string::StrSliceExecFns;
use vstd::string::StringExecFns;

verus! {

/// Whether a path starts at the root.
pub open spec fn is_absolute(path: Seq<char>) -> bool {
    path.len() > 0 && path[0] == '/'
}

/// The path `rel` joined onto `base`: an absolute `rel` replaces `base`;
/// otherwise a separator is put between them unless `base` is empty or
/// already ends with one.
pub open spec fn path_join(base: Seq<char>, rel: Seq<char>) -> Seq<char> {
    if is_absolute(rel) {
        rel
    } else if base.len() == 0 || base.last() == '/' {
        base + rel
    } else {
        base + seq!['/'] + rel
    }
}

/// Joins `rel` onto `base` as [`path_join`] says.
pub fn join_path(base: &str, rel: &str) -> (s: String)
    ensures
        s@ == path_join(base@, rel@),
{
    proof {
        reveal_strlit("/");
    }
    let rel_len = rel.unicode_len();
    if rel_len > 0 && rel.get_char(0) == '/' {
        return String::from_str(rel);
    }
    let base_len = base.unicode_len();
    let mut s = String::from_str(base);
    if base_len > 0 && base.get_char(base_len - 1) != '/' {
        s.append("/");
    }
    s.append(rel);
    s
}

/// Whether `path` is absolute.
pub fn path_is_absolute(path: &str) -> (b: bool)
    ensures
        b == is_absolute(path@),
{
    path.unicode_len() > 0 && path.get_char(0) == '/'
}

/// The pieces of `s` between the occurrences of `sep`, in order; an empty
/// text has one empty piece.
pub open spec fn split_on(s: Seq<char>, sep: char) -> Seq<Seq<char>>
    decreases s.len(),
{
    if s.len() == 0 {
        seq![Seq::empty()]
    } else {
        let rest = split_on(s.drop_last(), sep);
        if s.last() == sep {
            rest.push(Seq::empty())
        } else {
            rest.update(rest.len() - 1, rest.last().push(s.last()))
        }
    }
}

proof fn lemma_split_on_nonempty(s: Seq<char>, sep: char)
    ensures
        split_on(s, sep).len() >= 1,
    decreases s.len(),
{
    if s.len() > 0 {
        lemma_split_on_nonempty(s.drop_last(), sep);
    }
}

/// The entries of a search-path variable: the pieces between `':'`.
pub fn split_search_path(value: &str) -> (entries: Vec<String>)
    ensures
        entries@.len() == split_on(value@, ':').len(),
        forall|i: int| 0 <= i < entries@.len() ==> #[trigger] entries@[i]@ == split_on(value@, ':')[i],
{
    split_text(value, ':')
}

/// The pieces of `value` between the occurrences of `sep`.
pub fn split_text(value: &str, sep: char) -> (entries: Vec<String>)
    ensures
        entries@.len() == split_on(value@, sep).len(),
        forall|i: int| 0 <= i < entries@.len() ==> #[trigger] entries@[i]@ == split_on(value@, sep)[i],
{
    let n = value.unicode_len();
    let mut entries: Vec<String> = Vec::new();
    let mut start: usize = 0;
    let mut i: usize = 0;
    while i < n
        invariant
            n == value@.len(),
            start <= i <= n,
            split_on(value@.take(i as int), sep).len() == entries@.len() + 1,
            forall|j: int| 0 <= j < entries@.len() ==> #[trigger] entries@[j]@ == split_on(value@.take(i as int), sep)[j],
            split_on(value@.take(i as int), sep).last() == value@.subrange(start as int, i as int),
        decreases n - i,
    {
        let c = value.get_char(i);
        proof {
            assert(value@.take(i + 1).drop_last() =~= value@.take(i as int));
            assert(value@.take(i + 1).last() == c);
            lemma_split_on_nonempty(value@.take(i as int), sep);
        }
        if c == sep {
            let piece = String::from_str(value.substring_char(start, i));
            entries.push(piece);
            start = i + 1;
            proof {
                assert(value@.subrange(start as int, i + 1) =~= Seq::<char>::empty());
            }
        } else {
            proof {
                assert(value@.subrange(start as int, i as int).push(c) =~= value@.subrange(
                    start as int,
                    i + 1,
                ));
            }
        }
        i = i + 1;
    }
    let last = String::from_str(value.substring_char(start, n));
    entries.push(last);
    proof {
        assert(value@.take(n as int) =~= value@);
        lemma_split_on_nonempty(value@, sep);
    }
    entries
}


/// A piece of a path that names a directory or file: not empty and not `.`.
pub open spec fn is_normal_part(part: Seq<char>) -> bool {
    part.len() > 0 && part != seq!['.']
}

/// The test that keeps a piece as a component.
pub open spec fn normal_part() -> spec_fn(Seq<char>) -> bool {
    |part: Seq<char>| is_normal_part(part)
}

/// The components of a path: the root for an absolute path, a leading `.`
/// for a relative path that starts with one, then every piece between `/`
/// that is neither empty nor `.`.
pub open spec fn path_components(path: Seq<char>) -> Seq<Seq<char>> {
    let parts = split_on(path, '/');
    let lead = if is_absolute(path) {
        seq![seq!['/']]
    } else if parts[0] == seq!['.'] {
        seq![seq!['.']]
    } else {
        Seq::empty()
    };
    lead + parts.filter(normal_part())
}

/// Whether two paths name the same location component by component, as
/// path equality compares them.
pub open spec fn same_path(a: Seq<char>, b: Seq<char>) -> bool {
    path_components(a) == path_components(b)
}

fn is_dot(part: &String) -> (b: bool)
    ensures
        b <==> part@ == seq!['.'],
{
    let n = part.as_str().unicode_len();
    if n == 1 && part.as_str().get_char(0) == '.' {
        assert(part@ =~= seq!['.']);
        true
    } else {
        false
    }
}

/// The characters of each string.
pub open spec fn texts(strings: Seq<String>) -> Seq<Seq<char>> {
    strings.map_values(|c: String| c@)
}

/// The components of `path`, as [`path_components`] says.
pub fn components(path: &str) -> (cs: Vec<String>)
    ensures
        cs@.len() == path_components(path@).len(),
        forall|i: int| 0 <= i < cs@.len() ==> #[trigger] cs@[i]@ == path_components(path@)[i],
{
    proof {
        reveal_strlit("/");
        reveal_strlit(".");
        lemma_split_on_nonempty(path@, '/');
    }
    let parts = split_text(path, '/');
    let ghost pred = normal_part();
    let ghost sparts = split_on(path@, '/');
    let mut cs: Vec<String> = Vec::new();
    if path_is_absolute(path) {
        let root = String::from_str("/");
        assert(root@ =~= seq!['/']);
        cs.push(root);
    } else if is_dot(&parts[0]) {
        let dot = String::from_str(".");
        assert(dot@ =~= seq!['.']);
        cs.push(dot);
    }
    let ghost lead = texts(cs@);
    assert(lead =~= if is_absolute(path@) {
        seq![seq!['/']]
    } else if sparts[0] == seq!['.'] {
        seq![seq!['.']]
    } else {
        Seq::empty()
    });
    assert(path_components(path@) =~= lead + sparts.filter(pred));
    assert(sparts.take(0).filter(pred) =~= Seq::<Seq<char>>::empty());
    for j in 0..parts.len()
        invariant
            pred == normal_part(),
            parts@.len() == sparts.len(),
            forall|i: int| 0 <= i < parts@.len() ==> #[trigger] parts@[i]@ == sparts[i],
            path_components(path@) == lead + sparts.filter(pred),
            texts(cs@) == lead + sparts.take(j as int).filter(pred),
    {
        proof {
            sparts.take(j as int).lemma_filter_push(sparts[j as int], pred);
            assert(sparts.take(j + 1) =~= sparts.take(j as int).push(sparts[j as int]));
        }
        let part = &parts[j];
        assert(part@ == sparts[j as int]);
        assert(pred(sparts[j as int]) == is_normal_part(sparts[j as int]));
        if part.as_str().unicode_len() > 0 && !is_dot(part) {
            cs.push(part.clone());
            assert(texts(cs@) =~= (lead + sparts.take(j as int).filter(pred)).push(
                sparts[j as int],
            ));
        } else {
            assert(texts(cs@) =~= lead + sparts.take(j + 1).filter(pred));
        }
    }
    proof {
        assert(sparts.take(sparts.len() as int) =~= sparts);
        assert forall|i: int| 0 <= i < cs@.len() implies #[trigger] cs@[i]@ == path_components(path@)[i] by {
            assert(texts(cs@)[i] == cs@[i]@);
        }
    }
    cs
}

/// Whether `a` and `b` are the same path, as [`same_path`] says.
pub fn paths_equal(a: &str, b: &str) -> (r: bool)
    ensures
        r == same_path(a@, b@),
{
    let ca = components(a);
    let cb = components(b);
    if ca.len() != cb.len() {
        return false;
    }
    for i in 0..ca.len()
        invariant
            ca@.len() == cb@.len(),
            ca@.len() == path_components(a@).len(),
            cb@.len() == path_components(b@).len(),
            forall|k: int| 0 <= k < ca@.len() ==> #[trigger] ca@[k]@ == path_components(a@)[k],
            forall|k: int| 0 <= k < cb@.len() ==> #[trigger] cb@[k]@ == path_components(b@)[k],
            forall|k: int| 0 <= k < i ==> path_components(a@)[k] == path_components(b@)[k],
    {
        if ca[i] != cb[i] {
            assert(path_components(a@)[i as int] != path_components(b@)[i as int]);
            return false;
        }
    }
    assert(path_components(a@) =~= path_components(b@));
    true
}

} // verus!

verus! {

/// A text without `sep` splits into itself alone.
pub proof fn lemma_split_without_separator(s: Seq<char>, sep: char)
    requires
        !s.contains(sep),
    ensures
        split_on(s, sep) == seq![s],
    decreases s.len(),
{
    if s.len() > 0 {
        assert(!s.drop_last().contains(sep)) by {
            if s.drop_last().contains(sep) {
                let k = choose|k: int| 0 <= k < s.drop_last().len() && s.drop_last()[k] == sep;
                assert(s[k] == sep);
            }
        }
        lemma_split_without_separator(s.drop_last(), sep);
        assert(s.last() != sep) by {
            assert(s[s.len() - 1] == s.last());
        }
        assert(s.drop_last().push(s.last()) =~= s);
        assert(split_on(s, sep) =~= seq![s]);
    } else {
        assert(s =~= Seq::<char>::empty());
    }
}

/// The first piece of `s`, a separator and `t` is `s` when `s` holds no
/// separator.
pub proof fn lemma_split_first_piece(s: Seq<char>, t: Seq<char>, sep: char)
    requires
        !s.contains(sep),
    ensures
        split_on(s + seq![sep] + t, sep).len() >= 2,
        split_on(s + seq![sep] + t, sep)[0] == s,
    decreases t.len(),
{
    if t.len() == 0 {
        lemma_split_without_separator(s, sep);
        assert((s + seq![sep] + t).drop_last() =~= s);
        assert((s + seq![sep] + t).last() == sep);
    } else {
        lemma_split_first_piece(s, t.drop_last(), sep);
        assert((s + seq![sep] + t).drop_last() =~= s + seq![sep] + t.drop_last());
    }
}


/// Splitting a piece without the separator, the separator and a rest gives
/// that piece followed by the pieces of the rest.
pub proof fn lemma_split_after_piece(s: Seq<char>, t: Seq<char>, sep: char)
    requires
        !s.contains(sep),
    ensures
        split_on(s + seq![sep] + t, sep) == seq![s] + split_on(t, sep),
    decreases t.len(),
{
    if t.len() == 0 {
        lemma_split_without_separator(s, sep);
        assert((s + seq![sep] + t).drop_last() =~= s);
        assert((s + seq![sep] + t).last() == sep);
        assert(split_on(t, sep) =~= seq![Seq::<char>::empty()]);
        assert(split_on(s + seq![sep] + t, sep) =~= seq![s] + split_on(t, sep));
    } else {
        lemma_split_after_piece(s, t.drop_last(), sep);
        lemma_split_on_nonempty(t.drop_last(), sep);
        assert((s + seq![sep] + t).drop_last() =~= s + seq![sep] + t.drop_last());
        assert((s + seq![sep] + t).last() == t.last());
        let rest = split_on(t.drop_last(), sep);
        if t.last() == sep {
            assert((seq![s] + rest).push(Seq::<char>::empty()) =~= seq![s] + rest.push(Seq::<char>::empty()));
        } else {
            let whole = seq![s] + rest;
            assert(whole.update(whole.len() - 1, whole.last().push(t.last())) =~= seq![s] + rest.update(
                rest.len() - 1,
                rest.last().push(t.last()),
            ));
        }
    }
}

/// The empty path has no components, and an absolute path has at least the
/// root, so the empty path is never the same path as an absolute one.
pub proof fn lemma_empty_not_absolute_path(dir: Seq<char>)
    requires
        is_absolute(dir),
    ensures
        !same_path(Seq::<char>::empty(), dir),
{
    let e = Seq::<char>::empty();
    assert(split_on(e, '/') =~= seq![e]);
    seq![e].lemma_filter_len(normal_part());
    Seq::<Seq<char>>::empty().lemma_filter_push(e, normal_part());
    assert(seq![e] =~= Seq::<Seq<char>>::empty().push(e));
    Seq::<Seq<char>>::empty().lemma_filter_len(normal_part());
    assert(path_components(e).len() == 0);
    assert(path_components(dir).len() >= 1);
}

} // verus!
