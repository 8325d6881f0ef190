//! The few path operations the rail builders need, taken from the standard
//! library's `std::path::Path`. Joining is stated outright; what the
//! component-parsing operations return is named rather than restated, since
//! those rules are the standard library's. Paths follow Unix rules: `/` is
//! the only separator and a path is absolute when it begins with one.

use vstd::prelude::*;

use crate::text::{chars_of, opt_chars, str_equal, string_from_chars};

verus! {

/// What `Path::file_name` gives for a path, as text.
pub uninterp spec fn path_file_name(path: Seq<char>) -> Option<Seq<char>>;

/// What `Path::join` gives for a base and a tail, as text: an absolute tail
/// replaces the base; otherwise the tail follows the base, with a `/`
/// between them unless the base is empty or already ends in one.
pub open spec fn path_join(base: Seq<char>, tail: Seq<char>) -> Seq<char> {
    if tail.len() > 0 && tail[0] == '/' {
        tail
    } else if base.len() > 0 && base.last() != '/' {
        base + seq!['/'] + tail
    } else {
        base + tail
    }
}

/// What `Path::ancestors` yields for a path, as text: the path itself, then
/// each parent in turn.
pub uninterp spec fn path_ancestors(path: Seq<char>) -> Seq<Seq<char>>;

/// The last ancestor of a path: the root of an absolute path, the empty
/// path for a relative one.
pub open spec fn path_root(path: Seq<char>) -> Seq<char> {
    path_ancestors(path).last()
}

/// `std::path::Path::file_name`: the final component of a path, when it has
/// one. Its value is named by `path_file_name`; the conversion back to text
/// loses nothing, since a component of a UTF-8 path is UTF-8.
#[verifier::external_body]
pub(crate) fn file_name_of(path: &str) -> (r: Option<String>)
    ensures
        opt_chars(r) == path_file_name(path@),
{
    match std::path::Path::new(path).file_name() {
        Some(name) => Some(name.to_string_lossy().into_owned()),
        None => None,
    }
}

/// `std::path::Path::join`: the tail appended to the base (an absolute
/// tail replaces it), as `path_join` states. The conversion back to text
/// loses nothing, since both parts are UTF-8.
#[verifier::external_body]
pub(crate) fn join_path(base: &str, tail: &str) -> (r: String)
    ensures
        r@ == path_join(base@, tail@),
{
    std::path::Path::new(base).join(tail).to_string_lossy().into_owned()
}

/// `std::path::Path::ancestors`: the path, then each of its parents, as
/// text. Named by `path_ancestors`; the standard library documents that the
/// first item is the path itself, so there is always at least one.
#[verifier::external_body]
fn ancestors_of(path: &str) -> (r: Vec<String>)
    ensures
        r@.map_values(|a: String| a@) == path_ancestors(path@),
        r@.len() >= 1,
        r@[0]@ == path@,
{
    std::path::Path::new(path).ancestors().map(|a| a.to_string_lossy().into_owned()).collect()
}

/// The root a path hangs from: its last ancestor.
pub(crate) fn root_of(path: &str) -> (r: String)
    ensures
        r@ == path_root(path@),
{
    let mut all = ancestors_of(path);
    let ghost views = all@.map_values(|a: String| a@);
    assert(views.last() == all@.last()@);
    match all.pop() {
        Some(root) => root,
        None => String::new(),
    }
}

/// A path's own name is its display text unless something authoritative
/// renamed it; a path without a name (the root) shows itself.
pub open spec fn derived_label(path: Seq<char>) -> Seq<char> {
    match path_file_name(path) {
        Some(name) => if name.len() > 0 { name } else { path },
        None => path,
    }
}

/// The label a path shows by itself.
pub fn derived_label_of(path: &String) -> (r: String)
    ensures
        r@ == derived_label(path@),
{
    match file_name_of(path.as_str()) {
        Some(name) => if name.as_str().is_empty() { path.clone() } else { name },
        None => path.clone(),
    }
}


/// The pieces of a path between its `/` separators, empty pieces included.
pub open spec fn slash_pieces(s: Seq<char>) -> Seq<Seq<char>>
    decreases s.len(),
{
    if s.len() == 0 {
        seq![Seq::empty()]
    } else {
        let p = slash_pieces(s.drop_last());
        if s.last() == '/' {
            p.push(Seq::empty())
        } else {
            p.update(p.len() - 1, p.last().push(s.last()))
        }
    }
}

/// The pieces that are components: empty pieces (repeated and trailing
/// separators) are no component, and a `.` is one only at the very start.
pub open spec fn kept_pieces(p: Seq<Seq<char>>) -> Seq<Seq<char>>
    decreases p.len(),
{
    if p.len() == 0 {
        Seq::empty()
    } else {
        let k = kept_pieces(p.drop_last());
        let last = p.last();
        if last.len() > 0 && (last != seq!['.'] || p.len() == 1) {
            k.push(last)
        } else {
            k
        }
    }
}

/// Components written back with one `/` between each two.
pub open spec fn joined(c: Seq<Seq<char>>) -> Seq<char>
    decreases c.len(),
{
    if c.len() == 0 {
        Seq::empty()
    } else if c.len() == 1 {
        c[0]
    } else {
        joined(c.drop_last()) + seq!['/'] + c.last()
    }
}

/// A path's identity as `Path` compares it: whether it starts at the root,
/// then its components. Two paths are the same path exactly when these are
/// equal, so `/a/`, `/a//` and `/a/.` are all `/a`.
pub open spec fn path_key(s: Seq<char>) -> Seq<char> {
    (if s.len() > 0 && s[0] == '/' { seq!['/'] } else { Seq::empty() }) + joined(kept_pieces(slash_pieces(s)))
}

pub open spec fn char_views(v: Seq<Vec<char>>) -> Seq<Seq<char>> {
    v.map_values(|x: Vec<char>| x@)
}

proof fn lemma_slash_pieces_len(s: Seq<char>)
    ensures
        slash_pieces(s).len() >= 1,
    decreases s.len(),
{
    if s.len() > 0 {
        lemma_slash_pieces_len(s.drop_last());
    }
}

/// A path's identity, written as text.
pub fn canonical_path(s: &str) -> (r: String)
    ensures
        r@ == path_key(s@),
{
    let chars = chars_of(s);
    let mut done: Vec<Vec<char>> = Vec::new();
    let mut cur: Vec<char> = Vec::new();
    let mut i: usize = 0;
    assert(chars@.take(0) =~= Seq::<char>::empty());
    assert(char_views(done@).push(cur@) =~= slash_pieces(chars@.take(0)));
    while i < chars.len()
        invariant
            chars@ == s@,
            i <= chars@.len(),
            char_views(done@).push(cur@) == slash_pieces(chars@.take(i as int)),
        decreases chars.len() - i,
    {
        let c = chars[i];
        let ghost before = char_views(done@).push(cur@);
        assert(chars@.take(i + 1).drop_last() =~= chars@.take(i as int));
        assert(chars@.take(i + 1).last() == c);
        if c == '/' {
            let piece = cur;
            done.push(piece);
            cur = Vec::new();
            assert(char_views(done@).push(cur@) =~= before.push(Seq::empty()));
        } else {
            cur.push(c);
            assert(char_views(done@).push(cur@) =~= before.update(before.len() - 1, before.last().push(c)));
        }
        i = i + 1;
    }
    assert(chars@.take(i as int) =~= chars@);
    let last_piece = cur;
    done.push(last_piece);
    let pieces = done;
    assert(char_views(pieces@) == slash_pieces(s@));
    let mut kept: Vec<Vec<char>> = Vec::new();
    let mut k: usize = 0;
    assert(char_views(pieces@).take(0) =~= Seq::<Seq<char>>::empty());
    assert(char_views(kept@) =~= kept_pieces(char_views(pieces@).take(0)));
    while k < pieces.len()
        invariant
            k <= pieces@.len(),
            char_views(pieces@) == slash_pieces(s@),
            char_views(kept@) == kept_pieces(char_views(pieces@).take(k as int)),
        decreases pieces.len() - k,
    {
        let ghost pv = char_views(pieces@);
        assert(pv.take(k + 1).drop_last() =~= pv.take(k as int));
        assert(pv.take(k + 1).last() == pieces@[k as int]@);
        let n = pieces[k].len();
        let is_dot = n == 1 && pieces[k][0] == '.';
        assert(is_dot == (pieces@[k as int]@ == seq!['.'])) by {
            if pieces@[k as int]@ == seq!['.'] {
                assert(pieces@[k as int]@.len() == 1);
            }
            if is_dot {
                assert(pieces@[k as int]@ =~= seq!['.']);
            }
        }
        if n > 0 && (!is_dot || k == 0) {
            let piece = pieces[k].clone();
            let ghost kb = char_views(kept@);
            kept.push(piece);
            assert(char_views(kept@) =~= kb.push(pv[k as int]));
        }
        k = k + 1;
    }
    assert(char_views(pieces@).take(k as int) =~= char_views(pieces@));
    let mut out: Vec<char> = Vec::new();
    if chars.len() > 0 && chars[0] == '/' {
        out.push('/');
    }
    let ghost prefix = out@;
    assert(prefix == (if s@.len() > 0 && s@[0] == '/' { seq!['/'] } else { Seq::<char>::empty() }));
    let mut j: usize = 0;
    assert(char_views(kept@).take(0) =~= Seq::<Seq<char>>::empty());
    assert(out@ =~= prefix + joined(char_views(kept@).take(0)));
    while j < kept.len()
        invariant
            j <= kept@.len(),
            out@ == prefix + joined(char_views(kept@).take(j as int)),
        decreases kept.len() - j,
    {
        let ghost kv = char_views(kept@);
        assert(kv.take(j + 1).drop_last() =~= kv.take(j as int));
        assert(kv.take(j + 1).last() == kept@[j as int]@);
        let ghost o = out@;
        if j > 0 {
            out.push('/');
        }
        let mut t: usize = 0;
        let ghost base = out@;
        while t < kept[j].len()
            invariant
                j < kept@.len(),
                t <= kept@[j as int]@.len(),
                out@ == base + kept@[j as int]@.take(t as int),
            decreases kept[j as int]@.len() - t,
        {
            out.push(kept[j][t]);
            t = t + 1;
            assert(out@ =~= base + kept@[j as int]@.take(t as int));
        }
        assert(kept@[j as int]@.take(t as int) =~= kept@[j as int]@);
        if j == 0 {
            assert(kv.take(1) =~= seq![kept@[0]@]);
            assert(out@ =~= prefix + joined(kv.take(1)));
        } else {
            assert(out@ =~= prefix + joined(kv.take(j + 1)));
        }
        j = j + 1;
    }
    assert(char_views(kept@).take(j as int) =~= char_views(kept@));
    string_from_chars(&out)
}

/// Whether two paths are the same path, as `Path` compares them.
pub fn same_path(a: &str, b: &str) -> (r: bool)
    ensures
        r == (path_key(a@) == path_key(b@)),
{
    let x = canonical_path(a);
    let y = canonical_path(b);
    str_equal(x.as_str(), y.as_str())
}

} // verus!
