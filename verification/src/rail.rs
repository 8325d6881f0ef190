//! The shared composition law of the Files rails: sections are filled in a
//! fixed order, a path belongs to the first section that claims it, the whole
//! rail is bounded, and a section left empty draws no header.

use vstd::prelude::*;

use crate::paths::{canonical_path, path_key};
use crate::text::str_equal;

verus! {

/// An item a rail section can hold: it is identified by its path.
pub trait RailItem: Sized {
    /// The path that identifies the item.
    spec fn key(&self) -> Seq<char>;

    /// The item's path, as text.
    fn path_str(&self) -> (r: &str)
        ensures
            r@ == self.key(),
    ;

    /// Whether the item's target can be opened.
    spec fn usable(&self) -> bool;

    /// Whether the item's target can be opened.
    fn is_usable(&self) -> (r: bool)
        ensures
            r == self.usable(),
    ;

    /// A copy of the item.
    fn duplicate(&self) -> (r: Self)
        ensures
            r == *self,
    ;
}

/// The items of `items` whose path is not yet claimed (by `seen` or by an
/// earlier item), in order, at most `remaining` of them.
pub open spec fn take_unclaimed<T: RailItem>(items: Seq<T>, seen: Seq<Seq<char>>, remaining: nat) -> Seq<T>
    decreases items.len(),
{
    if items.len() == 0 || remaining == 0 {
        Seq::empty()
    } else if seen.contains(path_key(items[0].key())) {
        take_unclaimed(items.drop_first(), seen, remaining)
    } else {
        seq![items[0]] + take_unclaimed(items.drop_first(), seen.push(path_key(items[0].key())), (remaining - 1) as nat)
    }
}

/// The path identities of some items, in order.
pub open spec fn keys<T: RailItem>(items: Seq<T>) -> Seq<Seq<char>> {
    items.map_values(|t: T| path_key(t.key()))
}

/// The sections a rail is composed of, given its sources in section order.
pub open spec fn compose<K, T: RailItem>(sources: Seq<(K, Seq<T>)>, seen: Seq<Seq<char>>, remaining: nat) -> Seq<(K, Seq<T>)>
    decreases sources.len(),
{
    if sources.len() == 0 || remaining == 0 {
        Seq::empty()
    } else {
        let items = take_unclaimed(sources[0].1, seen, remaining);
        let rest = compose(sources.drop_first(), seen + keys(items), (remaining - items.len()) as nat);
        if items.len() > 0 {
            seq![(sources[0].0, items)] + rest
        } else {
            rest
        }
    }
}

/// All items of some sections, in section order.
pub open spec fn flatten<K, T>(sections: Seq<(K, Seq<T>)>) -> Seq<T>
    decreases sections.len(),
{
    if sections.len() == 0 {
        Seq::empty()
    } else {
        sections[0].1 + flatten(sections.drop_first())
    }
}

/// No path appears twice among `items`, nor in `seen`.
pub open spec fn fresh_keys<T: RailItem>(items: Seq<T>, seen: Seq<Seq<char>>) -> bool {
    &&& forall|i: int, j: int| 0 <= i < items.len() && 0 <= j < items.len() && i != j ==> path_key(items[i].key()) != path_key(items[j].key())
    &&& forall|i: int| 0 <= i < items.len() ==> !seen.contains(path_key(#[trigger] items[i].key()))
}

pub proof fn lemma_take_unclaimed<T: RailItem>(items: Seq<T>, seen: Seq<Seq<char>>, remaining: nat)
    ensures
        take_unclaimed(items, seen, remaining).len() <= remaining,
        take_unclaimed(items, seen, remaining).len() <= items.len(),
        fresh_keys(take_unclaimed(items, seen, remaining), seen),
        forall|k: int| 0 <= k < take_unclaimed(items, seen, remaining).len() ==> items.contains(#[trigger] take_unclaimed(items, seen, remaining)[k]),
    decreases items.len(),
{
    if items.len() == 0 || remaining == 0 {
    } else if seen.contains(path_key(items[0].key())) {
        lemma_take_unclaimed(items.drop_first(), seen, remaining);
        let r = take_unclaimed(items.drop_first(), seen, remaining);
        assert forall|k: int| 0 <= k < r.len() implies items.contains(#[trigger] r[k]) by {
            let m = choose|m: int| 0 <= m < items.drop_first().len() && items.drop_first()[m] == r[k];
            assert(items[m + 1] == r[k]);
        }
    } else {
        let s2 = seen.push(path_key(items[0].key()));
        lemma_take_unclaimed(items.drop_first(), s2, (remaining - 1) as nat);
        let r = take_unclaimed(items.drop_first(), s2, (remaining - 1) as nat);
        let all = seq![items[0]] + r;
        assert forall|k: int| 0 <= k < all.len() implies items.contains(#[trigger] all[k]) by {
            if k == 0 {
                assert(items[0] == all[k]);
            } else {
                assert(all[k] == r[k - 1]);
                let m = choose|m: int| 0 <= m < items.drop_first().len() && items.drop_first()[m] == r[k - 1];
                assert(items[m + 1] == all[k]);
            }
        }
        assert forall|i: int| 0 <= i < all.len() implies !seen.contains(path_key(#[trigger] all[i].key())) by {
            if i > 0 {
                assert(all[i] == r[i - 1]);
                assert(!s2.contains(path_key(r[i - 1].key())));
                if seen.contains(path_key(all[i].key())) {
                    let m = choose|m: int| 0 <= m < seen.len() && seen[m] == path_key(all[i].key());
                    assert(s2[m] == path_key(all[i].key()));
                }
            }
        }
        assert forall|i: int, j: int| 0 <= i < all.len() && 0 <= j < all.len() && i != j implies path_key(all[i].key()) != path_key(all[j].key()) by {
            if i == 0 {
                assert(all[j] == r[j - 1]);
                assert(!s2.contains(path_key(r[j - 1].key())));
                assert(s2[seen.len() as int] == path_key(items[0].key()));
            } else if j == 0 {
                assert(all[i] == r[i - 1]);
                assert(!s2.contains(path_key(r[i - 1].key())));
                assert(s2[seen.len() as int] == path_key(items[0].key()));
            } else {
                assert(all[i] == r[i - 1]);
                assert(all[j] == r[j - 1]);
            }
        }
    }
}

/// Whether `seen` holds `key`, read off the vector of claimed paths.
pub fn claimed(seen: &Vec<String>, key: &str) -> (r: bool)
    ensures
        r == seen@.map_values(|s: String| s@).contains(path_key(key@)),
{
    let ghost sv = seen@.map_values(|s: String| s@);
    let wanted = canonical_path(key);
    let mut i: usize = 0;
    while i < seen.len()
        invariant
            i <= seen@.len(),
            sv == seen@.map_values(|s: String| s@),
            wanted@ == path_key(key@),
            forall|j: int| 0 <= j < i ==> sv[j] != path_key(key@),
        decreases seen.len() - i,
    {
        if str_equal(seen[i].as_str(), wanted.as_str()) {
            assert(sv[i as int] == path_key(key@));
            return true;
        }
        i = i + 1;
    }
    false
}

/// Keep the unclaimed items of `source`, at most `remaining`, recording each
/// kept path in `seen`.
pub fn keep_unclaimed<T: RailItem>(source: Vec<T>, seen: &mut Vec<String>, remaining: usize) -> (r: Vec<T>)
    ensures
        r@ == take_unclaimed(source@, old(seen)@.map_values(|s: String| s@), remaining as nat),
        final(seen)@.map_values(|s: String| s@) == old(seen)@.map_values(|s: String| s@) + keys(r@),
{
    let ghost seen0 = old(seen)@.map_values(|s: String| s@);
    let ghost want = take_unclaimed(source@, seen0, remaining as nat);
    let mut rest = source;
    let mut out: Vec<T> = Vec::new();
    let mut left = remaining;
    proof {
        assert(out@ + take_unclaimed(rest@, seen0 + keys(out@), left as nat) =~= want);
    }
    while rest.len() > 0 && left > 0
        invariant
            out@ + take_unclaimed(rest@, seen0 + keys(out@), left as nat) == want,
            seen@.map_values(|s: String| s@) == seen0 + keys(out@),
            left + out@.len() == remaining,
        decreases rest.len(),
    {
        let ghost before = rest@;
        let item = rest.remove(0);
        assert(rest@ =~= before.drop_first());
        let key = item.path_str();
        if !claimed(seen, key) {
            let owned = canonical_path(key);
            let ghost o = out@;
            let ghost seen_before = seen@;
            seen.push(owned);
            out.push(item);
            left = left - 1;
            proof {
                assert(keys(out@) =~= keys(o).push(path_key(item.key())));
                assert(seen@.map_values(|s: String| s@) =~= seen_before.map_values(|s: String| s@).push(path_key(item.key())));
                assert((seen0 + keys(o)).push(path_key(item.key())) =~= seen0 + keys(out@));
                assert(out@ + take_unclaimed(rest@, seen0 + keys(out@), left as nat) =~= o + take_unclaimed(before, seen0 + keys(o), (left + 1) as nat));
            }
        }
    }
    proof {
        assert(take_unclaimed(rest@, seen0 + keys(out@), left as nat) =~= Seq::<T>::empty());
        assert(out@ =~= want);
    }
    out
}

/// `i` is the first position of `items` whose path is the same path as
/// `key`.
pub open spec fn first_key_match<T: RailItem>(items: Seq<T>, key: Seq<char>, i: int) -> bool {
    &&& 0 <= i < items.len()
    &&& path_key(items[i].key()) == path_key(key)
    &&& forall|j: int| 0 <= j < i ==> path_key(items[j].key()) != path_key(key)
}

/// The first position of `items` whose path is `key`, or -1.
pub open spec fn find_key<T: RailItem>(items: Seq<T>, key: Seq<char>) -> int {
    if exists|i: int| first_key_match(items, key, i) {
        choose|i: int| first_key_match(items, key, i)
    } else {
        -1
    }
}

pub proof fn lemma_find_key<T: RailItem>(items: Seq<T>, key: Seq<char>, i: int)
    requires
        first_key_match(items, key, i),
    ensures
        find_key(items, key) == i,
{
    let k = choose|k: int| first_key_match(items, key, k);
    if k < i {
        assert(path_key(items[k].key()) != path_key(key));
    } else if i < k {
        assert(path_key(items[i].key()) != path_key(key));
    }
}

pub proof fn lemma_find_key_none<T: RailItem>(items: Seq<T>, key: Seq<char>)
    requires
        forall|j: int| 0 <= j < items.len() ==> path_key(items[j].key()) != path_key(key),
    ensures
        find_key(items, key) == -1,
{
}

pub proof fn lemma_find_key_range<T: RailItem>(items: Seq<T>, key: Seq<char>)
    ensures
        find_key(items, key) == -1 || first_key_match(items, key, find_key(items, key)),
{
}

/// Position of `key` in `items`, searched from the front.
pub fn position_of_key<T: RailItem>(items: &Vec<T>, key: &str) -> (r: Option<usize>)
    ensures
        r is None ==> find_key(items@, key@) == -1,
        r is Some ==> find_key(items@, key@) == r->0 as int && first_key_match(items@, key@, r->0 as int),
{
    let wanted = canonical_path(key);
    let mut i: usize = 0;
    while i < items.len()
        invariant
            i <= items@.len(),
            wanted@ == path_key(key@),
            forall|j: int| 0 <= j < i ==> path_key(items@[j].key()) != path_key(key@),
        decreases items.len() - i,
    {
        let here = canonical_path(items[i].path_str());
        if str_equal(here.as_str(), wanted.as_str()) {
            proof {
                lemma_find_key(items@, key@, i as int);
            }
            return Some(i);
        }
        i = i + 1;
    }
    proof {
        lemma_find_key_none(items@, key@);
    }
    None
}

/// The item the first section holding `key` holds for it.
pub open spec fn item_of<K, T: RailItem>(sections: Seq<(K, Seq<T>)>, key: Seq<char>) -> Option<T>
    decreases sections.len(),
{
    if sections.len() == 0 {
        None
    } else if find_key(sections[0].1, key) >= 0 {
        Some(sections[0].1[find_key(sections[0].1, key)])
    } else {
        item_of(sections.drop_first(), key)
    }
}

/// Whether `key` names an item of the sections whose target can be opened.
pub open spec fn usable_key<K, T: RailItem>(sections: Seq<(K, Seq<T>)>, key: Seq<char>) -> bool {
    item_of(sections, key) matches Some(t) && t.usable()
}

/// The rendered line of `key`'s item: each section draws a header line, then
/// one line per item, and a blank line separates consecutive sections.
pub open spec fn line_of<K, T: RailItem>(sections: Seq<(K, Seq<T>)>, key: Seq<char>, base: int) -> Option<int>
    decreases sections.len(),
{
    if sections.len() == 0 {
        None
    } else if find_key(sections[0].1, key) >= 0 {
        Some(base + 1 + find_key(sections[0].1, key))
    } else {
        line_of(sections.drop_first(), key, base + sections[0].1.len() + 2)
    }
}

/// An item's rendered line lies below `base` and inside the sections'
/// rendered height.
pub proof fn lemma_line_of_bound<K, T: RailItem>(sections: Seq<(K, Seq<T>)>, key: Seq<char>, base: int)
    ensures
        line_of(sections, key, base) matches Some(l) ==> base < l && l - base < section_lines(sections) + sections.len() - 1,
    decreases sections.len(),
{
    if sections.len() > 0 {
        if find_key(sections[0].1, key) >= 0 {
            lemma_find_key_range(sections[0].1, key);
        } else {
            lemma_line_of_bound(sections.drop_first(), key, base + sections[0].1.len() + 2);
        }
    }
}

/// Header plus item lines of all sections.
pub open spec fn section_lines<K, T>(sections: Seq<(K, Seq<T>)>) -> nat
    decreases sections.len(),
{
    if sections.len() == 0 {
        0
    } else {
        1 + sections[0].1.len() + section_lines(sections.drop_first())
    }
}

/// The rendered height of the sections: header and item lines, plus one
/// blank separator between consecutive sections (saturated at `usize::MAX`).
pub open spec fn content_lines<K, T>(sections: Seq<(K, Seq<T>)>) -> int {
    let n = if sections.len() > 0 { sections.len() - 1 } else { 0 };
    if section_lines(sections) + n > usize::MAX {
        usize::MAX as int
    } else {
        section_lines(sections) + n
    }
}

/// The paths of the openable items, in section order.
pub open spec fn usable_keys<T: RailItem>(items: Seq<T>) -> Seq<Seq<char>>
    decreases items.len(),
{
    if items.len() == 0 {
        Seq::empty()
    } else if items[0].usable() {
        seq![items[0].key()] + usable_keys(items.drop_first())
    } else {
        usable_keys(items.drop_first())
    }
}

pub proof fn lemma_flatten_single<K, T>(x: (K, Seq<T>))
    ensures
        flatten(seq![x]) == x.1,
{
    let e = Seq::<(K, Seq<T>)>::empty();
    assert(seq![x].drop_first() =~= e);
    assert(flatten(e) == Seq::<T>::empty());
    assert(seq![x][0] == x);
    assert(flatten(seq![x]) == x.1 + flatten(e));
    assert(x.1 + Seq::<T>::empty() =~= x.1);
}

pub proof fn lemma_usable_keys_single<T: RailItem>(x: T)
    ensures
        usable_keys(seq![x]) == (if x.usable() { seq![x.key()] } else { Seq::<Seq<char>>::empty() }),
{
    let e = Seq::<T>::empty();
    assert(seq![x].drop_first() =~= e);
    assert(usable_keys(e) == Seq::<Seq<char>>::empty());
    assert(seq![x][0] == x);
    if x.usable() {
        assert(usable_keys(seq![x]) == seq![x.key()] + usable_keys(e));
        assert(seq![x.key()] + Seq::<Seq<char>>::empty() =~= seq![x.key()]);
    } else {
        assert(usable_keys(seq![x]) == usable_keys(e));
    }
}

pub proof fn lemma_flatten_append<K, T>(a: Seq<(K, Seq<T>)>, b: Seq<(K, Seq<T>)>)
    ensures
        flatten(a + b) == flatten(a) + flatten(b),
    decreases a.len(),
{
    if a.len() == 0 {
        assert(a + b =~= b);
    } else {
        lemma_flatten_append(a.drop_first(), b);
        assert((a + b).drop_first() =~= a.drop_first() + b);
        assert(flatten(a + b) =~= a[0].1 + flatten(a.drop_first() + b));
    }
}

pub proof fn lemma_usable_keys_append<T: RailItem>(a: Seq<T>, b: Seq<T>)
    ensures
        usable_keys(a + b) == usable_keys(a) + usable_keys(b),
    decreases a.len(),
{
    if a.len() == 0 {
        assert(a + b =~= b);
    } else {
        lemma_usable_keys_append(a.drop_first(), b);
        assert((a + b).drop_first() =~= a.drop_first() + b);
        if a[0].usable() {
            assert(usable_keys(a + b) =~= seq![a[0].key()] + usable_keys(a.drop_first() + b));
        }
    }
}

/// Every openable path is the path of some item.
pub proof fn lemma_usable_keys_members<T: RailItem>(items: Seq<T>)
    ensures
        forall|k: int| 0 <= k < usable_keys(items).len() ==> #[trigger] is_usable_key_of(items, usable_keys(items)[k]),
    decreases items.len(),
{
    if items.len() > 0 {
        lemma_usable_keys_members(items.drop_first());
        let r = usable_keys(items.drop_first());
        assert forall|k: int| 0 <= k < usable_keys(items).len() implies #[trigger] is_usable_key_of(items, usable_keys(items)[k]) by {
            if items[0].usable() {
                if k == 0 {
                    assert(items[0].key() == usable_keys(items)[k]);
                } else {
                    assert(usable_keys(items)[k] == r[k - 1]);
                    assert(is_usable_key_of(items.drop_first(), r[k - 1]));
                    let m = choose|m: int| 0 <= m < items.drop_first().len() && items.drop_first()[m].usable() && items.drop_first()[m].key() == r[k - 1];
                    assert(items[m + 1] == items.drop_first()[m]);
                }
            } else {
                assert(usable_keys(items)[k] == r[k]);
                assert(is_usable_key_of(items.drop_first(), r[k]));
                let m = choose|m: int| 0 <= m < items.drop_first().len() && items.drop_first()[m].usable() && items.drop_first()[m].key() == r[k];
                assert(items[m + 1] == items.drop_first()[m]);
            }
        }
    }
}

/// Some openable item of `items` has path `key`.
pub open spec fn is_usable_key_of<T: RailItem>(items: Seq<T>, key: Seq<char>) -> bool {
    exists|m: int| 0 <= m < items.len() && items[m].usable() && items[m].key() == key
}

/// The item found for a path is the same path.
pub proof fn lemma_item_of_key<K, T: RailItem>(sections: Seq<(K, Seq<T>)>, key: Seq<char>)
    ensures
        item_of(sections, key) matches Some(t) ==> path_key(t.key()) == path_key(key),
    decreases sections.len(),
{
    if sections.len() > 0 {
        lemma_find_key_range(sections[0].1, key);
        lemma_item_of_key(sections.drop_first(), key);
    }
}

/// Law of the shared composition: the rail holds at most `remaining` items,
/// no path twice (and none already claimed), no empty section, and every item
/// comes from the source of its own section.
pub proof fn law_rail_composition<K, T: RailItem>(sources: Seq<(K, Seq<T>)>, seen: Seq<Seq<char>>, remaining: nat)
    ensures
        flatten(compose(sources, seen, remaining)).len() <= remaining,
        fresh_keys(flatten(compose(sources, seen, remaining)), seen),
        forall|k: int| 0 <= k < compose(sources, seen, remaining).len() ==> (#[trigger] compose(sources, seen, remaining)[k]).1.len() > 0,
        forall|k: int| 0 <= k < compose(sources, seen, remaining).len() ==> exists|m: int| 0 <= m < sources.len()
            && sources[m].0 == (#[trigger] compose(sources, seen, remaining)[k]).0
            && forall|x: int| 0 <= x < compose(sources, seen, remaining)[k].1.len() ==> sources[m].1.contains(compose(sources, seen, remaining)[k].1[x]),
    decreases sources.len(),
{
    if sources.len() == 0 || remaining == 0 {
    } else {
        let items = take_unclaimed(sources[0].1, seen, remaining);
        lemma_take_unclaimed(sources[0].1, seen, remaining);
        let seen2 = seen + keys(items);
        let rem2 = (remaining - items.len()) as nat;
        law_rail_composition(sources.drop_first(), seen2, rem2);
        let rest = compose(sources.drop_first(), seen2, rem2);
        let fr = flatten(rest);
        let out = compose(sources, seen, remaining);
        if items.len() > 0 {
            assert(out == seq![(sources[0].0, items)] + rest);
            assert(flatten(out) =~= items + fr) by {
                assert(out.drop_first() =~= rest);
            }
        } else {
            assert(out == rest);
            assert(items =~= Seq::<T>::empty());
        }
        let all = items + fr;
        assert(flatten(out) == all);
        assert forall|i: int| 0 <= i < all.len() implies !seen.contains(path_key(#[trigger] all[i].key())) by {
            if i >= items.len() {
                assert(all[i] == fr[i - items.len()]);
                if seen.contains(path_key(all[i].key())) {
                    let m = choose|m: int| 0 <= m < seen.len() && seen[m] == path_key(all[i].key());
                    assert(seen2[m] == path_key(all[i].key()));
                }
            }
        }
        assert forall|i: int, j: int| 0 <= i < all.len() && 0 <= j < all.len() && i != j implies path_key(all[i].key()) != path_key(all[j].key()) by {
            if i < items.len() && j >= items.len() {
                assert(all[j] == fr[j - items.len()]);
                assert(seen2[seen.len() + i] == path_key(items[i].key()));
                assert(!seen2.contains(path_key(fr[j - items.len()].key())));
            } else if j < items.len() && i >= items.len() {
                assert(all[i] == fr[i - items.len()]);
                assert(seen2[seen.len() + j] == path_key(items[j].key()));
                assert(!seen2.contains(path_key(fr[i - items.len()].key())));
            } else if i >= items.len() && j >= items.len() {
                assert(all[i] == fr[i - items.len()]);
                assert(all[j] == fr[j - items.len()]);
            }
        }
        assert forall|k: int| 0 <= k < out.len() implies exists|m: int| 0 <= m < sources.len()
            && sources[m].0 == (#[trigger] out[k]).0
            && forall|x: int| 0 <= x < out[k].1.len() ==> sources[m].1.contains(out[k].1[x]) by {
            if items.len() > 0 && k == 0 {
                assert(out[k] == (sources[0].0, items));
                assert(forall|x: int| 0 <= x < items.len() ==> sources[0].1.contains(#[trigger] items[x]));
            } else {
                let k2 = if items.len() > 0 { k - 1 } else { k };
                assert(out[k] == rest[k2]);
                let m = choose|m: int| 0 <= m < sources.drop_first().len()
                    && sources.drop_first()[m].0 == (#[trigger] rest[k2]).0
                    && forall|x: int| 0 <= x < rest[k2].1.len() ==> sources.drop_first()[m].1.contains(rest[k2].1[x]);
                assert(sources[m + 1] == sources.drop_first()[m]);
            }
        }
    }
}


/// The items of `items` whose path is neither in `seen` nor held by an
/// earlier item: each path's first occurrence, in order.
pub open spec fn firsts<T: RailItem>(items: Seq<T>, seen: Seq<Seq<char>>) -> Seq<T>
    decreases items.len(),
{
    if items.len() == 0 {
        Seq::empty()
    } else if seen.contains(path_key(items[0].key())) {
        firsts(items.drop_first(), seen)
    } else {
        seq![items[0]] + firsts(items.drop_first(), seen.push(path_key(items[0].key())))
    }
}

/// `a` is `b` with some items left out, the rest in order and unchanged.
pub open spec fn subseq<T>(a: Seq<T>, b: Seq<T>) -> bool
    decreases b.len(),
{
    if a.len() == 0 {
        true
    } else if b.len() == 0 {
        false
    } else if a[0] == b[0] && subseq(a.drop_first(), b.drop_first()) {
        true
    } else {
        subseq(a, b.drop_first())
    }
}

/// The sources that hold at least one item, in order.
pub open spec fn nonempty_sources<K, T>(sources: Seq<(K, Seq<T>)>) -> Seq<(K, Seq<T>)>
    decreases sources.len(),
{
    if sources.len() == 0 {
        Seq::empty()
    } else if sources[0].1.len() > 0 {
        seq![sources[0]] + nonempty_sources(sources.drop_first())
    } else {
        nonempty_sources(sources.drop_first())
    }
}

/// The kinds of some sections, in order.
pub open spec fn kinds<K, T>(sections: Seq<(K, Seq<T>)>) -> Seq<K> {
    sections.map_values(|s: (K, Seq<T>)| s.0)
}

/// Taking from two lists in turn is taking from the pair.
pub proof fn lemma_take_unclaimed_append<T: RailItem>(a: Seq<T>, b: Seq<T>, seen: Seq<Seq<char>>, n: nat)
    ensures
        take_unclaimed(a + b, seen, n) == take_unclaimed(a, seen, n) + take_unclaimed(
            b,
            seen + keys(take_unclaimed(a, seen, n)),
            (n - take_unclaimed(a, seen, n).len()) as nat,
        ),
    decreases a.len(),
{
    lemma_take_unclaimed(a, seen, n);
    let ta = take_unclaimed(a, seen, n);
    if a.len() == 0 {
        assert(a + b =~= b);
        assert(seen + keys(ta) =~= seen);
    } else if n == 0 {
        assert(take_unclaimed(b, seen + keys(ta), 0) =~= Seq::<T>::empty());
        assert(ta + Seq::<T>::empty() =~= ta);
    } else {
        assert((a + b)[0] == a[0]);
        assert((a + b).drop_first() =~= a.drop_first() + b);
        if seen.contains(path_key(a[0].key())) {
            lemma_take_unclaimed_append(a.drop_first(), b, seen, n);
        } else {
            let s2 = seen.push(path_key(a[0].key()));
            lemma_take_unclaimed_append(a.drop_first(), b, s2, (n - 1) as nat);
            let t2 = take_unclaimed(a.drop_first(), s2, (n - 1) as nat);
            assert(ta == seq![a[0]] + t2);
            assert(keys(ta) =~= seq![path_key(a[0].key())] + keys(t2));
            assert(seen + keys(ta) =~= s2 + keys(t2));
            assert(take_unclaimed(a + b, seen, n) =~= seq![a[0]] + take_unclaimed(a.drop_first() + b, s2, (n - 1) as nat));
            assert((seq![a[0]] + t2) + take_unclaimed(b, s2 + keys(t2), ((n - 1) - t2.len()) as nat)
                =~= seq![a[0]] + (t2 + take_unclaimed(b, s2 + keys(t2), ((n - 1) - t2.len()) as nat)));
        }
    }
}

/// Composing sections and reading them in order is taking the unclaimed
/// items of all sources read in order.
pub proof fn lemma_compose_flatten<K, T: RailItem>(sources: Seq<(K, Seq<T>)>, seen: Seq<Seq<char>>, n: nat)
    ensures
        flatten(compose(sources, seen, n)) == take_unclaimed(flatten(sources), seen, n),
    decreases sources.len(),
{
    if sources.len() == 0 {
        assert(flatten(sources) =~= Seq::<T>::empty());
    } else if n == 0 {
        assert(take_unclaimed(flatten(sources), seen, 0) =~= Seq::<T>::empty());
        assert(flatten(Seq::<(K, Seq<T>)>::empty()) =~= Seq::<T>::empty());
    } else {
        let items = take_unclaimed(sources[0].1, seen, n);
        let seen2 = seen + keys(items);
        let n2 = (n - items.len()) as nat;
        lemma_take_unclaimed(sources[0].1, seen, n);
        lemma_compose_flatten(sources.drop_first(), seen2, n2);
        let rest = compose(sources.drop_first(), seen2, n2);
        lemma_take_unclaimed_append(sources[0].1, flatten(sources.drop_first()), seen, n);
        assert(flatten(sources) == sources[0].1 + flatten(sources.drop_first()));
        if items.len() > 0 {
            lemma_flatten_append(seq![(sources[0].0, items)], rest);
            lemma_flatten_single((sources[0].0, items));
        } else {
            assert(items =~= Seq::<T>::empty());
            assert(items + flatten(rest) =~= flatten(rest));
        }
    }
}

/// Taking unclaimed items is taking each path's first occurrence, up to the
/// bound.
pub proof fn lemma_take_unclaimed_firsts<T: RailItem>(items: Seq<T>, seen: Seq<Seq<char>>, n: nat)
    ensures
        take_unclaimed(items, seen, n) == (if firsts(items, seen).len() <= n {
            firsts(items, seen)
        } else {
            firsts(items, seen).take(n as int)
        }),
    decreases items.len(),
{
    if items.len() == 0 {
    } else if n == 0 {
        assert(firsts(items, seen).take(0) =~= Seq::<T>::empty());
        if firsts(items, seen).len() <= 0 {
            assert(firsts(items, seen) =~= Seq::<T>::empty());
        }
    } else if seen.contains(path_key(items[0].key())) {
        lemma_take_unclaimed_firsts(items.drop_first(), seen, n);
    } else {
        let s2 = seen.push(path_key(items[0].key()));
        lemma_take_unclaimed_firsts(items.drop_first(), s2, (n - 1) as nat);
        let f2 = firsts(items.drop_first(), s2);
        if f2.len() > n - 1 {
            assert(seq![items[0]] + f2.take(n - 1) =~= (seq![items[0]] + f2).take(n as int));
        }
    }
}

/// Every item among the firsts is the first item of the list carrying its
/// path, and that path was not already claimed.
pub proof fn lemma_firsts_are_first<T: RailItem>(items: Seq<T>, seen: Seq<Seq<char>>)
    ensures
        forall|k: int| 0 <= k < firsts(items, seen).len() ==> exists|i: int|
            0 <= i < items.len() && items[i] == #[trigger] firsts(items, seen)[k] && !seen.contains(path_key(items[i].key()))
                && forall|j: int| 0 <= j < i ==> path_key(items[j].key()) != path_key(items[i].key()),
    decreases items.len(),
{
    if items.len() > 0 {
        let claimed0 = seen.contains(path_key(items[0].key()));
        let s2 = if claimed0 { seen } else { seen.push(path_key(items[0].key())) };
        lemma_firsts_are_first(items.drop_first(), s2);
        let f2 = firsts(items.drop_first(), s2);
        let f = firsts(items, seen);
        assert forall|k: int| 0 <= k < f.len() implies exists|i: int|
            0 <= i < items.len() && items[i] == #[trigger] f[k] && !seen.contains(path_key(items[i].key()))
                && forall|j: int| 0 <= j < i ==> path_key(items[j].key()) != path_key(items[i].key()) by {
            if !claimed0 && k == 0 {
                assert(items[0] == f[0]);
            } else {
                let k2 = if claimed0 { k } else { k - 1 };
                assert(f[k] == f2[k2]);
                let i2 = choose|i2: int|
                    0 <= i2 < items.drop_first().len() && items.drop_first()[i2] == #[trigger] f2[k2]
                        && !s2.contains(path_key(items.drop_first()[i2].key()))
                        && forall|j: int| 0 <= j < i2 ==> path_key(items.drop_first()[j].key()) != path_key(items.drop_first()[i2].key());
                let x = items[i2 + 1];
                assert(items.drop_first()[i2] == x);
                if seen.contains(path_key(x.key())) {
                    if !claimed0 {
                        let w = choose|w: int| 0 <= w < seen.len() && seen[w] == path_key(x.key());
                        assert(s2[w] == path_key(x.key()));
                    }
                }
                if !claimed0 {
                    assert(s2[seen.len() as int] == path_key(items[0].key()));
                }
                assert forall|j: int| 0 <= j < i2 + 1 implies path_key(#[trigger] items[j].key()) != path_key(x.key()) by {
                    if j > 0 {
                        assert(items[j] == items.drop_first()[j - 1]);
                    }
                }
            }
        }
    }
}

/// Items whose paths are all distinct and unclaimed are all their own
/// first occurrences.
pub proof fn lemma_firsts_of_fresh<T: RailItem>(items: Seq<T>, seen: Seq<Seq<char>>)
    requires
        fresh_keys(items, seen),
    ensures
        firsts(items, seen) == items,
    decreases items.len(),
{
    if items.len() > 0 {
        let s2 = seen.push(path_key(items[0].key()));
        let rest = items.drop_first();
        assert(!seen.contains(path_key(items[0].key())));
        assert forall|i: int| 0 <= i < rest.len() implies !s2.contains(path_key(#[trigger] rest[i].key())) by {
            assert(rest[i] == items[i + 1]);
            assert(path_key(items[i + 1].key()) != path_key(items[0].key()));
            assert(!seen.contains(path_key(items[i + 1].key())));
            if s2.contains(path_key(rest[i].key())) {
                let w = choose|w: int| 0 <= w < s2.len() && s2[w] == path_key(rest[i].key());
                if w < seen.len() {
                    assert(seen[w] == path_key(rest[i].key()));
                }
            }
        }
        assert forall|i: int, j: int| 0 <= i < rest.len() && 0 <= j < rest.len() && i != j implies path_key(rest[i].key())
            != path_key(rest[j].key()) by {
            assert(rest[i] == items[i + 1]);
            assert(rest[j] == items[j + 1]);
        }
        lemma_firsts_of_fresh(rest, s2);
        assert(seq![items[0]] + rest =~= items);
    }
}

/// The items kept from a source are that source with some left out, in
/// order and unchanged.
pub proof fn lemma_take_unclaimed_subseq<T: RailItem>(items: Seq<T>, seen: Seq<Seq<char>>, n: nat)
    ensures
        subseq(take_unclaimed(items, seen, n), items),
    decreases items.len(),
{
    let t = take_unclaimed(items, seen, n);
    if items.len() == 0 || n == 0 {
    } else if seen.contains(path_key(items[0].key())) {
        lemma_take_unclaimed_subseq(items.drop_first(), seen, n);
        lemma_subseq_skip(t, items);
    } else {
        let s2 = seen.push(path_key(items[0].key()));
        lemma_take_unclaimed_subseq(items.drop_first(), s2, (n - 1) as nat);
        assert(t[0] == items[0]);
        assert(t.drop_first() =~= take_unclaimed(items.drop_first(), s2, (n - 1) as nat));
    }
}

/// A subsequence of the rest of a list is a subsequence of the list.
pub proof fn lemma_subseq_skip<T>(a: Seq<T>, b: Seq<T>)
    requires
        b.len() > 0,
        subseq(a, b.drop_first()),
    ensures
        subseq(a, b),
{
}

/// A composed rail keeps its sources' order: its kinds are the sources'
/// kinds with some left out, and each section holds its own source's items
/// with some left out, in order and unchanged.
pub proof fn lemma_compose_order<K, T: RailItem>(sources: Seq<(K, Seq<T>)>, seen: Seq<Seq<char>>, n: nat)
    ensures
        subseq(kinds(compose(sources, seen, n)), kinds(sources)),
        forall|k: int| 0 <= k < compose(sources, seen, n).len() ==> exists|m: int| 0 <= m < sources.len()
            && sources[m].0 == (#[trigger] compose(sources, seen, n)[k]).0 && subseq(compose(sources, seen, n)[k].1, sources[m].1),
    decreases sources.len(),
{
    let out = compose(sources, seen, n);
    if sources.len() == 0 || n == 0 {
        assert(kinds(out) =~= Seq::<K>::empty());
    } else {
        let items = take_unclaimed(sources[0].1, seen, n);
        let seen2 = seen + keys(items);
        let n2 = (n - items.len()) as nat;
        lemma_take_unclaimed(sources[0].1, seen, n);
        lemma_take_unclaimed_subseq(sources[0].1, seen, n);
        lemma_compose_order(sources.drop_first(), seen2, n2);
        let rest = compose(sources.drop_first(), seen2, n2);
        assert(kinds(sources).drop_first() =~= kinds(sources.drop_first()));
        if items.len() > 0 {
            assert(kinds(out)[0] == kinds(sources)[0]);
            assert(kinds(out).drop_first() =~= kinds(rest));
        } else {
            assert(kinds(out) == kinds(rest));
            lemma_subseq_skip(kinds(out), kinds(sources));
        }
        assert forall|k: int| 0 <= k < out.len() implies exists|m: int| 0 <= m < sources.len()
            && sources[m].0 == (#[trigger] out[k]).0 && subseq(out[k].1, sources[m].1) by {
            if items.len() > 0 && k == 0 {
                assert(out[0] == (sources[0].0, items));
            } else {
                let k2 = if items.len() > 0 { k - 1 } else { k };
                assert(out[k] == rest[k2]);
                let m = choose|m: int| 0 <= m < sources.drop_first().len()
                    && sources.drop_first()[m].0 == (#[trigger] rest[k2]).0 && subseq(rest[k2].1, sources.drop_first()[m].1);
                assert(sources[m + 1] == sources.drop_first()[m]);
            }
        }
    }
}

/// When every path of the sources is distinct and unclaimed and they fit the
/// bound, the rail is exactly the non-empty sources, each held whole.
pub proof fn lemma_compose_all_fit<K, T: RailItem>(sources: Seq<(K, Seq<T>)>, seen: Seq<Seq<char>>, n: nat)
    requires
        fresh_keys(flatten(sources), seen),
        flatten(sources).len() <= n,
    ensures
        compose(sources, seen, n) == nonempty_sources(sources),
    decreases sources.len(),
{
    if sources.len() > 0 {
        let s0 = sources[0].1;
        let tail = flatten(sources.drop_first());
        assert(flatten(sources) == s0 + tail);
        let all = s0 + tail;
        if n == 0 {
            assert(all.len() == 0);
            assert(s0.len() == 0);
            assert(tail.len() == 0);
            lemma_nonempty_of_empty(sources);
        } else {
            assert forall|i: int, j: int| 0 <= i < s0.len() && 0 <= j < s0.len() && i != j implies path_key(s0[i].key())
                != path_key(s0[j].key()) by {
                assert(all[i] == s0[i]);
                assert(all[j] == s0[j]);
            }
            assert forall|i: int| 0 <= i < s0.len() implies !seen.contains(path_key(#[trigger] s0[i].key())) by {
                assert(all[i] == s0[i]);
            }
            lemma_firsts_of_fresh(s0, seen);
            lemma_take_unclaimed_firsts(s0, seen, n);
            let seen2 = seen + keys(s0);
            assert forall|i: int| 0 <= i < tail.len() implies !seen2.contains(path_key(#[trigger] tail[i].key())) by {
                assert(all[s0.len() + i] == tail[i]);
                if seen2.contains(path_key(tail[i].key())) {
                    let w = choose|w: int| 0 <= w < seen2.len() && seen2[w] == path_key(tail[i].key());
                    if w < seen.len() {
                        assert(seen[w] == path_key(tail[i].key()));
                    } else {
                        assert(keys(s0)[w - seen.len()] == path_key(s0[w - seen.len()].key()));
                        assert(all[w - seen.len()] == s0[w - seen.len()]);
                    }
                }
            }
            assert forall|i: int, j: int| 0 <= i < tail.len() && 0 <= j < tail.len() && i != j implies path_key(tail[i].key())
                != path_key(tail[j].key()) by {
                assert(all[s0.len() + i] == tail[i]);
                assert(all[s0.len() + j] == tail[j]);
            }
            lemma_compose_all_fit(sources.drop_first(), seen2, (n - s0.len()) as nat);
        }
    }
}

/// Every item of a subsequence is an item of the list it was taken from.
pub proof fn lemma_subseq_members<T>(a: Seq<T>, b: Seq<T>)
    requires
        subseq(a, b),
    ensures
        forall|i: int| 0 <= i < a.len() ==> b.contains(#[trigger] a[i]),
    decreases b.len(),
{
    if a.len() > 0 {
        if a[0] == b[0] && subseq(a.drop_first(), b.drop_first()) {
            lemma_subseq_members(a.drop_first(), b.drop_first());
            assert forall|i: int| 0 <= i < a.len() implies b.contains(#[trigger] a[i]) by {
                if i == 0 {
                    assert(b[0] == a[0]);
                } else {
                    assert(a[i] == a.drop_first()[i - 1]);
                    let w = choose|w: int| 0 <= w < b.drop_first().len() && b.drop_first()[w] == a.drop_first()[i - 1];
                    assert(b[w + 1] == a[i]);
                }
            }
        } else {
            lemma_subseq_members(a, b.drop_first());
            assert forall|i: int| 0 <= i < a.len() implies b.contains(#[trigger] a[i]) by {
                let w = choose|w: int| 0 <= w < b.drop_first().len() && b.drop_first()[w] == a[i];
                assert(b[w + 1] == a[i]);
            }
        }
    }
}

/// The sum of the sections' lengths.
pub open spec fn items_total<K, T>(sections: Seq<(K, Seq<T>)>) -> nat
    decreases sections.len(),
{
    if sections.len() == 0 {
        0
    } else {
        sections[0].1.len() + items_total(sections.drop_first())
    }
}

/// The sections read in order hold as many items as the sections together.
pub proof fn lemma_flatten_len<K, T>(sections: Seq<(K, Seq<T>)>)
    ensures
        flatten(sections).len() == items_total(sections),
    decreases sections.len(),
{
    if sections.len() > 0 {
        lemma_flatten_len(sections.drop_first());
    }
}

proof fn lemma_nonempty_of_empty<K, T>(sources: Seq<(K, Seq<T>)>)
    requires
        flatten(sources).len() == 0,
    ensures
        nonempty_sources(sources) == Seq::<(K, Seq<T>)>::empty(),
    decreases sources.len(),
{
    if sources.len() > 0 {
        assert(flatten(sources) == sources[0].1 + flatten(sources.drop_first()));
        lemma_nonempty_of_empty(sources.drop_first());
    }
}

} // verus!
