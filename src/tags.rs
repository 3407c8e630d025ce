//! Tag listing: which manifest entries are tags, their order, and pagination.
use vstd::prelude::*;
use vstd::relations::sorted_by;
use crate::digest::{is_hex_digest, sha256_prefix};
use crate::state::strings_view;
use crate::text::{seq_starts_with, str_starts_with};

verus! {

broadcast use vstd::seq_lib::group_seq_properties, vstd::seq_lib::group_to_multiset_ensures;

/// Lexicographic order on characters (code point by code point), which is
/// the order of `String`.
pub open spec fn seq_le(a: Seq<char>, b: Seq<char>) -> bool
    decreases a.len(),
{
    if a.len() == 0 {
        true
    } else if b.len() == 0 {
        false
    } else if a[0] != b[0] {
        a[0] < b[0]
    } else {
        seq_le(a.skip(1), b.skip(1))
    }
}

/// The lexicographic order as a relation.
pub open spec fn lex_le() -> spec_fn(Seq<char>, Seq<char>) -> bool {
    |a: Seq<char>, b: Seq<char>| seq_le(a, b)
}

/// Of two strings, one is at most the other.
pub proof fn lemma_seq_le_total(a: Seq<char>, b: Seq<char>)
    ensures
        seq_le(a, b) || seq_le(b, a),
    decreases a.len(),
{
    if a.len() > 0 && b.len() > 0 && a[0] == b[0] {
        lemma_seq_le_total(a.skip(1), b.skip(1));
    }
}

/// The order is transitive.
pub proof fn lemma_seq_le_transitive(a: Seq<char>, b: Seq<char>, c: Seq<char>)
    requires
        seq_le(a, b),
        seq_le(b, c),
    ensures
        seq_le(a, c),
    decreases a.len(),
{
    if a.len() > 0 && b.len() > 0 && c.len() > 0 && a[0] == b[0] && b[0] == c[0] {
        lemma_seq_le_transitive(a.skip(1), b.skip(1), c.skip(1));
    }
}

/// The order is antisymmetric.
pub proof fn lemma_seq_le_antisymmetric(a: Seq<char>, b: Seq<char>)
    requires
        seq_le(a, b),
        seq_le(b, a),
    ensures
        a == b,
    decreases a.len(),
{
    if a.len() > 0 && b.len() > 0 {
        lemma_seq_le_antisymmetric(a.skip(1), b.skip(1));
        assert(a =~= seq![a[0]] + a.skip(1));
        assert(b =~= seq![b[0]] + b.skip(1));
    }
}

/// Whether `a` comes no later than `b` in lexicographic order.
pub fn str_le(a: &str, b: &str) -> (r: bool)
    ensures
        r == seq_le(a@, b@),
{
    let n = a.unicode_len();
    let m = b.unicode_len();
    let mut i: usize = 0;
    while i < n && i < m
        invariant
            n == a@.len(),
            m == b@.len(),
            i <= n,
            i <= m,
            seq_le(a@, b@) == seq_le(a@.skip(i as int), b@.skip(i as int)),
        decreases n - i,
    {
        let x = a.get_char(i);
        let y = b.get_char(i);
        if x != y {
            return x < y;
        }
        assert(a@.skip(i as int).skip(1) =~= a@.skip(i + 1));
        assert(b@.skip(i as int).skip(1) =~= b@.skip(i + 1));
        i += 1;
    }
    i == n
}

/// `name` is a tag: neither a `sha256:` reference nor a stored digest key.
pub open spec fn is_tag_name(name: Seq<char>) -> bool {
    !seq_starts_with(name, sha256_prefix()) && !is_hex_digest(name)
}

/// Whether `name` has the form of a hex digest key.
pub fn is_hex_digest_name(name: &str) -> (r: bool)
    ensures
        r == is_hex_digest(name@),
{
    let n = name.unicode_len();
    if n != 64 {
        return false;
    }
    let mut i: usize = 0;
    while i < n
        invariant
            n == name@.len(),
            i <= n,
            forall|j: int| 0 <= j < i ==> crate::digest::is_lower_hex(#[trigger] name@[j]),
        decreases n - i,
    {
        let c = name.get_char(i);
        if !(('0' <= c && c <= '9') || ('a' <= c && c <= 'f')) {
            return false;
        }
        i += 1;
    }
    true
}

/// Whether a manifest entry name is a tag.
pub fn is_tag_entry(name: &str) -> (r: bool)
    ensures
        r == is_tag_name(name@),
{
    proof {
        reveal_strlit("sha256:");
    }
    !str_starts_with(name, "sha256:") && !is_hex_digest_name(name)
}

/// The entries that are tags, in their order.
pub open spec fn tag_entries(names: Seq<Seq<char>>) -> Seq<Seq<char>> {
    names.filter(|n: Seq<char>| is_tag_name(n))
}

/// The entries of `names` that are tags, in their order.
pub fn select_tags(names: &Vec<String>) -> (r: Vec<String>)
    ensures
        strings_view(r@) == tag_entries(strings_view(names@)),
{
    let mut r: Vec<String> = Vec::new();
    let mut i: usize = 0;
    while i < names.len()
        invariant
            i <= names@.len(),
            strings_view(r@) == tag_entries(strings_view(names@.take(i as int))),
        decreases names@.len() - i,
    {
        let name = &names[i];
        proof {
            let all = strings_view(names@.take(i + 1));
            assert(all.drop_last() =~= strings_view(names@.take(i as int)));
            assert(all.last() == name@);
            reveal(Seq::filter);
        }
        if is_tag_entry(name.as_str()) {
            let c = name.clone();
            assert(strings_view(r@.push(c)) =~= strings_view(r@).push(c@));
            r.push(c);
        }
        i += 1;
    }
    assert(names@.take(names@.len() as int) =~= names@);
    r
}

/// `v` in lexicographic order, with the same elements.
pub fn sort_strings(v: Vec<String>) -> (r: Vec<String>)
    ensures
        sorted_by(strings_view(r@), lex_le()),
        strings_view(r@).to_multiset() == strings_view(v@).to_multiset(),
{
    let mut r: Vec<String> = Vec::new();
    let mut i: usize = 0;
    while i < v.len()
        invariant
            i <= v@.len(),
            sorted_by(strings_view(r@), lex_le()),
            strings_view(r@).to_multiset() == strings_view(v@.take(i as int)).to_multiset(),
        decreases v@.len() - i,
    {
        let x = v[i].clone();
        let mut p: usize = 0;
        while p < r.len() && str_le(r[p].as_str(), x.as_str())
            invariant
                p <= r@.len(),
                forall|j: int| 0 <= j < p ==> seq_le(#[trigger] strings_view(r@)[j], x@),
            decreases r@.len() - p,
        {
            p += 1;
        }
        let ghost before = strings_view(r@);
        proof {
            assert forall|a: int, b: int|
                0 <= a < b < before.len() + 1 implies #[trigger] lex_le()(
                before.insert(p as int, x@)[a],
                before.insert(p as int, x@)[b],
            ) by {
                let s = before.insert(p as int, x@);
                if b < p {
                    assert(s[a] == before[a] && s[b] == before[b]);
                } else if b == p {
                    assert(s[a] == before[a]);
                } else if a == p {
                    assert(s[b] == before[b - 1]);
                    assert(!seq_le(before[p as int], x@));
                    lemma_seq_le_total(before[p as int], x@);
                    if b - 1 > p {
                        assert(lex_le()(before[p as int], before[b - 1]));
                        lemma_seq_le_transitive(x@, before[p as int], before[b - 1]);
                    }
                } else if a < p {
                    assert(s[a] == before[a] && s[b] == before[b - 1]);
                    assert(lex_le()(before[a], before[b - 1]));
                } else {
                    assert(s[a] == before[a - 1] && s[b] == before[b - 1]);
                    assert(lex_le()(before[a - 1], before[b - 1]));
                }
            }
            assert(strings_view(r@.insert(p as int, x)) =~= before.insert(p as int, x@));
            assert(strings_view(v@.take(i + 1)) =~= strings_view(v@.take(i as int)).push(x@));
            vstd::seq_lib::to_multiset_insert(before, p as int, x@);
            before.insert_ensures(p as int, x@);
        }
        r.insert(p, x);
        i += 1;
    }
    assert(v@.take(v@.len() as int) =~= v@);
    r
}

/// The sorted tags among the entry names of a repository's manifest
/// directory.
pub fn tags_from_entries(names: &Vec<String>) -> (r: Vec<String>)
    ensures
        sorted_by(strings_view(r@), lex_le()),
        strings_view(r@).to_multiset() == tag_entries(strings_view(names@)).to_multiset(),
{
    sort_strings(select_tags(names))
}

/// The tags that come strictly after the cursor `last`.
pub open spec fn after_cursor(tags: Seq<Seq<char>>, last: Seq<char>) -> Seq<Seq<char>> {
    tags.filter(|t: Seq<char>| !seq_le(t, last))
}

/// One page of a tag list: the tags after `last` (where given), cut to the
/// first `n` (where given).
pub open spec fn paginate(tags: Seq<Seq<char>>, n: Option<usize>, last: Option<Seq<char>>) -> Seq<
    Seq<char>,
> {
    let kept = match last {
        Some(l) => after_cursor(tags, l),
        None => tags,
    };
    match n {
        Some(k) => if k < kept.len() {
            kept.take(k as int)
        } else {
            kept
        },
        None => kept,
    }
}

/// One page of `tags`: those after `last` (where given), at most `n` of
/// them (where given).
pub fn paginate_tags(tags: Vec<String>, n: Option<usize>, last: Option<String>) -> (r: Vec<String>)
    ensures
        strings_view(r@) == paginate(
            strings_view(tags@),
            n,
            match last {
                Some(l) => Some(l@),
                None => None,
            },
        ),
{
    let mut result: Vec<String> = Vec::new();
    match last {
        Some(l) => {
            let mut i: usize = 0;
            while i < tags.len()
                invariant
                    i <= tags@.len(),
                    strings_view(result@) == after_cursor(strings_view(tags@.take(i as int)), l@),
                decreases tags@.len() - i,
            {
                let t = &tags[i];
                proof {
                    let all = strings_view(tags@.take(i + 1));
                    assert(all.drop_last() =~= strings_view(tags@.take(i as int)));
                    assert(all.last() == t@);
                    reveal(Seq::filter);
                }
                if !str_le(t.as_str(), l.as_str()) {
                    let c = t.clone();
                    assert(strings_view(result@.push(c)) =~= strings_view(result@).push(c@));
                    result.push(c);
                }
                i += 1;
            }
            assert(tags@.take(tags@.len() as int) =~= tags@);
        },
        None => {
            result = tags;
        },
    }
    match n {
        Some(k) => {
            let ghost before = result@;
            result.truncate(k);
            assert(k < before.len() ==> strings_view(result@) =~= strings_view(before).take(
                k as int,
            ));
        },
        None => {},
    }
    result
}

/// Filtering a sorted list keeps it sorted.
pub proof fn lemma_filter_sorted(s: Seq<Seq<char>>, pred: spec_fn(Seq<char>) -> bool)
    requires
        sorted_by(s, lex_le()),
    ensures
        sorted_by(s.filter(pred), lex_le()),
        forall|t: Seq<char>| #[trigger] s.filter(pred).contains(t) ==> s.contains(t) && pred(t),
    decreases s.len(),
{
    reveal(Seq::filter);
    if s.len() > 0 {
        let init = s.drop_last();
        assert(sorted_by(init, lex_le()));
        lemma_filter_sorted(init, pred);
        let sub = init.filter(pred);
        if pred(s.last()) {
            let f = sub.push(s.last());
            assert forall|a: int, b: int| 0 <= a < b < f.len() implies #[trigger] lex_le()(
                f[a],
                f[b],
            ) by {
                if b == sub.len() {
                    assert(sub.contains(f[a]));
                    let k = choose|k: int| 0 <= k < init.len() && init[k] == f[a];
                    assert(lex_le()(s[k], s[s.len() - 1]));
                } else {
                    assert(f[a] == sub[a] && f[b] == sub[b]);
                }
            }
        }
    }
}

/// A page of a sorted tag list holds, in sorted order, only tags after the
/// cursor, at most `n` of them, and is the front of the list of all tags
/// after the cursor.
pub proof fn lemma_page_of_sorted_tags(tags: Seq<Seq<char>>, n: Option<usize>, last: Seq<char>)
    requires
        sorted_by(tags, lex_le()),
    ensures
        ({
            let page = paginate(tags, n, Some(last));
            &&& sorted_by(page, lex_le())
            &&& forall|i: int|
                0 <= i < page.len() ==> tags.contains(#[trigger] page[i]) && !seq_le(page[i], last)
            &&& n matches Some(k) ==> page.len() <= k
            &&& page == after_cursor(tags, last).take(page.len() as int)
        }),
{
    let kept = after_cursor(tags, last);
    lemma_filter_sorted(tags, |t: Seq<char>| !seq_le(t, last));
    let page = paginate(tags, n, Some(last));
    assert forall|i: int| 0 <= i < page.len() implies tags.contains(#[trigger] page[i]) && !seq_le(
        page[i],
        last,
    ) by {
        assert(page[i] == kept[i]);
        assert(kept.contains(kept[i]));
    }
    assert(page =~= kept.take(page.len() as int));
}

} // verus!
