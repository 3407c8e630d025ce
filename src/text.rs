//! Character-level string helpers with contracts over `Seq<char>`.
use vstd::prelude::*;

verus! {

/// `p` is a prefix of `s`.
pub open spec fn seq_starts_with(s: Seq<char>, p: Seq<char>) -> bool {
    p.len() <= s.len() && s.subrange(0, p.len() as int) == p
}

/// `p` is a suffix of `s`.
pub open spec fn seq_ends_with(s: Seq<char>, p: Seq<char>) -> bool {
    p.len() <= s.len() && s.subrange(s.len() - p.len(), s.len() as int) == p
}

/// The characters of `s` from `start` on equal `p`, position by position.
pub open spec fn matches_at(s: Seq<char>, start: int, p: Seq<char>) -> bool {
    0 <= start && start + p.len() <= s.len() && forall|j: int|
        0 <= j < p.len() ==> #[trigger] p[j] == s[start + j]
}

/// Whether the characters of `s` starting at `start` spell `p`.
pub fn str_matches_at(s: &str, start: usize, p: &str) -> (r: bool)
    ensures
        r == matches_at(s@, start as int, p@),
{
    let n = s.unicode_len();
    let m = p.unicode_len();
    if start > n || m > n - start {
        return false;
    }
    let mut j: usize = 0;
    while j < m
        invariant
            n == s@.len(),
            m == p@.len(),
            start + m <= n,
            j <= m,
            forall|k: int| 0 <= k < j ==> #[trigger] p@[k] == s@[start + k],
        decreases m - j,
    {
        if s.get_char(start + j) != p.get_char(j) {
            return false;
        }
        j += 1;
    }
    true
}

/// Whether two strings hold the same characters.
pub fn str_eq(a: &str, b: &str) -> (r: bool)
    ensures
        r == (a@ == b@),
{
    let n = a.unicode_len();
    let m = b.unicode_len();
    if n != m {
        return false;
    }
    let r = str_matches_at(a, 0, b);
    if r {
        assert(a@ =~= b@) by {
            assert forall|k: int| 0 <= k < b@.len() implies a@[k] == b@[k] by {
                assert(b@[k] == a@[0 + k]);
            }
        }
    }
    r
}

/// Whether `s` begins with `p`.
pub fn str_starts_with(s: &str, p: &str) -> (r: bool)
    ensures
        r == seq_starts_with(s@, p@),
{
    let r = str_matches_at(s, 0, p);
    proof {
        if r {
            assert(s@.subrange(0, p@.len() as int) =~= p@) by {
                assert forall|k: int| 0 <= k < p@.len() implies s@.subrange(
                    0,
                    p@.len() as int,
                )[k] == p@[k] by {
                    assert(p@[k] == s@[0 + k]);
                }
            }
        } else if seq_starts_with(s@, p@) {
            assert forall|k: int| 0 <= k < p@.len() implies #[trigger] p@[k] == s@[0 + k] by {
                assert(s@.subrange(0, p@.len() as int)[k] == s@[k]);
            }
        }
    }
    r
}

/// Whether `s` ends with `p`.
pub fn str_ends_with(s: &str, p: &str) -> (r: bool)
    ensures
        r == seq_ends_with(s@, p@),
{
    let n = s.unicode_len();
    let m = p.unicode_len();
    if m > n {
        return false;
    }
    let start = n - m;
    let r = str_matches_at(s, start, p);
    proof {
        let tail = s@.subrange(start as int, n as int);
        if r {
            assert(tail =~= p@) by {
                assert forall|k: int| 0 <= k < p@.len() implies tail[k] == p@[k] by {
                    assert(p@[k] == s@[start + k]);
                }
            }
        } else if seq_ends_with(s@, p@) {
            assert forall|k: int| 0 <= k < p@.len() implies #[trigger] p@[k] == s@[start + k] by {
                assert(tail[k] == s@[start + k]);
            }
        }
    }
    r
}

/// `p` occurs somewhere in `s`.
pub open spec fn seq_contains(s: Seq<char>, p: Seq<char>) -> bool {
    exists|i: int| matches_at(s, i, p)
}

/// Whether `p` occurs in `s`.
pub fn str_contains(s: &str, p: &str) -> (r: bool)
    ensures
        r == seq_contains(s@, p@),
{
    let n = s.unicode_len();
    let m = p.unicode_len();
    if m > n {
        return false;
    }
    let mut i: usize = 0;
    while i <= n - m
        invariant
            n == s@.len(),
            m == p@.len(),
            m <= n,
            i <= n - m + 1,
            forall|k: int| 0 <= k < i ==> !matches_at(s@, k, p@),
        decreases n - m + 1 - i,
    {
        if str_matches_at(s, i, p) {
            return true;
        }
        i += 1;
    }
    proof {
        assert forall|k: int| !matches_at(s@, k, p@) by {
            if matches_at(s@, k, p@) {
                assert(k < i);
            }
        }
    }
    false
}

/// Whether `c` occurs in `s` more than `k` times.
pub fn count_char_exceeds(s: &str, c: char, k: usize) -> (r: bool)
    ensures
        r == (count_char(s@, c) > k),
{
    let n = s.unicode_len();
    let mut seen: usize = 0;
    let mut i: usize = 0;
    while i < n
        invariant
            n == s@.len(),
            i <= n,
            seen <= i,
            seen == count_char(s@.take(i as int), c),
        decreases n - i,
    {
        assert(s@.take(i + 1).drop_last() =~= s@.take(i as int));
        if s.get_char(i) == c {
            seen += 1;
        }
        i += 1;
    }
    assert(s@.take(n as int) =~= s@);
    seen > k
}

/// The number of occurrences of `c` in `s`.
pub open spec fn count_char(s: Seq<char>, c: char) -> nat
    decreases s.len(),
{
    if s.len() == 0 {
        0
    } else {
        count_char(s.drop_last(), c) + if s.last() == c {
            1nat
        } else {
            0nat
        }
    }
}

/// `text` split at its only occurrence of `c`; `None` where `c` occurs
/// never or more than once.
pub open spec fn split_sole(text: Seq<char>, c: char) -> Option<(Seq<char>, Seq<char>)> {
    if exists|i: int|
        0 <= i < text.len() && text[i] == c && forall|j: int|
            0 <= j < text.len() && j != i ==> text[j] != c {
        let i = choose|i: int|
            0 <= i < text.len() && text[i] == c && forall|j: int|
                0 <= j < text.len() && j != i ==> text[j] != c;
        Some((text.take(i), text.skip(i + 1)))
    } else {
        None
    }
}

/// The characters of an optional pair of strings.
pub open spec fn pair_view(r: Option<(String, String)>) -> Option<(Seq<char>, Seq<char>)> {
    match r {
        Some((u, p)) => Some((u@, p@)),
        None => None,
    }
}

/// Splits `text` at its only occurrence of `c`.
pub fn split_at_sole(text: &str, c: char) -> (r: Option<(String, String)>)
    ensures
        pair_view(r) == split_sole(text@, c),
{
    let n = text.unicode_len();
    let mut at: usize = 0;
    let mut seen: usize = 0;
    let mut i: usize = 0;
    while i < n
        invariant
            n == text@.len(),
            i <= n,
            seen <= 2,
            seen == 0 ==> forall|j: int| 0 <= j < i ==> text@[j] != c,
            seen >= 1 ==> at < i && text@[at as int] == c,
            seen == 1 ==> forall|j: int| 0 <= j < i && j != at ==> text@[j] != c,
            seen == 2 ==> exists|a: int, b: int| 0 <= a < b < i && text@[a] == c && text@[b] == c,
        decreases n - i,
    {
        if text.get_char(i) == c {
            if seen == 0 {
                at = i;
                seen = 1;
            } else if seen == 1 {
                assert(at < i && text@[at as int] == c && text@[i as int] == c);
                seen = 2;
            }
        }
        i += 1;
    }
    if seen != 1 {
        proof {
            if seen == 2 {
                let (a, b) = choose|a: int, b: int|
                    0 <= a < b < n && text@[a] == c && text@[b] == c;
                assert forall|k: int|
                    !(0 <= k < text@.len() && text@[k] == c && forall|j: int|
                        0 <= j < text@.len() && j != k ==> text@[j] != c) by {
                    if 0 <= k < text@.len() && text@[k] == c {
                        if k == a {
                            assert(text@[b] == c);
                        } else {
                            assert(text@[a] == c);
                        }
                    }
                }
            }
        }
        return None;
    }
    let first = text.substring_char(0, at);
    let second = text.substring_char(at + 1, n);
    proof {
        let k = choose|k: int|
            0 <= k < text@.len() && text@[k] == c && forall|j: int|
                0 <= j < text@.len() && j != k ==> text@[j] != c;
        assert(k == at);
        assert(first@ =~= text@.take(at as int));
        assert(second@ =~= text@.skip(at + 1));
    }
    Some((String::from_str(first), String::from_str(second)))
}

} // verus!
