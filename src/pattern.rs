//! Glob patterns with at most one `*`.
use vstd::prelude::*;
use crate::text::{seq_starts_with, seq_ends_with, str_eq, str_starts_with, str_ends_with};

verus! {

/// `*` stands at index `i` of `p` and nowhere else.
pub open spec fn sole_star_at(p: Seq<char>, i: int) -> bool {
    &&& 0 <= i < p.len()
    &&& p[i] == '*'
    &&& forall|j: int| 0 <= j < p.len() && j != i ==> p[j] != '*'
}

/// Whether `value` matches the glob `pattern`: the pattern is `*`, or equals
/// the value, or holds exactly one `*` and the value starts with the text
/// before it and ends with the text after it.
pub open spec fn glob_match(pattern: Seq<char>, value: Seq<char>) -> bool {
    ||| pattern == seq!['*']
    ||| pattern == value
    ||| exists|i: int|
        sole_star_at(pattern, i) && seq_starts_with(value, pattern.take(i)) && seq_ends_with(
            value,
            pattern.skip(i + 1),
        )
}

/// The index of the first `*` in `p` and whether it is the only one.
fn find_sole_star(p: &str) -> (r: (usize, bool))
    ensures
        r.1 ==> sole_star_at(p@, r.0 as int),
        !r.1 ==> forall|i: int| !sole_star_at(p@, i),
{
    let n = p.unicode_len();
    let mut first: usize = 0;
    let mut seen: usize = 0;
    let mut i: usize = 0;
    while i < n
        invariant
            n == p@.len(),
            i <= n,
            seen <= 2,
            seen == 0 ==> forall|j: int| 0 <= j < i ==> p@[j] != '*',
            seen >= 1 ==> first < i && p@[first as int] == '*',
            seen == 1 ==> forall|j: int| 0 <= j < i && j != first ==> p@[j] != '*',
            seen == 2 ==> exists|a: int, b: int|
                0 <= a < b < i && p@[a] == '*' && p@[b] == '*',
        decreases n - i,
    {
        if p.get_char(i) == '*' {
            if seen == 0 {
                first = i;
                seen = 1;
            } else if seen == 1 {
                assert(first < i && p@[first as int] == '*' && p@[i as int] == '*');
                seen = 2;
            }
        }
        i += 1;
    }
    proof {
        if seen == 2 {
            let (a, b) = choose|a: int, b: int|
                0 <= a < b < i && p@[a] == '*' && p@[b] == '*';
            assert forall|k: int| !sole_star_at(p@, k) by {
                if sole_star_at(p@, k) {
                    if k == a {
                        assert(p@[b] != '*');
                    } else {
                        assert(p@[a] != '*');
                    }
                }
            }
        }
    }
    (first, seen == 1)
}

/// Whether `value` matches the glob `pattern` (`*`, an exact value, or a
/// single `*` standing for any run of characters).
pub fn matches_pattern(pattern: &str, value: &str) -> (r: bool)
    ensures
        r == glob_match(pattern@, value@),
{
    proof {
        reveal_strlit("*");
    }
    if str_eq(pattern, "*") {
        assert(pattern@ =~= seq!['*']);
        return true;
    }
    if str_eq(pattern, value) {
        return true;
    }
    let (star, sole) = find_sole_star(pattern);
    if !sole {
        proof {
            if pattern@ == seq!['*'] {
                assert(pattern@ =~= "*"@);
            }
        }
        return false;
    }
    let n = pattern.unicode_len();
    let prefix = pattern.substring_char(0, star);
    let suffix = pattern.substring_char(star + 1, n);
    assert(prefix@ =~= pattern@.take(star as int));
    assert(suffix@ =~= pattern@.skip(star + 1));
    let r = str_starts_with(value, prefix) && str_ends_with(value, suffix);
    proof {
        if pattern@ == seq!['*'] {
            assert(pattern@ =~= "*"@);
        }
        if !r && glob_match(pattern@, value@) {
            let i = choose|i: int|
                sole_star_at(pattern@, i) && seq_starts_with(value@, pattern@.take(i))
                    && seq_ends_with(value@, pattern@.skip(i + 1));
            assert(i == star);
        }
    }
    r
}

} // verus!
