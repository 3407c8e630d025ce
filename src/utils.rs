//! The build version shown by the server.
use vstd::prelude::*;
use crate::text::{matches_at, seq_starts_with, str_matches_at};

verus! {

/// The text after the last `-` of `s` (all of `s` where it has none).
pub open spec fn last_segment(s: Seq<char>) -> Seq<char>
    decreases s.len(),
{
    if s.len() == 0 {
        s
    } else if s.last() == '-' {
        Seq::empty()
    } else {
        last_segment(s.drop_last()).push(s.last())
    }
}

/// `s` with every occurrence of `pat`, from left to right and without
/// overlap, replaced by `with`; an empty pattern leaves `s` as it is.
pub open spec fn replace_all(s: Seq<char>, pat: Seq<char>, with: Seq<char>) -> Seq<char>
    decreases s.len(),
{
    if s.len() == 0 || pat.len() == 0 {
        s
    } else if seq_starts_with(s, pat) {
        with + replace_all(s.skip(pat.len() as int), pat, with)
    } else {
        seq![s[0]] + replace_all(s.skip(1), pat, with)
    }
}

/// The version string shown for build version `raw`: `test` without one;
/// otherwise `raw` with its last `-` segment (a commit hash) cut to seven
/// characters wherever that segment occurs.
pub open spec fn build_info(raw: Option<Seq<char>>) -> Seq<char> {
    match raw {
        None => "test"@,
        Some(v) => {
            let long = last_segment(v);
            let short = if long.len() <= 7 {
                long
            } else {
                long.take(7)
            };
            if long.len() <= 7 {
                v
            } else {
                replace_all(v, long, short)
            }
        },
    }
}

/// The start of the last `-` segment of `s`.
fn last_segment_start(s: &str) -> (r: usize)
    ensures
        r <= s@.len(),
        last_segment(s@) == s@.skip(r as int),
{
    let n = s.unicode_len();
    let mut i: usize = n;
    assert(s@.skip(n as int) =~= Seq::<char>::empty());
    assert(s@.take(n as int) =~= s@);
    assert(last_segment(s@) + Seq::<char>::empty() =~= last_segment(s@));
    while i > 0 && s.get_char(i - 1) != '-'
        invariant
            n == s@.len(),
            i <= n,
            last_segment(s@) == last_segment(s@.take(i as int)) + s@.skip(i as int),
        decreases i,
    {
        proof {
            let t = s@.take(i as int);
            assert(t.drop_last() =~= s@.take(i - 1));
            assert(t.last() == s@[i - 1]);
            assert(last_segment(t) == last_segment(s@.take(i - 1)).push(s@[i - 1]));
            assert(last_segment(s@.take(i - 1)).push(s@[i - 1]) + s@.skip(i as int)
                =~= last_segment(s@.take(i - 1)) + s@.skip(i - 1));
        }
        i -= 1;
    }
    proof {
        let t = s@.take(i as int);
        if i == 0 {
            assert(last_segment(t) =~= Seq::<char>::empty());
        } else {
            assert(t.last() == '-');
        }
        assert(Seq::<char>::empty() + s@.skip(i as int) =~= s@.skip(i as int));
    }
    i
}

/// `s` with every occurrence of the non-empty `pat` replaced by `with`.
fn replace_str(s: &str, pat: &str, with: &str) -> (r: String)
    ensures
        r@ == replace_all(s@, pat@, with@),
{
    let n = s.unicode_len();
    let m = pat.unicode_len();
    if m == 0 {
        return String::from_str(s);
    }
    let mut r = String::new();
    let mut i: usize = 0;
    assert(s@.skip(0) =~= s@);
    while i < n
        invariant
            n == s@.len(),
            m == pat@.len(),
            m > 0,
            i <= n,
            r@ + replace_all(s@.skip(i as int), pat@, with@) == replace_all(s@, pat@, with@),
        decreases n - i,
    {
        let ghost rest = s@.skip(i as int);
        if str_matches_at(s, i, pat) {
            proof {
                assert(rest.subrange(0, m as int) =~= pat@) by {
                    assert forall|k: int| 0 <= k < m implies rest.subrange(0, m as int)[k]
                        == pat@[k] by {
                        assert(pat@[k] == s@[i + k]);
                    }
                }
                assert(rest.skip(m as int) =~= s@.skip(i + m));
                assert(r@ + with@ + replace_all(s@.skip(i + m), pat@, with@) =~= r@ + (with@
                    + replace_all(rest.skip(m as int), pat@, with@)));
            }
            r.append(with);
            i += m;
        } else {
            proof {
                if seq_starts_with(rest, pat@) {
                    assert forall|k: int| 0 <= k < m implies #[trigger] pat@[k] == s@[i + k] by {
                        assert(rest.subrange(0, m as int)[k] == s@[i + k]);
                    }
                }
                assert(rest.skip(1) =~= s@.skip(i + 1));
            }
            let one = s.substring_char(i, i + 1);
            proof {
                assert(one@ =~= seq![rest[0]]);
                assert(r@ + one@ + replace_all(s@.skip(i + 1), pat@, with@) =~= r@ + (seq![rest[0]]
                    + replace_all(rest.skip(1), pat@, with@)));
            }
            r.append(one);
            i += 1;
        }
    }
    assert(s@.skip(i as int) =~= Seq::<char>::empty());
    assert(r@ + Seq::<char>::empty() =~= r@);
    r
}

/// The version string shown for build version `raw_ver` (read at build
/// time): `test` without one; otherwise the version with its trailing
/// commit hash shortened to seven characters.
pub fn get_build_info(raw_ver: Option<&str>) -> (r: String)
    ensures
        r@ == build_info(match raw_ver {
            Some(v) => Some(v@),
            None => None,
        }),
{
    let raw = match raw_ver {
        Some(v) => v,
        None => return String::from_str("test"),
    };
    let start = last_segment_start(raw);
    let n = raw.unicode_len();
    let long = raw.substring_char(start, n);
    assert(long@ =~= raw@.skip(start as int));
    if n - start <= 7 {
        return String::from_str(raw);
    }
    let short = raw.substring_char(start, start + 7);
    assert(short@ =~= long@.take(7));
    replace_str(raw, long, short)
}

} // verus!
