//! Text utilities for the query-processing layers: substring search,
//! whitespace splitting and joining, verified over character sequences, plus
//! the two character-level facts taken from the standard library.

use vstd::prelude::*;
use vstd::string::*;

verus! {

/// What `str::to_lowercase` returns for a given character sequence.
pub uninterp spec fn lower_of(s: Seq<char>) -> Seq<char>;

/// Relies on `str::to_lowercase`: the lowercase equivalent is a function of
/// the characters alone, and an empty string stays empty.
#[verifier::external_body]
pub(crate) fn to_lowercase_str(s: &str) -> (r: String)
    ensures
        r@ == lower_of(s@),
        s@.len() == 0 ==> r@.len() == 0,
{
    s.to_lowercase()
}

/// Whether a character counts as whitespace for splitting.
pub uninterp spec fn whitespace(c: char) -> bool;

/// Relies on `char::is_whitespace`: a fixed predicate of the character alone.
#[verifier::external_body]
pub(crate) fn is_whitespace_char(c: char) -> (r: bool)
    ensures
        r == whitespace(c),
{
    c.is_whitespace()
}

/// The needle occurs somewhere in the haystack as a contiguous run of
/// characters.
pub open spec fn spec_contains_sub(h: Seq<char>, n: Seq<char>) -> bool {
    exists|i: int|
        0 <= i && i + n.len() <= h.len() && #[trigger] h.subrange(i, i + n.len() as int) == n
}

/// Substring search: whether `needle` occurs contiguously in `hay`.
pub fn str_contains(hay: &str, needle: &str) -> (r: bool)
    ensures
        r == spec_contains_sub(hay@, needle@),
{
    let hl = hay.unicode_len();
    let nl = needle.unicode_len();
    if nl > hl {
        return false;
    }
    if nl == 0 {
        proof {
            assert(hay@.subrange(0, 0 + needle@.len() as int) =~= needle@);
        }
        return true;
    }
    let mut i: usize = 0;
    while i <= hl - nl
        invariant
            nl <= hl,
            hl == hay@.len(),
            nl == needle@.len(),
            i <= hl - nl + 1,
            1 <= nl,
            forall|j: int|
                0 <= j < i ==> #[trigger] hay@.subrange(j, j + needle@.len() as int) != needle@,
        decreases hl - nl - i + 1,
    {
        let mut k: usize = 0;
        let mut eq_so_far = true;
        while eq_so_far && k < nl
            invariant
                nl <= hl,
                hl == hay@.len(),
                nl == needle@.len(),
                i + nl <= hl,
                k <= nl,
                eq_so_far ==> forall|t: int| 0 <= t < k ==> hay@[i + t] == needle@[t],
                !eq_so_far ==> hay@.subrange(i as int, i + needle@.len() as int) != needle@,
            decreases nl - k + (if eq_so_far {
                1int
            } else {
                0int
            }),
        {
            if hay.get_char(i + k) != needle.get_char(k) {
                proof {
                    let piece = hay@.subrange(i as int, i + needle@.len() as int);
                    assert(piece[k as int] == hay@[i + k]);
                }
                eq_so_far = false;
            } else {
                k += 1;
            }
        }
        if eq_so_far {
            proof {
                assert(hay@.subrange(i as int, i + needle@.len() as int) =~= needle@);
            }
            return true;
        }
        i += 1;
    }
    proof {
        assert forall|j: int| 0 <= j && j + needle@.len() <= hay@.len() implies #[trigger] hay@.subrange(
            j,
            j + needle@.len() as int,
        ) != needle@ by {
            assert(j < i);
        }
    }
    false
}

/// The tokens of `s` from position `i` onward, with `cur` the partial token
/// read so far and `acc` the tokens already produced: tokens are the maximal
/// runs of non-whitespace characters, in order.
pub open spec fn spec_split_ws_rec(
    s: Seq<char>,
    i: int,
    cur: Seq<char>,
    acc: Seq<Seq<char>>,
) -> Seq<Seq<char>>
    decreases s.len() - i,
{
    if i < 0 || i >= s.len() {
        if cur.len() > 0 {
            acc.push(cur)
        } else {
            acc
        }
    } else if whitespace(s[i]) {
        if cur.len() > 0 {
            spec_split_ws_rec(s, i + 1, Seq::empty(), acc.push(cur))
        } else {
            spec_split_ws_rec(s, i + 1, Seq::empty(), acc)
        }
    } else {
        spec_split_ws_rec(s, i + 1, cur.push(s[i]), acc)
    }
}

/// The whitespace-separated tokens of a character sequence.
pub open spec fn spec_split_ws(s: Seq<char>) -> Seq<Seq<char>> {
    spec_split_ws_rec(s, 0, Seq::empty(), Seq::empty())
}

/// Splits the text into its maximal runs of non-whitespace characters.
pub fn split_whitespace_tokens(s: &str) -> (r: Vec<String>)
    ensures
        r.deep_view() == spec_split_ws(s@),
{
    let len = s.unicode_len();
    let mut acc: Vec<String> = Vec::new();
    proof {
        assert(acc.deep_view() =~= Seq::<Seq<char>>::empty());
    }
    let mut start: usize = 0;
    let mut in_token = false;
    let mut i: usize = 0;
    while i < len
        invariant
            len == s@.len(),
            i <= len,
            in_token ==> start < i,
            spec_split_ws(s@) == spec_split_ws_rec(
                s@,
                i as int,
                if in_token {
                    s@.subrange(start as int, i as int)
                } else {
                    Seq::empty()
                },
                acc.deep_view(),
            ),
        decreases len - i,
    {
        let ghost pre_cur: Seq<char> = if in_token {
            s@.subrange(start as int, i as int)
        } else {
            Seq::empty()
        };
        let ghost pre_acc = acc.deep_view();
        let c = s.get_char(i);
        if is_whitespace_char(c) {
            if in_token {
                let tok = String::from_str(s.substring_char(start, i));
                acc.push(tok);
                in_token = false;
                proof {
                    assert(acc.deep_view() =~= pre_acc.push(pre_cur));
                }
            }
        } else {
            if !in_token {
                start = i;
                in_token = true;
            }
            proof {
                assert(s@.subrange(start as int, i + 1) =~= pre_cur.push(s@[i as int]));
            }
        }
        i += 1;
    }
    if in_token {
        let ghost pre_cur = s@.subrange(start as int, len as int);
        let ghost pre_acc = acc.deep_view();
        let tok = String::from_str(s.substring_char(start, len));
        acc.push(tok);
        proof {
            assert(acc.deep_view() =~= pre_acc.push(pre_cur));
        }
    }
    acc
}

/// The parts joined with the separator between consecutive parts.
pub open spec fn spec_join(parts: Seq<Seq<char>>, sep: Seq<char>) -> Seq<char>
    decreases parts.len(),
{
    if parts.len() == 0 {
        Seq::empty()
    } else if parts.len() == 1 {
        parts[0]
    } else {
        spec_join(parts.drop_last(), sep) + sep + parts.last()
    }
}

/// Joins the strings with the separator between consecutive entries.
pub fn join_with(parts: &Vec<String>, sep: &str) -> (r: String)
    ensures
        r@ == spec_join(parts.deep_view(), sep@),
{
    let mut out = String::new();
    let mut i: usize = 0;
    while i < parts.len()
        invariant
            i <= parts@.len(),
            out@ == spec_join(parts.deep_view().take(i as int), sep@),
        decreases parts@.len() - i,
    {
        let ghost dv = parts.deep_view();
        if i > 0 {
            out.append(sep);
        }
        out.append(parts[i].as_str());
        proof {
            let taken = dv.take(i + 1);
            assert(taken.drop_last() =~= dv.take(i as int));
            assert(taken.last() == dv[i as int]);
            assert(parts@[i as int]@ == dv[i as int]);
        }
        i += 1;
    }
    proof {
        assert(parts.deep_view().take(parts@.len() as int) =~= parts.deep_view());
    }
    out
}

} // verus!
