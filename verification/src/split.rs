//! Splitting the directory-list setting into individual paths.
//!
//! The merged configuration hands the watch directories over as one
//! string; the paths in it are separated by ASCII whitespace.

use vstd::prelude::*;
use vstd::string::StrSliceExecFns;

verus! {

/// ASCII whitespace: the separators recognised in the directory-list
/// setting.
pub open spec fn is_space(c: char) -> bool {
    c == ' ' || c == '\t' || c == '\n' || c == '\r' || c == '\x0c'
}

/// The first position at or after `i` that ends a token starting at
/// `i`: the next whitespace character, or the end of the string.
pub open spec fn token_end(s: Seq<char>, i: int) -> int
    decreases s.len() - i,
{
    if i < 0 || i >= s.len() {
        s.len() as int
    } else if is_space(s[i]) {
        i
    } else {
        token_end(s, i + 1)
    }
}

/// `token_end` stays within bounds, skips only non-whitespace, and
/// stops exactly at whitespace or at the end.
pub proof fn lemma_token_end(s: Seq<char>, i: int)
    requires
        0 <= i <= s.len(),
    ensures
        i <= token_end(s, i) <= s.len(),
        forall|k: int| i <= k < token_end(s, i) ==> !is_space(s[k]),
        token_end(s, i) < s.len() ==> is_space(s[token_end(s, i)]),
        i < s.len() && !is_space(s[i]) ==> token_end(s, i) >= i + 1,
    decreases s.len() - i,
{
    if i < s.len() && !is_space(s[i]) {
        lemma_token_end(s, i + 1);
    }
}

/// The tokens of `s` from position `i` on: maximal runs of
/// non-whitespace characters, in order.
pub open spec fn split_from(s: Seq<char>, i: int) -> Seq<Seq<char>>
    decreases s.len() - i,
    via split_from_decreases
{
    if i < 0 || i >= s.len() {
        Seq::empty()
    } else if is_space(s[i]) {
        split_from(s, i + 1)
    } else {
        seq![s.subrange(i, token_end(s, i))] + split_from(s, token_end(s, i))
    }
}

#[via_fn]
proof fn split_from_decreases(s: Seq<char>, i: int) {
    if 0 <= i < s.len() && !is_space(s[i]) {
        lemma_token_end(s, i);
    }
}

/// The whitespace-separated tokens of a whole string.
pub open spec fn split_ws(s: Seq<char>) -> Seq<Seq<char>> {
    split_from(s, 0)
}

/// Every token produced by the split is non-empty and holds no
/// whitespace.
pub proof fn lemma_tokens_wellformed(s: Seq<char>, i: int)
    requires
        0 <= i <= s.len(),
    ensures
        forall|t: int| 0 <= t < split_from(s, i).len()
            ==> (#[trigger] split_from(s, i)[t]).len() > 0,
        forall|t: int, k: int|
            0 <= t < split_from(s, i).len() && 0 <= k < split_from(s, i)[t].len()
                ==> !is_space(#[trigger] split_from(s, i)[t][k]),
    decreases s.len() - i,
{
    if i >= s.len() {
        assert(split_from(s, i) =~= Seq::<Seq<char>>::empty());
    } else if is_space(s[i]) {
        lemma_tokens_wellformed(s, i + 1);
        assert(split_from(s, i) == split_from(s, i + 1));
    } else {
        lemma_token_end(s, i);
        let j = token_end(s, i);
        lemma_tokens_wellformed(s, j);
        let tok = s.subrange(i, j);
        let rest = split_from(s, j);
        let parts = split_from(s, i);
        assert(parts == seq![tok] + rest);
        assert forall|t: int| 0 <= t < parts.len() implies (#[trigger] parts[t]).len() > 0 by {
            if t == 0 {
                assert(parts[t] == tok);
            } else {
                assert(parts[t] == rest[t - 1]);
            }
        }
        assert forall|t: int, k: int|
            0 <= t < parts.len() && 0 <= k < parts[t].len()
                implies !is_space(#[trigger] parts[t][k]) by {
            if t == 0 {
                assert(parts[t] == tok);
                assert(parts[t][k] == s[i + k]);
            } else {
                assert(parts[t] == rest[t - 1]);
                assert(!is_space(rest[t - 1][k]));
            }
        }
    }
}

/// Whether `c` is one of the recognised ASCII whitespace separators.
pub fn is_space_char(c: char) -> (b: bool)
    ensures
        b == is_space(c),
{
    c == ' ' || c == '\t' || c == '\n' || c == '\r' || c == '\x0c'
}

/// Split a string into its whitespace-separated tokens, each returned
/// as an owned string, in order.  No token is empty.
pub fn split_whitespace_owned(s: &str) -> (r: Vec<String>)
    ensures
        r.deep_view() == split_ws(s@),
        forall|t: int| 0 <= t < r.deep_view().len() ==> (#[trigger] r.deep_view()[t]).len() > 0,
{
    proof {
        lemma_tokens_wellformed(s@, 0);
    }
    let n = s.unicode_len();
    let mut out: Vec<String> = Vec::new();
    let mut i: usize = 0;
    while i < n
        invariant
            n == s@.len(),
            i <= n,
            split_from(s@, 0) == out.deep_view() + split_from(s@, i as int),
        decreases n - i,
    {
        let c = s.get_char(i);
        if is_space_char(c) {
            assert(split_from(s@, i as int) == split_from(s@, i + 1));
            i = i + 1;
        } else {
            let ghost prev = out.deep_view();
            let start = i;
            i = i + 1;
            while i < n && !is_space_char(s.get_char(i))
                invariant
                    n == s@.len(),
                    start < i <= n,
                    start < s@.len(),
                    !is_space(s@[start as int]),
                    token_end(s@, start as int) == token_end(s@, i as int),
                decreases n - i,
            {
                assert(token_end(s@, i as int) == token_end(s@, i + 1));
                i = i + 1;
            }
            proof {
                assert(token_end(s@, i as int) == i);
                assert(token_end(s@, start as int) == i);
                assert(split_from(s@, start as int)
                    =~= seq![s@.subrange(start as int, i as int)]
                        + split_from(s@, i as int));
            }
            let tok = s.substring_char(start, i);
            out.push(tok.to_owned());
            proof {
                assert(out.deep_view() =~= prev.push(tok@));
                assert(prev + split_from(s@, start as int)
                    =~= out.deep_view() + split_from(s@, i as int));
            }
        }
    }
    proof {
        assert(split_from(s@, n as int) =~= Seq::<Seq<char>>::empty());
        assert(out.deep_view() + split_from(s@, n as int) =~= out.deep_view());
    }
    out
}

} // verus!
