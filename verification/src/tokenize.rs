//! Splitting an input line into whitespace-separated tokens.
//!
//! `tokens_of` is the mathematical splitting rule: leading whitespace is
//! dropped, a token is a maximal run of non-whitespace characters, and runs
//! of whitespace between tokens are collapsed. `tokenize` computes it.

use vstd::prelude::*;
use crate::text::is_space;

verus! {

/// The longest prefix of `s` that holds no whitespace character.
pub open spec fn token_prefix(s: Seq<char>) -> Seq<char>
    decreases s.len(),
{
    if s.len() == 0 || is_space(s[0]) {
        Seq::empty()
    } else {
        seq![s[0]] + token_prefix(s.skip(1))
    }
}

/// A token prefix never reaches past the end of the string.
pub proof fn lemma_token_prefix_len(s: Seq<char>)
    ensures
        token_prefix(s).len() <= s.len(),
    decreases s.len(),
{
    if s.len() == 0 || is_space(s[0]) {
    } else {
        lemma_token_prefix_len(s.skip(1));
    }
}

/// The whitespace-separated tokens of `s`, in order.
pub open spec fn tokens_of(s: Seq<char>) -> Seq<Seq<char>>
    decreases s.len(),
{
    if s.len() == 0 {
        Seq::empty()
    } else if is_space(s[0]) {
        tokens_of(s.skip(1))
    } else {
        proof {
            lemma_token_prefix_len(s);
            assert(token_prefix(s).len() >= 1);
        }
        seq![token_prefix(s)] + tokens_of(s.skip(token_prefix(s).len() as int))
    }
}

/// The views of a sequence of strings.
pub open spec fn views_of(ts: Seq<String>) -> Seq<Seq<char>> {
    ts.map_values(|t: String| t@)
}

/// Tests whether `c` separates tokens.
pub fn is_space_char(c: char) -> (r: bool)
    ensures
        r == is_space(c),
{
    c == ' ' || c == '\t' || c == '\n' || c == '\r'
}

/// Where a token that starts at a non-whitespace position `start` ends:
/// the first position at or after `start` that is out of range or whitespace.
fn token_end(s: &str, start: usize, n: usize) -> (j: usize)
    requires
        n == s@.len(),
        start < n,
        !is_space(s@[start as int]),
    ensures
        start < j <= n,
        forall|m: int| start <= m < j ==> !is_space(s@[m]),
        j == n || is_space(s@[j as int]),
{
    let mut j = start + 1;
    while j < n
        invariant
            n == s@.len(),
            start < j <= n,
            forall|m: int| start <= m < j ==> !is_space(s@[m]),
        decreases n - j,
    {
        if is_space_char(s.get_char(j)) {
            return j;
        }
        j = j + 1;
    }
    j
}

/// A maximal whitespace-free run starting at the front of `s` is exactly
/// `token_prefix(s)`.
proof fn lemma_token_prefix_exact(s: Seq<char>, j: int)
    requires
        0 <= j <= s.len(),
        forall|m: int| 0 <= m < j ==> !is_space(s[m]),
        j == s.len() || is_space(s[j]),
    ensures
        token_prefix(s) == s.subrange(0, j),
    decreases j,
{
    if j == 0 {
        assert(s.subrange(0, 0) =~= Seq::<char>::empty());
    } else {
        assert(forall|m: int| 0 <= m < j - 1 ==> !is_space(s.skip(1)[m]));
        lemma_token_prefix_exact(s.skip(1), j - 1);
        assert(seq![s[0]] + s.skip(1).subrange(0, j - 1) =~= s.subrange(0, j));
    }
}

/// Splits `s` on runs of whitespace into its tokens.
pub fn tokenize(s: &str) -> (toks: Vec<String>)
    ensures
        views_of(toks@) == tokens_of(s@),
{
    let n = s.unicode_len();
    let mut toks: Vec<String> = Vec::new();
    let mut i: usize = 0;
    proof {
        assert(s@.skip(0) =~= s@);
        assert(views_of(toks@) + tokens_of(s@) =~= tokens_of(s@));
    }
    while i < n
        invariant
            n == s@.len(),
            i <= n,
            tokens_of(s@) == views_of(toks@) + tokens_of(s@.skip(i as int)),
        decreases n - i,
    {
        let c = s.get_char(i);
        if is_space_char(c) {
            proof {
                assert(s@.skip(i as int).skip(1) =~= s@.skip(i as int + 1));
            }
            i = i + 1;
        } else {
            let j = token_end(s, i, n);
            let t = s.substring_char(i, j);
            let ts = String::from_str(t);
            proof {
                let rest = s@.skip(i as int);
                assert(forall|m: int| 0 <= m < j - i ==> !is_space(rest[m]));
                lemma_token_prefix_exact(rest, j - i);
                assert(rest.subrange(0, j - i) =~= s@.subrange(i as int, j as int));
                assert(rest.skip(j - i) =~= s@.skip(j as int));
                assert(views_of(toks@.push(ts)) =~= views_of(toks@).push(ts@));
                assert(views_of(toks@).push(ts@) =~= views_of(toks@) + seq![ts@]);
                assert((views_of(toks@) + seq![token_prefix(rest)]) + tokens_of(s@.skip(j as int))
                    =~= views_of(toks@) + (seq![token_prefix(rest)] + tokens_of(s@.skip(j as int))));
            }
            toks.push(ts);
            i = j;
        }
    }
    proof {
        assert(s@.skip(n as int) =~= Seq::<char>::empty());
        assert(views_of(toks@) + Seq::<Seq<char>>::empty() =~= views_of(toks@));
    }
    toks
}

} // verus!
