//! Character-level helpers shared by the tokenizer and the action table:
//! whitespace classification, ASCII lower-casing and string comparison.

use vstd::prelude::*;

verus! {

/// The whitespace characters that separate tokens on an input line.
pub open spec fn is_space(c: char) -> bool {
    c == ' ' || c == '\t' || c == '\n' || c == '\r'
}

/// ASCII lower-casing of one character; everything else is unchanged.
pub open spec fn lower_char(c: char) -> char {
    if 'A' <= c && c <= 'Z' {
        ((c as u32) + 32) as char
    } else {
        c
    }
}

/// ASCII lower-casing of a whole string.
pub open spec fn lower(s: Seq<char>) -> Seq<char> {
    s.map_values(|c: char| lower_char(c))
}

/// Tests whether two strings hold the same characters.
pub fn str_eq(a: &str, b: &str) -> (r: bool)
    ensures
        r == (a@ == b@),
{
    let na = a.unicode_len();
    let nb = b.unicode_len();
    if na != nb {
        return false;
    }
    let mut i: usize = 0;
    while i < na
        invariant
            na == a@.len(),
            na == b@.len(),
            i <= na,
            forall|k: int| 0 <= k < i ==> a@[k] == b@[k],
        decreases na - i,
    {
        if a.get_char(i) != b.get_char(i) {
            return false;
        }
        i = i + 1;
    }
    proof {
        assert(a@ =~= b@);
    }
    true
}

/// Relies on `String::push`: appends exactly one character at the end.
#[verifier::external_body]
fn push_char(s: &mut String, c: char)
    ensures
        final(s)@ == old(s)@.push(c),
{
    s.push(c)
}

/// Returns the ASCII lower-casing of `s`.
pub fn lowercase_ascii(s: &str) -> (r: String)
    ensures
        r@ == lower(s@),
{
    let n = s.unicode_len();
    let mut out = String::new();
    let mut i: usize = 0;
    while i < n
        invariant
            n == s@.len(),
            i <= n,
            out@ == lower(s@.take(i as int)),
        decreases n - i,
    {
        let c = s.get_char(i);
        let lc: char = if 'A' <= c && c <= 'Z' {
            (((c as u8) + 32) as char)
        } else {
            c
        };
        proof {
            assert(lc == lower_char(s@[i as int]));
        }
        push_char(&mut out, lc);
        proof {
            assert(out@ =~= lower(s@.take(i as int + 1)));
        }
        i = i + 1;
    }
    proof {
        assert(s@.take(n as int) =~= s@);
    }
    out
}

} // verus!
