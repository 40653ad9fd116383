//! Case folding for airport codes.
//!
//! Stored codes are upper-case ASCII, so folding a query to upper case makes
//! lookup case-insensitive.  The fold maps the letters `'a'..='z'`, plus the
//! two non-ASCII characters whose upper case is a single ASCII letter
//! (dotless i and long s), and leaves every other character untouched.  It
//! works character by character, so a character whose upper case is several
//! characters (such as the sharp s) is left unchanged and cannot reach the
//! three-letter ASCII codes.

use vstd::prelude::*;

verus! {

/// Upper-case one character: `'a'..='z'` maps to `'A'..='Z'`, dotless i
/// maps to `'I'`, long s maps to `'S'`, everything else is unchanged.
pub open spec fn upper_char(c: char) -> char {
    if 'a' <= c && c <= 'z' {
        (((c as u32) - 32) as u8) as char
    } else if c == '\u{131}' {
        'I'
    } else if c == '\u{17f}' {
        'S'
    } else {
        c
    }
}

/// Upper-case a character sequence, position by position.
pub open spec fn upper_seq(s: Seq<char>) -> Seq<char> {
    Seq::new(s.len(), |i: int| upper_char(s[i]))
}

/// Folding a character twice is the same as folding it once.
pub proof fn lemma_upper_char_idempotent(c: char)
    ensures
        upper_char(upper_char(c)) == upper_char(c),
{
}

/// Folding a sequence twice is the same as folding it once.
pub proof fn lemma_upper_seq_idempotent(s: Seq<char>)
    ensures
        upper_seq(upper_seq(s)) == upper_seq(s),
{
    assert forall|i: int| 0 <= i < s.len() implies upper_seq(upper_seq(s))[i] == upper_seq(s)[i] by {
        lemma_upper_char_idempotent(s[i]);
    }
    assert(upper_seq(upper_seq(s)) =~= upper_seq(s));
}

/// Executable form of `upper_char`.
pub(crate) fn upper_char_exec(c: char) -> (r: char)
    ensures
        r == upper_char(c),
{
    if 'a' <= c && c <= 'z' {
        (((c as u32) - 32) as u8) as char
    } else if c == '\u{131}' {
        'I'
    } else if c == '\u{17f}' {
        'S'
    } else {
        c
    }
}

/// Relies on `String::push`: appends the given character to the end of the
/// string.
#[verifier::external_body]
fn push_char(s: &mut String, c: char)
    ensures
        final(s)@ == old(s)@.push(c),
{
    s.push(c);
}

/// Builds the upper-cased copy of `code`.
pub(crate) fn upper_string(code: &str) -> (r: String)
    ensures
        r@ == upper_seq(code@),
{
    let n = code.unicode_len();
    let mut r = String::new();
    let mut i: usize = 0;
    while i < n
        invariant
            n == code@.len(),
            i <= n,
            r@ =~= upper_seq(code@).subrange(0, i as int),
        decreases n - i,
    {
        let c = code.get_char(i);
        let u = upper_char_exec(c);
        push_char(&mut r, u);
        i = i + 1;
        proof {
            assert(r@ =~= upper_seq(code@).subrange(0, i as int));
        }
    }
    proof {
        assert(r@ =~= upper_seq(code@));
    }
    r
}

/// True exactly when `key` equals the upper-cased form of `code`.
pub(crate) fn code_matches(key: &str, code: &str) -> (r: bool)
    ensures
        r == (key@ == upper_seq(code@)),
{
    let klen = key.unicode_len();
    let clen = code.unicode_len();
    if klen != clen {
        return false;
    }
    let mut i: usize = 0;
    while i < klen
        invariant
            klen == key@.len(),
            klen == code@.len(),
            i <= klen,
            forall|j: int| 0 <= j < i ==> key@[j] == upper_seq(code@)[j],
        decreases klen - i,
    {
        let kc = key.get_char(i);
        let cc = code.get_char(i);
        let uc = upper_char_exec(cc);
        if kc != uc {
            return false;
        }
        i = i + 1;
    }
    proof {
        assert(key@ =~= upper_seq(code@));
    }
    true
}

} // verus!
