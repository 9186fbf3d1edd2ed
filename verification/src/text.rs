//! String comparisons used when looking features up by name.

use vstd::prelude::*;
use vstd::utf8::is_ascii_chars;

verus! {

/// `c` with an ASCII upper-case letter mapped to its lower-case form; any
/// other character is kept.
pub open spec fn ascii_lower(c: char) -> char {
    if 'A' <= c && c <= 'Z' {
        ((c as u32) + 32) as char
    } else {
        c
    }
}

/// Two character sequences are equal once ASCII letters are folded to lower
/// case (the relation of `str::eq_ignore_ascii_case`).
pub open spec fn eq_ignore_ascii_case(a: Seq<char>, b: Seq<char>) -> bool {
    &&& a.len() == b.len()
    &&& forall|i: int| 0 <= i < a.len() ==> ascii_lower(#[trigger] a[i]) == ascii_lower(b[i])
}

fn char_ascii_lower(c: char) -> (r: u32)
    ensures
        r == ascii_lower(c) as u32,
{
    if 'A' <= c && c <= 'Z' {
        (c as u32) + 32
    } else {
        c as u32
    }
}

/// Whether `a` and `b` hold the same characters.
pub fn str_equal(a: &str, b: &str) -> (r: bool)
    ensures
        r == (a@ == b@),
{
    let n = a.unicode_len();
    if n != b.unicode_len() {
        return false;
    }
    let mut i: usize = 0;
    while i < n
        invariant
            n == a@.len(),
            n == b@.len(),
            i <= n,
            forall|j: int| 0 <= j < i ==> a@[j] == b@[j],
        decreases n - i,
    {
        if a.get_char(i) != b.get_char(i) {
            return false;
        }
        i = i + 1;
    }
    assert(a@ =~= b@);
    true
}

/// Whether `a` and `b` are equal ignoring ASCII case.
pub fn str_eq_ignore_ascii_case(a: &str, b: &str) -> (r: bool)
    ensures
        r == eq_ignore_ascii_case(a@, b@),
{
    let n = a.unicode_len();
    if n != b.unicode_len() {
        return false;
    }
    let mut i: usize = 0;
    while i < n
        invariant
            n == a@.len(),
            n == b@.len(),
            i <= n,
            forall|j: int| 0 <= j < i ==> ascii_lower(#[trigger] a@[j]) == ascii_lower(b@[j]),
        decreases n - i,
    {
        let ca = char_ascii_lower(a.get_char(i));
        let cb = char_ascii_lower(b.get_char(i));
        if ca != cb {
            return false;
        }
        i = i + 1;
    }
    true
}

/// Folding `s` to ASCII lower case gives a word `w` that has no ASCII
/// upper-case letter exactly when `s` equals `w` ignoring ASCII case.
pub proof fn lemma_ascii_fold_matches_lower_word(s: Seq<char>, w: Seq<char>)
    requires
        forall|i: int| 0 <= i < w.len() ==> ascii_lower(#[trigger] w[i]) == w[i],
    ensures
        (s.map_values(|c: char| ascii_lower(c)) == w) <==> eq_ignore_ascii_case(s, w),
{
    let f = s.map_values(|c: char| ascii_lower(c));
    if eq_ignore_ascii_case(s, w) {
        assert(f =~= w);
    }
    if f == w {
        assert forall|i: int| 0 <= i < s.len() implies ascii_lower(#[trigger] s[i]) == ascii_lower(w[i]) by {
            assert(f[i] == ascii_lower(s[i]));
        }
    }
}

/// What `str::to_lowercase` gives for a string: its Unicode lower-case
/// mapping, a function of the characters alone.
pub uninterp spec fn unicode_lowercase(s: Seq<char>) -> Seq<char>;

/// Calls `str::to_lowercase`, which lower-cases by Unicode's case mapping.
/// The contract claims that the result is `unicode_lowercase` of the
/// argument's characters, and that on an all-ASCII string that mapping folds
/// each upper-case letter `A`-`Z` to `a`-`z` and keeps every other character
/// (Unicode's mapping of the ASCII range, as the documentation's `"HELLO"`
/// example shows). What the mapping does to other characters is not stated.
#[verifier::external_body]
pub fn to_lowercase(s: &str) -> (r: String)
    ensures
        r@ == unicode_lowercase(s@),
        is_ascii_chars(s@) ==> r@ == s@.map_values(|c: char| ascii_lower(c)),
{
    s.to_lowercase()
}

} // verus!
