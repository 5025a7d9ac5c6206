//! Comparisons of strings, stated over their characters.

use vstd::prelude::*;
use vstd::string::*;

verus! {

/// Whether `text` ends with the character `suffix`.
pub open spec fn ends_with_char(text: Seq<char>, suffix: char) -> bool {
    text.len() > 0 && text.last() == suffix
}

/// Tests whether the last character of `text` is `suffix`.
pub fn ends_with(text: &str, suffix: char) -> (r: bool)
    ensures
        r == ends_with_char(text@, suffix),
{
    let n: usize = text.unicode_len();
    n > 0 && text.get_char(n - 1) == suffix
}

/// Tests whether `text` begins with all of `prefix`.
pub fn starts_with(text: &str, prefix: &str) -> (r: bool)
    ensures
        r == prefix@.is_prefix_of(text@),
{
    let n: usize = text.unicode_len();
    let m: usize = prefix.unicode_len();
    if m > n {
        return false;
    }
    let mut i: usize = 0;
    while i < m
        invariant
            m == prefix@.len(),
            n == text@.len(),
            m <= n,
            i <= m,
            forall|k: int| 0 <= k < i ==> text@[k] == prefix@[k],
        decreases m - i,
    {
        if text.get_char(i) != prefix.get_char(i) {
            return false;
        }
        i += 1;
    }
    true
}

/// Calls `String::push`, which appends one character to the text and
/// leaves what the text held before as it was.
#[verifier::external_body]
pub(crate) fn push_char(text: &mut String, c: char)
    ensures
        final(text)@ == old(text)@.push(c),
{
    text.push(c);
}

/// Gives the characters of `text`, one by one.
pub fn chars_of(text: &str) -> (r: Vec<char>)
    ensures
        r@ == text@,
{
    let mut chars: Vec<char> = Vec::new();
    for c in it: text.chars()
        invariant
            chars@ == it.seq().take(it.index() as int),
            it.seq() == text@,
    {
        chars.push(c);
    }
    chars
}

/// Tests whether two texts are the same, character by character.
pub fn same_text(a: &str, b: &str) -> (r: bool)
    ensures
        r == (a@ == b@),
{
    if a.unicode_len() != b.unicode_len() {
        return false;
    }
    let r = starts_with(a, b);
    proof {
        if r {
            assert(a@ =~= b@);
        }
    }
    r
}

} // verus!
