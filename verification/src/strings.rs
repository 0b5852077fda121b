//! Small string helpers: lengths, in-place edits, word splitting and
//! formatting by concatenation.
//!
//! Where a function reports a length in `usize` it is the byte length of the
//! UTF-8 encoding, exactly what `str::len` returns; the contracts state it
//! over `encode_utf8` of the character view.  `first_word` works over the
//! decoded characters, so its contract speaks of character offsets.

use vstd::prelude::*;
use vstd::string::StrSliceExecFns;
use vstd::string::StringExecFns;
use vstd::utf8::encode_utf8;

verus! {

/// A fresh owned string with a fixed greeting.
pub fn gives_ownership() -> (s: String)
    ensures
        s@ == "This is an owned string"@,
{
    String::from_str("This is an owned string")
}

/// The byte length of a string, returned together with the string itself so
/// that the caller keeps ownership.
pub fn calculate_length_bad(s: String) -> (r: (String, usize))
    ensures
        r.0 == s,
        r.1 == encode_utf8(s@).len() as usize,
{
    let len = s.as_str().len();
    (s, len)
}

/// The byte length of a borrowed string.
pub fn calculate_length(s: &String) -> (len: usize)
    ensures
        len == encode_utf8(s@).len() as usize,
{
    s.as_str().len()
}

/// Appends a fixed marker to the string in place.
pub fn change(s: &mut String)
    ensures
        final(s)@ == old(s)@ + " - modified"@,
{
    s.append(" - modified");
}

/// The run of characters of `s` before the first space: the whole of `s`
/// when it holds no space.
pub fn first_word(s: &str) -> (w: &str)
    ensures
        w@.len() <= s@.len(),
        w@ == s@.subrange(0, w@.len() as int),
        forall|i: int| 0 <= i < w@.len() ==> s@[i] != ' ',
        w@.len() < s@.len() ==> s@[w@.len() as int] == ' ',
{
    let n: usize = s.unicode_len();
    let mut i: usize = 0;
    while i < n
        invariant
            n == s@.len(),
            i <= n,
            forall|j: int| 0 <= j < i ==> s@[j] != ' ',
        decreases n - i,
    {
        if s.get_char(i) == ' ' {
            return s.substring_char(0, i);
        }
        i = i + 1;
    }
    proof {
        assert(s@.subrange(0, s@.len() as int) =~= s@);
    }
    s
}

/// `a`, followed by a dash and a fixed closing phrase.
pub fn my_function(a: &str) -> (r: String)
    ensures
        r@ == a@ + " - This is a string slice passed to the function"@,
{
    let mut r = a.to_owned();
    r.append(" - This is a string slice passed to the function");
    r
}

} // verus!
