//! Locating the first occurrence of a pattern inside a text.
//!
//! The search scans left to right over the decoded characters of the text
//! (`Seq<char>`, the view Verus gives a `&str`), so every position it speaks
//! of is a character offset, never a raw byte offset.  Absence is signalled
//! by the in-band sentinel `text@.len()`: the character length of the text,
//! which is never a valid offset.  An empty pattern matches at offset 0.

use vstd::prelude::*;
use vstd::string::StrSliceExecFns;

verus! {

/// `pattern` occurs in `text` as the contiguous run that starts at offset `k`.
pub open spec fn matches_at(text: Seq<char>, pattern: Seq<char>, k: int) -> bool {
    &&& 0 <= k
    &&& k + pattern.len() <= text.len()
    &&& text.subrange(k, k + pattern.len()) == pattern
}

/// `pattern` occurs somewhere in `text`.
pub open spec fn occurs_in(text: Seq<char>, pattern: Seq<char>) -> bool {
    exists|k: int| matches_at(text, pattern, k)
}

/// Whether the characters of `pattern` stand in `text` starting at `start`.
fn chars_match(text: &str, pattern: &str, start: usize) -> (r: bool)
    requires
        start + pattern@.len() <= text@.len(),
    ensures
        r == matches_at(text@, pattern@, start as int),
{
    let n: usize = text.unicode_len();
    let m: usize = pattern.unicode_len();
    let mut j: usize = 0;
    while j < m
        invariant
            n == text@.len(),
            m == pattern@.len(),
            start + m <= n,
            j <= m,
            forall|jj: int| 0 <= jj < j ==> text@[start + jj] == pattern@[jj],
        decreases m - j,
    {
        if text.get_char(start + j) != pattern.get_char(j) {
            proof {
                assert(text@.subrange(start as int, start + m)[j as int] == text@[start + j]);
            }
            return false;
        }
        j = j + 1;
    }
    proof {
        assert(text@.subrange(start as int, start + m) =~= pattern@);
    }
    true
}

/// Searches `text` for `pattern`, left to right, and returns the character
/// offset of the first occurrence.
///
/// When `pattern` does not occur (in particular whenever it is longer than
/// `text`), the result is the sentinel `text@.len()`; callers detect absence
/// by comparing the result against the character length of the text.  The
/// empty pattern occurs at every offset, so it yields 0.
pub fn find_substr_pos(text: &str, substr: &str) -> (pos: usize)
    ensures
        occurs_in(text@, substr@) ==> {
            &&& matches_at(text@, substr@, pos as int)
            &&& forall|j: int| 0 <= j < pos ==> !matches_at(text@, substr@, j)
        },
        !occurs_in(text@, substr@) ==> pos as int == text@.len(),
        substr@.len() == 0 ==> pos == 0,
{
    let n: usize = text.unicode_len();
    let m: usize = substr.unicode_len();
    if m > n {
        proof {
            assert(!occurs_in(text@, substr@));
        }
        return n;
    }
    let mut start: usize = 0;
    while start <= n - m
        invariant
            n == text@.len(),
            m == substr@.len(),
            m <= n,
            start <= n - m + 1,
            forall|j: int| 0 <= j < start ==> !matches_at(text@, substr@, j),
        decreases n - start,
    {
        proof {
            // An empty pattern matches at every offset, so the comparison
            // below can only fail for a nonempty pattern, and when it
            // succeeds at offset 0 no earlier offset was skipped.
            if substr@.len() == 0 {
                assert(text@.subrange(0, 0) =~= substr@);
                assert(matches_at(text@, substr@, 0));
                assert(text@.subrange(start as int, start as int) =~= substr@);
                assert(matches_at(text@, substr@, start as int));
            }
        }
        if chars_match(text, substr, start) {
            return start;
        }
        start = start + 1;
    }
    proof {
        // An empty pattern would have been found at offset 0, so this exit
        // is only reached when the pattern is nonempty and absent.
        if substr@.len() == 0 {
            assert(text@.subrange(0, 0) =~= substr@);
            assert(matches_at(text@, substr@, 0));
        }
        assert forall|k: int| !matches_at(text@, substr@, k) by {
            if matches_at(text@, substr@, k) {
                assert(k < start);
            }
        }
        assert(!occurs_in(text@, substr@));
    }
    n
}

} // verus!
