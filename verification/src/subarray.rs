//! Searching an integer sequence for a contiguous subrange with a given sum.
//!
//! `find_subarray` prefers the longest qualifying subrange and, among
//! subranges of that length, the leftmost one.  Absence is signalled by the
//! in-band sentinel `(len, len)`: both entries equal to the sequence length,
//! which is never a valid starting index.

use vstd::prelude::*;

verus! {

/// The sum of all elements of `s`, as an unbounded integer.
pub open spec fn seq_sum(s: Seq<i32>) -> int
    decreases s.len(),
{
    if s.len() == 0 {
        0
    } else {
        seq_sum(s.drop_last()) + s.last()
    }
}

/// The sum of the subrange of `s` that starts at `start` and has length `len`.
pub open spec fn range_sum(s: Seq<i32>, start: int, len: int) -> int {
    seq_sum(s.subrange(start, start + len))
}

/// Every contiguous subrange of `s` sums to a value that fits in an `i32`.
///
/// This is the precondition under which the searches below are free of
/// overflow: the accumulator only ever holds the sum of some subrange.
pub open spec fn sums_ok(s: Seq<i32>) -> bool {
    forall|i: int, j: int| 0 <= i <= j <= s.len() ==> i32::MIN <= seq_sum(#[trigger] s.subrange(i, j)) <= i32::MAX
}

/// The nonempty subrange of `s` at (`start`, `len`) sums to `target`.
pub open spec fn is_match(s: Seq<i32>, target: int, start: int, len: int) -> bool {
    &&& 1 <= len
    &&& 0 <= start
    &&& start + len <= s.len()
    &&& range_sum(s, start, len) == target
}

/// Some nonempty contiguous subrange of `s` sums to `target`.
pub open spec fn has_match(s: Seq<i32>, target: int) -> bool {
    exists|start: int, len: int| is_match(s, target, start, len)
}

/// The sum of all elements of `nums`.
pub fn array_sum(nums: &[i32]) -> (res: i32)
    requires
        forall|k: int| 0 <= k <= nums@.len() ==> i32::MIN <= seq_sum(#[trigger] nums@.subrange(0, k)) <= i32::MAX,
    ensures
        res as int == seq_sum(nums@),
{
    let mut res: i32 = 0;
    let n: usize = nums.len();
    let mut i: usize = 0;
    while i < n
        invariant
            n == nums@.len(),
            i <= n,
            res as int == seq_sum(nums@.subrange(0, i as int)),
            forall|k: int| 0 <= k <= nums@.len() ==> i32::MIN <= seq_sum(#[trigger] nums@.subrange(0, k)) <= i32::MAX,
        decreases n - i,
    {
        proof {
            assert(nums@.subrange(0, i + 1).drop_last() =~= nums@.subrange(0, i as int));
            assert(nums@.subrange(0, i + 1).last() == nums@[i as int]);
            assert(seq_sum(nums@.subrange(0, i + 1)) == seq_sum(nums@.subrange(0, i as int)) + nums@[i as int]);
        }
        res = res + nums[i];
        i = i + 1;
    }
    proof {
        assert(nums@.subrange(0, n as int) =~= nums@);
    }
    res
}

/// Searches `nums` for a contiguous subrange whose elements sum to `sum`.
///
/// Candidate lengths are tried from the longest down to 1; for each length,
/// starting offsets are tried left to right, so the longest qualifying
/// subrange wins, tie-broken by the leftmost starting index.  When no
/// subrange qualifies the result is the sentinel `(nums.len(), nums.len())`.
pub fn find_subarray(nums: &[i32], sum: i32) -> (res: (usize, usize))
    requires
        sums_ok(nums@),
    ensures
        has_match(nums@, sum as int) ==> {
            &&& is_match(nums@, sum as int, res.0 as int, res.1 as int)
            &&& forall|st: int, ln: int| is_match(nums@, sum as int, st, ln) ==> ln <= res.1
            &&& forall|st: int| is_match(nums@, sum as int, st, res.1 as int) ==> res.0 <= st
        },
        !has_match(nums@, sum as int) ==> res.0 == nums@.len() && res.1 == nums@.len(),
{
    let n: usize = nums.len();
    let mut len: usize = n;
    while len >= 1
        invariant
            n == nums@.len(),
            len <= n,
            sums_ok(nums@),
            forall|st: int, ln: int| len < ln ==> !is_match(nums@, sum as int, st, ln),
        decreases len,
    {
        let mut start: usize = 0;
        while start <= n - len
            invariant
                n == nums@.len(),
                1 <= len <= n,
                start <= n - len + 1,
                sums_ok(nums@),
                forall|st: int, ln: int| len < ln ==> !is_match(nums@, sum as int, st, ln),
                forall|st: int| st < start ==> !is_match(nums@, sum as int, st, len as int),
            decreases n - start,
        {
            let part = vstd::slice::slice_subrange(nums, start, start + len);
            proof {
                assert forall|k: int| 0 <= k <= part@.len() implies i32::MIN <= seq_sum(#[trigger] part@.subrange(0, k)) <= i32::MAX by {
                    assert(part@.subrange(0, k) =~= nums@.subrange(start as int, start + k));
                }
            }
            let s = array_sum(part);
            if s == sum {
                proof {
                    assert(part@ =~= nums@.subrange(start as int, start + len));
                    assert(is_match(nums@, sum as int, start as int, len as int));
                }
                return (start, len);
            }
            proof {
                assert(part@ =~= nums@.subrange(start as int, start + len));
            }
            start = start + 1;
        }
        proof {
            assert forall|st: int, ln: int| len - 1 < ln implies !is_match(nums@, sum as int, st, ln) by {
                if ln == len && is_match(nums@, sum as int, st, ln) {
                    assert(st < start);
                }
            }
        }
        len = len - 1;
    }
    proof {
        assert(forall|st: int, ln: int| !is_match(nums@, sum as int, st, ln));
        assert(!has_match(nums@, sum as int));
    }
    (n, n)
}

} // verus!
