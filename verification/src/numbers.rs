//! Small arithmetic helpers on fixed-width integers.

use vstd::prelude::*;

verus! {

/// The product of `x` and `y`, exact whenever it fits in an `i32`.
pub fn sum_multiply(x: i32, y: i32) -> (product: i32)
    requires
        i32::MIN <= x * y <= i32::MAX,
    ensures
        product == x * y,
{
    x * y
}

/// One more than the given number, when there is one; `None` stays `None`.
pub fn plus_one(x: Option<i32>) -> (res: Option<i32>)
    requires
        x matches Some(i) ==> i < i32::MAX,
    ensures
        x matches Some(i) ==> res == Some((i + 1) as i32),
        x is None ==> res is None,
{
    match x {
        Some(i) => Some(i + 1),
        _ => None,
    }
}

} // verus!
