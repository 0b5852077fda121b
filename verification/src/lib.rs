//! Small verified building blocks: two search routines — locating a pattern
//! inside a text and finding a contiguous subrange of integers with a given
//! sum — together with the rectangle, account, coin, option and string
//! helpers that accompany them.

pub mod coins;
pub mod numbers;
pub mod rect;
pub mod strings;
pub mod subarray;
pub mod substring;
pub mod user;
