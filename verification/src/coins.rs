//! Coins and their value in cents.

use vstd::prelude::*;

verus! {

/// A state whose name a quarter can carry.
#[derive(Clone, Copy, Debug)]
pub enum UsState {
    Alabama,
    Alaska,
    Arizona,
    Arkansas,
    California,
}

/// A United States coin; a quarter also names the state it honours.
#[derive(Clone, Copy, Debug)]
pub enum Coin {
    Penny,
    Nickel,
    Dime,
    Quarter(UsState),
}

/// The face value of a coin, in cents.
pub open spec fn coin_value(coin: Coin) -> u32 {
    match coin {
        Coin::Penny => 1,
        Coin::Nickel => 5,
        Coin::Dime => 10,
        Coin::Quarter(_) => 25,
    }
}

/// The face value of `coin` in cents.
pub fn value_in_cents(coin: Coin) -> (cents: u32)
    ensures
        cents == coin_value(coin),
{
    match coin {
        Coin::Penny => 1,
        Coin::Nickel => 5,
        Coin::Dime => 10,
        Coin::Quarter(_) => 25,
    }
}

} // verus!
