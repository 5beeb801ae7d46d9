//! Enums and `match`: messages, coins and `Option`.
use vstd::prelude::*;

verus! {

/// A message with variants of every shape: none, named fields, one value,
/// and a tuple.
#[derive(Debug)]
pub enum Message {
    Quit,
    Move { x: i32, y: i32 },
    Write(String),
    ChangeColor(i32, i32, i32),
}

/// A US coin.
#[derive(Clone, Copy, Debug, PartialEq, Eq, Structural)]
pub enum Coin {
    Penny,
    Nickel,
    Dime,
    Quarter,
}

/// What a coin is worth, in cents.
pub open spec fn cents(coin: Coin) -> nat {
    match coin {
        Coin::Penny => 1,
        Coin::Nickel => 5,
        Coin::Dime => 10,
        Coin::Quarter => 25,
    }
}

/// The value of `coin` in cents.
pub fn value_in_cents(coin: Coin) -> (r: u8)
    ensures
        r == cents(coin),
{
    match coin {
        Coin::Penny => 1,
        Coin::Nickel => 5,
        Coin::Dime => 10,
        Coin::Quarter => 25,
    }
}

/// Adds one to the value inside `x`, if there is one.
pub fn plus_one(x: Option<i32>) -> (r: Option<i32>)
    requires
        x matches Some(i) ==> i < i32::MAX,
    ensures
        x is None ==> r is None,
        x matches Some(i) ==> r == Some((i + 1) as i32),
{
    match x {
        None => None,
        Some(i) => Some(i + 1),
    }
}

/// The action for a roll of 3; it has no effect.
pub fn add_fancy_hat() {
}

/// The action for a roll of 7; it has no effect.
pub fn remove_fancy_hat() {
}

/// The action for any other roll; it has no effect.
pub fn reroll() {
}

} // verus!
