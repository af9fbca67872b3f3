//! Coins, messages and other small enums, with the matches that read them.

use vstd::prelude::*;

verus! {

/// A state on the back of a quarter.
#[derive(Debug, Clone, Copy, PartialEq, Eq, Structural)]
pub enum UsState {
    Alabama,
    Alaska,
}

/// A coin in the hand.
pub enum Coin {
    Penny,
    Nickel,
    Dime,
    Quarter(UsState),
}

/// What a coin is worth, in cents.
pub open spec fn coin_value(coin: Coin) -> u8 {
    match coin {
        Coin::Penny => 1,
        Coin::Nickel => 5,
        Coin::Dime => 10,
        Coin::Quarter(_) => 25,
    }
}

/// Appraises one coin.
pub fn value_in_cents(coin: Coin) -> (cents: u8)
    ensures
        cents == coin_value(coin),
{
    match coin {
        Coin::Penny => 1,
        Coin::Nickel => 5,
        Coin::Dime => 10,
        Coin::Quarter(_state) => 25,
    }
}

/// Adds one where there is something to add to.
pub fn plus_one(x: Option<i32>) -> (r: Option<i32>)
    requires
        x matches Some(i) ==> i < i32::MAX,
    ensures
        x is None ==> r is None,
        x matches Some(i) ==> r matches Some(v) && v == i + 1,
{
    match x {
        None => None,
        Some(i) => Some(i + 1),
    }
}

/// A message a client might send.
pub enum Message {
    Quit,
    Move { x: i32, y: i32 },
    Write(String),
    ChangeColor(i32, i32, i32),
}

impl Message {
    /// Delivers the message. Nothing listens yet.
    pub fn call(&self) {
    }
}

/// Rewards a lucky roll.
pub fn add_fancy_hat() {
}

/// Punishes an unlucky roll.
pub fn remove_fancy_hat() {
}

/// Any other roll is rolled again.
pub fn reroll() {
}

} // verus!
