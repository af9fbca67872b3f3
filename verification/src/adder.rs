//! Small arithmetic and greeting helpers.

use vstd::prelude::*;

verus! {

/// Sum of two machine words.
pub fn add(left: usize, right: usize) -> (r: usize)
    requires
        left + right <= usize::MAX,
    ensures
        r == left + right,
{
    left + right
}

/// Builds the greeting line for `name`.
pub fn greeting(name: &str) -> (r: String)
    ensures
        r@ == "Hello "@ + name@ + "!"@,
{
    let mut r = "Hello ".to_owned();
    r.append(name);
    r.append("!");
    r
}

/// A number that is known to lie between 1 and 100.
pub struct Guess {
    value: i32,
}

impl Guess {
    pub closed spec fn spec_value(self) -> i32 {
        self.value
    }

    pub fn new(value: i32) -> (g: Guess)
        requires
            1 <= value <= 100,
        ensures
            g.spec_value() == value,
    {
        Guess { value }
    }
}

/// Adds two to `a`.
pub fn add_two(a: i32) -> (r: i32)
    requires
        a + 2 <= i32::MAX,
    ensures
        r == a + 2,
{
    internal_adder(a, 2)
}

/// Sum of two signed words.
pub fn internal_adder(a: i32, b: i32) -> (r: i32)
    requires
        i32::MIN <= a + b <= i32::MAX,
    ensures
        r == a + b,
{
    a + b
}

} // verus!
