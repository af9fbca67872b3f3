//! A shirt giveaway: the customer's preference wins, otherwise the colour
//! the store has most of.

use vstd::prelude::*;

verus! {

/// The two colours the store stocks.
#[derive(Debug, Clone, Copy, PartialEq, Eq, Structural)]
pub enum ShirtColor {
    Red,
    Blue,
}

/// How many shirts of colour `c` the stock holds.
pub open spec fn count_color(shirts: Seq<ShirtColor>, c: ShirtColor) -> nat
    decreases shirts.len(),
{
    if shirts.len() == 0 {
        0
    } else {
        count_color(shirts.drop_last(), c) + if shirts.last() == c {
            1nat
        } else {
            0nat
        }
    }
}

/// The colour the stock holds most of; ties go to blue.
pub open spec fn dominant_color(shirts: Seq<ShirtColor>) -> ShirtColor {
    if count_color(shirts, ShirtColor::Red) > count_color(shirts, ShirtColor::Blue) {
        ShirtColor::Red
    } else {
        ShirtColor::Blue
    }
}

/// The store's stock of shirts.
pub struct Inventory {
    pub shirts: Vec<ShirtColor>,
}

impl Inventory {
    /// The colour the customer walks away with: their preference if they
    /// voiced one, the best-stocked colour otherwise.
    pub fn giveaway(&self, user_preference: Option<ShirtColor>) -> (c: ShirtColor)
        ensures
            user_preference matches Some(p) ==> c == p,
            user_preference is None ==> c == dominant_color(self.shirts@),
    {
        match user_preference {
            Some(p) => p,
            None => self.most_stocked(),
        }
    }

    /// The colour the stock holds most of; ties go to blue.
    pub fn most_stocked(&self) -> (c: ShirtColor)
        ensures
            c == dominant_color(self.shirts@),
    {
        let mut num_red: usize = 0;
        let mut num_blue: usize = 0;
        let n = self.shirts.len();
        let mut i: usize = 0;
        while i < n
            invariant
                n == self.shirts@.len(),
                i <= n,
                num_red == count_color(self.shirts@.take(i as int), ShirtColor::Red),
                num_blue == count_color(self.shirts@.take(i as int), ShirtColor::Blue),
                num_red + num_blue == i,
            decreases n - i,
        {
            proof {
                assert(self.shirts@.take(i as int + 1).drop_last() =~= self.shirts@.take(
                    i as int,
                ));
            }
            match self.shirts[i] {
                ShirtColor::Red => {
                    num_red += 1;
                },
                ShirtColor::Blue => {
                    num_blue += 1;
                },
            }
            i += 1;
        }
        proof {
            assert(self.shirts@.take(n as int) =~= self.shirts@);
        }
        if num_red > num_blue {
            ShirtColor::Red
        } else {
            ShirtColor::Blue
        }
    }
}

} // verus!
