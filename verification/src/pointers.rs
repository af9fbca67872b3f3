//! A hand-rolled box.

use vstd::prelude::*;

verus! {

/// A box of one's own: wraps a single value.
pub struct MyBox<T>(pub T);

impl<T> MyBox<T> {
    /// Puts `x` in the box.
    pub fn new(x: T) -> (b: MyBox<T>)
        ensures
            b.0 == x,
    {
        MyBox(x)
    }
}

} // verus!
