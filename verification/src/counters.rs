//! A counter that steps from one to five, and other small trait exercises.

use vstd::prelude::*;

verus! {

/// A supplier of items, one at a time, until it runs dry.
pub trait Iterator {
    /// The kind of item handed out.
    type Item;

    /// The next item, or `None` once the supply is exhausted.
    fn next(&mut self) -> Option<Self::Item>;
}

/// Counts from one to five, once.
pub struct Counter {
    count: u32,
}

impl Counter {
    /// How many steps have been taken so far.
    pub closed spec fn spec_count(self) -> u32 {
        self.count
    }

    /// A counter that has not stepped yet.
    pub fn new() -> (c: Counter)
        ensures
            c.spec_count() == 0,
    {
        Counter { count: 0 }
    }
}

impl Iterator for Counter {
    type Item = u32;

    fn next(&mut self) -> (r: Option<u32>)
        ensures
            old(self).spec_count() < 5 ==> final(self).spec_count()
                == old(self).spec_count() + 1 && r == Some(final(self).spec_count()),
            old(self).spec_count() >= 5 ==> final(self).spec_count()
                == old(self).spec_count() && r is None,
    {
        if self.count < 5 {
            self.count += 1;
            Some(self.count)
        } else {
            None
        }
    }
}

/// Anything whose young have a name of their own.
pub trait Animal {
    /// What [`Animal::baby_name`] answers.
    spec fn spec_baby_name() -> Seq<char>;

    /// What this animal's young are called.
    fn baby_name() -> (r: String)
        ensures
            r@ == Self::spec_baby_name(),
    ;
}

/// A dog. All dogs here are named Spot.
pub struct Dog;

impl Dog {
    /// What this particular dog's puppies are called: after their parent.
    pub fn baby_name() -> (r: String)
        ensures
            r@ == "Spot"@,
    {
        "Spot".to_owned()
    }
}

impl Animal for Dog {
    open spec fn spec_baby_name() -> Seq<char> {
        "puppy"@
    }

    fn baby_name() -> (r: String)
        ensures
            r@ == Self::spec_baby_name(),
    {
        "puppy".to_owned()
    }
}

/// Takes any sized value and does nothing with it.
pub fn generic<T>(t: T) {
    let _ = t;
}

} // verus!
