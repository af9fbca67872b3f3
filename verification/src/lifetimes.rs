//! Borrowed excerpts and choosing between two borrowed strings.

use vstd::prelude::*;
use vstd::string::StringSliceAdditionalSpecFns;

verus! {

/// A passage borrowed from a longer text.
pub struct ImportantExcerpt<'a> {
    pub part: &'a str,
}

impl<'a> ImportantExcerpt<'a> {
    /// How important the excerpt is.
    pub fn level(&self) -> (r: i32)
        ensures
            r == 3,
    {
        3
    }
}

/// The longer of two strings, measured in bytes; ties go to the second.
pub fn longest<'a>(x: &'a str, y: &'a str) -> (r: &'a str)
    ensures
        x.len() > y.len() ==> r@ == x@,
        x.len() <= y.len() ==> r@ == y@,
{
    if x.len() > y.len() {
        x
    } else {
        y
    }
}

} // verus!

pub use crate::ownership::first_word;
