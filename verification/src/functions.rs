//! Functions as values, and a few that just return one.

use vstd::prelude::*;

verus! {

/// One more than the argument.
pub fn add_one(x: i32) -> (r: i32)
    requires
        x < i32::MAX,
    ensures
        r == x + 1,
{
    x + 1
}

/// Applies `f` to `arg` twice and adds the two results.
pub fn do_twice<F: Fn(i32) -> i32>(f: F, arg: i32) -> (r: i32)
    requires
        call_requires(f, (arg,)),
        forall|y1: i32, y2: i32|
            call_ensures(f, (arg,), y1) && call_ensures(f, (arg,), y2)
                ==> i32::MIN <= y1 + y2 <= i32::MAX,
    ensures
        exists|y1: i32, y2: i32|
            call_ensures(f, (arg,), y1) && call_ensures(f, (arg,), y2) && r == y1 + y2,
{
    let y1 = f(arg);
    let y2 = f(arg);
    y1 + y2
}

/// Hands back a closure that adds one.
pub fn returns_closure() -> (f: impl Fn(i32) -> i32)
    ensures
        forall|x: i32, r: i32| #[trigger] call_ensures(f, (x,), r) ==> r == x + 1,
        forall|x: i32| x < i32::MAX ==> #[trigger] call_requires(f, (x,)),
{
    |x: i32| -> (r: i32)
        requires
            x < i32::MAX,
        ensures
            r == x + 1,
        {
            x + 1
        }
}

/// Five.
pub fn five() -> (r: i32)
    ensures
        r == 5,
{
    5
}

} // verus!
