//! The Fibonacci sequence, iteratively.

use vstd::prelude::*;

verus! {

/// The Fibonacci sequence: 0, 1, 1, 2, 3, 5, 8, ...
pub open spec fn fib_seq(n: nat) -> nat
    decreases n,
{
    if n == 0 {
        0
    } else if n == 1 {
        1
    } else {
        fib_seq((n - 2) as nat) + fib_seq((n - 1) as nat)
    }
}

/// The sequence never decreases.
proof fn lemma_fib_seq_monotonic(m: nat, n: nat)
    requires
        m <= n,
    ensures
        fib_seq(m) <= fib_seq(n),
    decreases n - m,
{
    if m < n {
        lemma_fib_seq_monotonic(m, (n - 1) as nat);
    }
}

/// The `n`th entry of the sequence as counted from one: `fib(1)` is the
/// first entry, 0. Anything below one is answered with 0 as well. The entry
/// asked for — and with it everything computed on the way — must fit the
/// machine word.
pub fn fib(n: i32) -> (r: i32)
    requires
        n >= 1 ==> fib_seq(n as nat) <= i32::MAX,
    ensures
        n < 1 ==> r == 0,
        n >= 1 ==> r == fib_seq((n - 1) as nat),
{
    let mut prev: i32 = 0;
    let mut curr: i32 = 1;
    let mut i: i32 = 1;
    if n < 1 {
        return 0;
    }
    loop
        invariant
            1 <= i <= n,
            fib_seq(n as nat) <= i32::MAX,
            prev == fib_seq((i - 1) as nat),
            curr == fib_seq(i as nat),
        ensures
            prev == fib_seq((n - 1) as nat),
        decreases n - i,
    {
        if i == n {
            break;
        } else {
            proof {
                lemma_fib_seq_monotonic((i + 1) as nat, n as nat);
            }
            let next = prev + curr;
            prev = curr;
            curr = next;
            i = i + 1;
        }
    }
    prev
}

} // verus!
