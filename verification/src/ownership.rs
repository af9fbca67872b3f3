//! Handing strings around: owning, borrowing, and giving back.

use vstd::prelude::*;

verus! {

/// Mints a string for the caller to own.
pub fn gives_ownership() -> (r: String)
    ensures
        r@ == "yours"@,
{
    let some_string = "yours".to_owned();
    some_string
}

/// Takes a string and hands the very same one back.
pub fn takes_and_gives_back(a_string: String) -> (r: String)
    ensures
        r@ == a_string@,
{
    a_string
}

/// Measures a string by consuming it, returning it along with its length in
/// characters.
pub fn calculate_length(s: String) -> (r: (String, usize))
    ensures
        r.0@ == s@,
        r.1 == s@.len(),
{
    let length = s.as_str().unicode_len();
    (s, length)
}

/// Measures a string through a reference, in characters.
pub fn calculate_length_with_reference(s: &String) -> (len: usize)
    ensures
        len == s@.len(),
{
    s.as_str().unicode_len()
}

/// Greets the world onto the end of the string.
pub fn change(some_string: &mut String)
    ensures
        final(some_string)@ == old(some_string)@ + ", world"@,
{
    some_string.append(", world");
}

/// Builds a string and moves it out whole; nothing dangles.
pub fn no_dangle() -> (r: String)
    ensures
        r@ == "hello"@,
{
    let s = "hello".to_owned();
    s
}

/// The prefix of `s` up to, and not including, its first space; all of `s`
/// when there is none.
pub fn first_word(s: &str) -> (r: &str)
    ensures
        r@ == s@.take(r@.len() as int),
        forall|k: int| 0 <= k < r@.len() ==> s@[k] != ' ',
        r@.len() < s@.len() ==> s@[r@.len() as int] == ' ',
        r@.len() <= s@.len(),
{
    let n = s.unicode_len();
    let mut i: usize = 0;
    while i < n
        invariant
            n == s@.len(),
            i <= n,
            forall|k: int| 0 <= k < i ==> s@[k] != ' ',
        decreases n - i,
    {
        if s.get_char(i) == ' ' {
            return s.substring_char(0, i);
        }
        i = i + 1;
    }
    s.substring_char(0, n)
}

} // verus!
