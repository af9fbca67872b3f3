//! A number that carries its own range check — values outside 1..=100 are a
//! programmer error and are ruled out at construction — and a small reader
//! of text lines.

use vstd::prelude::*;

verus! {

/// A guess between 1 and 100 inclusive.
pub struct Guess {
    value: i32,
}

impl Guess {
    /// The number this guess holds.
    pub closed spec fn spec_value(self) -> i32 {
        self.value
    }

    /// Wraps `value`; only values between 1 and 100 are accepted.
    pub fn new(value: i32) -> (g: Guess)
        requires
            1 <= value <= 100,
        ensures
            g.spec_value() == value,
    {
        Guess { value }
    }

    /// Reads the number back.
    pub fn value(&self) -> (v: i32)
        ensures
            v == self.spec_value(),
    {
        self.value
    }
}

/// How many characters the first line of `s` runs before its newline — the
/// whole of `s` when there is none.
pub open spec fn line_len(s: Seq<char>) -> int
    decreases s.len(),
{
    if s.len() == 0 {
        0
    } else if s[0] == '\n' {
        0
    } else {
        1 + line_len(s.skip(1))
    }
}

/// The first line of `s`, its newline and any carriage return before it
/// stripped.
pub open spec fn first_line(s: Seq<char>) -> Seq<char> {
    let raw = s.take(line_len(s));
    if raw.len() > 0 && raw.last() == '\r' {
        raw.drop_last()
    } else {
        raw
    }
}

/// Scanning a newline-free prefix leaves the line running through it.
proof fn lemma_line_len_from(s: Seq<char>, i: int)
    requires
        0 <= i <= s.len(),
        forall|k: int| 0 <= k < i ==> s[k] != '\n',
    ensures
        line_len(s) == i + line_len(s.skip(i)),
    decreases i,
{
    if i > 0 {
        lemma_line_len_from(s, i - 1);
        assert(s.skip(i - 1)[0] == s[i - 1]);
        assert(s.skip(i - 1).skip(1) =~= s.skip(i));
    } else {
        assert(s.skip(0) =~= s);
    }
}

/// The character the first line of `text` ends with, or `None` when there
/// is no first line to speak of.
pub fn last_char_of_first_line(text: &str) -> (r: Option<char>)
    ensures
        first_line(text@).len() == 0 ==> r is None,
        first_line(text@).len() > 0 ==> r == Some(first_line(text@).last()),
{
    let n = text.unicode_len();
    let mut i: usize = 0;
    while i < n && text.get_char(i) != '\n'
        invariant
            n == text@.len(),
            i <= n,
            forall|k: int| 0 <= k < i ==> text@[k] != '\n',
        decreases n - i,
    {
        i = i + 1;
    }
    proof {
        lemma_line_len_from(text@, i as int);
        if (i as int) < text@.len() {
            assert(text@.skip(i as int)[0] == text@[i as int]);
        } else {
            assert(text@.skip(i as int).len() == 0);
        }
        assert(line_len(text@) == i);
    }
    if i == 0 {
        None
    } else {
        let c = text.get_char(i - 1);
        proof {
            assert(text@.take(i as int).last() == text@[i as int - 1]);
        }
        if c == '\r' {
            if i == 1 {
                None
            } else {
                proof {
                    assert(text@.take(i as int).drop_last().last() == text@[i as int - 2]);
                }
                Some(text.get_char(i - 2))
            }
        } else {
            Some(c)
        }
    }
}

} // verus!
