//! One round of the number-guessing game: a secret is drawn, the player's
//! line is parsed, and the guess is compared against the secret. Reading the
//! player's input is left to the caller; everything decided about it happens
//! here.

use rand::Rng;
use vstd::prelude::*;
use vstd::string::StringSliceAdditionalSpecFns;

verus! {

/// How a guess compares to the secret.
#[derive(Debug, Clone, Copy, PartialEq, Eq, Structural)]
pub enum GuessOutcome {
    TooSmall,
    TooBig,
    Win,
}

/// Relies on rand's `Rng::gen_range` on `thread_rng`: the sample always lies
/// within the given range, and the range `1..=100` is not empty, so the call
/// does not panic. Nothing more can be promised of a random draw.
#[verifier::external_body]
fn draw_secret() -> (r: u32)
    ensures
        1 <= r <= 100,
{
    rand::thread_rng().gen_range(1..=100)
}

/// Draws the secret number for a fresh round. Whatever the generator
/// returns, the secret lies between 1 and 100 inclusive.
pub fn new_secret() -> (r: u32)
    ensures
        1 <= r <= 100,
{
    draw_secret()
}

/// Whether `b` is a non-empty run of ASCII decimal digits.
pub open spec fn all_digits(b: Seq<u8>) -> bool {
    b.len() > 0 && forall|i: int| 0 <= i < b.len() ==> 48 <= #[trigger] b[i] <= 57
}

/// The number a run of ASCII decimal digits denotes.
pub open spec fn decimal_value(b: Seq<u8>) -> nat
    decreases b.len(),
{
    if b.len() == 0 {
        0
    } else {
        decimal_value(b.drop_last()) * 10 + (b.last() - 48) as nat
    }
}

/// A longer digit run never denotes a smaller number: the value of a prefix
/// is a lower bound for the value of the whole run.
proof fn lemma_decimal_value_prefix(b: Seq<u8>, j: int)
    requires
        0 <= j <= b.len(),
        forall|i: int| 0 <= i < b.len() ==> 48 <= #[trigger] b[i] <= 57,
    ensures
        decimal_value(b.take(j)) <= decimal_value(b),
    decreases b.len() - j,
{
    if j < b.len() {
        assert(b.take(j + 1).drop_last() =~= b.take(j));
        assert(decimal_value(b.take(j)) <= decimal_value(b.take(j + 1)));
        lemma_decimal_value_prefix(b, j + 1);
    } else {
        assert(b.take(j) =~= b);
    }
}

/// Reads the player's line as a decimal number. Returns the number exactly
/// when the line is a non-empty run of ASCII digits whose value fits in a
/// `u32`; anything else — an empty line, a stray character, a value too
/// large — is `None`, and the caller asks for another guess.
pub fn parse_guess(s: &str) -> (r: Option<u32>)
    ensures
        r is Some <==> all_digits(s.spec_bytes()) && decimal_value(s.spec_bytes()) <= u32::MAX,
        r matches Some(v) ==> v == decimal_value(s.spec_bytes()),
{
    let bytes = s.as_bytes();
    let n = bytes.len();
    if n == 0 {
        return None;
    }
    let mut acc: u32 = 0;
    let mut i: usize = 0;
    while i < n
        invariant
            n == bytes@.len(),
            bytes@ == s.spec_bytes(),
            0 < n,
            i <= n,
            forall|k: int| 0 <= k < i ==> 48 <= #[trigger] bytes@[k] <= 57,
            acc == decimal_value(bytes@.take(i as int)),
        decreases n - i,
    {
        let b = bytes[i];
        if b < 48 || b > 57 {
            return None;
        }
        let d = (b - 48) as u32;
        if acc > (u32::MAX - d) / 10 {
            // The value can only keep growing from here on; once the prefix
            // no longer fits, the whole run cannot fit either.
            proof {
                assert(bytes@.take(i as int + 1).drop_last() =~= bytes@.take(i as int));
                assert(acc * 10 + d > u32::MAX) by (nonlinear_arith)
                    requires
                        acc > (u32::MAX - d) / 10,
                        d <= 9,
                ;
                if forall|k: int| 0 <= k < bytes@.len() ==> 48 <= #[trigger] bytes@[k] <= 57 {
                    lemma_decimal_value_prefix(bytes@, i as int + 1);
                }
            }
            return None;
        }
        proof {
            assert(acc * 10 + d <= u32::MAX) by (nonlinear_arith)
                requires
                    acc <= (u32::MAX - d) / 10,
                    d <= 9,
            ;
            assert(bytes@.take(i as int + 1).drop_last() =~= bytes@.take(i as int));
        }
        acc = acc * 10 + d;
        i = i + 1;
    }
    proof {
        assert(bytes@.take(n as int) =~= bytes@);
    }
    Some(acc)
}

/// Compares a parsed guess to the secret: the player learns whether the
/// guess was too small, too big, or exactly right.
pub fn evaluate_guess(guess: u32, secret: u32) -> (r: GuessOutcome)
    ensures
        (r == GuessOutcome::Win) == (guess == secret),
        (r == GuessOutcome::TooSmall) == (guess < secret),
        (r == GuessOutcome::TooBig) == (guess > secret),
{
    if guess < secret {
        GuessOutcome::TooSmall
    } else if guess > secret {
        GuessOutcome::TooBig
    } else {
        GuessOutcome::Win
    }
}

} // verus!
