//! The rules of a number-guessing game.
//!
//! A secret number between 1 and 100 is drawn, and the player enters lines
//! until one of them is the secret. This module draws the number, says what
//! a line of input means, and judges a guess. Reading the lines and printing
//! the answers is left to the program around it.

use crate::game::trusted::{gen_range_inclusive, parse_i32, parsed_i32, trimmed};
use vstd::prelude::*;
use vstd::string::StrSliceExecFns;

pub mod trusted;

verus! {

/// The smallest number that can be the secret.
pub const LOWEST_SECRET: i32 = 1;

/// The largest number that can be the secret.
pub const HIGHEST_SECRET: i32 = 100;

/// What a line of input means.
#[derive(Clone, Copy, Debug, PartialEq, Eq)]
pub enum Attempt {
    /// The line holds a number: a guess.
    Number(i32),
    /// The line holds the word `quit`: the player gives up.
    Quit,
    /// The line holds neither: the player is asked again.
    Invalid,
}

/// How a guess compares to the secret.
#[derive(Clone, Copy, Debug, PartialEq, Eq)]
pub enum Verdict {
    /// The guess is below the secret.
    TooLow,
    /// The guess is above the secret.
    TooHigh,
    /// The guess is the secret.
    Win,
}

/// What a line means whose trimmed text is `text` and parses to `number`.
/// A number is a guess, whatever the text; of what is left only the word
/// `quit` has a meaning.
pub open spec fn attempt_of(number: Option<i32>, text: Seq<char>) -> Attempt {
    match number {
        Some(n) => Attempt::Number(n),
        None => if text == "quit"@ {
            Attempt::Quit
        } else {
            Attempt::Invalid
        },
    }
}

/// How `guess` compares to `secret`.
pub open spec fn verdict_of(guess: i32, secret: i32) -> Verdict {
    if guess < secret {
        Verdict::TooLow
    } else if guess > secret {
        Verdict::TooHigh
    } else {
        Verdict::Win
    }
}

impl Verdict {
    /// The text that tells the player of this verdict.
    pub open spec fn message_text(self) -> Seq<char> {
        match self {
            Verdict::TooLow => "Too low!"@,
            Verdict::TooHigh => "Too high!"@,
            Verdict::Win => "You win!"@,
        }
    }

    /// The text that tells the player of this verdict.
    pub fn message(&self) -> (text: &'static str)
        ensures
            text@ == self.message_text(),
    {
        match self {
            Verdict::TooLow => "Too low!",
            Verdict::TooHigh => "Too high!",
            Verdict::Win => "You win!",
        }
    }
}

/// Draws the secret number of a game.
pub fn gen_secret_number() -> (secret: i32)
    ensures
        LOWEST_SECRET <= secret <= HIGHEST_SECRET,
{
    let mut rng = rand::thread_rng();
    gen_range_inclusive(&mut rng, LOWEST_SECRET, HIGHEST_SECRET)
}

/// Whether `text` is the word `quit`, letter for letter.
fn is_quit(text: &str) -> (b: bool)
    ensures
        b == (text@ == "quit"@),
{
    proof {
        reveal_strlit("quit");
    }
    if text.unicode_len() != 4 {
        return false;
    }
    let b = text.get_char(0) == 'q' && text.get_char(1) == 'u' && text.get_char(2) == 'i'
        && text.get_char(3) == 't';
    proof {
        if b {
            assert(text@ =~= "quit"@);
        }
    }
    b
}

/// Says what a line means, given its trimmed text and what that text parses
/// to as a number.
pub fn classify(number: Option<i32>, text: &str) -> (attempt: Attempt)
    ensures
        attempt == attempt_of(number, text@),
{
    match number {
        Some(n) => Attempt::Number(n),
        None => if is_quit(text) {
            Attempt::Quit
        } else {
            Attempt::Invalid
        },
    }
}

/// Says what a line of input means. White space around the entry, the end
/// of the line included, does not count.
pub fn read_guess(line: &str) -> (attempt: Attempt)
    ensures
        attempt == attempt_of(parsed_i32(trimmed(line@)), trimmed(line@)),
{
    let text = line.trim();
    let number = parse_i32(text);
    classify(number, text)
}

/// Judges a guess. A win sets `should_break`, which tells the caller to end
/// the game; any other verdict leaves it as it is.
pub fn compare_guess_to_secret(
    guess: &i32,
    secret_number: &i32,
    should_break: &mut bool,
) -> (verdict: Verdict)
    ensures
        verdict == verdict_of(*guess, *secret_number),
        *final(should_break) == (*old(should_break) || verdict == Verdict::Win),
{
    if *guess < *secret_number {
        Verdict::TooLow
    } else if *guess > *secret_number {
        Verdict::TooHigh
    } else {
        *should_break = true;
        Verdict::Win
    }
}

} // verus!
