//! What the game takes on trust: the contracts of the functions of rand and
//! of the standard library that it calls. Verus believes them as they stand;
//! the rest of the game is proved from them.

use rand::Rng;
use vstd::prelude::*;

verus! {

/// `rand::rngs::ThreadRng`, the handle to a thread's generator. It is
/// declared so that a handle can be passed on; nothing in it is looked at.
#[verifier::external_type_specification]
#[verifier::external_body]
pub struct ExThreadRng(rand::rngs::ThreadRng);

/// `rand::thread_rng` hands out a handle to the generator of the calling
/// thread, which the system seeds on first use. Nothing is claimed of the
/// handle. The call fails only where the system cannot supply a seed.
pub assume_specification[ rand::thread_rng ]() -> (rng: rand::rngs::ThreadRng)
;

/// `Rng::gen_range` of rand, called on the inclusive range from `low` to
/// `high`: the number drawn lies in that range. Which number it is depends
/// on the state of the generator, of which nothing is said. The range must
/// not be empty, since rand panics on an empty one.
#[verifier::external_body]
pub(crate) fn gen_range_inclusive(rng: &mut rand::rngs::ThreadRng, low: i32, high: i32) -> (n: i32)
    requires
        low <= high,
    ensures
        low <= n <= high,
{
    rng.gen_range(low..=high)
}

/// What `str::trim` returns for a text: the text without the white space at
/// its two ends.
pub uninterp spec fn trimmed(text: Seq<char>) -> Seq<char>;

/// What parsing a text as an `i32` with `str::parse` returns: the number
/// when the text is the decimal form of one, `None` when it is not.
pub uninterp spec fn parsed_i32(text: Seq<char>) -> Option<i32>;

/// `str::trim` returns the slice of `text` that is left when leading and
/// trailing white space is removed; `trimmed` names its characters.
pub assume_specification[ str::trim ](text: &str) -> (inner: &str)
    ensures
        inner@ == trimmed(text@),
;

/// `str::parse::<i32>` turns a text into the number that it writes down, or
/// fails; `parsed_i32` names the outcome, with `None` for a failure.
#[verifier::external_body]
pub(crate) fn parse_i32(text: &str) -> (number: Option<i32>)
    ensures
        number == parsed_i32(text@),
{
    match text.parse::<i32>() {
        Ok(n) => Some(n),
        Err(_) => None,
    }
}

} // verus!
