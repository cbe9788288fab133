//! The lines of flavor text, one of which closes every fatal report.

use rand::seq::SliceRandom;
use vstd::prelude::*;

verus! {

/// The pool of flavor lines.
pub const QUOTES: [&'static str; 9] = [
    "Nobody exists on purpose, nobody belongs anywhere, we're all going to die. -Morty",
    "That's planning for failure Morty, even dumber than regular planning. -Rick",
    "\"Snuffles\" was my slave name. You shall now call me Snowball, because my fur is pretty and white. -S̶n̶u̶f̶f̶l̶e̶s̶ Snowbal",
    "Existence is pain to an interpreter. -Meeseeks",
    "In bird culture this is considered a dick move -Bird Person",
    "There is no god, gotta rip that band aid off now. You'll thank me later. -Rick",
    "Your program is a piece of shit and I can proove it mathmatically. -Rick",
    "Interpreting Morty, it hits hard, then it slowly fades, leaving you stranded in a failing program. -Rick",
    "DISQUALIFIED. -Cromulon",
];

/// Whether a text is one of the lines of the pool.
pub open spec fn is_quote(text: Seq<char>) -> bool {
    exists|i: int| 0 <= i < QUOTES@.len() && (#[trigger] QUOTES@[i])@ == text
}

/// `rand::seq::SliceRandom::choose` on a slice of lines, with the generator
/// that `rand::thread_rng` hands out: `None` for an empty slice, else one of
/// the slice's items, at an index that the generator draws. Which one is a
/// matter of chance. The generator panics if the operating system cannot seed
/// it.
#[verifier::external_body]
fn choose_line(pool: &[&'static str]) -> (r: Option<&'static str>)
    ensures
        match r {
            Some(line) => pool@.contains(line),
            None => pool@.len() == 0,
        },
{
    let mut rng = rand::thread_rng();
    pool.choose(&mut rng).copied()
}

/// One line of the pool, drawn at random. The pool is never empty.
pub fn random_quote() -> (quote: &'static str)
    ensures
        is_quote(quote@),
{
    match choose_line(&QUOTES) {
        Some(quote) => quote,
        None => QUOTES[0],
    }
}

} // verus!
