use vstd::prelude::*;

verus! {

/// Number of letters in every word of a round.
pub const NUM_LETTERS: usize = 5;

/// Number of guesses a player gets in a round.
pub const NUM_GUESSES: usize = 6;

/// Warning shown when a guess is refused for its length or for being unknown.
pub const LENGTH_WARNING: &'static str = "Your guess must be 5 letters";

/// Stem of the word-list file names (`words_<lang>.txt`).
pub const BASE_FILENAME: &'static str = "words";

/// The word length and the guess budget, for the host to size its round.
pub fn get_config() -> (r: (usize, usize))
    ensures
        r == (NUM_LETTERS, NUM_GUESSES),
        r == (5usize, 6usize),
{
    (NUM_LETTERS, NUM_GUESSES)
}

} // verus!
