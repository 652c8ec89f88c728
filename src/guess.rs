//! Checking a line typed by the player against the rules of a round.
use vstd::prelude::*;
use vstd::utf8::encode_utf8;

use crate::config::{LENGTH_WARNING, NUM_LETTERS};
use crate::console::{ConsoleCall, ConsoleOp};
use crate::text::{ascii_lower_seq, chars_of, to_ascii_lower, views_of};

verus! {

/// `s` without the newlines at its end.
pub open spec fn trim_newlines(s: Seq<char>) -> Seq<char>
    decreases s.len(),
{
    if s.len() > 0 && s.last() == '\n' {
        trim_newlines(s.drop_last())
    } else {
        s
    }
}

/// The guess a typed line stands for: trailing newlines dropped, ASCII letters made small.
pub open spec fn normalized(line: Seq<char>) -> Seq<char> {
    ascii_lower_seq(trim_newlines(line))
}

/// The length of a guess as the rules count it: bytes of its UTF-8 encoding.
pub open spec fn byte_len(s: Seq<char>) -> nat {
    encode_utf8(s).len()
}

/// Each character takes one to four bytes.
proof fn lemma_byte_len_bounds(s: Seq<char>)
    ensures
        s.len() <= byte_len(s) <= 4 * s.len(),
    decreases s.len(),
{
    if s.len() > 0 {
        lemma_byte_len_bounds(s.drop_first());
    }
}

/// The verdict on a guess, as values.
pub enum Verdict {
    Accepted(Seq<char>),
    AlreadyUsed(Seq<char>),
    WrongLength,
    NotInList,
}

/// The rules, checked in this order: a repeat, then the length, then the word list.
pub open spec fn verdict_of(line: Seq<char>, guesses: Seq<Seq<char>>, words: Seq<Seq<char>>) -> Verdict {
    let g = normalized(line);
    if guesses.contains(g) {
        Verdict::AlreadyUsed(g)
    } else if byte_len(g) != NUM_LETTERS {
        Verdict::WrongLength
    } else if !words.contains(g) {
        Verdict::NotInList
    } else {
        Verdict::Accepted(g)
    }
}

/// The verdict on a typed line.
#[derive(Debug, PartialEq, Eq)]
pub enum GuessCheck {
    /// A valid guess, normalized.
    Accepted(String),
    /// The guess was made before in this round.
    AlreadyUsed(String),
    /// The guess does not have the word length.
    WrongLength,
    /// The guess is not in the word list.
    NotInList,
}

impl View for GuessCheck {
    type V = Verdict;

    open spec fn view(&self) -> Verdict {
        match self {
            GuessCheck::Accepted(g) => Verdict::Accepted(g@),
            GuessCheck::AlreadyUsed(g) => Verdict::AlreadyUsed(g@),
            GuessCheck::WrongLength => Verdict::WrongLength,
            GuessCheck::NotInList => Verdict::NotInList,
        }
    }
}

/// The warning printed for a refused guess; nothing for an accepted one.
pub open spec fn warning_of(v: Verdict) -> Option<ConsoleCall> {
    match v {
        Verdict::Accepted(_) => None,
        Verdict::AlreadyUsed(g) => Some(ConsoleCall::PrintWarning("You have already used "@ + g)),
        Verdict::WrongLength => Some(ConsoleCall::PrintWarning(LENGTH_WARNING@)),
        Verdict::NotInList => Some(ConsoleCall::PrintWarning(LENGTH_WARNING@)),
    }
}

impl GuessCheck {
    /// The console operation that tells the player why a guess was refused.
    pub fn warning(&self) -> (r: Option<ConsoleOp>)
        ensures
            r is None <==> warning_of(self@) is None,
            r is Some ==> warning_of(self@) == Some(r->0@),
    {
        match self {
            GuessCheck::Accepted(_) => None,
            GuessCheck::AlreadyUsed(g) => {
                let mut text = String::from_str("You have already used ");
                text.append(g.as_str());
                Some(ConsoleOp::PrintWarning(text))
            },
            GuessCheck::WrongLength => Some(ConsoleOp::PrintWarning(String::from_str(LENGTH_WARNING))),
            GuessCheck::NotInList => Some(ConsoleOp::PrintWarning(String::from_str(LENGTH_WARNING))),
        }
    }
}

/// The guess a typed line stands for.
pub fn normalize_guess(line: &str) -> (r: String)
    ensures
        r@ == normalized(line@),
{
    let chars = chars_of(line);
    let mut end: usize = chars.len();
    proof {
        assert(chars@.take(end as int) =~= chars@);
    }
    while end > 0 && chars[end - 1] == '\n'
        invariant
            end <= chars@.len(),
            chars@ == line@,
            trim_newlines(chars@.take(end as int)) == trim_newlines(line@),
        decreases end,
    {
        proof {
            assert(chars@.take(end as int).drop_last() =~= chars@.take(end - 1));
        }
        end = end - 1;
    }
    let kept = line.substring_char(0, end);
    proof {
        assert(kept@ =~= chars@.take(end as int));
    }
    to_ascii_lower(kept)
}

fn contains_word(list: &Vec<String>, w: &String) -> (r: bool)
    ensures
        r == views_of(list@).contains(w@),
{
    let ghost vs = views_of(list@);
    let mut i: usize = 0;
    while i < list.len()
        invariant
            i <= list@.len(),
            vs == views_of(list@),
            forall|j: int| 0 <= j < i ==> vs[j] != w@,
        decreases list@.len() - i,
    {
        if list[i] == *w {
            proof {
                assert(vs[i as int] == w@);
            }
            return true;
        }
        i = i + 1;
    }
    false
}

/// Judges a line typed by the player against the guesses made so far and the word list.
pub fn check_guess(line: &str, guesses: &Vec<String>, words: &Vec<String>) -> (r: GuessCheck)
    ensures
        r@ == verdict_of(line@, views_of(guesses@), views_of(words@)),
{
    let guess = normalize_guess(line);
    proof {
        lemma_byte_len_bounds(guess@);
    }
    if contains_word(guesses, &guess) {
        GuessCheck::AlreadyUsed(guess)
    } else if guess.as_str().unicode_len() > NUM_LETTERS || guess.as_str().len() != NUM_LETTERS {
        GuessCheck::WrongLength
    } else if !contains_word(words, &guess) {
        GuessCheck::NotInList
    } else {
        GuessCheck::Accepted(guess)
    }
}

} // verus!

verus! {

/// A guess made before in the round is refused as a repeat, whatever else holds of it.
pub proof fn repeated_guess_is_refused(line: Seq<char>, guesses: Seq<Seq<char>>, words: Seq<Seq<char>>)
    requires
        guesses.contains(normalized(line)),
    ensures
        verdict_of(line, guesses, words) == Verdict::AlreadyUsed(normalized(line)),
{
}

/// A guess whose length is not the word length is never accepted, even when the
/// word list holds it.
pub proof fn wrong_length_is_refused(line: Seq<char>, guesses: Seq<Seq<char>>, words: Seq<Seq<char>>)
    requires
        byte_len(normalized(line)) != NUM_LETTERS,
    ensures
        !(verdict_of(line, guesses, words) is Accepted),
{
}

/// A guess missing from the word list is never accepted, even when it has the
/// word length and is new.
pub proof fn unlisted_guess_is_refused(line: Seq<char>, guesses: Seq<Seq<char>>, words: Seq<Seq<char>>)
    requires
        !words.contains(normalized(line)),
    ensures
        !(verdict_of(line, guesses, words) is Accepted),
{
}

} // verus!
