//! The screens that frame a round: a page headline and the end-of-game announcement.
use vstd::prelude::*;

use crate::console::{calls_of, ConsoleCall, ConsoleOp};
use crate::feedback::{feedback_calls, show_guesses};
use crate::text::views_of;

verus! {

/// The rule text drawn under a headline.
pub open spec fn banner_of(headline: Seq<char>) -> Seq<char> {
    "[bold blue]:leafy_green: "@ + headline + " :leafy_green:[/]\n"@
}

/// A fresh page: clear the console, then draw the headline's rule.
pub open spec fn page_calls(headline: Seq<char>) -> Seq<ConsoleCall> {
    seq![ConsoleCall::Clear, ConsoleCall::Rule(banner_of(headline))]
}

/// The closing line naming the secret word: green when won, red otherwise.
pub open spec fn outcome_text(word: Seq<char>, win: bool) -> Seq<char> {
    if win {
        "\n[bold white on green]Correct, the word is "@ + word + "[/]"@
    } else {
        "\n[bold white on red]Sorry, the word was "@ + word + "[/]"@
    }
}

/// The end-of-game screen: a "Game Over" page, the feedback of every guess,
/// then the outcome. A missing `win` counts as a loss.
pub open spec fn game_over_calls(
    guesses: Seq<Seq<char>>,
    word: Seq<char>,
    alphabet: Seq<char>,
    win: Option<bool>,
) -> Seq<ConsoleCall> {
    page_calls("Game Over"@) + feedback_calls(word, guesses, alphabet) + seq![
        ConsoleCall::Print(outcome_text(word, win == Some(true))),
    ]
}

/// The operations that clear the console and draw `headline` as a rule.
pub fn refresh_page(headline: &str) -> (r: Vec<ConsoleOp>)
    ensures
        calls_of(r@) == page_calls(headline@),
{
    let mut rule = String::from_str("[bold blue]:leafy_green: ");
    rule.append(headline);
    rule.append(" :leafy_green:[/]\n");
    let ops = vec![ConsoleOp::Clear, ConsoleOp::Rule(rule)];
    proof {
        assert(calls_of(ops@) =~= page_calls(headline@));
    }
    ops
}

/// The operations of the end-of-game screen.
pub fn game_over(guesses: &Vec<String>, word: &str, ascii_letters: &str, win: Option<bool>) -> (r:
    Vec<ConsoleOp>)
    ensures
        calls_of(r@) == game_over_calls(views_of(guesses@), word@, ascii_letters@, win),
{
    let is_win = match win {
        Some(w) => w,
        None => false,
    };
    let mut ops = refresh_page("Game Over");
    let mut feedback = show_guesses(guesses, word, ascii_letters);
    let ghost page = ops@;
    let ghost shown = feedback@;
    ops.append(&mut feedback);
    let mut message = if is_win {
        String::from_str("\n[bold white on green]Correct, the word is ")
    } else {
        String::from_str("\n[bold white on red]Sorry, the word was ")
    };
    message.append(word);
    message.append("[/]");
    let ghost joined = ops@;
    ops.push(ConsoleOp::Print(message));
    proof {
        assert(joined =~= page + shown);
        assert(calls_of(page + shown) =~= calls_of(page) + calls_of(shown));
        assert(message@ =~= outcome_text(word@, win == Some(true)));
        assert(calls_of(ops@) =~= calls_of(joined).push(ConsoleCall::Print(message@)));
        assert(calls_of(ops@) =~= game_over_calls(views_of(guesses@), word@, ascii_letters@, win));
    }
    ops
}

} // verus!

verus! {

/// The end-of-game screen closes with a banner naming the secret word: green
/// "Correct" when the round was won, red "Sorry" when it was lost or `win` is missing.
pub proof fn game_over_names_the_word(
    guesses: Seq<Seq<char>>,
    word: Seq<char>,
    alphabet: Seq<char>,
    win: Option<bool>,
)
    ensures
        win == Some(true) ==> game_over_calls(guesses, word, alphabet, win).last()
            == ConsoleCall::Print("\n[bold white on green]Correct, the word is "@ + word + "[/]"@),
        win != Some(true) ==> game_over_calls(guesses, word, alphabet, win).last()
            == ConsoleCall::Print("\n[bold white on red]Sorry, the word was "@ + word + "[/]"@),
{
}

} // verus!
