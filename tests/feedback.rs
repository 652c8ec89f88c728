use ruchle::console::ConsoleOp;
use ruchle::feedback::LetterStyle::{Absent, Exact, Present, Unknown};
use ruchle::feedback::{classify, render_guess, show_guesses, LetterStatus, LetterStyle};

const ALPHABET: &str = "abcdefghijklmnopqrstuvwxyz";

const EXACT: &str = "bold white on green";
const PRESENT: &str = "bold white on yellow";
const ABSENT: &str = "white on #666666";

fn mark(style: &str, c: char) -> String {
    format!("[{}]{}[/]", style, c)
}

#[test]
fn same_word_is_all_exact() {
    assert_eq!(classify("light", "light", ALPHABET), vec![LetterStyle::Exact; 5]);
}

#[test]
fn one_letter_off() {
    assert_eq!(classify("light", "night", ALPHABET), vec![Absent, Exact, Exact, Exact, Exact]);
}

#[test]
fn repeated_letter_counts_by_containment() {
    assert_eq!(classify("abcde", "aabcx", ALPHABET), vec![Exact, Present, Present, Present, Absent]);
}

#[test]
fn placeholder_is_unknown() {
    assert_eq!(classify("light", "__g_t", ALPHABET), vec![Unknown, Unknown, Exact, Unknown, Exact]);
}

#[test]
fn classify_stops_at_shorter_word() {
    assert_eq!(classify("light", "li", ALPHABET).len(), 2);
    assert_eq!(classify("li", "light", ALPHABET).len(), 2);
}

#[test]
fn markup_of_each_style() {
    assert_eq!(LetterStyle::Exact.markup(), EXACT);
    assert_eq!(LetterStyle::Present.markup(), PRESENT);
    assert_eq!(LetterStyle::Absent.markup(), ABSENT);
    assert_eq!(LetterStyle::Unknown.markup(), "dim");
}

#[test]
fn rendered_guess_line() {
    let expected = format!(
        "{}{}{}{}{}",
        mark(ABSENT, 'n'),
        mark(EXACT, 'i'),
        mark(EXACT, 'g'),
        mark(PRESENT, 't'),
        mark(ABSENT, 's')
    );
    assert_eq!(render_guess("light", "nigts", ALPHABET), expected);
}

#[test]
fn status_starts_with_each_letter() {
    let status = LetterStatus::new("abc");
    assert_eq!(status.line(), "abc");
}

#[test]
fn status_set_keeps_place_or_appends() {
    let mut status = LetterStatus::new("abc");
    status.set('b', "B".to_string());
    status.set('z', "Z".to_string());
    assert_eq!(status.line(), "aBcZ");
}

#[test]
fn status_of_repeated_alphabet_letter_is_kept_once() {
    let status = LetterStatus::new("abca");
    assert_eq!(status.line(), "abc");
}

#[test]
fn show_guesses_prints_lines_then_status() {
    let guesses = vec!["ba".to_string()];
    let ops = show_guesses(&guesses, "ab", "abc");
    let line = format!("{}{}", mark(PRESENT, 'b'), mark(PRESENT, 'a'));
    let status = format!("{}{}c", mark(PRESENT, 'a'), mark(PRESENT, 'b'));
    assert_eq!(ops, vec![ConsoleOp::PrintCentered(line), ConsoleOp::PrintCentered(status)]);
}

#[test]
fn show_guesses_last_write_wins() {
    let guesses = vec!["ab".to_string(), "ca".to_string()];
    let ops = show_guesses(&guesses, "ab", "abc");
    assert_eq!(ops.len(), 3);
    let status = format!("{}{}{}", mark(PRESENT, 'a'), mark(EXACT, 'b'), mark(ABSENT, 'c'));
    assert_eq!(ops[2], ConsoleOp::PrintCentered(status));
}

#[test]
fn show_guesses_skips_placeholder_in_status() {
    let guesses = vec!["_b".to_string()];
    let ops = show_guesses(&guesses, "ab", "ab");
    let line = format!("{}{}", mark("dim", '_'), mark(EXACT, 'b'));
    let status = format!("a{}", mark(EXACT, 'b'));
    assert_eq!(ops, vec![ConsoleOp::PrintCentered(line), ConsoleOp::PrintCentered(status)]);
}

#[test]
fn show_no_guesses_prints_status_only() {
    let ops = show_guesses(&Vec::new(), "light", "xyz");
    assert_eq!(ops, vec![ConsoleOp::PrintCentered("xyz".to_string())]);
}
