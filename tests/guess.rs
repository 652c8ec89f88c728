use ruchle::console::ConsoleOp;
use ruchle::guess::{check_guess, normalize_guess, GuessCheck};

fn owned(words: &[&str]) -> Vec<String> {
    words.iter().map(|w| w.to_string()).collect()
}

#[test]
fn normalize_trims_newlines_and_lowercases() {
    assert_eq!(normalize_guess("HeLLo\n"), "hello");
    assert_eq!(normalize_guess("hello\n\n"), "hello");
    assert_eq!(normalize_guess("Ñandú\n"), "Ñandú");
    assert_eq!(normalize_guess("hello\r\n"), "hello\r");
}

#[test]
fn repeated_guess_is_refused() {
    let words = owned(&["hello", "world"]);
    let r = check_guess("hello\n", &owned(&["hello"]), &words);
    assert_eq!(r, GuessCheck::AlreadyUsed("hello".to_string()));
    assert_eq!(r.warning(), Some(ConsoleOp::PrintWarning("You have already used hello".to_string())));
}

#[test]
fn repeat_is_checked_before_length() {
    let r = check_guess("hi\n", &owned(&["hi"]), &owned(&["hello"]));
    assert_eq!(r, GuessCheck::AlreadyUsed("hi".to_string()));
}

#[test]
fn wrong_length_is_refused_even_when_listed() {
    let words = owned(&["hell", "hellos"]);
    assert_eq!(check_guess("hell\n", &Vec::new(), &words), GuessCheck::WrongLength);
    assert_eq!(check_guess("hellos\n", &Vec::new(), &words), GuessCheck::WrongLength);
    assert_eq!(
        GuessCheck::WrongLength.warning(),
        Some(ConsoleOp::PrintWarning("Your guess must be 5 letters".to_string()))
    );
}

#[test]
fn length_counts_bytes() {
    let words = owned(&["héllo", "hélo"]);
    assert_eq!(check_guess("héllo", &Vec::new(), &words), GuessCheck::WrongLength);
    assert_eq!(check_guess("hélo", &Vec::new(), &words), GuessCheck::Accepted("hélo".to_string()));
}

#[test]
fn unlisted_guess_is_refused() {
    let r = check_guess("xxxxx\n", &Vec::new(), &owned(&["hello"]));
    assert_eq!(r, GuessCheck::NotInList);
    assert_eq!(r.warning(), Some(ConsoleOp::PrintWarning("Your guess must be 5 letters".to_string())));
}

#[test]
fn valid_guess_is_accepted() {
    let r = check_guess("HELLO\n", &owned(&["world"]), &owned(&["world", "hello"]));
    assert_eq!(r, GuessCheck::Accepted("hello".to_string()));
    assert_eq!(r.warning(), None);
}
