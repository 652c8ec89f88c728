use ruchle::config::get_config;
use ruchle::words::{get_random_word, parse_words, word_file_name, words_from_read, Lang};

fn owned(words: &[&str]) -> Vec<String> {
    words.iter().map(|w| w.to_string()).collect()
}

#[test]
fn config_is_five_letters_six_guesses() {
    assert_eq!(get_config(), (5, 6));
}

#[test]
fn lang_codes() {
    assert_eq!(Lang::En.as_str(), "en");
    assert_eq!(Lang::Es.as_str(), "es");
}

#[test]
fn file_names_follow_the_language() {
    assert_eq!(word_file_name(Lang::En), "words_en.txt");
    assert_eq!(word_file_name(Lang::Es), "words_es.txt");
}

#[test]
fn parse_one_word_per_line() {
    assert_eq!(parse_words("light\nnight\nsight\n"), owned(&["light", "night", "sight"]));
}

#[test]
fn parse_last_line_without_newline() {
    assert_eq!(parse_words("light\nnight"), owned(&["light", "night"]));
}

#[test]
fn parse_keeps_lines_verbatim() {
    assert_eq!(parse_words("Light\n\n  abc\n"), owned(&["Light", "", "  abc"]));
}

#[test]
fn parse_drops_carriage_return_before_newline() {
    assert_eq!(parse_words("light\r\nnight\r\n"), owned(&["light", "night"]));
    assert_eq!(parse_words("a\r\rb\r"), owned(&["a\r\rb\r"]));
    assert_eq!(parse_words("a\r\r\n"), owned(&["a\r"]));
}

#[test]
fn parse_empty_text() {
    assert_eq!(parse_words(""), Vec::<String>::new());
    assert_eq!(parse_words("\n"), owned(&[""]));
}

#[test]
fn failed_read_gives_no_words() {
    assert!(words_from_read(None).is_empty());
    assert_eq!(words_from_read(Some("hello\nworld\n")), owned(&["hello", "world"]));
}

#[test]
fn random_word_of_empty_list_is_none() {
    assert_eq!(get_random_word(&Vec::new()), None);
}

#[test]
fn random_word_comes_from_the_list() {
    let list = owned(&["light", "night", "sight", "fight"]);
    let mut seen = vec![false; list.len()];
    for _ in 0..2000 {
        let w = get_random_word(&list).expect("a word");
        let i = list.iter().position(|x| *x == w).expect("a word of the list");
        seen[i] = true;
    }
    assert!(seen.iter().all(|s| *s));
}

#[test]
fn random_word_of_single_list() {
    assert_eq!(get_random_word(&owned(&["hello"])), Some("hello".to_string()));
}
