use vstd::prelude::*;

use rand::seq::SliceRandom;

use crate::config::BASE_FILENAME;
use crate::text::views_of;

verus! {

/// The languages a word list can be loaded for.
#[derive(Clone, Copy, Debug, PartialEq, Eq, Structural)]
pub enum Lang {
    En,
    Es,
}

/// The two-letter code of a language, as used in file names.
pub open spec fn lang_code(lang: Lang) -> Seq<char> {
    match lang {
        Lang::En => "en"@,
        Lang::Es => "es"@,
    }
}

impl Lang {
    pub fn as_str(&self) -> (r: &'static str)
        ensures
            r@ == lang_code(*self),
    {
        match self {
            Lang::En => "en",
            Lang::Es => "es",
        }
    }
}

/// Name of the word-list file of a language: `words_<code>.txt`.
pub open spec fn file_name_of(lang: Lang) -> Seq<char> {
    BASE_FILENAME@ + "_"@ + lang_code(lang) + ".txt"@
}

pub fn word_file_name(lang: Lang) -> (r: String)
    ensures
        r@ == file_name_of(lang),
{
    let mut name = String::from_str(BASE_FILENAME);
    name.append("_");
    name.append(lang.as_str());
    name.append(".txt");
    name
}

} // verus!

verus! {

/// A line ending may be `\r\n`: the `\r` before a newline is not part of the line.
pub open spec fn strip_cr(line: Seq<char>) -> Seq<char> {
    if line.len() > 0 && line.last() == '\r' {
        line.drop_last()
    } else {
        line
    }
}

/// Scanning `s` from the left: the lines completed so far, and the open line.
pub open spec fn scan_lines(s: Seq<char>) -> (Seq<Seq<char>>, Seq<char>)
    decreases s.len(),
{
    if s.len() == 0 {
        (Seq::empty(), Seq::empty())
    } else {
        let (done, open) = scan_lines(s.drop_last());
        if s.last() == '\n' {
            (done.push(strip_cr(open)), Seq::empty())
        } else {
            (done, open.push(s.last()))
        }
    }
}

/// The lines of a text: split at each `\n` (a `\r` just before it dropped);
/// a last line without a newline counts when it is not empty.
pub open spec fn lines_of(s: Seq<char>) -> Seq<Seq<char>> {
    let (done, open) = scan_lines(s);
    if open.len() > 0 {
        done.push(open)
    } else {
        done
    }
}

/// Splits a word-list text into its lines, each line one word, kept verbatim.
pub fn parse_words(text: &str) -> (r: Vec<String>)
    ensures
        views_of(r@) == lines_of(text@),
{
    let chars = crate::text::chars_of(text);
    let mut done: Vec<String> = Vec::new();
    let mut open = String::new();
    let mut pending_cr = false;
    let mut i: usize = 0;
    while i < chars.len()
        invariant
            i <= chars.len(),
            chars@ == text@,
            views_of(done@) == scan_lines(chars@.take(i as int)).0,
            (if pending_cr { open@.push('\r') } else { open@ }) == scan_lines(
                chars@.take(i as int),
            ).1,
            !pending_cr ==> open@.len() == 0 || open@.last() != '\r',
        decreases chars.len() - i,
    {
        let c = chars[i];
        proof {
            assert(chars@.take(i + 1).drop_last() =~= chars@.take(i as int));
            assert(chars@.take(i + 1).last() == c);
        }
        if c == '\n' {
            proof {
                if pending_cr {
                    assert(open@.push('\r').drop_last() =~= open@);
                }
            }
            let line = open;
            let ghost before = done@;
            done.push(line);
            open = String::new();
            pending_cr = false;
            proof {
                assert(views_of(done@) =~= views_of(before).push(line@));
            }
        } else if c == '\r' {
            if pending_cr {
                crate::text::push_char(&mut open, '\r');
            }
            pending_cr = true;
        } else {
            if pending_cr {
                crate::text::push_char(&mut open, '\r');
            }
            crate::text::push_char(&mut open, c);
            pending_cr = false;
        }
        i = i + 1;
    }
    proof {
        assert(chars@.take(i as int) == chars@);
    }
    if pending_cr {
        crate::text::push_char(&mut open, '\r');
    }
    if open.unicode_len() > 0 {
        let line = open;
        let ghost before = done@;
        done.push(line);
        proof {
            assert(views_of(done@) =~= views_of(before).push(line@));
        }
    }
    done
}

/// The words of a list whose file may have failed to load: a failed read
/// (`None`) gives no words, a text gives its lines.
pub fn words_from_read(text: Option<&str>) -> (r: Vec<String>)
    ensures
        text is None ==> r@.len() == 0,
        text is Some ==> views_of(r@) == lines_of(text->0@),
{
    match text {
        Some(t) => parse_words(t),
        None => Vec::new(),
    }
}

} // verus!

verus! {

/// Relies on rand's `SliceRandom::choose` over the thread-local generator:
/// nothing for an empty list, else one of the list's entries.
#[verifier::external_body]
fn choose_word(words: &Vec<String>) -> (r: Option<&String>)
    ensures
        r is None <==> words@.len() == 0,
        r is Some ==> words@.contains(*r->0),
{
    words.choose(&mut rand::thread_rng())
}

/// Picks one word of the list at random; nothing when the list is empty.
pub fn get_random_word(words_list: &Vec<String>) -> (r: Option<String>)
    ensures
        r is None <==> words_list@.len() == 0,
        r is Some ==> exists|i: int|
            0 <= i < words_list@.len() && words_list@[i]@ == r->0@,
{
    match choose_word(words_list) {
        Some(w) => Some(w.clone()),
        None => None,
    }
}

} // verus!
