//! Small string helpers over std calls that vstd leaves unspecified.
use vstd::prelude::*;

verus! {

/// The view of each string of a list.
pub open spec fn views_of(v: Seq<String>) -> Seq<Seq<char>> {
    v.map_values(|w: String| w@)
}

/// Relies on `str::chars`, collected into a vector: the characters of `s` in order.
#[verifier::external_body]
pub(crate) fn chars_of(s: &str) -> (r: Vec<char>)
    ensures
        r@ == s@,
{
    s.chars().collect()
}

/// Relies on `String::push`: appends one character at the end.
#[verifier::external_body]
pub(crate) fn push_char(s: &mut String, c: char)
    ensures
        final(s)@ == old(s)@.push(c),
{
    s.push(c)
}

/// `c` with an ASCII capital mapped to its small letter; any other character unchanged.
pub open spec fn ascii_lower(c: char) -> char {
    if 'A' <= c && c <= 'Z' {
        ((c as u32) + 32) as char
    } else {
        c
    }
}

pub open spec fn ascii_lower_seq(s: Seq<char>) -> Seq<char> {
    Seq::new(s.len(), |i: int| ascii_lower(s[i]))
}

/// Relies on `str::to_ascii_lowercase`: ASCII capitals become small letters,
/// every other character is kept.
#[verifier::external_body]
pub(crate) fn to_ascii_lower(s: &str) -> (r: String)
    ensures
        r@ == ascii_lower_seq(s@),
{
    s.to_ascii_lowercase()
}

} // verus!
