//! Letter-by-letter feedback on guesses, and the keyboard status line.
use vstd::prelude::*;

use crate::console::{calls_of, ConsoleCall, ConsoleOp};
use crate::text::{chars_of, push_char, views_of};

verus! {

/// How one letter of a guess relates to the secret word.
#[derive(Clone, Copy, Debug, PartialEq, Eq, Structural)]
pub enum LetterStyle {
    /// The secret has this letter at this position.
    Exact,
    /// The secret has this letter somewhere else.
    Present,
    /// A letter of the alphabet that the secret does not hold.
    Absent,
    /// Not a letter of the alphabet (a placeholder).
    Unknown,
}

/// The style of letter `c` at position `i` of a guess. Containment is checked
/// against the whole secret, without counting repeated letters.
pub open spec fn style_at(secret: Seq<char>, alphabet: Seq<char>, i: int, c: char) -> LetterStyle {
    if secret[i] == c {
        LetterStyle::Exact
    } else if secret.contains(c) {
        LetterStyle::Present
    } else if alphabet.contains(c) {
        LetterStyle::Absent
    } else {
        LetterStyle::Unknown
    }
}

/// Positions of a guess that get feedback: those it shares with the secret.
pub open spec fn paired_len(secret: Seq<char>, guess: Seq<char>) -> int {
    if guess.len() < secret.len() {
        guess.len() as int
    } else {
        secret.len() as int
    }
}

/// The style of each paired position of a guess.
pub open spec fn styles_of(secret: Seq<char>, guess: Seq<char>, alphabet: Seq<char>) -> Seq<
    LetterStyle,
> {
    Seq::new(paired_len(secret, guess) as nat, |i: int| style_at(secret, alphabet, i, guess[i]))
}

/// The console markup of a style.
pub open spec fn style_markup(style: LetterStyle) -> Seq<char> {
    match style {
        LetterStyle::Exact => "bold white on green"@,
        LetterStyle::Present => "bold white on yellow"@,
        LetterStyle::Absent => "white on #666666"@,
        LetterStyle::Unknown => "dim"@,
    }
}

/// A letter wrapped in the markup of its style: `[style]c[/]`.
pub open spec fn styled(style: LetterStyle, c: char) -> Seq<char> {
    "["@ + style_markup(style) + "]"@ + seq![c] + "[/]"@
}

/// The styled letters of the first `n` paired positions of a guess.
pub open spec fn guess_line_upto(
    secret: Seq<char>,
    guess: Seq<char>,
    alphabet: Seq<char>,
    n: int,
) -> Seq<char>
    decreases n,
{
    if n <= 0 {
        Seq::empty()
    } else {
        guess_line_upto(secret, guess, alphabet, n - 1) + styled(
            style_at(secret, alphabet, n - 1, guess[n - 1]),
            guess[n - 1],
        )
    }
}

/// The feedback line of one guess.
pub open spec fn guess_line(secret: Seq<char>, guess: Seq<char>, alphabet: Seq<char>) -> Seq<
    char,
> {
    guess_line_upto(secret, guess, alphabet, paired_len(secret, guess))
}

impl LetterStyle {
    pub fn markup(&self) -> (r: &'static str)
        ensures
            r@ == style_markup(*self),
    {
        match self {
            LetterStyle::Exact => "bold white on green",
            LetterStyle::Present => "bold white on yellow",
            LetterStyle::Absent => "white on #666666",
            LetterStyle::Unknown => "dim",
        }
    }
}

fn contains_char(s: &Vec<char>, c: char) -> (r: bool)
    ensures
        r == s@.contains(c),
{
    let mut i: usize = 0;
    while i < s.len()
        invariant
            i <= s.len(),
            forall|j: int| 0 <= j < i ==> s@[j] != c,
        decreases s.len() - i,
    {
        if s[i] == c {
            return true;
        }
        i = i + 1;
    }
    false
}

fn style_of_letter(secret: &Vec<char>, alphabet: &Vec<char>, i: usize, c: char) -> (r: LetterStyle)
    requires
        i < secret@.len(),
    ensures
        r == style_at(secret@, alphabet@, i as int, c),
{
    if secret[i] == c {
        LetterStyle::Exact
    } else if contains_char(secret, c) {
        LetterStyle::Present
    } else if contains_char(alphabet, c) {
        LetterStyle::Absent
    } else {
        LetterStyle::Unknown
    }
}

/// The style of each letter of `guess` that has a partner in `secret`.
pub fn classify(secret: &str, guess: &str, alphabet: &str) -> (r: Vec<LetterStyle>)
    ensures
        r@ == styles_of(secret@, guess@, alphabet@),
{
    let s = chars_of(secret);
    let g = chars_of(guess);
    let a = chars_of(alphabet);
    let n = if g.len() < s.len() {
        g.len()
    } else {
        s.len()
    };
    let mut r: Vec<LetterStyle> = Vec::new();
    let mut i: usize = 0;
    while i < n
        invariant
            i <= n,
            n == paired_len(secret@, guess@),
            s@ == secret@,
            g@ == guess@,
            a@ == alphabet@,
            r@ == styles_of(secret@, guess@, alphabet@).take(i as int),
        decreases n - i,
    {
        let style = style_of_letter(&s, &a, i, g[i]);
        r.push(style);
        i = i + 1;
        proof {
            assert(r@ =~= styles_of(secret@, guess@, alphabet@).take(i as int));
        }
    }
    proof {
        assert(r@ =~= styles_of(secret@, guess@, alphabet@));
    }
    r
}

/// Appends `c` in the markup of `style` to `out`.
fn push_styled(out: &mut String, style: LetterStyle, c: char)
    ensures
        final(out)@ == old(out)@ + styled(style, c),
{
    out.append("[");
    out.append(style.markup());
    out.append("]");
    push_char(out, c);
    out.append("[/]");
    proof {
        assert(final(out)@ =~= old(out)@ + styled(style, c));
    }
}

fn guess_line_of(s: &Vec<char>, g: &Vec<char>, a: &Vec<char>) -> (r: String)
    ensures
        r@ == guess_line(s@, g@, a@),
{
    let n = if g.len() < s.len() {
        g.len()
    } else {
        s.len()
    };
    let mut line = String::new();
    let mut i: usize = 0;
    while i < n
        invariant
            i <= n,
            n == paired_len(s@, g@),
            line@ == guess_line_upto(s@, g@, a@, i as int),
        decreases n - i,
    {
        let style = style_of_letter(s, a, i, g[i]);
        push_styled(&mut line, style, g[i]);
        i = i + 1;
    }
    line
}

/// The feedback line of one guess: each paired letter in the markup of its style.
pub fn render_guess(secret: &str, guess: &str, alphabet: &str) -> (r: String)
    ensures
        r@ == guess_line(secret@, guess@, alphabet@),
{
    guess_line_of(&chars_of(secret), &chars_of(guess), &chars_of(alphabet))
}

} // verus!

verus! {

/// The keyboard status as a table: letters in first-insertion order, each with its text.
pub type StatusTable = Seq<(char, Seq<char>)>;

/// The last index of `t` whose letter is `k`, or -1 when there is none.
pub open spec fn find_letter(t: StatusTable, k: char) -> int
    decreases t.len(),
{
    if t.len() == 0 {
        -1
    } else if t.last().0 == k {
        t.len() - 1
    } else {
        find_letter(t.drop_last(), k)
    }
}

/// Sets the text of letter `k`: in its place when present, else at the end.
pub open spec fn table_set(t: StatusTable, k: char, v: Seq<char>) -> StatusTable {
    let j = find_letter(t, k);
    if j >= 0 {
        t.update(j, (k, v))
    } else {
        t.push((k, v))
    }
}

/// No letter occurs twice in the table.
pub open spec fn distinct_letters(t: StatusTable) -> bool {
    forall|i: int, j: int| 0 <= i < j < t.len() ==> t[i].0 != t[j].0
}

/// The table before any guess, over the first `n` letters of the alphabet:
/// each letter stands for itself.
pub open spec fn initial_table_upto(alphabet: Seq<char>, n: int) -> StatusTable
    decreases n,
{
    if n <= 0 {
        Seq::empty()
    } else {
        table_set(initial_table_upto(alphabet, n - 1), alphabet[n - 1], seq![alphabet[n - 1]])
    }
}

pub open spec fn initial_table(alphabet: Seq<char>) -> StatusTable {
    initial_table_upto(alphabet, alphabet.len() as int)
}

/// The table after the first `n` paired letters of a guess: each letter but the
/// placeholder `_` overwrites its entry with its styled form.
pub open spec fn record_guess_upto(
    t: StatusTable,
    secret: Seq<char>,
    guess: Seq<char>,
    alphabet: Seq<char>,
    n: int,
) -> StatusTable
    decreases n,
{
    if n <= 0 {
        t
    } else {
        let t1 = record_guess_upto(t, secret, guess, alphabet, n - 1);
        let c = guess[n - 1];
        if c == '_' {
            t1
        } else {
            table_set(t1, c, styled(style_at(secret, alphabet, n - 1, c), c))
        }
    }
}

pub open spec fn record_guess(
    t: StatusTable,
    secret: Seq<char>,
    guess: Seq<char>,
    alphabet: Seq<char>,
) -> StatusTable {
    record_guess_upto(t, secret, guess, alphabet, paired_len(secret, guess))
}

/// The table after a list of guesses, taken in order.
pub open spec fn record_guesses(
    t: StatusTable,
    secret: Seq<char>,
    guesses: Seq<Seq<char>>,
    alphabet: Seq<char>,
) -> StatusTable
    decreases guesses.len(),
{
    if guesses.len() == 0 {
        t
    } else {
        record_guess(
            record_guesses(t, secret, guesses.drop_last(), alphabet),
            secret,
            guesses.last(),
            alphabet,
        )
    }
}

/// The texts of the table joined in its order.
pub open spec fn status_line(t: StatusTable) -> Seq<char>
    decreases t.len(),
{
    if t.len() == 0 {
        Seq::empty()
    } else {
        status_line(t.drop_last()) + t.last().1
    }
}

proof fn lemma_find_letter(t: StatusTable, k: char)
    ensures
        -1 <= find_letter(t, k) < t.len(),
        find_letter(t, k) >= 0 ==> t[find_letter(t, k)].0 == k,
        find_letter(t, k) == -1 ==> forall|i: int| 0 <= i < t.len() ==> t[i].0 != k,
    decreases t.len(),
{
    if t.len() > 0 && t.last().0 != k {
        lemma_find_letter(t.drop_last(), k);
        assert forall|i: int| 0 <= i < t.len() - 1 implies t[i] == t.drop_last()[i] by {}
    }
}

proof fn lemma_table_set_distinct(t: StatusTable, k: char, v: Seq<char>)
    requires
        distinct_letters(t),
    ensures
        distinct_letters(table_set(t, k, v)),
{
    lemma_find_letter(t, k);
}

/// The keyboard status: one entry per letter, in the order the letters first came.
pub struct LetterStatus {
    entries: Vec<(char, String)>,
}

impl View for LetterStatus {
    type V = StatusTable;

    closed spec fn view(&self) -> StatusTable {
        self.entries@.map_values(|e: (char, String)| (e.0, e.1@))
    }
}

impl LetterStatus {
    /// Each letter has one entry.
    pub closed spec fn wf(&self) -> bool {
        distinct_letters(self@)
    }

    /// Each letter of the alphabet, standing for itself.
    pub fn new(alphabet: &str) -> (r: Self)
        ensures
            r.wf(),
            r@ == initial_table(alphabet@),
    {
        let a = chars_of(alphabet);
        let mut status = LetterStatus { entries: Vec::new() };
        let mut i: usize = 0;
        proof {
            assert(status@ =~= initial_table_upto(alphabet@, 0));
        }
        while i < a.len()
            invariant
                i <= a.len(),
                a@ == alphabet@,
                status.wf(),
                status@ == initial_table_upto(alphabet@, i as int),
            decreases a.len() - i,
        {
            let mut own = String::new();
            push_char(&mut own, a[i]);
            proof {
                assert(own@ =~= seq![a@[i as int]]);
            }
            status.set(a[i], own);
            i = i + 1;
        }
        status
    }

    /// Sets the text of `letter`, keeping its place when it has one.
    pub fn set(&mut self, letter: char, text: String)
        requires
            old(self).wf(),
        ensures
            final(self).wf(),
            final(self)@ == table_set(old(self)@, letter, text@),
    {
        let ghost t = self@;
        proof {
            lemma_table_set_distinct(t, letter, text@);
        }
        let mut j: usize = self.entries.len();
        proof {
            assert(t.take(j as int) =~= t);
        }
        while j > 0
            invariant
                j <= self.entries@.len(),
                self@ == t,
                t == old(self)@,
                distinct_letters(t),
                t.len() == self.entries@.len(),
                find_letter(t, letter) == find_letter(t.take(j as int), letter),
            decreases j,
        {
            if self.entries[j - 1].0 == letter {
                proof {
                    assert(t.take(j as int).last() == t[j - 1]);
                    assert(find_letter(t.take(j as int), letter) == j - 1);
                }
                self.entries.set(j - 1, (letter, text));
                proof {
                    assert(self@ =~= t.update(j - 1, (letter, text@)));
                }
                return;
            }
            proof {
                assert(t.take(j as int).drop_last() =~= t.take(j - 1));
                assert(t.take(j as int).last() == t[j - 1]);
            }
            j = j - 1;
        }
        self.entries.push((letter, text));
        proof {
            assert(self@ =~= t.push((letter, text@)));
        }
    }

    /// Records the paired letters of one guess, in order; the placeholder `_` is skipped.
    fn record(&mut self, s: &Vec<char>, g: &Vec<char>, a: &Vec<char>)
        requires
            old(self).wf(),
        ensures
            final(self).wf(),
            final(self)@ == record_guess(old(self)@, s@, g@, a@),
    {
        let n = if g.len() < s.len() {
            g.len()
        } else {
            s.len()
        };
        let ghost t0 = self@;
        let mut i: usize = 0;
        while i < n
            invariant
                i <= n,
                n == paired_len(s@, g@),
                self.wf(),
                self@ == record_guess_upto(t0, s@, g@, a@, i as int),
            decreases n - i,
        {
            let c = g[i];
            if c != '_' {
                let mut text = String::new();
                push_styled(&mut text, style_of_letter(s, a, i, c), c);
                proof {
                    assert(text@ =~= styled(style_at(s@, a@, i as int, c), c));
                }
                self.set(c, text);
            }
            i = i + 1;
        }
    }

    /// The texts of all letters joined in order.
    pub fn line(&self) -> (r: String)
        ensures
            r@ == status_line(self@),
    {
        let mut out = String::new();
        let mut i: usize = 0;
        while i < self.entries.len()
            invariant
                i <= self.entries@.len(),
                out@ == status_line(self@.take(i as int)),
            decreases self.entries@.len() - i,
        {
            out.append(self.entries[i].1.as_str());
            proof {
                assert(self@.take(i + 1).drop_last() =~= self@.take(i as int));
            }
            i = i + 1;
        }
        proof {
            assert(self@.take(i as int) =~= self@);
        }
        out
    }
}

} // verus!

verus! {

/// What the feedback screen prints: one centered line per guess, in order,
/// then the centered keyboard status after all of them.
pub open spec fn feedback_calls(
    secret: Seq<char>,
    guesses: Seq<Seq<char>>,
    alphabet: Seq<char>,
) -> Seq<ConsoleCall> {
    Seq::new(
        guesses.len(),
        |i: int| ConsoleCall::PrintCentered(guess_line(secret, guesses[i], alphabet)),
    ).push(
        ConsoleCall::PrintCentered(
            status_line(record_guesses(initial_table(alphabet), secret, guesses, alphabet)),
        ),
    )
}

/// The console operations that show every guess so far against the secret `word`,
/// then the status of each letter of `ascii_letters`.
pub fn show_guesses(guesses: &Vec<String>, word: &str, ascii_letters: &str) -> (r: Vec<
    ConsoleOp,
>)
    ensures
        calls_of(r@) == feedback_calls(word@, views_of(guesses@), ascii_letters@),
{
    let s = chars_of(word);
    let a = chars_of(ascii_letters);
    let mut status = LetterStatus::new(ascii_letters);
    let mut ops: Vec<ConsoleOp> = Vec::new();
    let ghost gs = views_of(guesses@);
    let ghost t0 = initial_table(a@);
    let mut i: usize = 0;
    proof {
        assert(gs.take(0) =~= Seq::<Seq<char>>::empty());
        assert(calls_of(ops@) =~= Seq::<ConsoleCall>::empty());
    }
    while i < guesses.len()
        invariant
            i <= guesses@.len(),
            gs == views_of(guesses@),
            s@ == word@,
            a@ == ascii_letters@,
            t0 == initial_table(a@),
            status.wf(),
            status@ == record_guesses(t0, s@, gs.take(i as int), a@),
            calls_of(ops@) =~= Seq::new(
                i as nat,
                |k: int| ConsoleCall::PrintCentered(guess_line(s@, gs[k], a@)),
            ),
        decreases guesses@.len() - i,
    {
        let g = chars_of(guesses[i].as_str());
        let line = guess_line_of(&s, &g, &a);
        let ghost before = ops@;
        ops.push(ConsoleOp::PrintCentered(line));
        proof {
            assert(gs[i as int] == g@);
            assert(calls_of(ops@) =~= calls_of(before).push(ConsoleCall::PrintCentered(line@)));
        }
        status.record(&s, &g, &a);
        proof {
            assert(gs.take(i + 1).drop_last() =~= gs.take(i as int));
            assert(gs.take(i + 1).last() == g@);
        }
        i = i + 1;
    }
    proof {
        assert(gs.take(i as int) =~= gs);
    }
    ops.push(ConsoleOp::PrintCentered(status.line()));
    proof {
        assert(calls_of(ops@) =~= feedback_calls(word@, gs, ascii_letters@));
    }
    ops
}

} // verus!

verus! {

/// Every letter of a guess that occurs anywhere in the secret is marked exact or
/// present, however often it repeats in the guess.
pub proof fn contained_letters_are_marked(secret: Seq<char>, guess: Seq<char>, alphabet: Seq<char>)
    ensures
        forall|i: int|
            0 <= i < paired_len(secret, guess) && #[trigger] secret.contains(guess[i]) ==> {
                let s = styles_of(secret, guess, alphabet)[i];
                s == LetterStyle::Exact || s == LetterStyle::Present
            },
{
}

/// A letter of a guess in the same place as in the secret is marked exact.
pub proof fn matching_letters_are_exact(secret: Seq<char>, guess: Seq<char>, alphabet: Seq<char>)
    ensures
        forall|i: int|
            0 <= i < paired_len(secret, guess) && secret[i] == guess[i] ==> #[trigger] styles_of(
                secret,
                guess,
                alphabet,
            )[i] == LetterStyle::Exact,
{
}

} // verus!
