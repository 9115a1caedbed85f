//! Loading the dictionary from a block of text with one word per line.

use vstd::prelude::*;
use crate::error::GameError;
use crate::words::WORDS;
use crate::text::{
    all_capitals, arrange_word, lemma_capitals_of_all_capitals, normalized, push_char, trim_end_of, trim_start_of,
    ascii_upper, is_ascii_char,
};

verus! {

/// The number of letters of every word of the game.
pub const LENGTH: usize = 5;

/// The lines of `s` that end in a line break, and the part of the line
/// after the last one.
pub open spec fn line_split(s: Seq<char>) -> (Seq<Seq<char>>, Seq<char>)
    decreases s.len(),
{
    if s.len() == 0 {
        (Seq::empty(), Seq::empty())
    } else {
        let (done, cur) = line_split(s.drop_last());
        if s.last() == '\n' {
            (done.push(cur), Seq::empty())
        } else {
            (done, cur.push(s.last()))
        }
    }
}

/// The lines of `s`, split at each `'\n'`; the text after the last line break
/// is a line too, empty or not.
pub open spec fn lines_of(s: Seq<char>) -> Seq<Seq<char>> {
    line_split(s).0.push(line_split(s).1)
}

/// The text of each element of `v`.
pub open spec fn views_of(v: Seq<String>) -> Seq<Seq<char>> {
    v.map_values(|w: String| w@)
}

/// Does `w` have the length of a word of the game?
pub open spec fn has_word_length(w: Seq<char>) -> bool {
    w.len() == LENGTH
}

/// The words of `lines`: each line normalised, those of five letters kept in
/// order, duplicates included.
pub open spec fn words_of_lines(lines: Seq<Seq<char>>) -> Seq<Seq<char>> {
    lines.map_values(|l: Seq<char>| normalized(l)).filter(|w: Seq<char>| has_word_length(w))
}

/// The dictionary that a block of text describes.
pub open spec fn dictionary_of(raw: Seq<char>) -> Seq<Seq<char>> {
    words_of_lines(lines_of(raw))
}

/// A letter of the Latin alphabet, either case.
pub open spec fn is_ascii_letter(c: char) -> bool {
    (0x41 <= (c as u32) && (c as u32) <= 0x5A) || (0x61 <= (c as u32) && (c as u32) <= 0x7A)
}

proof fn lemma_words_push(lines: Seq<Seq<char>>, l: Seq<char>)
    ensures
        words_of_lines(lines.push(l)) == if has_word_length(normalized(l)) {
            words_of_lines(lines).push(normalized(l))
        } else {
            words_of_lines(lines)
        },
{
    let f = |l: Seq<char>| normalized(l);
    assert(lines.push(l).map_values(f) == lines.map_values(f).push(normalized(l)));
    lines.map_values(f).lemma_filter_push(normalized(l), |w: Seq<char>| has_word_length(w));
}

proof fn lemma_letters_line(l: Seq<char>)
    requires
        l.len() == LENGTH,
        forall|i: int| 0 <= i < l.len() ==> is_ascii_letter(#[trigger] l[i]),
    ensures
        normalized(l).len() == LENGTH,
{
    assert(trim_start_of(l) == l);
    assert(trim_end_of(l) == l);
    assert(forall|i: int| 0 <= i < l.len() ==> is_ascii_char(#[trigger] l[i]));
    let u = l.map_values(|c: char| ascii_upper(c));
    assert(all_capitals(u));
    lemma_capitals_of_all_capitals(u);
}

/// A word list with a line of five Latin letters gives a dictionary that is
/// not empty, and every word of a dictionary has five letters.
pub proof fn lemma_dictionary_words(raw: Seq<char>, k: int)
    requires
        0 <= k < lines_of(raw).len(),
        lines_of(raw)[k].len() == LENGTH,
        forall|i: int|
            0 <= i < lines_of(raw)[k].len() ==> is_ascii_letter(#[trigger] lines_of(raw)[k][i]),
    ensures
        dictionary_of(raw).len() > 0,
        forall|j: int| 0 <= j < dictionary_of(raw).len() ==> (#[trigger] dictionary_of(raw)[j]).len() == LENGTH,
{
    let m = lines_of(raw).map_values(|l: Seq<char>| normalized(l));
    lemma_letters_line(lines_of(raw)[k]);
    m.lemma_filter_contains(|w: Seq<char>| has_word_length(w), k);
    assert forall|j: int| 0 <= j < dictionary_of(raw).len() implies (#[trigger] dictionary_of(raw)[j]).len() == LENGTH by {
        m.lemma_filter_pred(|w: Seq<char>| has_word_length(w), j);
    }
}

/// Appends the word that line `l` gives, if it has five letters.
fn add_line(words: &mut Vec<String>, l: &String, lines: Ghost<Seq<Seq<char>>>)
    requires
        views_of(old(words)@) == words_of_lines(lines@),
    ensures
        views_of(final(words)@) == words_of_lines(lines@.push(l@)),
{
    proof {
        lemma_words_push(lines@, l@);
    }
    let w = arrange_word(l.as_str());
    if w.unicode_len() == LENGTH {
        words.push(w);
        proof {
            assert(views_of(words@) == views_of(old(words)@).push(normalized(l@)));
        }
    }
}

/// The words of `raw`: each line normalised, those of five letters kept in
/// order.
fn collect_words(raw: &str) -> (r: Vec<String>)
    ensures
        views_of(r@) == dictionary_of(raw@),
{
    let n = raw.unicode_len();
    let mut words: Vec<String> = Vec::new();
    let mut cur = String::new();
    let ghost mut done: Seq<Seq<char>> = Seq::empty();
    let mut i: usize = 0;
    while i < n
        invariant
            n == raw@.len(),
            i <= n,
            line_split(raw@.take(i as int)) == (done, cur@),
            views_of(words@) == words_of_lines(done),
        decreases n - i,
    {
        let c = raw.get_char(i);
        assert(raw@.take(i as int + 1).drop_last() == raw@.take(i as int));
        if c == '\n' {
            add_line(&mut words, &cur, Ghost(done));
            proof {
                done = done.push(cur@);
            }
            cur = String::new();
        } else {
            push_char(&mut cur, c);
        }
        i = i + 1;
    }
    assert(raw@.take(n as int) == raw@);
    add_line(&mut words, &cur, Ghost(done));
    words
}

/// Normalises each line of `raw` and keeps, in order, the results of five
/// letters; fails with `EmptyDictionary` when none is left.
pub fn load(raw: &str) -> (r: Result<Vec<String>, GameError>)
    ensures
        match r {
            Ok(v) => views_of(v@) == dictionary_of(raw@) && v@.len() > 0,
            Err(e) => e == GameError::EmptyDictionary && dictionary_of(raw@).len() == 0,
        },
{
    let words = collect_words(raw);
    if words.len() == 0 {
        Err(GameError::EmptyDictionary)
    } else {
        Ok(words)
    }
}

/// The words of the dictionary that comes with the game.
pub fn word_list() -> (r: Vec<String>)
    ensures
        views_of(r@) == dictionary_of(WORDS@),
{
    collect_words(WORDS)
}

} // verus!
