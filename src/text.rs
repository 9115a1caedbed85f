//! Normalisation of raw text into candidate words: trim, uppercase, and keep
//! only the letters `A` to `Z`.

use vstd::prelude::*;

verus! {

/// The characters with the Unicode property White_Space.
pub open spec fn is_white_space(c: char) -> bool {
    let u = c as u32;
    (0x9 <= u && u <= 0xD) || u == 0x20 || u == 0x85 || u == 0xA0 || u == 0x1680 || (0x2000 <= u
        && u <= 0x200A) || u == 0x2028 || u == 0x2029 || u == 0x202F || u == 0x205F || u == 0x3000
}

/// `s` without its leading white space.
pub open spec fn trim_start_of(s: Seq<char>) -> Seq<char>
    decreases s.len(),
{
    if s.len() > 0 && is_white_space(s[0]) {
        trim_start_of(s.drop_first())
    } else {
        s
    }
}

/// `s` without its trailing white space.
pub open spec fn trim_end_of(s: Seq<char>) -> Seq<char>
    decreases s.len(),
{
    if s.len() > 0 && is_white_space(s.last()) {
        trim_end_of(s.drop_last())
    } else {
        s
    }
}

/// `s` without its leading and trailing white space.
pub open spec fn trimmed(s: Seq<char>) -> Seq<char> {
    trim_end_of(trim_start_of(s))
}

/// The letters that a word may hold: `A` to `Z`.
pub open spec fn is_capital(c: char) -> bool {
    0x41 <= (c as u32) && (c as u32) <= 0x5A
}

/// A character of the ASCII range.
pub open spec fn is_ascii_char(c: char) -> bool {
    (c as u32) < 0x80
}

/// `a` to `z` become `A` to `Z`; every other character stays.
pub open spec fn ascii_upper(c: char) -> char {
    if 0x61 <= (c as u32) && (c as u32) <= 0x7A {
        ((c as u32) - 0x20) as char
    } else {
        c
    }
}

/// The Unicode uppercase form of a string that holds a non-ASCII character.
pub uninterp spec fn upper_of(s: Seq<char>) -> Seq<char>;

/// The uppercase form of `s`: exact on ASCII text, named otherwise.
pub open spec fn uppercased(s: Seq<char>) -> Seq<char> {
    if forall|i: int| 0 <= i < s.len() ==> is_ascii_char(#[trigger] s[i]) {
        s.map_values(|c: char| ascii_upper(c))
    } else {
        upper_of(s)
    }
}

/// The letters `A` to `Z` of `s`, in order.
pub open spec fn capitals_of(s: Seq<char>) -> Seq<char> {
    s.filter(|c: char| is_capital(c))
}

/// What a raw line becomes as a word: trimmed, uppercased, and cut down to
/// its letters `A` to `Z`.
pub open spec fn normalized(s: Seq<char>) -> Seq<char> {
    capitals_of(uppercased(trimmed(s)))
}

/// Every character of `s` is one of `A` to `Z`.
pub open spec fn all_capitals(s: Seq<char>) -> bool {
    forall|i: int| 0 <= i < s.len() ==> is_capital(#[trigger] s[i])
}

/// Keeping the capitals of a word made only of capitals keeps all of it.
pub proof fn lemma_capitals_of_all_capitals(s: Seq<char>)
    requires
        all_capitals(s),
    ensures
        capitals_of(s) == s,
    decreases s.len(),
{
    if s.len() > 0 {
        let p = s.drop_last();
        lemma_capitals_of_all_capitals(p);
        p.lemma_filter_push(s.last(), |c: char| is_capital(c));
        assert(p.push(s.last()) == s);
    }
}

/// A word made only of the letters `A` to `Z` is its own normal form.
pub proof fn lemma_normalized_capitals(w: Seq<char>)
    requires
        all_capitals(w),
    ensures
        normalized(w) == w,
{
    assert(trim_start_of(w) == w);
    assert(trim_end_of(w) == w);
    assert(forall|i: int| 0 <= i < w.len() ==> is_ascii_char(#[trigger] w[i]));
    assert(w.map_values(|c: char| ascii_upper(c)) == w);
    lemma_capitals_of_all_capitals(w);
}

/// A normal form holds only the letters `A` to `Z`.
pub proof fn lemma_normalized_all_capitals(s: Seq<char>)
    ensures
        all_capitals(normalized(s)),
{
    let u = uppercased(trimmed(s));
    assert forall|i: int| 0 <= i < normalized(s).len() implies is_capital(#[trigger] normalized(s)[i]) by {
        u.lemma_filter_pred(|c: char| is_capital(c), i);
    }
}

/// Normalising twice gives what normalising once gives.
pub proof fn lemma_normalize_idempotent(s: Seq<char>)
    ensures
        normalized(normalized(s)) == normalized(s),
{
    lemma_normalized_all_capitals(s);
    lemma_normalized_capitals(normalized(s));
}

/// Relies on `str::trim`: it removes the leading and trailing characters
/// with the Unicode property White_Space.
#[verifier::external_body]
fn trim_str(s: &str) -> (r: &str)
    ensures
        r@ == trimmed(s@),
{
    s.trim()
}

/// Relies on `str::to_uppercase`: on ASCII text it maps `a`-`z` to `A`-`Z`
/// and keeps every other character; on other text its result depends on the
/// characters alone.
#[verifier::external_body]
fn to_upper(s: &str) -> (r: String)
    ensures
        (forall|i: int| 0 <= i < s@.len() ==> is_ascii_char(#[trigger] s@[i])) ==> r@ == s@.map_values(
            |c: char| ascii_upper(c),
        ),
        !(forall|i: int| 0 <= i < s@.len() ==> is_ascii_char(#[trigger] s@[i])) ==> r@ == upper_of(
            s@,
        ),
{
    s.to_uppercase()
}

/// Relies on `String::push`: appends one character.
#[verifier::external_body]
pub(crate) fn push_char(s: &mut String, c: char)
    ensures
        final(s)@ == old(s)@.push(c),
{
    s.push(c)
}

/// The letters `A` to `Z` of `s`, in order.
pub fn keep_capitals(s: &str) -> (r: String)
    ensures
        r@ == capitals_of(s@),
{
    let n = s.unicode_len();
    let mut r = String::new();
    let mut i: usize = 0;
    while i < n
        invariant
            n == s@.len(),
            i <= n,
            r@ == capitals_of(s@.take(i as int)),
        decreases n - i,
    {
        let c = s.get_char(i);
        proof {
            assert(s@.take(i as int + 1) == s@.take(i as int).push(c));
            s@.take(i as int).lemma_filter_push(c, |c: char| is_capital(c));
        }
        if 0x41 <= (c as u32) && (c as u32) <= 0x5A {
            push_char(&mut r, c);
        }
        i = i + 1;
    }
    assert(s@.take(n as int) == s@);
    r
}

/// Normalises a raw line into a candidate word: trims it, uppercases it, and
/// drops every character outside `A` to `Z`.
pub fn arrange_word(word: &str) -> (r: String)
    ensures
        r@ == normalized(word@),
{
    let t = trim_str(word);
    let u = to_upper(t);
    keep_capitals(u.as_str())
}

} // verus!
