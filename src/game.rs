//! One game: the secret word, the guesses taken so far, the letters known to
//! be absent, the feedback on each guess and the game's outcome.

use vstd::prelude::*;
use bracket_random::prelude::RandomNumberGenerator;
use crate::dictionary::{views_of, word_list, LENGTH};
use crate::error::GameError;
use crate::text::arrange_word;

verus! {

/// The number of valid guesses that a player has.
pub const TRY: usize = 6;

/// What one letter of a guess tells about the secret word.
#[derive(Clone, Copy, Debug, PartialEq, Eq, Structural)]
pub enum Feedback {
    /// The secret word has this letter at this position.
    Correct,
    /// The secret word has this letter, at another position.
    Present,
    /// The secret word does not have this letter.
    Absent,
}

/// Where a game stands after a guess.
#[derive(Clone, Copy, Debug, PartialEq, Eq, Structural)]
pub enum GameResult {
    /// Neither won nor lost yet: the player may guess again.
    InProgress,
    /// The last guess was the secret word.
    Won,
    /// Six guesses were taken and none was the secret word.
    Lost,
}

/// The feedback on letter `i` of `guess`. A letter that the secret holds
/// anywhere is `Present`, however often the guess repeats it.
pub open spec fn feedback_at(secret: Seq<char>, guess: Seq<char>, i: int) -> Feedback {
    if i < secret.len() && guess[i] == secret[i] {
        Feedback::Correct
    } else if secret.contains(guess[i]) {
        Feedback::Present
    } else {
        Feedback::Absent
    }
}

/// The feedback on each letter of `guess`, left to right.
pub open spec fn feedback_of(secret: Seq<char>, guess: Seq<char>) -> Seq<Feedback> {
    Seq::new(guess.len(), |i: int| feedback_at(secret, guess, i))
}

/// The letters of `guess` that `secret` does not hold, left to right, repeats
/// included.
pub open spec fn absent_in(secret: Seq<char>, guess: Seq<char>) -> Seq<char> {
    guess.filter(|c: char| !secret.contains(c))
}

/// `known` followed by each letter of `new` that is not already there, in
/// order of first appearance.
pub open spec fn add_letters(known: Seq<char>, new: Seq<char>) -> Seq<char>
    decreases new.len(),
{
    if new.len() == 0 {
        known
    } else {
        let k = add_letters(known, new.drop_last());
        if k.contains(new.last()) {
            k
        } else {
            k.push(new.last())
        }
    }
}

/// The absent letters of `known` after each of `guesses` is scored in turn.
pub open spec fn record_guesses(known: Seq<char>, secret: Seq<char>, guesses: Seq<Seq<char>>) -> Seq<
    char,
>
    decreases guesses.len(),
{
    if guesses.len() == 0 {
        known
    } else {
        add_letters(
            record_guesses(known, secret, guesses.drop_last()),
            absent_in(secret, guesses.last()),
        )
    }
}

/// Where a game stands once `last_guess` was taken, with `count` valid guesses
/// made: a match wins, even on the last try.
pub open spec fn outcome(secret: Seq<char>, count: nat, last_guess: Seq<char>) -> GameResult {
    if last_guess == secret {
        GameResult::Won
    } else if count >= TRY {
        GameResult::Lost
    } else {
        GameResult::InProgress
    }
}

/// Adding letters keeps what was known, adds exactly the new letters, and
/// never repeats one.
pub proof fn lemma_add_letters(known: Seq<char>, new: Seq<char>)
    ensures
        known.no_duplicates() ==> add_letters(known, new).no_duplicates(),
        add_letters(known, new).to_set() == known.to_set() + new.to_set(),
    decreases new.len(),
{
    if new.len() > 0 {
        let p = new.drop_last();
        lemma_add_letters(known, p);
        let k = add_letters(known, p);
        assert(new == p.push(new.last()));
        p.lemma_push_to_set_commute(new.last());
        if !k.contains(new.last()) {
            k.lemma_push_to_set_commute(new.last());
        } else {
            assert(k.to_set().contains(new.last()));
            assert(k.to_set().insert(new.last()) =~= k.to_set());
        }
        assert(add_letters(known, new).to_set() =~= known.to_set() + new.to_set());
    }
}

/// Does `s` hold `c`?
fn contains_char(s: &str, c: char) -> (r: bool)
    ensures
        r == s@.contains(c),
{
    let n = s.unicode_len();
    let mut i: usize = 0;
    while i < n
        invariant
            n == s@.len(),
            i <= n,
            forall|j: int| 0 <= j < i ==> s@[j] != c,
        decreases n - i,
    {
        if s.get_char(i) == c {
            return true;
        }
        i = i + 1;
    }
    false
}

/// Scores `guess` against `secret`: the feedback on each letter, and the
/// letters of the guess that the secret does not hold.
pub fn score(secret: &str, guess: &str) -> (r: (Vec<Feedback>, Vec<char>))
    ensures
        r.0@ == feedback_of(secret@, guess@),
        r.1@ == absent_in(secret@, guess@),
{
    let n = guess.unicode_len();
    let m = secret.unicode_len();
    let mut marks: Vec<Feedback> = Vec::new();
    let mut absent: Vec<char> = Vec::new();
    let mut i: usize = 0;
    while i < n
        invariant
            n == guess@.len(),
            m == secret@.len(),
            i <= n,
            marks@ == feedback_of(secret@, guess@.take(i as int)),
            absent@ == absent_in(secret@, guess@.take(i as int)),
        decreases n - i,
    {
        let c = guess.get_char(i);
        proof {
            assert(guess@.take(i as int + 1) == guess@.take(i as int).push(c));
            guess@.take(i as int).lemma_filter_push(c, |c: char| !secret@.contains(c));
        }
        let mark = if i < m && secret.get_char(i) == c {
            Feedback::Correct
        } else if contains_char(secret, c) {
            Feedback::Present
        } else {
            absent.push(c);
            Feedback::Absent
        };
        marks.push(mark);
        assert(marks@ == feedback_of(secret@, guess@.take(i as int + 1)));
        i = i + 1;
    }
    assert(guess@.take(n as int) == guess@);
    (marks, absent)
}

/// Does `v` hold `c`?
fn vec_contains_char(v: &Vec<char>, c: char) -> (r: bool)
    ensures
        r == v@.contains(c),
{
    let mut i: usize = 0;
    while i < v.len()
        invariant
            i <= v@.len(),
            forall|j: int| 0 <= j < i ==> v@[j] != c,
        decreases v@.len() - i,
    {
        if v[i] == c {
            return true;
        }
        i = i + 1;
    }
    false
}

/// Appends to `known` each letter of `new` that it does not hold yet.
fn add_letters_to(known: &mut Vec<char>, new: &Vec<char>)
    ensures
        final(known)@ == add_letters(old(known)@, new@),
{
    let mut i: usize = 0;
    while i < new.len()
        invariant
            i <= new@.len(),
            known@ == add_letters(old(known)@, new@.take(i as int)),
        decreases new@.len() - i,
    {
        let c = new[i];
        assert(new@.take(i as int + 1).drop_last() == new@.take(i as int));
        if !vec_contains_char(known, c) {
            known.push(c);
        }
        i = i + 1;
    }
    assert(new@.take(new@.len() as int) == new@);
}

/// Does `words` hold a word with the text of `w`?
fn has_word(words: &Vec<String>, w: &String) -> (r: bool)
    ensures
        r == views_of(words@).contains(w@),
{
    let mut i: usize = 0;
    while i < words.len()
        invariant
            i <= words@.len(),
            forall|j: int| 0 <= j < i ==> words@[j]@ != w@,
        decreases words@.len() - i,
    {
        if words[i] == *w {
            assert(views_of(words@)[i as int] == w@);
            return true;
        }
        i = i + 1;
    }
    assert forall|j: int| 0 <= j < views_of(words@).len() implies views_of(words@)[j] != w@ by {
        assert(views_of(words@)[j] == words@[j]@);
    }
    false
}

/// What a game is, seen as values.
pub ghost struct ManagerView {
    /// The dictionary, in order.
    pub words: Seq<Seq<char>>,
    /// The secret word.
    pub secret: Seq<char>,
    /// The letters known to be absent from the secret, in order of discovery.
    pub wrong: Seq<char>,
    /// The valid guesses taken, in order.
    pub guesses: Seq<Seq<char>>,
}

/// One game, from the choice of its secret word to its end.
pub struct Manager {
    available_words: Vec<String>,
    chosen_word: String,
    guessed_letters: Vec<char>,
    guesses: Vec<String>,
}

impl View for Manager {
    type V = ManagerView;

    closed spec fn view(&self) -> ManagerView {
        ManagerView {
            words: views_of(self.available_words@),
            secret: self.chosen_word@,
            wrong: self.guessed_letters@,
            guesses: views_of(self.guesses@),
        }
    }
}

#[verifier::external_type_specification]
#[verifier::external_body]
pub struct ExRandomNumberGenerator(RandomNumberGenerator);

/// Relies on bracket_random's `RandomNumberGenerator::new`: a generator
/// seeded from the system's entropy source, or else from the clock. Nothing
/// is promised of its state.
pub assume_specification[ RandomNumberGenerator::new ]() -> RandomNumberGenerator;

/// Relies on bracket_random's `RandomNumberGenerator::range`, which draws
/// uniformly from `min..max` and panics on an empty range: the index is below
/// `n`.
#[verifier::external_body]
fn random_index(rng: &mut RandomNumberGenerator, n: usize) -> (r: usize)
    requires
        n > 0,
    ensures
        r < n,
{
    rng.range(0, n)
}

impl Manager {
    /// The secret is a word of the dictionary, the absent letters are never
    /// repeated, and every guess is a word of the dictionary.
    pub open spec fn wf(&self) -> bool {
        &&& self@.words.contains(self@.secret)
        &&& self@.wrong.no_duplicates()
        &&& forall|k: int| 0 <= k < self@.guesses.len() ==> self@.words.contains(#[trigger] self@.guesses[k])
    }

    /// A game on `words` whose secret is the word at `secret_index`, with no
    /// guess taken and no letter known to be absent.
    pub fn with_secret(words: Vec<String>, secret_index: usize) -> (r: Manager)
        requires
            secret_index < words@.len(),
        ensures
            r@ == (ManagerView {
                words: views_of(words@),
                secret: words@[secret_index as int]@,
                wrong: Seq::empty(),
                guesses: Seq::empty(),
            }),
            r.wf(),
    {
        let chosen_word = words[secret_index].clone();
        let r = Manager {
            available_words: words,
            chosen_word,
            guessed_letters: Vec::new(),
            guesses: Vec::new(),
        };
        assert(r@.words[secret_index as int] == r@.secret);
        assert(r@.guesses == Seq::<Seq<char>>::empty());
        assert(r@.wrong == Seq::<char>::empty());
        r
    }

    /// A game on `words` whose secret is drawn uniformly from them; fails with
    /// `EmptyDictionary` when there is none.
    pub fn from_words(words: Vec<String>) -> (r: Result<Manager, GameError>)
        ensures
            r is Err <==> words@.len() == 0,
            match r {
                Ok(m) => m@.words == views_of(words@) && m@.words.contains(m@.secret) && m@.wrong.len()
                    == 0 && m@.guesses.len() == 0 && m.wf(),
                Err(e) => e == GameError::EmptyDictionary,
            },
    {
        if words.len() == 0 {
            return Err(GameError::EmptyDictionary);
        }
        let mut rng = RandomNumberGenerator::new();
        let i = random_index(&mut rng, words.len());
        Ok(Manager::with_secret(words, i))
    }

    /// A game on the built-in word list, with a secret drawn from it.
    pub fn new() -> (r: Result<Manager, GameError>)
        ensures
            r is Err <==> crate::dictionary::dictionary_of(crate::words::WORDS@).len() == 0,
            match r {
                Ok(m) => m@.words == crate::dictionary::dictionary_of(crate::words::WORDS@)
                    && m@.words.contains(m@.secret) && m@.wrong.len() == 0 && m@.guesses.len() == 0
                    && m.wf(),
                Err(e) => e == GameError::EmptyDictionary,
            },
    {
        Manager::from_words(word_list())
    }

    /// Scores `candidate` against the secret and adds the letters that the
    /// secret lacks to the absent ones.
    pub fn score_and_record(&mut self, candidate: &str) -> (r: Vec<Feedback>)
        requires
            old(self).wf(),
        ensures
            r@ == feedback_of(old(self)@.secret, candidate@),
            final(self)@ == (ManagerView {
                wrong: add_letters(old(self)@.wrong, absent_in(old(self)@.secret, candidate@)),
                ..old(self)@
            }),
            final(self)@.wrong.to_set() == old(self)@.wrong.to_set() + absent_in(
                old(self)@.secret,
                candidate@,
            ).to_set(),
            final(self).wf(),
    {
        let (marks, absent) = score(self.chosen_word.as_str(), candidate);
        add_letters_to(&mut self.guessed_letters, &absent);
        proof {
            lemma_add_letters(old(self)@.wrong, absent@);
        }
        marks
    }

    /// Scores every guess taken, in order, and records the letters that the
    /// secret lacks: the rows of the board.
    pub fn draw_board(&mut self) -> (r: Vec<Vec<Feedback>>)
        requires
            old(self).wf(),
        ensures
            r@.len() == old(self)@.guesses.len(),
            forall|k: int|
                0 <= k < r@.len() ==> (#[trigger] r@[k])@ == feedback_of(
                    old(self)@.secret,
                    old(self)@.guesses[k],
                ),
            final(self)@ == (ManagerView {
                wrong: record_guesses(old(self)@.wrong, old(self)@.secret, old(self)@.guesses),
                ..old(self)@
            }),
            final(self).wf(),
    {
        let mut rows: Vec<Vec<Feedback>> = Vec::new();
        let mut k: usize = 0;
        while k < self.guesses.len()
            invariant
                self.wf(),
                k <= self@.guesses.len(),
                self@ == (ManagerView {
                    wrong: record_guesses(
                        old(self)@.wrong,
                        old(self)@.secret,
                        old(self)@.guesses.take(k as int),
                    ),
                    ..old(self)@
                }),
                rows@.len() == k,
                forall|j: int|
                    0 <= j < k ==> (#[trigger] rows@[j])@ == feedback_of(
                        old(self)@.secret,
                        old(self)@.guesses[j],
                    ),
            decreases self@.guesses.len() - k,
        {
            let g = self.guesses[k].clone();
            assert(g@ == self@.guesses[k as int]);
            assert(old(self)@.guesses.take(k as int + 1).drop_last() == old(self)@.guesses.take(
                k as int,
            ));
            let row = self.score_and_record(g.as_str());
            rows.push(row);
            k = k + 1;
        }
        assert(old(self)@.guesses.take(k as int) == old(self)@.guesses);
        rows
    }

    /// The letters known to be absent from the secret, in order of discovery.
    pub fn show_invalid_letters(&self) -> (r: Vec<char>)
        ensures
            r@ == self@.wrong,
    {
        let mut r: Vec<char> = Vec::new();
        let mut i: usize = 0;
        while i < self.guessed_letters.len()
            invariant
                i <= self@.wrong.len(),
                self@.wrong == self.guessed_letters@,
                r@ == self@.wrong.take(i as int),
            decreases self@.wrong.len() - i,
        {
            r.push(self.guessed_letters[i]);
            assert(self@.wrong.take(i as int + 1) == self@.wrong.take(i as int).push(
                self@.wrong[i as int],
            ));
            i = i + 1;
        }
        assert(self@.wrong.take(i as int) == self@.wrong);
        r
    }

    /// Normalises `raw` and takes it as the next guess if it is a word of five
    /// letters in the dictionary. A guess turned down leaves the game as it
    /// was.
    pub fn take_guess(&mut self, raw: &str) -> (r: Result<String, GameError>)
        requires
            old(self).wf(),
        ensures
            final(self).wf(),
            r is Ok <==> (crate::text::normalized(raw@).len() == LENGTH && old(self)@.words.contains(
                crate::text::normalized(raw@),
            )),
            match r {
                Ok(w) => w@ == crate::text::normalized(raw@) && final(self)@ == (ManagerView {
                    guesses: old(self)@.guesses.push(w@),
                    ..old(self)@
                }),
                Err(e) => *final(self) == *old(self) && (e == GameError::InvalidLength <==> crate::text::normalized(
                    raw@,
                ).len() != LENGTH) && (e == GameError::NotInDictionary <==> (crate::text::normalized(
                    raw@,
                ).len() == LENGTH && !old(self)@.words.contains(crate::text::normalized(raw@)))),
            },
    {
        let w = arrange_word(raw);
        if w.unicode_len() != LENGTH {
            return Err(GameError::InvalidLength);
        }
        if !has_word(&self.available_words, &w) {
            return Err(GameError::NotInDictionary);
        }
        self.guesses.push(w.clone());
        assert(self@.guesses == old(self)@.guesses.push(w@));
        Ok(w)
    }

    /// Where the game stands after `last_guess`: won if it is the secret,
    /// whatever the number of guesses; else lost once six guesses were taken;
    /// else in progress.
    pub fn is_game_over(&self, last_guess: &str) -> (r: GameResult)
        ensures
            r == outcome(self@.secret, self@.guesses.len(), last_guess@),
            r == GameResult::Won <==> last_guess@ == self@.secret,
            r == GameResult::Lost <==> (last_guess@ != self@.secret && self@.guesses.len() >= TRY),
            r == GameResult::InProgress <==> (last_guess@ != self@.secret && self@.guesses.len()
                < TRY),
    {
        let secret: &str = self.chosen_word.as_str();
        if last_guess.unicode_len() == secret.unicode_len() && same_text(last_guess, secret) {
            GameResult::Won
        } else if self.guesses.len() >= TRY {
            GameResult::Lost
        } else {
            GameResult::InProgress
        }
    }

    /// The secret word.
    pub fn chosen_word(&self) -> (r: &String)
        ensures
            r@ == self@.secret,
    {
        &self.chosen_word
    }

    /// The dictionary.
    pub fn available_words(&self) -> (r: &Vec<String>)
        ensures
            views_of(r@) == self@.words,
    {
        &self.available_words
    }

    /// The valid guesses taken so far.
    pub fn guesses(&self) -> (r: &Vec<String>)
        ensures
            views_of(r@) == self@.guesses,
    {
        &self.guesses
    }
}

/// Do `a` and `b` hold the same characters?
fn same_text(a: &str, b: &str) -> (r: bool)
    ensures
        r == (a@ == b@),
{
    let n = a.unicode_len();
    if n != b.unicode_len() {
        return false;
    }
    let mut i: usize = 0;
    while i < n
        invariant
            n == a@.len(),
            n == b@.len(),
            i <= n,
            forall|j: int| 0 <= j < i ==> a@[j] == b@[j],
        decreases n - i,
    {
        if a.get_char(i) != b.get_char(i) {
            return false;
        }
        i = i + 1;
    }
    assert(a@ == b@);
    true
}

} // verus!
