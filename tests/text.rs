use wordle_game::{arrange_word, keep_capitals, load, word_list, GameError};

fn strings(words: &[&str]) -> Vec<String> {
    words.iter().map(|w| w.to_string()).collect()
}

#[test]
fn arrange_word_works() {
    let word = "gol Dy  ";
    let result = arrange_word(word);
    assert_eq!(result, "GOLDY");
}

#[test]
fn word_list_works() {
    let words = word_list();
    assert!(words.len() > 1);
    let count = words.iter().filter(|w| w.chars().count() != 5).count();
    assert_eq!(count, 0);
}

#[test]
fn arrange_word_is_idempotent_on_examples() {
    for raw in ["  gol Dy  ", "a1b2c3", "", "straße", "Hello, World!", "\tque\u{3000}"] {
        let once = arrange_word(raw);
        assert_eq!(arrange_word(&once), once);
    }
}

#[test]
fn capital_word_is_its_own_normal_form() {
    for w in ["GOLDY", "ABCDE", "ZZZZZ", "QUEEN"] {
        assert_eq!(arrange_word(w), w);
    }
}

#[test]
fn arrange_word_uppercases_beyond_ascii() {
    assert_eq!(arrange_word("straße"), "STRASSE");
    assert_eq!(arrange_word("ﬁeld"), "FIELD");
}

#[test]
fn arrange_word_drops_other_characters() {
    assert_eq!(arrange_word("\u{2003}g-o_l.d!y\r"), "GOLDY");
    assert_eq!(arrange_word("émile"), "MILE");
    assert_eq!(arrange_word("12345"), "");
}

#[test]
fn keep_capitals_keeps_only_a_to_z() {
    assert_eq!(keep_capitals("aBcD1EÉ"), "BDE");
    assert_eq!(keep_capitals(""), "");
}

#[test]
fn load_keeps_five_letter_words_in_order() {
    let words = load("goldy\nhi\n  Queen \nabc de\nfourteen\ngoldy\n").unwrap();
    assert_eq!(words, strings(&["GOLDY", "QUEEN", "ABCDE", "GOLDY"]));
}

#[test]
fn load_reads_the_last_line_without_a_break() {
    let words = load("tiger\nlemon").unwrap();
    assert_eq!(words, strings(&["TIGER", "LEMON"]));
}

#[test]
fn load_fails_on_an_empty_dictionary() {
    assert_eq!(load(""), Err(GameError::EmptyDictionary));
    assert_eq!(load("\n\nfour\nsixsix\n"), Err(GameError::EmptyDictionary));
}

#[test]
fn load_never_empty_with_one_word() {
    let words = load("x\n\nabcd\nwords\n!!").unwrap();
    assert_eq!(words, strings(&["WORDS"]));
    assert!(words.iter().all(|w| w.chars().count() == 5));
}
