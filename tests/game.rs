use wordle_game::{score, Feedback, GameError, GameResult, Manager, TRY};

use Feedback::{Absent, Correct, Present};

fn game(secret: &str, others: &[&str]) -> Manager {
    let mut words = vec![secret.to_string()];
    words.extend(others.iter().map(|w| w.to_string()));
    Manager::with_secret(words, 0)
}

#[test]
fn manager_crated_successfully() {
    let a = Manager::new().unwrap();
    assert_eq!(a.chosen_word().chars().count(), 5);
    assert!(a.available_words().len() > 0);
    assert!(a.guesses().len() == 0);
}

#[test]
fn from_words_picks_a_word_of_the_dictionary() {
    let words: Vec<String> = vec!["TIGER".to_string(), "LEMON".to_string(), "GOLDY".to_string()];
    for _ in 0..50 {
        let m = Manager::from_words(words.clone()).unwrap();
        assert!(words.contains(m.chosen_word()));
        assert_eq!(m.available_words(), &words);
        assert!(m.guesses().is_empty());
        assert!(m.show_invalid_letters().is_empty());
    }
}

#[test]
fn from_words_fails_on_empty_dictionary() {
    assert!(matches!(Manager::from_words(Vec::new()), Err(GameError::EmptyDictionary)));
}

#[test]
fn from_words_reaches_every_word() {
    let words: Vec<String> = vec!["TIGER".to_string(), "LEMON".to_string()];
    let mut seen = [false, false];
    for _ in 0..200 {
        let m = Manager::from_words(words.clone()).unwrap();
        let i = words.iter().position(|w| w == m.chosen_word()).unwrap();
        seen[i] = true;
    }
    assert_eq!(seen, [true, true]);
}

#[test]
fn score_exact_match_is_all_correct() {
    let mut m = game("GOLDY", &[]);
    let marks = m.score_and_record("GOLDY");
    assert_eq!(marks, vec![Correct, Correct, Correct, Correct, Correct]);
    assert!(m.show_invalid_letters().is_empty());
}

#[test]
fn score_anagram_is_present_but_middle() {
    let mut m = game("GOLDY", &[]);
    let marks = m.score_and_record("YDLOG");
    assert_eq!(marks, vec![Present, Present, Correct, Present, Present]);
    assert!(m.show_invalid_letters().is_empty());
}

#[test]
fn score_records_absent_letters() {
    let mut m = game("GOLDY", &[]);
    let marks = m.score_and_record("ABCDE");
    // The D of ABCDE stands where the D of GOLDY stands.
    assert_eq!(marks, vec![Absent, Absent, Absent, Correct, Absent]);
    assert_eq!(m.show_invalid_letters(), vec!['A', 'B', 'C', 'E']);
}

#[test]
fn score_marks_repeated_letters_present_each_time() {
    let (marks, absent) = score("GOLDY", "OOOZO");
    assert_eq!(marks, vec![Present, Correct, Present, Absent, Present]);
    assert_eq!(absent, vec!['Z']);
}

#[test]
fn score_returns_absent_letters_with_repeats() {
    let (marks, absent) = score("GOLDY", "XAXBY");
    assert_eq!(marks, vec![Absent, Absent, Absent, Absent, Correct]);
    assert_eq!(absent, vec!['X', 'A', 'X', 'B']);
}

#[test]
fn absent_letters_are_kept_once_across_guesses() {
    let mut m = game("GOLDY", &[]);
    m.score_and_record("ABCDE");
    m.score_and_record("BEACH");
    assert_eq!(m.show_invalid_letters(), vec!['A', 'B', 'C', 'E', 'H']);
}

#[test]
fn take_guess_accepts_a_dictionary_word() {
    let mut m = game("GOLDY", &["TIGER"]);
    assert_eq!(m.take_guess(" tiger\n"), Ok("TIGER".to_string()));
    assert_eq!(m.guesses(), &vec!["TIGER".to_string()]);
}

#[test]
fn take_guess_rejects_wrong_length() {
    let mut m = game("GOLDY", &["TIGER"]);
    assert_eq!(m.take_guess("tig\n"), Err(GameError::InvalidLength));
    assert_eq!(m.take_guess("tigers"), Err(GameError::InvalidLength));
    assert!(m.guesses().is_empty());
}

#[test]
fn take_guess_rejects_unknown_word() {
    let mut m = game("GOLDY", &["TIGER"]);
    assert_eq!(m.take_guess("lemon"), Err(GameError::NotInDictionary));
    assert!(m.guesses().is_empty());
    assert_eq!(m.is_game_over("LEMON"), GameResult::InProgress);
}

#[test]
fn draw_board_scores_every_guess() {
    let mut m = game("GOLDY", &["ABCDE", "YDLOG"]);
    m.take_guess("abcde").unwrap();
    m.take_guess("ydlog").unwrap();
    let rows = m.draw_board();
    assert_eq!(
        rows,
        vec![
            vec![Absent, Absent, Absent, Correct, Absent],
            vec![Present, Present, Correct, Present, Present],
        ]
    );
    assert_eq!(m.show_invalid_letters(), vec!['A', 'B', 'C', 'E']);
    let again = m.draw_board();
    assert_eq!(again, rows);
    assert_eq!(m.show_invalid_letters(), vec!['A', 'B', 'C', 'E']);
}

#[test]
fn game_is_won_on_the_last_try() {
    let mut m = game("GOLDY", &["TIGER"]);
    for _ in 0..TRY - 1 {
        m.take_guess("tiger").unwrap();
        assert_eq!(m.is_game_over("TIGER"), GameResult::InProgress);
    }
    m.take_guess("goldy").unwrap();
    assert_eq!(m.guesses().len(), 6);
    assert_eq!(m.is_game_over("GOLDY"), GameResult::Won);
}

#[test]
fn game_is_won_on_the_first_try() {
    let mut m = game("GOLDY", &[]);
    m.take_guess("goldy").unwrap();
    assert_eq!(m.is_game_over("GOLDY"), GameResult::Won);
}

#[test]
fn game_is_lost_after_six_misses() {
    let mut m = game("GOLDY", &["TIGER"]);
    for _ in 0..6 {
        assert_eq!(m.is_game_over("TIGER"), GameResult::InProgress);
        m.take_guess("tiger").unwrap();
    }
    assert_eq!(m.is_game_over("TIGER"), GameResult::Lost);
}
