//! A five-letter word-guessing game: word normalisation, dictionary loading,
//! per-letter feedback and the game's state machine.

pub mod dictionary;
pub mod error;
pub mod game;
pub mod text;
pub mod words;

pub use dictionary::{load, word_list, LENGTH};
pub use error::GameError;
pub use game::{score, Feedback, GameResult, Manager, TRY};
pub use text::{arrange_word, keep_capitals};
