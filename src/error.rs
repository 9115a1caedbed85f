//! The ways in which starting a game or taking a guess can fail.

use vstd::prelude::*;

verus! {

/// Why a game could not start, or why a guess was turned down.
#[derive(Clone, Copy, Debug, PartialEq, Eq, Structural)]
pub enum GameError {
    /// The dictionary holds no word, so no secret can be chosen.
    EmptyDictionary,
    /// The normalised guess does not have five letters.
    InvalidLength,
    /// The normalised guess is not a word of the dictionary.
    NotInDictionary,
}

} // verus!
