//! What the library decides about the save file. Reading and writing the file
//! is the caller's business.

use crate::game::GameState;
use vstd::prelude::*;

verus! {

/// The name of the save file inside the application's data directory.
pub const SAVE_FILE_NAME: &'static str = "pomagotchi_save.json";

/// What the caller owes the save file after an operation.
#[derive(Clone, Copy, Debug, PartialEq, Eq, Structural)]
pub enum Persistence {
    /// Write the whole state to the save file.
    Save,
    /// Leave the save file as it is.
    Skip,
}

/// What came of looking for a saved game.
#[derive(Debug)]
pub enum LoadOutcome {
    /// There is no save file.
    Missing,
    /// The file could not be read or does not hold a game; the message says why.
    Failed(String),
    /// The file held this game.
    Loaded(GameState),
}

impl GameState {
    /// Takes over a saved game. A missing file leaves the state as it is and is
    /// no error; a file that cannot be read or decoded leaves the state as it is
    /// and hands the message on; a decoded game replaces the state whole.
    pub fn apply_load(&mut self, outcome: LoadOutcome) -> (result: Result<(), String>)
        ensures
            match outcome {
                LoadOutcome::Missing => result is Ok && *final(self) == *old(self),
                LoadOutcome::Failed(message) => {
                    &&& result == Err::<(), String>(message)
                    &&& *final(self) == *old(self)
                },
                LoadOutcome::Loaded(game) => result is Ok && *final(self) == game,
            },
    {
        match outcome {
            LoadOutcome::Missing => Ok(()),
            LoadOutcome::Failed(message) => Err(message),
            LoadOutcome::Loaded(game) => {
                *self = game;
                Ok(())
            },
        }
    }
}

} // verus!
