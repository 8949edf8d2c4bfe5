//! The ways in which a request can fail.

use vstd::prelude::*;

verus! {

/// Why a turn could not be carried out.
#[derive(Debug, Clone, Copy, PartialEq, Eq, Structural)]
pub enum GameError {
    /// The text of a move log holds something other than the digits `0` to
    /// `6`, fills a column beyond six stones, or holds more than 42 plies.
    InvalidLog,
    /// The chosen column does not exist or has no free cell left.
    IllegalMove,
    /// The engine could not be started. No function of this crate returns
    /// it: the driver reports a failed start with it.
    EngineUnavailable,
    /// A score and a ply count that cannot belong together: more plies and
    /// a higher score than a board of 42 cells allows.
    InconsistentClassification,
}

impl GameError {
    /// Whether the error stems from what the user sent.
    pub open spec fn from_input(self) -> bool {
        self == GameError::InvalidLog || self == GameError::IllegalMove
    }

    /// Whether the driver may answer with a fresh game. Errors that stem
    /// from the user's input are recoverable; the others point to a fault
    /// of the service and are reported as such.
    pub fn is_recoverable(&self) -> (r: bool)
        ensures
            r == self.from_input(),
    {
        match self {
            GameError::InvalidLog => true,
            GameError::IllegalMove => true,
            GameError::EngineUnavailable => false,
            GameError::InconsistentClassification => false,
        }
    }
}

} // verus!
