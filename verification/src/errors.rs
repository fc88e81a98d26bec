//! Error values returned by hand and game transitions, and by the
//! persistence gateway around the core.
//!
//! Every error is a value; no operation of the core panics on
//! malformed-but-typed input.

use vstd::prelude::*;
use crate::ids::GameId;

verus! {

/// A rejected hand transition: either the hand was not in the phase the
/// operation needs, or an input broke a domain rule.
#[derive(Debug)]
pub enum HandError {
    /// The operation was invoked while the hand is in another phase.
    InvalidStateTransition(String),
    /// The bid amount breaks the increment rules.
    InvalidBid(String),
    /// The trick totals cannot be reconciled to a sum of fifty.
    InvalidTricks(u32, u32),
}

/// A rejected game operation. Hand errors surface wrapped, never
/// swallowed.
#[derive(Debug)]
pub enum GameError {
    /// The game as a whole was not in the state the operation needs.
    InvalidStateTransition(String),
    /// The operation needs a current hand and there is none.
    InvalidOperation(String),
    /// The current hand rejected the delegated transition.
    HandError(HandError),
}

/// A failure reported by the game persistence gateway.
#[derive(Debug, PartialEq, Eq)]
pub enum GameRepositoryError {
    GameRepositoryError(String),
    GameDoesNotExist(GameId),
}

} // verus!
