//! Identifiers for games and hands, drawn at random when a game or a hand
//! is created.

use vstd::prelude::*;

verus! {

/// Declares `uuid::Uuid` to the verifier; its values are opaque here and
/// only carried through.
#[verifier::external_type_specification]
#[verifier::external_body]
pub struct ExUuid(uuid::Uuid);

/// Relies on `uuid::Uuid::new_v4`: a freshly drawn random identifier.
/// Nothing can be promised of a random value.
pub assume_specification[ uuid::Uuid::new_v4 ]() -> uuid::Uuid;

/// Identifier of a game.
#[derive(Debug, Clone, Copy, PartialEq, Eq, Hash)]
pub struct GameId(pub uuid::Uuid);

impl GameId {
    /// A fresh, randomly drawn game identifier.
    pub fn new() -> GameId {
        GameId(uuid::Uuid::new_v4())
    }
}

/// Identifier of a hand.
#[derive(Debug, Clone, Copy, PartialEq, Eq, Hash)]
pub struct HandId(pub uuid::Uuid);

impl HandId {
    /// A fresh, randomly drawn hand identifier.
    pub fn new() -> HandId {
        HandId(uuid::Uuid::new_v4())
    }
}

} // verus!
