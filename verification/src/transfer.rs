//! The wire-shaped value types the transport layer exchanges with the
//! core. Serialization itself stays outside the library; these are the
//! bare shapes and the pure mappings into them.

use vstd::prelude::*;
use crate::status::RunningTotal;
use crate::value::{Player, Suit};

verus! {

/// Request to start a new game with a chosen first dealer.
#[derive(Debug, Clone, Copy)]
pub struct StartNewGameRequest {
    pub dealer: Player,
}

/// Request to deal the first hand of an existing game.
#[derive(Debug, Clone, Copy)]
pub struct StartNewHandRequest {
    pub game_id: uuid::Uuid,
}

/// Request to place a bid on the current hand.
#[derive(Debug, Clone, Copy)]
pub struct RecordBidRequest {
    pub player: Player,
    pub bid: u32,
}

/// Request to declare trump on the current hand.
#[derive(Debug, Clone, Copy)]
pub struct DeclareTrumpRequest {
    pub trump: Suit,
}

/// Request to record both teams' meld claims.
#[derive(Debug, Clone, Copy)]
pub struct RecordMeldRequest {
    pub us_meld: u32,
    pub them_meld: u32,
}

/// Request to record both teams' trick points.
#[derive(Debug, Clone, Copy)]
pub struct RecordTricksRequest {
    pub us_tricks: u32,
    pub them_tricks: u32,
}

/// Response carrying a game's running totals.
#[derive(Debug, Clone, Copy)]
pub struct RunningTotalResponse {
    pub us_total: i32,
    pub them_total: i32,
}

impl RunningTotalResponse {
    /// The response shape of a running-total pair.
    pub fn of(value: &RunningTotal) -> (r: RunningTotalResponse)
        ensures
            r.us_total == value.us,
            r.them_total == value.them,
    {
        RunningTotalResponse { us_total: value.us, them_total: value.them }
    }
}

} // verus!
