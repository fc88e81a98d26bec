//! Scoring core for a four-player partnership Pinochle-style card game.
//!
//! The library enforces the legal phase sequence of a hand (bid, trump,
//! meld, tricks), computes per-hand and cumulative scores, rotates the
//! dealer, and detects game completion with a deterministic tie-break.

pub mod environment;
pub mod errors;
pub mod game;
pub mod hand;
pub mod ids;
pub mod status;
pub mod transfer;
pub mod value;

pub use environment::Environment;
pub use errors::{GameError, GameRepositoryError, HandError};
pub use game::{Game, WINNING_SCORE};
pub use hand::{Hand, MAX_BID_AMOUNT, MAX_MELD_POINTS};
pub use ids::{GameId, HandId};
pub use status::{GameStatus, RunningTotal};
pub use transfer::{
    DeclareTrumpRequest, RecordBidRequest, RecordMeldRequest, RecordTricksRequest,
    RunningTotalResponse, StartNewGameRequest, StartNewHandRequest,
};
pub use value::{GameState, HandState, Player, Suit, Team};
