//! Value types: seats, teams, suits, and the phase states of a hand and
//! of a game.

use vstd::prelude::*;

verus! {

/// One of the two fixed partnerships. North and South form `Us`;
/// East and West form `Them`.
#[derive(Debug, Clone, Copy, PartialEq, Eq, Structural)]
pub enum Team {
    Us,
    Them,
}

/// A trump suit, or the sentinel `NoMarriage` meaning the bidder lacked a
/// marriage and so could not declare trump (a distinct game state, not an
/// error).
#[derive(Debug, Clone, Copy, PartialEq, Eq, Structural)]
pub enum Suit {
    Spades,
    Hearts,
    Clubs,
    Diamonds,
    NoMarriage,
}

/// One of the four fixed seats.
#[derive(Debug, Clone, Copy, PartialEq, Eq, Structural)]
pub enum Player {
    North,
    South,
    East,
    West,
}

/// The team a seat belongs to.
pub open spec fn spec_team(p: Player) -> Team {
    match p {
        Player::North | Player::South => Team::Us,
        Player::East | Player::West => Team::Them,
    }
}

/// The seat to the left of `p`: the fixed total-order dealer rotation.
pub open spec fn spec_next_clockwise(p: Player) -> Player {
    match p {
        Player::South => Player::West,
        Player::West => Player::North,
        Player::North => Player::East,
        Player::East => Player::South,
    }
}

impl Player {
    /// The team this seat plays for.
    pub fn team(self) -> (t: Team)
        ensures
            t == spec_team(self),
    {
        match self {
            Player::North | Player::South => Team::Us,
            Player::East | Player::West => Team::Them,
        }
    }

    /// The next seat clockwise; dealing rotates through this function.
    pub fn next_clockwise(self) -> (p: Player)
        ensures
            p == spec_next_clockwise(self),
    {
        match self {
            Player::South => Player::West,
            Player::West => Player::North,
            Player::North => Player::East,
            Player::East => Player::South,
        }
    }
}

/// Dealer rotation is a four-cycle: following the clockwise order four
/// times from any seat returns to that seat.
pub proof fn lemma_next_clockwise_four_cycle(p: Player)
    ensures
        spec_next_clockwise(spec_next_clockwise(spec_next_clockwise(spec_next_clockwise(p)))) == p,
{
}

/// The lifecycle state of a game as a whole.
#[derive(Debug, Clone, Copy, PartialEq, Eq, Structural)]
pub enum GameState {
    WaitingToStart,
    InProgress,
    Completed,
}

/// The phase of a single hand, with the payload accumulated so far.
#[derive(Debug, Clone, Copy, PartialEq, Eq, Structural)]
pub enum HandState {
    WaitingForBid,
    WaitingForTrump { bidder: Player, bid_amount: u32 },
    NoMarriage { bidder: Player, bid_amount: u32 },
    WaitingForMeld { bidder: Player, bid_amount: u32, trump: Suit },
    WaitingForTricks {
        bidder: Player,
        bid_amount: u32,
        trump: Suit,
        us_meld: Option<u32>,
        them_meld: Option<u32>,
    },
    Completed {
        bidder: Player,
        bid_amount: u32,
        trump: Suit,
        us_meld: Option<u32>,
        them_meld: Option<u32>,
        us_tricks: Option<u32>,
        them_tricks: Option<u32>,
        us_total: Option<i32>,
        them_total: Option<i32>,
    },
}

impl HandState {
    /// The `Us` meld recorded in this phase, where one has been recorded.
    pub fn us_meld(self) -> (r: Option<u32>)
        ensures
            r == (match self {
                HandState::WaitingForTricks { us_meld, .. } => us_meld,
                HandState::Completed { us_meld, .. } => us_meld,
                _ => None,
            }),
    {
        match self {
            HandState::WaitingForTricks { us_meld, .. } => us_meld,
            HandState::Completed { us_meld, .. } => us_meld,
            _ => None,
        }
    }

    /// The `Them` meld recorded in this phase, where one has been recorded.
    pub fn them_meld(self) -> (r: Option<u32>)
        ensures
            r == (match self {
                HandState::WaitingForTricks { them_meld, .. } => them_meld,
                HandState::Completed { them_meld, .. } => them_meld,
                _ => None,
            }),
    {
        match self {
            HandState::WaitingForTricks { them_meld, .. } => them_meld,
            HandState::Completed { them_meld, .. } => them_meld,
            _ => None,
        }
    }

    /// The bid carried by this phase, for the phases this accessor reports.
    pub fn bid_amount(self) -> (r: Option<u32>)
        ensures
            r == (match self {
                HandState::WaitingForTrump { bid_amount, .. } => Some(bid_amount),
                HandState::WaitingForTricks { bid_amount, .. } => Some(bid_amount),
                HandState::Completed { bid_amount, .. } => Some(bid_amount),
                _ => None,
            }),
    {
        match self {
            HandState::WaitingForTrump { bid_amount, .. } => Some(bid_amount),
            HandState::WaitingForTricks { bid_amount, .. } => Some(bid_amount),
            HandState::Completed { bid_amount, .. } => Some(bid_amount),
            _ => None,
        }
    }
}

} // verus!
