//! Read-model projections over a game: the status snapshot and the
//! running-total pair that the use-case layer hands to its callers.

use vstd::prelude::*;
use crate::game::{spec_sum_them, spec_sum_us, Game};
use crate::hand::{spec_state_bid, spec_state_bidder};
use crate::value::{GameState, HandState, Player};

verus! {

/// A snapshot of one game for presentation: the game's lifecycle state,
/// everything the current hand reports, and the running totals.
pub struct GameStatus {
    pub id: uuid::Uuid,
    pub game_state: Option<GameState>,
    pub hand_state: Option<HandState>,
    pub current_dealer: Option<Player>,
    pub bidder: Option<Player>,
    pub bid_amount: Option<u32>,
    pub us_meld: Option<u32>,
    pub them_meld: Option<u32>,
    pub us_tricks: Option<u32>,
    pub them_tricks: Option<u32>,
    pub us_total: Option<i32>,
    pub them_total: Option<i32>,
    pub us_running_total: i32,
    pub them_running_total: i32,
}

impl Default for GameStatus {
    /// The snapshot of a game that does not exist: a fresh throwaway
    /// identifier, no state, zero totals.
    fn default() -> (r: GameStatus)
        ensures
            r.game_state is None,
            r.hand_state is None,
            r.current_dealer is None,
            r.bidder is None,
            r.bid_amount is None,
            r.us_meld is None,
            r.them_meld is None,
            r.us_tricks is None,
            r.them_tricks is None,
            r.us_total is None,
            r.them_total is None,
            r.us_running_total == 0,
            r.them_running_total == 0,
    {
        GameStatus {
            id: uuid::Uuid::new_v4(),
            game_state: None,
            hand_state: None,
            current_dealer: None,
            bidder: None,
            bid_amount: None,
            us_meld: None,
            them_meld: None,
            us_tricks: None,
            them_tricks: None,
            us_total: None,
            them_total: None,
            us_running_total: 0,
            them_running_total: 0,
        }
    }
}

impl GameStatus {
    /// The snapshot of an existing game: every field is what the game and
    /// its current hand report through their query accessors.
    pub fn from_game(game: &Game) -> (r: GameStatus)
        requires
            game.wf(),
            game.spec_completed().len() < 4294967296,
            -2147483648 <= spec_sum_us(game.spec_completed()) <= 2147483647,
            -2147483648 <= spec_sum_them(game.spec_completed()) <= 2147483647,
        ensures
            r.id == game.spec_id().0,
            r.game_state == Some(game.spec_game_state()),
            r.hand_state == (match game.spec_current() {
                Some(h) => Some(h.spec_state()),
                None => None::<HandState>,
            }),
            r.current_dealer == (match game.spec_current() {
                Some(h) => Some(h.spec_dealer()),
                None => None::<Player>,
            }),
            r.bidder == (match game.spec_current() {
                Some(h) => spec_state_bidder(h.spec_state()),
                None => None::<Player>,
            }),
            r.bid_amount == (match game.spec_current() {
                Some(h) => spec_state_bid(h.spec_state()),
                None => None::<u32>,
            }),
            r.us_meld == (match game.spec_current() {
                Some(h) => match h.spec_state() {
                    HandState::WaitingForTricks { us_meld, .. } => us_meld,
                    HandState::Completed { us_meld, .. } => us_meld,
                    _ => None::<u32>,
                },
                None => None::<u32>,
            }),
            r.them_meld == (match game.spec_current() {
                Some(h) => match h.spec_state() {
                    HandState::WaitingForTricks { them_meld, .. } => them_meld,
                    HandState::Completed { them_meld, .. } => them_meld,
                    _ => None::<u32>,
                },
                None => None::<u32>,
            }),
            r.us_tricks == (match game.spec_current() {
                Some(h) => match h.spec_state() {
                    HandState::Completed { us_tricks, .. } => us_tricks,
                    _ => None::<u32>,
                },
                None => None::<u32>,
            }),
            r.them_tricks == (match game.spec_current() {
                Some(h) => match h.spec_state() {
                    HandState::Completed { them_tricks, .. } => them_tricks,
                    _ => None::<u32>,
                },
                None => None::<u32>,
            }),
            (match game.spec_current() {
                Some(h) => {
                    &&& (r.us_total matches Some(t) && t as int == crate::hand::spec_us_total(
                        h.spec_state(),
                    ))
                    &&& (r.them_total matches Some(t2) && t2 as int
                        == crate::hand::spec_them_total(h.spec_state()))
                },
                None => r.us_total is None && r.them_total is None,
            }),
            r.us_running_total as int == spec_sum_us(game.spec_completed()),
            r.them_running_total as int == spec_sum_them(game.spec_completed()),
    {
        let (us_running_total, them_running_total) = game.running_totals();
        let current = game.current_hand();
        match current {
            Some(hand) => GameStatus {
                id: game.id().0,
                game_state: Some(game.state()),
                hand_state: Some(hand.state()),
                current_dealer: Some(hand.dealer()),
                bidder: hand.bidder(),
                bid_amount: hand.bid_amount(),
                us_meld: hand.us_meld(),
                them_meld: hand.them_meld(),
                us_tricks: hand.us_tricks(),
                them_tricks: hand.them_tricks(),
                us_total: Some(hand.us_total()),
                them_total: Some(hand.them_total()),
                us_running_total,
                them_running_total,
            },
            None => GameStatus {
                id: game.id().0,
                game_state: Some(game.state()),
                hand_state: None,
                current_dealer: None,
                bidder: None,
                bid_amount: None,
                us_meld: None,
                them_meld: None,
                us_tricks: None,
                them_tricks: None,
                us_total: None,
                them_total: None,
                us_running_total,
                them_running_total,
            },
        }
    }
}

/// The running totals of one game, as the use-case layer reports them.
pub struct RunningTotal {
    pub us: i32,
    pub them: i32,
}

impl RunningTotal {
    /// The running totals of `game`, summed over its completed hands.
    pub fn of_game(game: &Game) -> (r: RunningTotal)
        requires
            game.spec_completed().len() < 4294967296,
            -2147483648 <= spec_sum_us(game.spec_completed()) <= 2147483647,
            -2147483648 <= spec_sum_them(game.spec_completed()) <= 2147483647,
        ensures
            r.us as int == spec_sum_us(game.spec_completed()),
            r.them as int == spec_sum_them(game.spec_completed()),
    {
        let (us, them) = game.running_totals();
        RunningTotal { us, them }
    }
}

} // verus!
