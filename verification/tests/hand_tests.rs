use pinochle::{Hand, HandState, Player, Suit};

#[test]
fn hand_new_hand_should_start_waiting_for_bid() {
    let hand = Hand::new(Player::South);

    assert_eq!(hand.dealer(), Player::South);
    assert_eq!(hand.state(), HandState::WaitingForBid);
}

#[test]
fn hand_new_hand_should_have_unique_id() {
    let hand1 = Hand::new(Player::South);
    let hand2 = Hand::new(Player::South);

    assert_ne!(hand1.id(), hand2.id());
}

#[test]
fn hand_should_accept_valid_bid() {
    let hand = Hand::new(Player::South);
    let id = hand.id();
    let result = hand.place_bid(Player::North, 51);

    assert!(result.is_ok());

    let hand = result.unwrap();

    match hand.state() {
        HandState::WaitingForTrump { bidder, bid_amount } => {
            assert_eq!(bidder, Player::North);
            assert_eq!(bid_amount, 51);
        }
        _ => panic!("Expected WaitingForTrump state"),
    }
    assert_eq!(hand.id(), id);
    assert_eq!(hand.bidder(), Some(Player::North));
    assert_eq!(hand.bid_amount(), Some(51));
}

#[test]
fn hand_should_reject_bid_below_minimum() {
    let hand = Hand::new(Player::South);

    let result = hand.place_bid(Player::North, 49);

    assert!(result.is_err());
}

#[test]
fn hand_should_accept_valid_bid_increments_below_sixty() {
    let hand = Hand::new(Player::South);

    assert!(hand.place_bid(Player::North, 50).is_ok());
    assert!(hand.place_bid(Player::North, 51).is_ok());
    assert!(hand.place_bid(Player::North, 52).is_ok());
    assert!(hand.place_bid(Player::North, 59).is_ok());
}

#[test]
fn hand_should_accept_valid_bid_increments_above_sixty_to_ninety() {
    let hand = Hand::new(Player::South);

    assert!(hand.place_bid(Player::North, 60).is_ok());
    assert!(hand.place_bid(Player::North, 65).is_ok());
    assert!(hand.place_bid(Player::North, 70).is_ok());
    assert!(hand.place_bid(Player::North, 95).is_ok());
}

#[test]
fn hand_should_accept_valid_bid_increments_hundred_plus() {
    let hand = Hand::new(Player::South);

    assert!(hand.place_bid(Player::North, 100).is_ok());
    assert!(hand.place_bid(Player::North, 110).is_ok());
    assert!(hand.place_bid(Player::North, 120).is_ok());
    assert!(hand.place_bid(Player::North, 200).is_ok());
}

#[test]
fn hand_should_reject_invalid_bid_increments() {
    let hand = Hand::new(Player::South);

    assert!(hand.place_bid(Player::North, 61).is_err());
    assert!(hand.place_bid(Player::North, 63).is_err());
    assert!(hand.place_bid(Player::North, 77).is_err());

    assert!(hand.place_bid(Player::North, 105).is_err());
    assert!(hand.place_bid(Player::North, 121).is_err());
    assert!(hand.place_bid(Player::North, 151).is_err());
}

#[test]
fn hand_should_accept_minimum_bid() {
    let hand = Hand::new(Player::South);
    let id = hand.id();
    let result = hand.place_bid(Player::North, 50);

    assert!(result.is_ok());
    let hand = result.unwrap();

    match hand.state() {
        HandState::WaitingForTrump { bidder, bid_amount } => {
            assert_eq!(bidder, Player::North);
            assert_eq!(bid_amount, 50);
        }
        _ => panic!("Expected WaitingForTrump state"),
    }
    assert_eq!(hand.id(), id);
    assert_eq!(hand.bidder(), Some(Player::North));
    assert_eq!(hand.bid_amount(), Some(50));
}

#[test]
fn hand_should_reject_bid_when_not_waiting_for_bid() {
    let hand = Hand::new(Player::South).set_state(HandState::WaitingForTrump {
        bidder: Player::North,
        bid_amount: 51,
    });

    let result = hand.place_bid(Player::North, 51);

    assert!(result.is_err());
}

#[test]
fn hand_should_accept_valid_trump_declaration_with_marriage() {
    let hand = Hand::new(Player::South).place_bid(Player::North, 51).unwrap();

    let result = hand.declare_trump(Suit::Spades);

    assert!(result.is_ok());
    let new_hand = result.unwrap();

    match new_hand.state() {
        HandState::WaitingForMeld { bidder, bid_amount, trump } => {
            assert_eq!(bidder, Player::North);
            assert_eq!(bid_amount, 51);
            assert_eq!(trump, Suit::Spades);
        }
        _ => panic!("Expected NoMarriage state"),
    }
}

#[test]
fn hand_should_transition_to_no_marriage_when_bidder_lacks_marriage() {
    let hand = Hand::new(Player::South).place_bid(Player::North, 51).unwrap();

    let result = hand.declare_trump(Suit::NoMarriage);

    assert!(result.is_ok());
    let new_hand = result.unwrap();

    match new_hand.state() {
        HandState::NoMarriage { bidder, bid_amount } => {
            assert_eq!(bidder, Player::North);
            assert_eq!(bid_amount, 51);
        }
        _ => panic!("Expected NoMarriage state"),
    }

    assert_eq!(new_hand.trump(), None);
}

#[test]
fn hand_should_reject_trump_declaration_when_not_waiting_for_trump() {
    let hand = Hand::new(Player::South).set_state(HandState::WaitingForMeld {
        bidder: Player::North,
        bid_amount: 51,
        trump: Suit::Spades,
    });

    let result = hand.declare_trump(Suit::Spades);

    assert!(result.is_err());
}

#[test]
fn hand_should_preserve_hand_id_after_trump_declaration() {
    let hand = Hand::new(Player::South).place_bid(Player::North, 51).unwrap();

    let result = hand.declare_trump(Suit::Spades);

    assert!(result.is_ok());
    let new_hand = result.unwrap();

    assert_eq!(new_hand.id(), hand.id());
    assert_eq!(new_hand.dealer(), hand.dealer());
}

#[test]
fn hand_should_accept_valid_meld_from_both_teams() {
    let hand = Hand::new(Player::South)
        .place_bid(Player::North, 51)
        .unwrap()
        .declare_trump(Suit::Spades)
        .unwrap();

    let result = hand.record_meld(24, 32);

    assert!(result.is_ok());

    let new_hand = result.unwrap();

    match new_hand.state() {
        HandState::WaitingForTricks { bidder, bid_amount, trump, us_meld, them_meld } => {
            assert_eq!(bidder, Player::North);
            assert_eq!(bid_amount, 51);
            assert_eq!(trump, Suit::Spades);
            assert_eq!(us_meld, Some(24));
            assert_eq!(them_meld, Some(32));
        }
        _ => panic!("Expected WaitingForTricks state"),
    }
}

#[test]
fn hand_should_forfeit_team_meld_when_below_twenty() {
    let hand = Hand::new(Player::South)
        .place_bid(Player::North, 51)
        .unwrap()
        .declare_trump(Suit::Spades)
        .unwrap();

    let result = hand.record_meld(19, 32);

    assert!(result.is_ok());
    let new_hand = result.unwrap();

    match new_hand.state() {
        HandState::Completed {
            bidder,
            bid_amount,
            trump,
            us_meld,
            them_meld,
            us_tricks,
            them_tricks,
            us_total,
            them_total,
        } => {
            assert_eq!(bidder, Player::North);
            assert_eq!(bid_amount, 51);
            assert_eq!(trump, Suit::Spades);
            assert_eq!(us_meld, None);
            assert_eq!(them_meld, Some(32));
            assert_eq!(us_tricks, None);
            assert_eq!(them_tricks, None);
            assert_eq!(us_total, Some(-51));
            assert_eq!(them_total, Some(32));
        }
        _ => panic!("Expected WaitingForTricks state"),
    }
}

#[test]
fn hand_should_set_bidding_team_when_meld_less_then_twenty() {
    let hand = Hand::new(Player::South)
        .place_bid(Player::North, 51)
        .unwrap()
        .declare_trump(Suit::Spades)
        .unwrap();

    let result = hand.record_meld(19, 32);

    assert!(result.is_ok());
    let new_hand = result.unwrap();

    match new_hand.state() {
        HandState::Completed {
            bidder,
            bid_amount,
            trump,
            us_meld,
            them_meld,
            us_tricks,
            them_tricks,
            us_total,
            them_total,
        } => {
            assert_eq!(bidder, Player::North);
            assert_eq!(bid_amount, 51);
            assert_eq!(trump, Suit::Spades);
            assert_eq!(us_meld, None);
            assert_eq!(them_meld, Some(32));
            assert_eq!(us_tricks, None);
            assert_eq!(them_tricks, None);
            assert_eq!(us_total, Some(-51));
            assert_eq!(them_total, Some(32));
        }
        _ => panic!("Expected Complete state"),
    }
}

#[test]
fn hand_should_set_bidding_team_and_score_meld_when_meld_greater_then_twenty_for_non_bidding_team()
{
    let hand = Hand::new(Player::South)
        .place_bid(Player::North, 51)
        .unwrap()
        .declare_trump(Suit::NoMarriage)
        .unwrap();

    let result = hand.record_meld(0, 32);

    assert!(result.is_ok());
    let new_hand = result.unwrap();

    match new_hand.state() {
        HandState::Completed {
            bidder,
            bid_amount,
            trump,
            us_meld,
            them_meld,
            us_tricks,
            them_tricks,
            us_total,
            them_total,
        } => {
            assert_eq!(bidder, Player::North);
            assert_eq!(bid_amount, 51);
            assert_eq!(trump, Suit::NoMarriage);
            assert_eq!(us_meld, None);
            assert_eq!(them_meld, Some(32));
            assert_eq!(us_tricks, None);
            assert_eq!(them_tricks, None);
            assert_eq!(us_total, Some(-51));
            assert_eq!(them_total, Some(32));
        }
        _ => panic!("Expected Complete state"),
    }
}

#[test]
fn hand_validate_meld_should_return_none_for_values_below_twenty() {
    assert_eq!(Hand::get_validate_points(19), None);
    assert_eq!(Hand::get_validate_points(0), None);
    assert_eq!(Hand::get_validate_points(15), None);
}

#[test]
fn hand_validate_meld_should_return_some_for_values_twenty_and_above() {
    assert_eq!(Hand::get_validate_points(20), Some(20));
    assert_eq!(Hand::get_validate_points(25), Some(25));
    assert_eq!(Hand::get_validate_points(50), Some(50));
}

#[test]
fn hand_should_record_valid_tricks_from_both_teams() {
    let hand = Hand::new(Player::South)
        .place_bid(Player::North, 51)
        .unwrap()
        .declare_trump(Suit::Spades)
        .unwrap()
        .record_meld(24, 32)
        .unwrap();

    let result = hand.record_tricks(27, 23);

    assert!(result.is_ok());
    let new_hand = result.unwrap();

    match new_hand.state() {
        HandState::Completed {
            bidder,
            bid_amount,
            trump,
            us_meld,
            them_meld,
            us_tricks,
            them_tricks,
            us_total,
            them_total,
        } => {
            assert_eq!(bidder, Player::North);
            assert_eq!(bid_amount, 51);
            assert_eq!(trump, Suit::Spades);
            assert_eq!(us_meld, Some(24));
            assert_eq!(them_meld, Some(32));
            assert_eq!(us_tricks, Some(27));
            assert_eq!(them_tricks, Some(23));
            assert_eq!(us_total, Some(51));
            assert_eq!(them_total, Some(55));
        }
        _ => panic!("Expected Complete state"),
    }
}

#[test]
fn hand_should_error_when_tricks_total_is_invalid() {
    let hand = Hand::new(Player::South)
        .place_bid(Player::North, 51)
        .unwrap()
        .declare_trump(Suit::Spades)
        .unwrap()
        .record_meld(24, 32)
        .unwrap();

    let result = hand.record_tricks(26, 25);

    assert!(result.is_err());
}

#[test]
fn hand_should_forfeit_non_bidding_team_meld_when_tricks_below_twenty() {
    let hand = Hand::new(Player::South)
        .place_bid(Player::North, 51)
        .unwrap()
        .declare_trump(Suit::Spades)
        .unwrap()
        .record_meld(24, 32)
        .unwrap();

    let result = hand.record_tricks(36, 14);

    assert!(result.is_ok());
    let new_hand = result.unwrap();

    match new_hand.state() {
        HandState::Completed { us_tricks, them_tricks, us_total, them_total, .. } => {
            assert_eq!(us_tricks, Some(36));
            assert_eq!(them_tricks, Some(14));
            assert_eq!(us_total, Some(60));
            assert_eq!(them_total, None);
        }
        _ => panic!("Expected Completed state"),
    }
}

#[test]
fn hand_should_set_biding_team_when_contract_not_made() {
    let hand = Hand::new(Player::South)
        .place_bid(Player::North, 60)
        .unwrap()
        .declare_trump(Suit::Spades)
        .unwrap()
        .record_meld(24, 32)
        .unwrap();

    let result = hand.record_tricks(30, 20);

    assert!(result.is_ok());
    let new_hand = result.unwrap();

    match new_hand.state() {
        HandState::Completed { us_tricks, them_tricks, us_total, them_total, .. } => {
            assert_eq!(us_tricks, Some(30));
            assert_eq!(them_tricks, Some(20));
            assert_eq!(us_total, Some(-60i32));
            assert_eq!(them_total, Some(52i32));
        }
        _ => panic!("Expected Complete state"),
    }
}

#[test]
fn hand_us_total_should_return_zero_for_non_completed_states() {
    let hand = Hand::new(Player::South);
    assert_eq!(hand.us_total(), 0);

    let hand = hand.place_bid(Player::North, 51).unwrap();
    assert_eq!(hand.us_total(), 0);

    let hand = hand.declare_trump(Suit::Spades).unwrap();
    assert_eq!(hand.us_total(), 0);

    let hand = hand.record_meld(24, 32).unwrap();
    assert_eq!(hand.us_total(), 0);
}

#[test]
fn hand_them_total_should_return_zero_for_non_completed_states() {
    let hand = Hand::new(Player::South);
    assert_eq!(hand.them_total(), 0);

    let hand = hand.place_bid(Player::North, 51).unwrap();
    assert_eq!(hand.them_total(), 0);

    let hand = hand.declare_trump(Suit::Spades).unwrap();
    assert_eq!(hand.them_total(), 0);

    let hand = hand.record_meld(24, 32).unwrap();
    assert_eq!(hand.them_total(), 0);
}

#[test]
fn hand_totals_should_return_correct_values_for_completed_state() {
    let hand = Hand::new(Player::South)
        .place_bid(Player::West, 51)
        .unwrap()
        .declare_trump(Suit::Spades)
        .unwrap()
        .record_meld(24, 32)
        .unwrap()
        .record_tricks(26, 24)
        .unwrap();

    assert_eq!(hand.us_total(), 50); // 24 meld + 26 tricks
    assert_eq!(hand.them_total(), 56); // 32 meld + 24 tricks
}

#[test]
fn should_allow_zero_meld_for_both_teams() {
    let hand = Hand::new(Player::South)
        .place_bid(Player::North, 51)
        .unwrap()
        .declare_trump(Suit::Spades)
        .unwrap();

    let result = hand.record_meld(0, 0);
    assert!(result.is_ok(), "Expected Ok for zero melds, got: {:?}", result);
    let new_hand = result.unwrap();

    match new_hand.state() {
        HandState::Completed {
            bidder,
            bid_amount,
            trump,
            us_meld,
            them_meld,
            us_tricks,
            them_tricks,
            us_total,
            them_total,
        } => {
            assert_eq!(bidder, Player::North);
            assert_eq!(bid_amount, 51);
            assert_eq!(trump, Suit::Spades);
            assert_eq!(us_meld, None, "us_meld should be None for zero");
            assert_eq!(them_meld, None, "them_meld should be None for zero");
            assert_eq!(us_tricks, None);
            assert_eq!(them_tricks, None);
            // Forfeiting meld means negative bid for the bidding team; the
            // other team's total is absent when its meld is also below twenty.
            assert_eq!(us_total, Some(-51));
            assert_eq!(them_total, None);
        }
        _ => panic!("Expected Completed state"),
    }
}

#[test]
fn should_proceed_to_tricks_if_one_team_has_meld_20_or_more() {
    let hand = Hand::new(Player::South)
        .place_bid(Player::North, 51)
        .unwrap()
        .declare_trump(Suit::Spades)
        .unwrap();
    let result = hand.record_meld(0, 24);
    assert!(result.is_ok(), "Expected Ok for melds 0,24");
    let new_hand = result.unwrap();

    match new_hand.state() {
        HandState::Completed {
            bidder,
            bid_amount,
            trump,
            us_meld,
            them_meld,
            us_tricks,
            them_tricks,
            us_total,
            them_total,
        } => {
            assert_eq!(bidder, Player::North);
            assert_eq!(bid_amount, 51);
            assert_eq!(trump, Suit::Spades);
            assert_eq!(us_meld, None);
            assert_eq!(them_meld, Some(24));
            assert_eq!(us_tricks, None);
            assert_eq!(them_tricks, None);
            assert_eq!(us_total, Some(-51));
            assert_eq!(them_total, Some(24));
        }
        _ => panic!("Expected Completed state"),
    }
}

#[test]
fn should_forfeit_hand_if_contract_team_meld_is_below_20() {
    let hand = Hand::new(Player::South)
        .place_bid(Player::North, 51)
        .unwrap()
        .declare_trump(Suit::Spades)
        .unwrap();
    let result = hand.record_meld(0, 24);
    assert!(result.is_ok(), "Expected Ok for melds 0,24");
    let new_hand = result.unwrap();

    match new_hand.state() {
        HandState::Completed {
            bidder,
            bid_amount,
            trump,
            us_meld,
            them_meld,
            us_tricks,
            them_tricks,
            us_total,
            them_total,
        } => {
            assert_eq!(bidder, Player::North);
            assert_eq!(bid_amount, 51);
            assert_eq!(trump, Suit::Spades);
            assert_eq!(us_meld, None);
            assert_eq!(them_meld, Some(24));
            assert_eq!(us_tricks, None);
            assert_eq!(them_tricks, None);
            assert_eq!(us_total, Some(-51));
            assert_eq!(them_total, Some(24));
        }
        _ => panic!("Expected Completed state"),
    }
}
