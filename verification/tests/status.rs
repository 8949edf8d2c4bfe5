use connect4_web::error::GameError;
use connect4_web::status::GameStatus;

#[test]
fn zero_score_is_a_draw_with_all_turns_left() {
    assert_eq!(GameStatus::new(0, 0), Ok(GameStatus::Drawing(21)));
}

#[test]
fn positive_score_is_a_win() {
    // 21 - 10 / 2 - 3
    assert_eq!(GameStatus::new(3, 10), Ok(GameStatus::Winning(13)));
}

#[test]
fn negative_score_is_a_loss() {
    // 21 - 7 / 2 - 2
    assert_eq!(GameStatus::new(-2, 7), Ok(GameStatus::Losing(16)));
}

#[test]
fn odd_ply_counts_round_down() {
    assert_eq!(GameStatus::new(1, 8), Ok(GameStatus::Winning(16)));
    assert_eq!(GameStatus::new(1, 9), Ok(GameStatus::Winning(16)));
    assert_eq!(GameStatus::new(1, 10), Ok(GameStatus::Winning(15)));
}

#[test]
fn no_turn_left_is_terminal() {
    assert_eq!(GameStatus::new(21, 0), Ok(GameStatus::Winning(0)));
    assert_eq!(GameStatus::new(-21, 1), Ok(GameStatus::Losing(0)));
    assert_eq!(GameStatus::new(0, 42), Ok(GameStatus::Drawing(0)));
    assert_eq!(GameStatus::new(18, 7), Ok(GameStatus::Winning(0)));
}

#[test]
fn score_beyond_the_board_is_inconsistent() {
    assert_eq!(GameStatus::new(22, 0), Err(GameError::InconsistentClassification));
    assert_eq!(GameStatus::new(-22, 0), Err(GameError::InconsistentClassification));
    assert_eq!(GameStatus::new(1, 42), Err(GameError::InconsistentClassification));
    assert_eq!(GameStatus::new(19, 7), Err(GameError::InconsistentClassification));
    assert_eq!(GameStatus::new(0, 44), Err(GameError::InconsistentClassification));
}

#[test]
fn extreme_inputs_are_inconsistent() {
    assert_eq!(GameStatus::new(isize::MIN, 0), Err(GameError::InconsistentClassification));
    assert_eq!(GameStatus::new(isize::MAX, 0), Err(GameError::InconsistentClassification));
    assert_eq!(GameStatus::new(0, usize::MAX), Err(GameError::InconsistentClassification));
    assert_eq!(GameStatus::new(isize::MIN, usize::MAX), Err(GameError::InconsistentClassification));
}

#[test]
fn classification_follows_the_sign_for_every_score_in_range() {
    for plies in 0usize..=43 {
        for score in -22isize..=22 {
            let left = 21 - (plies as isize) / 2 - score.abs();
            let got = GameStatus::new(score, plies);
            if left < 0 {
                assert_eq!(got, Err(GameError::InconsistentClassification));
            } else if score == 0 {
                assert_eq!(got, Ok(GameStatus::Drawing(left as usize)));
            } else if score > 0 {
                assert_eq!(got, Ok(GameStatus::Winning(left as usize)));
            } else {
                assert_eq!(got, Ok(GameStatus::Losing(left as usize)));
            }
        }
    }
}

#[test]
fn reverse_swaps_winning_and_losing() {
    assert_eq!(GameStatus::Winning(4).reverse(), GameStatus::Losing(4));
    assert_eq!(GameStatus::Losing(0).reverse(), GameStatus::Winning(0));
    assert_eq!(GameStatus::Drawing(7).reverse(), GameStatus::Drawing(7));
}

#[test]
fn reverse_twice_is_identity() {
    for n in [0usize, 1, 5, 21, usize::MAX] {
        for status in [GameStatus::Winning(n), GameStatus::Losing(n), GameStatus::Drawing(n)] {
            assert_eq!(status.reverse().reverse(), status);
        }
        assert_eq!(GameStatus::Drawing(n).reverse(), GameStatus::Drawing(n));
    }
}

#[test]
fn is_reset_exactly_when_no_turn_is_left() {
    for n in [0usize, 1, 2, 21, usize::MAX] {
        assert_eq!(GameStatus::Winning(n).is_reset(), n == 0);
        assert_eq!(GameStatus::Losing(n).is_reset(), n == 0);
        assert_eq!(GameStatus::Drawing(n).is_reset(), n == 0);
    }
}

#[test]
fn terminal_messages() {
    assert_eq!(GameStatus::Winning(0).to_msg(), "You Won");
    assert_eq!(GameStatus::Losing(0).to_msg(), "You Lost");
    assert_eq!(GameStatus::Drawing(0).to_msg(), "You Drew");
}

#[test]
fn progress_messages() {
    assert_eq!(GameStatus::Winning(1).to_msg(), "You can win in 1 turn(s)");
    assert_eq!(GameStatus::Winning(13).to_msg(), "You can win in 13 turn(s)");
    assert_eq!(GameStatus::Drawing(21).to_msg(), "You can draw in 21 turn(s)");
    assert_eq!(GameStatus::Losing(9).to_msg(), "You will lose in 9 turn(s)");
    assert_eq!(GameStatus::Losing(100).to_msg(), "You will lose in 100 turn(s)");
}

#[test]
fn input_errors_are_recoverable() {
    assert!(GameError::InvalidLog.is_recoverable());
    assert!(GameError::IllegalMove.is_recoverable());
    assert!(!GameError::EngineUnavailable.is_recoverable());
    assert!(!GameError::InconsistentClassification.is_recoverable());
}

#[test]
fn no_two_standings_share_a_message() {
    let mut all = Vec::new();
    for n in [0usize, 1, 2, 10, 11, 21, 100] {
        all.push(GameStatus::Winning(n));
        all.push(GameStatus::Losing(n));
        all.push(GameStatus::Drawing(n));
    }
    for a in all.iter() {
        for b in all.iter() {
            assert_eq!(a.to_msg() == b.to_msg(), a == b);
        }
    }
}
