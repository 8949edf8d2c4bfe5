use connect4_web::error::GameError;
use connect4_web::move_log::{column_of, MoveLog, COLUMNS, MAX_PLIES, ROWS};

const FULL_BOARD: &str = "000000111111222222333333444444555555666666";

#[test]
fn board_dimensions() {
    assert_eq!(COLUMNS, 7);
    assert_eq!(ROWS, 6);
    assert_eq!(MAX_PLIES, 42);
    assert_eq!(FULL_BOARD.len(), 42);
}

#[test]
fn empty_text_is_the_empty_log() {
    let log = MoveLog::decode("").unwrap();
    assert_eq!(log.len(), 0);
    assert_eq!(log, MoveLog::new());
    assert_eq!(log.encode(), "");
}

#[test]
fn decode_reads_one_column_per_digit() {
    let log = MoveLog::decode("031425").unwrap();
    assert_eq!(log.as_slice(), &[0u8, 3, 1, 4, 2, 5]);
    assert_eq!(log.len(), 6);
}

#[test]
fn decode_refuses_digits_beyond_six() {
    assert_eq!(MoveLog::decode("7"), Err(GameError::InvalidLog));
    assert_eq!(MoveLog::decode("0123456789"), Err(GameError::InvalidLog));
    assert_eq!(MoveLog::decode("339"), Err(GameError::InvalidLog));
}

#[test]
fn decode_refuses_other_characters() {
    assert_eq!(MoveLog::decode("a"), Err(GameError::InvalidLog));
    assert_eq!(MoveLog::decode("3 4"), Err(GameError::InvalidLog));
    assert_eq!(MoveLog::decode("-1"), Err(GameError::InvalidLog));
    assert_eq!(MoveLog::decode("12\n"), Err(GameError::InvalidLog));
    assert_eq!(MoveLog::decode("1\u{e9}2"), Err(GameError::InvalidLog));
    assert_eq!(MoveLog::decode("\u{661}"), Err(GameError::InvalidLog));
}

#[test]
fn decode_refuses_a_seventh_stone_in_a_column() {
    assert!(MoveLog::decode("333333").is_ok());
    assert_eq!(MoveLog::decode("3333333"), Err(GameError::InvalidLog));
    assert_eq!(MoveLog::decode("0303030303030"), Err(GameError::InvalidLog));
}

#[test]
fn decode_takes_a_full_board_and_no_more() {
    let full = MoveLog::decode(FULL_BOARD).unwrap();
    assert_eq!(full.len(), 42);
    let mut longer = String::from(FULL_BOARD);
    longer.push('0');
    assert_eq!(MoveLog::decode(&longer), Err(GameError::InvalidLog));
    let long_and_flat = "0123456".repeat(7);
    assert_eq!(MoveLog::decode(&long_and_flat), Err(GameError::InvalidLog));
}

#[test]
fn encode_writes_one_digit_per_ply() {
    let log = MoveLog::new().extend(3).unwrap().extend(3).unwrap().extend(0).unwrap().extend(6).unwrap();
    assert_eq!(log.encode(), "3306");
}

#[test]
fn decode_undoes_encode() {
    for text in ["", "3", "031425", "3333334444445", "0123456012345601234560123456", FULL_BOARD] {
        let log = MoveLog::decode(text).unwrap();
        assert_eq!(log.encode(), text);
        assert_eq!(MoveLog::decode(&log.encode()), Ok(log));
    }
}

#[test]
fn decode_undoes_encode_of_extended_logs() {
    let mut log = MoveLog::new();
    for ply in 0usize..42 {
        log = log.extend((ply * 3) % 7).unwrap();
        assert_eq!(MoveLog::decode(&log.encode()), Ok(log.clone()));
    }
}

#[test]
fn extend_appends_one_ply() {
    let log = MoveLog::decode("03").unwrap();
    let longer = log.extend(6).unwrap();
    assert_eq!(longer.as_slice(), &[0u8, 3, 6]);
    assert_eq!(log.as_slice(), &[0u8, 3]);
}

#[test]
fn extend_refuses_columns_beyond_the_board() {
    let log = MoveLog::decode("03").unwrap();
    assert_eq!(log.extend(7), Err(GameError::IllegalMove));
    assert_eq!(log.extend(10), Err(GameError::IllegalMove));
    assert_eq!(log.extend(usize::MAX), Err(GameError::IllegalMove));
}

#[test]
fn extend_does_not_look_at_the_height_of_the_column() {
    let log = MoveLog::decode("333333").unwrap();
    let over = log.extend(3).unwrap();
    assert_eq!(over.len(), 7);
    assert_eq!(over.height(3), 7);
    assert_eq!(MoveLog::decode(&over.encode()), Err(GameError::InvalidLog));
}

#[test]
fn height_counts_the_stones_of_a_column() {
    let log = MoveLog::decode("0330312").unwrap();
    assert_eq!(log.height(0), 2);
    assert_eq!(log.height(1), 1);
    assert_eq!(log.height(2), 1);
    assert_eq!(log.height(3), 3);
    assert_eq!(log.height(4), 0);
    assert_eq!(log.height(7), 0);
    assert_eq!(log.height(300), 0);
}

#[test]
fn can_play_where_a_cell_is_free() {
    let log = MoveLog::decode("333333").unwrap();
    assert!(!log.can_play(3));
    assert!(log.can_play(0));
    assert!(log.can_play(6));
    assert!(!log.can_play(7));
    assert!(!log.can_play(usize::MAX));
}

#[test]
fn can_play_nothing_on_a_full_board() {
    let log = MoveLog::decode(FULL_BOARD).unwrap();
    for column in 0..8 {
        assert!(!log.can_play(column));
    }
}

#[test]
fn can_play_nothing_after_42_plies() {
    let mut log = MoveLog::new();
    for _ in 0..42 {
        log = log.extend(0).unwrap();
    }
    assert_eq!(log.height(1), 0);
    assert!(!log.can_play(1));
}

#[test]
fn clone_keeps_the_plies() {
    let log = MoveLog::decode("0123").unwrap();
    assert_eq!(log.clone(), log);
    assert_eq!(log.clone().encode(), "0123");
}

#[test]
fn characters_of_columns() {
    assert_eq!(column_of('0'), Some(0));
    assert_eq!(column_of('6'), Some(6));
    assert_eq!(column_of('7'), None);
    assert_eq!(column_of('/'), None);
    assert_eq!(column_of('x'), None);
}
