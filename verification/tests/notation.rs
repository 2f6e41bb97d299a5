use keypad_chess::decode::{decode_file, decode_rank, ChessCoordinate};
use keypad_chess::keypad::KeyPosition;
use keypad_chess::notation::{build, render, MoveToken};

#[test]
fn all_zero_tuple_is_kingside_castle() {
    let t = build(
        ChessCoordinate::File(0),
        ChessCoordinate::Rank(0),
        ChessCoordinate::File(0),
        ChessCoordinate::Rank(0),
    );
    assert_eq!(t, MoveToken::KingsideCastle);
}

#[test]
fn all_one_tuple_is_queenside_castle() {
    let t = build(
        ChessCoordinate::File(1),
        ChessCoordinate::Rank(1),
        ChessCoordinate::File(1),
        ChessCoordinate::Rank(1),
    );
    assert_eq!(t, MoveToken::QueensideCastle);
}

#[test]
fn other_tuples_come_out_unchanged() {
    let t = build(
        ChessCoordinate::File(4),
        ChessCoordinate::Rank(1),
        ChessCoordinate::File(4),
        ChessCoordinate::Rank(3),
    );
    assert_eq!(
        t,
        MoveToken::Coordinates { from_file: 4, from_rank: 1, to_file: 4, to_rank: 3 }
    );
}

#[test]
fn near_sentinel_tuples_are_literal() {
    // One coordinate off either sentinel keeps the literal reading.
    let t = build(
        ChessCoordinate::File(0),
        ChessCoordinate::Rank(0),
        ChessCoordinate::File(0),
        ChessCoordinate::Rank(1),
    );
    assert_eq!(
        t,
        MoveToken::Coordinates { from_file: 0, from_rank: 0, to_file: 0, to_rank: 1 }
    );
    let t = build(
        ChessCoordinate::File(1),
        ChessCoordinate::Rank(1),
        ChessCoordinate::File(1),
        ChessCoordinate::Rank(0),
    );
    assert_eq!(
        t,
        MoveToken::Coordinates { from_file: 1, from_rank: 1, to_file: 1, to_rank: 0 }
    );
}

#[test]
fn render_kingside_castle() {
    assert_eq!(render(&MoveToken::KingsideCastle), "O-O");
}

#[test]
fn render_queenside_castle() {
    assert_eq!(render(&MoveToken::QueensideCastle), "O-O-O");
}

#[test]
fn render_coordinate_move() {
    let t = MoveToken::Coordinates { from_file: 4, from_rank: 1, to_file: 4, to_rank: 3 };
    assert_eq!(render(&t), "e2e4");
}

#[test]
fn render_is_pure() {
    let t = MoveToken::Coordinates { from_file: 7, from_rank: 0, to_file: 0, to_rank: 7 };
    assert_eq!(render(&t), render(&t));
    assert_eq!(render(&t), "h1a8");
}

#[test]
fn decode_build_render_round_trip() {
    // Entering file 2, rank 3, file 4, rank 4 at the keypad renders as
    // the literal string "c4e5".
    let from_file = decode_file(KeyPosition { row: 3, col: 1 }).unwrap();
    let from_rank = decode_rank(KeyPosition { row: 1, col: 0 }).unwrap();
    let to_file = decode_file(KeyPosition { row: 2, col: 3 }).unwrap();
    let to_rank = decode_rank(KeyPosition { row: 0, col: 3 }).unwrap();
    assert_eq!(from_file, ChessCoordinate::File(2));
    assert_eq!(from_rank, ChessCoordinate::Rank(3));
    assert_eq!(to_file, ChessCoordinate::File(4));
    assert_eq!(to_rank, ChessCoordinate::Rank(4));
    let token = build(from_file, from_rank, to_file, to_rank);
    assert_eq!(render(&token), "c4e5");
}

#[test]
fn render_never_exceeds_ten_characters() {
    assert!(render(&MoveToken::KingsideCastle).len() <= 10);
    assert!(render(&MoveToken::QueensideCastle).len() <= 10);
    let t = MoveToken::Coordinates { from_file: 7, from_rank: 7, to_file: 7, to_rank: 7 };
    assert!(render(&t).len() <= 10);
}
