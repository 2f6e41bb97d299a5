use keypad_chess::decode::{decode_file, decode_rank, ChessCoordinate};
use keypad_chess::keypad::KeyPosition;

#[test]
fn file_table_covers_all_eight_files() {
    // Row 3 enters files 0..=3 and row 2 files 4..=7, columns descending:
    // each of the 8 letters a-h is reached exactly once over the valid cells.
    let mut seen = [false; 8];
    for row in 2..4usize {
        for col in 0..4usize {
            match decode_file(KeyPosition { row, col }) {
                Some(ChessCoordinate::File(v)) => {
                    assert!(v <= 7);
                    assert!(!seen[v as usize], "file {} reached twice", v);
                    seen[v as usize] = true;
                }
                other => panic!("valid file cell decoded to {:?}", other),
            }
        }
    }
    assert!(seen.iter().all(|&s| s));
}

#[test]
fn rank_table_covers_all_eight_ranks() {
    let mut seen = [false; 8];
    for row in 0..2usize {
        for col in 0..4usize {
            match decode_rank(KeyPosition { row, col }) {
                Some(ChessCoordinate::Rank(v)) => {
                    assert!(v <= 7);
                    assert!(!seen[v as usize], "rank {} reached twice", v);
                    seen[v as usize] = true;
                }
                other => panic!("valid rank cell decoded to {:?}", other),
            }
        }
    }
    assert!(seen.iter().all(|&s| s));
}

#[test]
fn file_table_exact_values() {
    assert_eq!(decode_file(KeyPosition { row: 3, col: 3 }), Some(ChessCoordinate::File(0)));
    assert_eq!(decode_file(KeyPosition { row: 3, col: 2 }), Some(ChessCoordinate::File(1)));
    assert_eq!(decode_file(KeyPosition { row: 3, col: 1 }), Some(ChessCoordinate::File(2)));
    assert_eq!(decode_file(KeyPosition { row: 3, col: 0 }), Some(ChessCoordinate::File(3)));
    assert_eq!(decode_file(KeyPosition { row: 2, col: 3 }), Some(ChessCoordinate::File(4)));
    assert_eq!(decode_file(KeyPosition { row: 2, col: 2 }), Some(ChessCoordinate::File(5)));
    assert_eq!(decode_file(KeyPosition { row: 2, col: 1 }), Some(ChessCoordinate::File(6)));
    assert_eq!(decode_file(KeyPosition { row: 2, col: 0 }), Some(ChessCoordinate::File(7)));
}

#[test]
fn rank_table_exact_values() {
    assert_eq!(decode_rank(KeyPosition { row: 1, col: 3 }), Some(ChessCoordinate::Rank(0)));
    assert_eq!(decode_rank(KeyPosition { row: 1, col: 2 }), Some(ChessCoordinate::Rank(1)));
    assert_eq!(decode_rank(KeyPosition { row: 1, col: 1 }), Some(ChessCoordinate::Rank(2)));
    assert_eq!(decode_rank(KeyPosition { row: 1, col: 0 }), Some(ChessCoordinate::Rank(3)));
    assert_eq!(decode_rank(KeyPosition { row: 0, col: 3 }), Some(ChessCoordinate::Rank(4)));
    assert_eq!(decode_rank(KeyPosition { row: 0, col: 2 }), Some(ChessCoordinate::Rank(5)));
    assert_eq!(decode_rank(KeyPosition { row: 0, col: 1 }), Some(ChessCoordinate::Rank(6)));
    assert_eq!(decode_rank(KeyPosition { row: 0, col: 0 }), Some(ChessCoordinate::Rank(7)));
}

#[test]
fn file_decoder_misses_outside_its_rows() {
    // The two rank-entry rows, a fifth row, and columns past the matrix
    // all yield no match; the caller keeps scanning.
    assert_eq!(decode_file(KeyPosition { row: 0, col: 0 }), None);
    assert_eq!(decode_file(KeyPosition { row: 1, col: 3 }), None);
    assert_eq!(decode_file(KeyPosition { row: 4, col: 0 }), None);
    assert_eq!(decode_file(KeyPosition { row: 3, col: 4 }), None);
    assert_eq!(decode_file(KeyPosition { row: 2, col: 100 }), None);
}

#[test]
fn rank_decoder_misses_outside_its_rows() {
    assert_eq!(decode_rank(KeyPosition { row: 2, col: 0 }), None);
    assert_eq!(decode_rank(KeyPosition { row: 3, col: 3 }), None);
    assert_eq!(decode_rank(KeyPosition { row: 4, col: 2 }), None);
    assert_eq!(decode_rank(KeyPosition { row: 1, col: 4 }), None);
    assert_eq!(decode_rank(KeyPosition { row: 0, col: 100 }), None);
}

#[test]
fn coordinate_index_strips_the_tag() {
    assert_eq!(ChessCoordinate::File(5).index(), 5);
    assert_eq!(ChessCoordinate::Rank(2).index(), 2);
    assert_ne!(ChessCoordinate::File(5), ChessCoordinate::Rank(5));
}
