//! Decoding key positions into chess coordinates.
//!
//! A 4x4 matrix of sixteen keys cannot name 8 files and 8 ranks with a
//! single press each, so move entry time-multiplexes the matrix: one press
//! chooses a file through [`decode_file`], the next chooses a rank through
//! [`decode_rank`]. Each decoder owns a fixed lookup table over two rows of
//! the matrix, read with descending columns — rows 3 and 2 enter files
//! (cell (3,3) is file 'a', cell (2,0) file 'h'), rows 1 and 0 enter ranks
//! (cell (1,3) is rank '1', cell (0,0) rank '8') — and reports no match for
//! every other cell, upon which the caller simply keeps scanning.

use vstd::prelude::*;
use crate::keypad::KeyPosition;

verus! {

/// A chess board coordinate: an index in [0, 7] tagged by the axis it
/// belongs to. Files and ranks range over the same eight indices but are
/// semantically distinct and must never be interchanged.
#[derive(Clone, Copy, PartialEq, Eq, Structural, Debug)]
pub enum ChessCoordinate {
    /// A file index: 0 is file 'a', 7 is file 'h'.
    File(u8),
    /// A rank index: 0 is rank '1', 7 is rank '8'.
    Rank(u8),
}

impl ChessCoordinate {
    /// The bare index, stripped of its axis tag.
    pub open spec fn index_spec(self) -> int {
        match self {
            ChessCoordinate::File(v) => v as int,
            ChessCoordinate::Rank(v) => v as int,
        }
    }

    /// The index lies on the board.
    pub open spec fn wf(self) -> bool {
        self.index_spec() <= 7
    }

    /// The bare index, stripped of its axis tag.
    pub fn index(self) -> (r: u8)
        ensures
            r == self.index_spec(),
    {
        match self {
            ChessCoordinate::File(v) => v,
            ChessCoordinate::Rank(v) => v,
        }
    }
}

/// The file-entry table: row 3 carries files 0..=3 and row 2 files 4..=7,
/// each read with descending columns, so that (3,3) enters file 0 and (2,0)
/// file 7; every cell outside those two rows (or beyond column 3) is unmapped.
pub open spec fn file_cell_value(row: int, col: int) -> Option<int> {
    if row == 3 && 0 <= col < 4 {
        Some(3 - col)
    } else if row == 2 && 0 <= col < 4 {
        Some(7 - col)
    } else {
        None
    }
}

/// The cell is one of the 8 valid file-entry cells.
pub open spec fn file_cell_valid(row: int, col: int) -> bool {
    file_cell_value(row, col) is Some
}

/// The rank-entry table: row 1 carries ranks 0..=3 and row 0 ranks 4..=7,
/// each read with descending columns, so that (1,3) enters rank 0 and (0,0)
/// rank 7; every cell outside those two rows (or beyond column 3) is unmapped.
pub open spec fn rank_cell_value(row: int, col: int) -> Option<int> {
    if row == 1 && 0 <= col < 4 {
        Some(3 - col)
    } else if row == 0 && 0 <= col < 4 {
        Some(7 - col)
    } else {
        None
    }
}

/// The cell is one of the 8 valid rank-entry cells.
pub open spec fn rank_cell_valid(row: int, col: int) -> bool {
    rank_cell_value(row, col) is Some
}

/// What [`decode_file`] returns for a key position.
pub open spec fn decode_file_spec(pos: KeyPosition) -> Option<ChessCoordinate> {
    match file_cell_value(pos.row as int, pos.col as int) {
        Some(v) => Some(ChessCoordinate::File(v as u8)),
        None => None,
    }
}

/// What [`decode_rank`] returns for a key position.
pub open spec fn decode_rank_spec(pos: KeyPosition) -> Option<ChessCoordinate> {
    match rank_cell_value(pos.row as int, pos.col as int) {
        Some(v) => Some(ChessCoordinate::Rank(v as u8)),
        None => None,
    }
}

/// Translate a key position into a file index through the file-entry table.
/// Unmapped positions yield no match; the caller keeps scanning.
pub fn decode_file(pos: KeyPosition) -> (r: Option<ChessCoordinate>)
    ensures
        r == decode_file_spec(pos),
        r matches Some(c) ==> c is File && c.wf(),
{
    if pos.col < 4 {
        if pos.row == 3 {
            Some(ChessCoordinate::File((3 - pos.col) as u8))
        } else if pos.row == 2 {
            Some(ChessCoordinate::File((7 - pos.col) as u8))
        } else {
            None
        }
    } else {
        None
    }
}

/// Translate a key position into a rank index through the rank-entry table.
/// Unmapped positions yield no match; the caller keeps scanning.
pub fn decode_rank(pos: KeyPosition) -> (r: Option<ChessCoordinate>)
    ensures
        r == decode_rank_spec(pos),
        r matches Some(c) ==> c is Rank && c.wf(),
{
    if pos.col < 4 {
        if pos.row == 1 {
            Some(ChessCoordinate::Rank((3 - pos.col) as u8))
        } else if pos.row == 0 {
            Some(ChessCoordinate::Rank((7 - pos.col) as u8))
        } else {
            None
        }
    } else {
        None
    }
}

/// The valid file-entry cell that enters a given file index.
pub open spec fn file_cell_for(v: int) -> KeyPosition {
    if v < 4 {
        KeyPosition { row: 3, col: (3 - v) as usize }
    } else {
        KeyPosition { row: 2, col: (7 - v) as usize }
    }
}

/// The valid rank-entry cell that enters a given rank index.
pub open spec fn rank_cell_for(v: int) -> KeyPosition {
    if v < 4 {
        KeyPosition { row: 1, col: (3 - v) as usize }
    } else {
        KeyPosition { row: 0, col: (7 - v) as usize }
    }
}

/// Every key position outside the 8 valid file-entry cells decodes to no
/// match, and symmetrically for the rank-entry cells.
pub proof fn lemma_decode_miss(pos: KeyPosition)
    ensures
        !file_cell_valid(pos.row as int, pos.col as int) ==> decode_file_spec(pos) is None,
        !rank_cell_valid(pos.row as int, pos.col as int) ==> decode_rank_spec(pos) is None,
{
}

/// Over its 8 valid cells the file decoder is a bijection onto the file
/// indices 0..=7: every valid cell yields a file on the board, every file
/// index is entered by exactly the cell [`file_cell_for`] names, and no two
/// distinct valid cells enter the same file.
pub proof fn lemma_decode_file_bijective()
    ensures
        forall|p: KeyPosition|
            file_cell_valid(p.row as int, p.col as int)
                ==> ((#[trigger] decode_file_spec(p)) matches Some(c) && c is File && c.wf()),
        forall|v: int|
            0 <= v <= 7
                ==> {
                    let p = #[trigger] file_cell_for(v);
                    &&& file_cell_valid(p.row as int, p.col as int)
                    &&& decode_file_spec(p) == Some(ChessCoordinate::File(v as u8))
                },
        forall|p1: KeyPosition, p2: KeyPosition|
            file_cell_valid(p1.row as int, p1.col as int)
                && file_cell_valid(p2.row as int, p2.col as int)
                && #[trigger] decode_file_spec(p1) == #[trigger] decode_file_spec(p2) ==> p1 == p2,
{
}

/// Over its 8 valid cells the rank decoder is a bijection onto the rank
/// indices 0..=7, in the same three senses as the file decoder.
pub proof fn lemma_decode_rank_bijective()
    ensures
        forall|p: KeyPosition|
            rank_cell_valid(p.row as int, p.col as int)
                ==> ((#[trigger] decode_rank_spec(p)) matches Some(c) && c is Rank && c.wf()),
        forall|v: int|
            0 <= v <= 7
                ==> {
                    let p = #[trigger] rank_cell_for(v);
                    &&& rank_cell_valid(p.row as int, p.col as int)
                    &&& decode_rank_spec(p) == Some(ChessCoordinate::Rank(v as u8))
                },
        forall|p1: KeyPosition, p2: KeyPosition|
            rank_cell_valid(p1.row as int, p1.col as int)
                && rank_cell_valid(p2.row as int, p2.col as int)
                && #[trigger] decode_rank_spec(p1) == #[trigger] decode_rank_spec(p2) ==> p1 == p2,
{
}

} // verus!
