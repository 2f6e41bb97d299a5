//! Assembling and rendering move notation.
//!
//! Four decoded coordinates make one [`MoveToken`]. Two reserved sentinel
//! tuples are reinterpreted as castling shorthands before any literal
//! reading: (0,0,0,0) is the kingside castle and (1,1,1,1) the queenside
//! castle, so the two lowest-indexed squares can never be entered as an
//! ordinary from/to pair — a deliberate, if fragile, overload of the
//! coordinate space. [`render`] turns a token into the short
//! printable string a chess engine's move parser expects: "O-O", "O-O-O",
//! or four characters of coordinate notation such as "e2e4".

use vstd::prelude::*;
use vstd::string::*;
use crate::decode::ChessCoordinate;

verus! {

/// One complete move as entered at the keypad: either a literal
/// from/to square pair or one of the two castling shorthands.
/// Immutable once built; consumed exactly once by the engine.
#[derive(Clone, Copy, PartialEq, Eq, Structural, Debug)]
pub enum MoveToken {
    /// An ordinary move, as file and rank indices of the source and
    /// destination squares, each in [0, 7].
    Coordinates { from_file: u8, from_rank: u8, to_file: u8, to_rank: u8 },
    /// Castling on the king's side, rendered "O-O".
    KingsideCastle,
    /// Castling on the queen's side, rendered "O-O-O".
    QueensideCastle,
}

impl MoveToken {
    /// Every coordinate of a literal move lies on the board.
    pub open spec fn wf(self) -> bool {
        self matches MoveToken::Coordinates { from_file, from_rank, to_file, to_rank }
            ==> from_file <= 7 && from_rank <= 7 && to_file <= 7 && to_rank <= 7
    }
}

/// What [`build`] returns for four coordinate indices: the sentinel tuple
/// of all zeroes is the kingside castle, the tuple of all ones the
/// queenside castle, and every other tuple is kept literally.
pub open spec fn build_spec(ff: int, fr: int, tf: int, tr: int) -> MoveToken {
    if ff == 0 && fr == 0 && tf == 0 && tr == 0 {
        MoveToken::KingsideCastle
    } else if ff == 1 && fr == 1 && tf == 1 && tr == 1 {
        MoveToken::QueensideCastle
    } else {
        MoveToken::Coordinates {
            from_file: ff as u8,
            from_rank: fr as u8,
            to_file: tf as u8,
            to_rank: tr as u8,
        }
    }
}

/// Combine four decoded coordinates into one move token. The sentinel
/// check takes precedence over the literal reading, so (0,0,0,0) and
/// (1,1,1,1) always come out as the castling tokens and every other
/// tuple comes out as its own coordinates, unchanged.
pub fn build(
    from_file: ChessCoordinate,
    from_rank: ChessCoordinate,
    to_file: ChessCoordinate,
    to_rank: ChessCoordinate,
) -> (t: MoveToken)
    requires
        from_file is File && from_file.wf(),
        from_rank is Rank && from_rank.wf(),
        to_file is File && to_file.wf(),
        to_rank is Rank && to_rank.wf(),
    ensures
        t == build_spec(
            from_file.index_spec(),
            from_rank.index_spec(),
            to_file.index_spec(),
            to_rank.index_spec(),
        ),
        t.wf(),
{
    let ff = from_file.index();
    let fr = from_rank.index();
    let tf = to_file.index();
    let tr = to_rank.index();
    if ff == 0 && fr == 0 && tf == 0 && tr == 0 {
        MoveToken::KingsideCastle
    } else if ff == 1 && fr == 1 && tf == 1 && tr == 1 {
        MoveToken::QueensideCastle
    } else {
        MoveToken::Coordinates { from_file: ff, from_rank: fr, to_file: tf, to_rank: tr }
    }
}

/// The letter naming a file index: 0 is 'a', 7 is 'h'.
pub open spec fn file_char(i: int) -> char {
    if i == 0 {
        'a'
    } else if i == 1 {
        'b'
    } else if i == 2 {
        'c'
    } else if i == 3 {
        'd'
    } else if i == 4 {
        'e'
    } else if i == 5 {
        'f'
    } else if i == 6 {
        'g'
    } else {
        'h'
    }
}

/// The digit naming a rank index: 0 is '1', 7 is '8'.
pub open spec fn rank_char(i: int) -> char {
    if i == 0 {
        '1'
    } else if i == 1 {
        '2'
    } else if i == 2 {
        '3'
    } else if i == 3 {
        '4'
    } else if i == 4 {
        '5'
    } else if i == 5 {
        '6'
    } else if i == 6 {
        '7'
    } else {
        '8'
    }
}

/// The one-character string naming a file index.
pub fn file_letter(i: u8) -> (r: &'static str)
    requires
        i <= 7,
    ensures
        r@ == seq![file_char(i as int)],
{
    if i == 0 {
        proof {
            reveal_strlit("a");
            assert("a"@ =~= seq![file_char(0)]);
        }
        "a"
    } else if i == 1 {
        proof {
            reveal_strlit("b");
            assert("b"@ =~= seq![file_char(1)]);
        }
        "b"
    } else if i == 2 {
        proof {
            reveal_strlit("c");
            assert("c"@ =~= seq![file_char(2)]);
        }
        "c"
    } else if i == 3 {
        proof {
            reveal_strlit("d");
            assert("d"@ =~= seq![file_char(3)]);
        }
        "d"
    } else if i == 4 {
        proof {
            reveal_strlit("e");
            assert("e"@ =~= seq![file_char(4)]);
        }
        "e"
    } else if i == 5 {
        proof {
            reveal_strlit("f");
            assert("f"@ =~= seq![file_char(5)]);
        }
        "f"
    } else if i == 6 {
        proof {
            reveal_strlit("g");
            assert("g"@ =~= seq![file_char(6)]);
        }
        "g"
    } else {
        proof {
            reveal_strlit("h");
            assert("h"@ =~= seq![file_char(7)]);
        }
        "h"
    }
}

/// The one-character string naming a rank index.
pub fn rank_digit(i: u8) -> (r: &'static str)
    requires
        i <= 7,
    ensures
        r@ == seq![rank_char(i as int)],
{
    if i == 0 {
        proof {
            reveal_strlit("1");
            assert("1"@ =~= seq![rank_char(0)]);
        }
        "1"
    } else if i == 1 {
        proof {
            reveal_strlit("2");
            assert("2"@ =~= seq![rank_char(1)]);
        }
        "2"
    } else if i == 2 {
        proof {
            reveal_strlit("3");
            assert("3"@ =~= seq![rank_char(2)]);
        }
        "3"
    } else if i == 3 {
        proof {
            reveal_strlit("4");
            assert("4"@ =~= seq![rank_char(3)]);
        }
        "4"
    } else if i == 4 {
        proof {
            reveal_strlit("5");
            assert("5"@ =~= seq![rank_char(4)]);
        }
        "5"
    } else if i == 5 {
        proof {
            reveal_strlit("6");
            assert("6"@ =~= seq![rank_char(5)]);
        }
        "6"
    } else if i == 6 {
        proof {
            reveal_strlit("7");
            assert("7"@ =~= seq![rank_char(6)]);
        }
        "7"
    } else {
        proof {
            reveal_strlit("8");
            assert("8"@ =~= seq![rank_char(7)]);
        }
        "8"
    }
}

/// What [`render`] returns for a token: "O-O" for the kingside castle,
/// "O-O-O" for the queenside castle, and `{file}{rank}{file}{rank}` in
/// letters 'a'-'h' and digits '1'-'8' for a literal move.
pub open spec fn render_spec(t: MoveToken) -> Seq<char> {
    match t {
        MoveToken::KingsideCastle => seq!['O', '-', 'O'],
        MoveToken::QueensideCastle => seq!['O', '-', 'O', '-', 'O'],
        MoveToken::Coordinates { from_file, from_rank, to_file, to_rank } => seq![
            file_char(from_file as int),
            rank_char(from_rank as int),
            file_char(to_file as int),
            rank_char(to_rank as int),
        ],
    }
}

/// Render a move token as the short string a chess engine's move parser
/// expects. The result never exceeds 10 characters.
pub fn render(token: &MoveToken) -> (r: String)
    requires
        token.wf(),
    ensures
        r@ == render_spec(*token),
        r@.len() <= 10,
{
    match token {
        MoveToken::KingsideCastle => {
            let s = String::from_str("O-O");
            proof {
                reveal_strlit("O-O");
                assert(s@ =~= render_spec(*token));
            }
            s
        },
        MoveToken::QueensideCastle => {
            let s = String::from_str("O-O-O");
            proof {
                reveal_strlit("O-O-O");
                assert(s@ =~= render_spec(*token));
            }
            s
        },
        MoveToken::Coordinates { from_file, from_rank, to_file, to_rank } => {
            let mut s = String::from_str(file_letter(*from_file));
            s.append(rank_digit(*from_rank));
            s.append(file_letter(*to_file));
            s.append(rank_digit(*to_rank));
            proof {
                assert(s@ =~= render_spec(*token));
            }
            s
        },
    }
}

} // verus!
