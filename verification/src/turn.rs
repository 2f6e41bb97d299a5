//! The turn loop: alternating human move entry and engine replies.
//!
//! The loop's decisions live in [`step`], a pure transition function from a
//! game state and an observed event to the next game state. The caller owns
//! the outside work: while awaiting the human it scans and decodes key
//! presses into a [`MoveToken`]; while awaiting the engine it runs the
//! engine's bounded best-move search; while a move is being applied it
//! hands the pending token to the engine's move parser and applier and
//! reports the verdict back as a [`TurnEvent`]. The board position itself
//! is owned by the engine and only threaded through here by value, so any
//! intermediate state can be constructed directly.

use vstd::prelude::*;
use crate::notation::MoveToken;

verus! {

/// Which side a move belongs to.
#[derive(Clone, Copy, PartialEq, Eq, Structural, Debug)]
pub enum Mover {
    Human,
    Engine,
}

impl Mover {
    /// The opposing side.
    pub open spec fn flipped_spec(self) -> Mover {
        match self {
            Mover::Human => Mover::Engine,
            Mover::Engine => Mover::Human,
        }
    }

    /// The opposing side.
    pub fn flipped(self) -> (r: Mover)
        ensures
            r == self.flipped_spec(),
    {
        match self {
            Mover::Human => Mover::Engine,
            Mover::Engine => Mover::Human,
        }
    }
}

/// A chess colour, as the engine reports the winner of a decided game.
#[derive(Clone, Copy, PartialEq, Eq, Structural, Debug)]
pub enum Color {
    White,
    Black,
}

/// How a finished game ended.
#[derive(Clone, Copy, PartialEq, Eq, Structural, Debug)]
pub enum GameOutcome {
    /// One side delivered checkmate.
    Victory(Color),
    /// The side to move has no legal reply and is not in check.
    Stalemate,
}

/// One phase of the turn loop. `ApplyingMove` carries the pending token
/// and whose move it is, so that a rejected move returns to the same
/// mover and the token is consumed exactly once.
#[derive(Clone, Copy, PartialEq, Eq, Structural, Debug)]
pub enum TurnPhase {
    /// Scanning the keypad for the human's four coordinates.
    AwaitingHumanMove,
    /// Running the engine's bounded best-move search.
    AwaitingEngineMove,
    /// A move token has been entered or found and awaits the engine's
    /// parse-and-apply verdict.
    ApplyingMove(Mover, MoveToken),
    /// Terminal for this loop; the surrounding program may start afresh.
    GameOver(GameOutcome),
}

/// The engine's verdict on a move it was asked to apply. The board
/// position is an opaque engine value, threaded through by value.
#[derive(Clone, Copy, PartialEq, Eq, Structural, Debug)]
pub enum ApplyReport<B> {
    /// The move is legal and the game goes on from this new position.
    Continuing(B),
    /// The engine rejected the move as illegal; the position is unchanged
    /// and the same mover is asked again.
    IllegalMove,
    /// The engine's parser could not read the rendered notation; treated
    /// exactly like an illegal move, recoverable, never fatal.
    ParseFailure,
    /// The move ended the game by checkmate.
    Victory(Color),
    /// The move left the opponent without a legal reply, not in check.
    Stalemate,
}

/// What the outside world observed, reported back to [`step`].
#[derive(Clone, Copy, PartialEq, Eq, Structural, Debug)]
pub enum TurnEvent<B> {
    /// The human finished entering a move at the keypad.
    HumanMoveEntered(MoveToken),
    /// The engine's search returned its best move.
    EngineMoveFound(MoveToken),
    /// The engine's search found no legal reply at all.
    EngineNoMove,
    /// The engine finished applying the pending token.
    MoveApplied(ApplyReport<B>),
}

/// The whole state the loop threads: the current phase and the engine's
/// board position, owned here by value, never process-wide.
#[derive(Clone, Copy, PartialEq, Eq, Structural, Debug)]
pub struct GameTurnState<B> {
    pub phase: TurnPhase,
    pub board: B,
}

/// The initial state of a fresh game: the human moves first.
pub fn initial_state<B>(board: B) -> (r: GameTurnState<B>)
    ensures
        r.phase == TurnPhase::AwaitingHumanMove,
        r.board == board,
{
    GameTurnState { phase: TurnPhase::AwaitingHumanMove, board }
}

/// The event is one the current phase can observe: a human token only
/// while awaiting the human, a search result only while awaiting the
/// engine, a verdict only while a move is being applied. `GameOver` is
/// terminal and observes nothing.
pub open spec fn event_fits<B>(phase: TurnPhase, event: TurnEvent<B>) -> bool {
    match (phase, event) {
        (TurnPhase::AwaitingHumanMove, TurnEvent::HumanMoveEntered(_)) => true,
        (TurnPhase::AwaitingEngineMove, TurnEvent::EngineMoveFound(_)) => true,
        (TurnPhase::AwaitingEngineMove, TurnEvent::EngineNoMove) => true,
        (TurnPhase::ApplyingMove(_, _), TurnEvent::MoveApplied(_)) => true,
        _ => false,
    }
}

/// The phase [`step`] moves to. An entered or found token goes to
/// `ApplyingMove` under its mover; a search with no legal reply ends the
/// game in stalemate at once, consuming no token; a legal verdict flips
/// the mover, a rejection returns to the same mover, and a decided game
/// goes to `GameOver`.
pub open spec fn next_phase_spec<B>(phase: TurnPhase, event: TurnEvent<B>) -> TurnPhase {
    match (phase, event) {
        (TurnPhase::AwaitingHumanMove, TurnEvent::HumanMoveEntered(token)) => TurnPhase::ApplyingMove(
            Mover::Human,
            token,
        ),
        (TurnPhase::AwaitingEngineMove, TurnEvent::EngineMoveFound(token)) => TurnPhase::ApplyingMove(
            Mover::Engine,
            token,
        ),
        (TurnPhase::AwaitingEngineMove, TurnEvent::EngineNoMove) => TurnPhase::GameOver(
            GameOutcome::Stalemate,
        ),
        (TurnPhase::ApplyingMove(mover, _), TurnEvent::MoveApplied(report)) => match report {
            ApplyReport::Continuing(_) => match mover.flipped_spec() {
                Mover::Human => TurnPhase::AwaitingHumanMove,
                Mover::Engine => TurnPhase::AwaitingEngineMove,
            },
            ApplyReport::IllegalMove => match mover {
                Mover::Human => TurnPhase::AwaitingHumanMove,
                Mover::Engine => TurnPhase::AwaitingEngineMove,
            },
            ApplyReport::ParseFailure => match mover {
                Mover::Human => TurnPhase::AwaitingHumanMove,
                Mover::Engine => TurnPhase::AwaitingEngineMove,
            },
            ApplyReport::Victory(color) => TurnPhase::GameOver(GameOutcome::Victory(color)),
            ApplyReport::Stalemate => TurnPhase::GameOver(GameOutcome::Stalemate),
        },
        _ => phase,
    }
}

/// The board [`step`] carries forward: the new position on a legal
/// verdict, the old one in every other case.
pub open spec fn next_board_spec<B>(board: B, event: TurnEvent<B>) -> B {
    match event {
        TurnEvent::MoveApplied(ApplyReport::Continuing(new_board)) => new_board,
        _ => board,
    }
}

/// One decision of the turn loop: from the current state and the observed
/// event to the next state. Pure; all outside work stays with the caller.
pub fn step<B>(state: GameTurnState<B>, event: TurnEvent<B>) -> (r: GameTurnState<B>)
    requires
        event_fits(state.phase, event),
    ensures
        r.phase == next_phase_spec(state.phase, event),
        r.board == next_board_spec(state.board, event),
{
    let GameTurnState { phase, board } = state;
    match (phase, event) {
        (TurnPhase::AwaitingHumanMove, TurnEvent::HumanMoveEntered(token)) => GameTurnState {
            phase: TurnPhase::ApplyingMove(Mover::Human, token),
            board,
        },
        (TurnPhase::AwaitingEngineMove, TurnEvent::EngineMoveFound(token)) => GameTurnState {
            phase: TurnPhase::ApplyingMove(Mover::Engine, token),
            board,
        },
        (TurnPhase::AwaitingEngineMove, TurnEvent::EngineNoMove) => GameTurnState {
            phase: TurnPhase::GameOver(GameOutcome::Stalemate),
            board,
        },
        (TurnPhase::ApplyingMove(mover, _), TurnEvent::MoveApplied(report)) => match report {
            ApplyReport::Continuing(new_board) => GameTurnState {
                phase: match mover.flipped() {
                    Mover::Human => TurnPhase::AwaitingHumanMove,
                    Mover::Engine => TurnPhase::AwaitingEngineMove,
                },
                board: new_board,
            },
            ApplyReport::IllegalMove => GameTurnState {
                phase: match mover {
                    Mover::Human => TurnPhase::AwaitingHumanMove,
                    Mover::Engine => TurnPhase::AwaitingEngineMove,
                },
                board,
            },
            ApplyReport::ParseFailure => GameTurnState {
                phase: match mover {
                    Mover::Human => TurnPhase::AwaitingHumanMove,
                    Mover::Engine => TurnPhase::AwaitingEngineMove,
                },
                board,
            },
            ApplyReport::Victory(color) => GameTurnState {
                phase: TurnPhase::GameOver(GameOutcome::Victory(color)),
                board,
            },
            ApplyReport::Stalemate => GameTurnState {
                phase: TurnPhase::GameOver(GameOutcome::Stalemate),
                board,
            },
        },
        (other_phase, _) => GameTurnState { phase: other_phase, board },
    }
}

/// Starting from `AwaitingHumanMove`, an entered move that the engine
/// accepts as legal flips the mover: the loop goes on to await the
/// engine, on the position the verdict carried.
pub proof fn lemma_legal_human_move_flips_mover<B>(board: B, new_board: B, token: MoveToken)
    ensures
        ({
            let applying = next_phase_spec::<B>(
                TurnPhase::AwaitingHumanMove,
                TurnEvent::HumanMoveEntered(token),
            );
            &&& applying == TurnPhase::ApplyingMove(Mover::Human, token)
            &&& next_phase_spec::<B>(
                applying,
                TurnEvent::MoveApplied(ApplyReport::Continuing(new_board)),
            ) == TurnPhase::AwaitingEngineMove
            &&& next_board_spec(
                board,
                TurnEvent::MoveApplied(ApplyReport::Continuing(new_board)),
            ) == new_board
        }),
{
}

/// Starting from `AwaitingHumanMove`, an entered move that the engine
/// rejects as illegal leaves the loop where it was: the human is asked
/// again, on the unchanged position.
pub proof fn lemma_illegal_human_move_keeps_mover<B>(board: B, token: MoveToken)
    ensures
        ({
            let applying = next_phase_spec::<B>(
                TurnPhase::AwaitingHumanMove,
                TurnEvent::HumanMoveEntered(token),
            );
            &&& applying == TurnPhase::ApplyingMove(Mover::Human, token)
            &&& next_phase_spec::<B>(applying, TurnEvent::MoveApplied(ApplyReport::IllegalMove))
                == TurnPhase::AwaitingHumanMove
            &&& next_board_spec(board, TurnEvent::MoveApplied(ApplyReport::<B>::IllegalMove))
                == board
        }),
{
}

/// An engine search that finds no legal reply ends the game in stalemate
/// in one step, consuming no move token and leaving the position as it was.
pub proof fn lemma_engine_no_reply_is_stalemate<B>(board: B)
    ensures
        next_phase_spec::<B>(TurnPhase::AwaitingEngineMove, TurnEvent::EngineNoMove)
            == TurnPhase::GameOver(GameOutcome::Stalemate),
        next_board_spec(board, TurnEvent::<B>::EngineNoMove) == board,
{
}

} // verus!
