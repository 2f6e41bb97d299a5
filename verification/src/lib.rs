//! Keypad-driven chess move entry.
//!
//! A matrix keypad is scanned for a single pressed key; key positions are
//! decoded into chess file or rank indices through two fixed lookup tables;
//! four decoded coordinates are assembled into a move token (with two
//! reserved sentinel tuples standing for the castling shorthands) and
//! rendered as algebraic coordinate notation; and a small state machine
//! alternates between human move entry and an external engine's reply.
//!
//! The hardware collaborators (GPIO pins, the character display) and the
//! chess rules engine itself are outside this crate: callers poll the pins,
//! fill in a [`keypad::KeyMatrixState`], drive the [`turn`] state machine,
//! and hand rendered moves to their engine.

pub mod decode;
pub mod keypad;
pub mod notation;
pub mod turn;
