//! The rules core of a mouse-driven chess board: the pieces and their
//! movement rules, the 8×8 board, the single-slot selection history, the
//! coordinator that turns board clicks into selections and moves, and the
//! mapping from a pointer position on the screen to a board cell.

pub mod cell;
pub mod coordinator;
pub mod game;
pub mod layout;
pub mod pieces;
pub mod rules;
