//! Grid logic of a Snake game: the board, the round's state machine,
//! the hit areas of the on-screen buttons and the keyboard handling.

pub mod grid;
pub mod game;
pub mod ui;
pub mod input;
pub mod laws;
