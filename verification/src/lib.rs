//! The rules behind a three-dimensional chess board: how the board is set
//! up, how clicks pick up, move and capture pieces, how the camera answers
//! the keyboard, and how the menu buttons answer the pointer.

pub mod board;
pub mod controls;
pub mod menu;
pub mod play;
pub mod play_laws;
