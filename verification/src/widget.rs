//! The widgets' logic.

pub mod chess_board;
pub mod game_buttons;
