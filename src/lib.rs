//! A two-player game on an 8x8 board: checkers pieces that step one square
//! diagonally, and a single flying king whose capture or advance ends the game.
pub mod board;
pub mod moves;
pub mod coord;
pub mod win;
pub mod render;
