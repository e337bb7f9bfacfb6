//! A two-player 3x3 grid game: the board, the win evaluator and the turn
//! controller, each with a proved contract, together with the pure text
//! helpers around them — rendering a board row, parsing a move request,
//! and writing an uptime out in days, hours and minutes.

pub mod grid;
pub mod game;
pub mod draw;
pub mod uptime;
pub mod input;
