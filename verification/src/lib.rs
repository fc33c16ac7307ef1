pub mod board;
pub mod player;
