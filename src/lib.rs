pub mod board;
pub mod check_mate;
pub mod chess_piece;
pub mod db;
pub mod error;
pub mod game;
pub mod notation;
pub mod request;
pub mod response;
pub mod validation;
