use vstd::prelude::*;

verus! {

/// The kind of a chess piece.
#[derive(Debug, Copy, Clone, PartialEq, Eq, Structural)]
pub enum Piece {
    KING,
    QUEEN,
    ROOK,
    BISHOP,
    KNIGHT,
    PAWN,
}

/// The two sides of a game.
#[derive(Debug, Copy, Clone, PartialEq, Eq, Structural)]
pub enum Color {
    BLACK,
    WHITE,
}

/// A piece of a given color standing on a square.
#[derive(Debug, Copy, Clone, PartialEq, Eq, Structural)]
pub struct ChessPiece {
    pub piece: Piece,
    pub color: Color,
}

} // verus!
