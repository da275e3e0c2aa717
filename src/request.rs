use vstd::prelude::*;

use crate::chess_piece::Piece;

verus! {

/// A move asked for by a player: origin, destination and promotion letter.
pub struct MoveRequest {
    pub from: String,
    pub to: String,
    pub promotion: char,
}

/// A request to end a game with a given result.
pub struct FinishRequest {
    pub game_id: String,
    pub game_result: String,
}

/// The piece that a promotion letter names.
pub open spec fn promotion_of(c: char) -> Option<Piece> {
    match c {
        'K' => Some(Piece::KING),
        'Q' => Some(Piece::QUEEN),
        'R' => Some(Piece::ROOK),
        'B' => Some(Piece::BISHOP),
        'N' => Some(Piece::KNIGHT),
        _ => None,
    }
}

/// Reads a promotion letter; any other character names no piece.
pub fn promotion_piece(c: char) -> (r: Option<Piece>)
    ensures
        r == promotion_of(c),
{
    match c {
        'K' => Some(Piece::KING),
        'Q' => Some(Piece::QUEEN),
        'R' => Some(Piece::ROOK),
        'B' => Some(Piece::BISHOP),
        'N' => Some(Piece::KNIGHT),
        _ => None,
    }
}

} // verus!
