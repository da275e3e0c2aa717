use vstd::prelude::*;

verus! {

/// Why a move was refused.
#[derive(Debug, Copy, Clone, PartialEq, Eq, Structural)]
pub enum MoveError {
    /// A square is not a file letter 'a'-'h' followed by a rank digit '1'-'8'.
    InvalidSquare,
    /// No piece of the side to move stands on the origin square.
    NoPieceSelected,
    /// The destination does not fit the way the piece moves.
    InvalidMove,
    /// A square between origin and destination is occupied.
    PieceInTheWay,
    /// The destination holds a piece of the side to move.
    CaptureOwnPiece,
    /// Castling without the right, without the rook or through occupied squares.
    InvalidCastle,
    /// A pawn reaches the last rank and no promotion piece, or a letter that names none, was given.
    MissingPromotion,
    /// After the move the mover's king could be captured.
    KingInCheck,
}

/// The sentence that describes an error.
pub open spec fn message_of(e: MoveError) -> Seq<char> {
    match e {
        MoveError::InvalidSquare => "Invalid field"@,
        MoveError::NoPieceSelected => "No piece of yours selected"@,
        MoveError::InvalidMove => "Invalid move"@,
        MoveError::PieceInTheWay => "There is a piece in the way"@,
        MoveError::CaptureOwnPiece => "You cannot capture your own piece"@,
        MoveError::InvalidCastle => "Invalid castle"@,
        MoveError::MissingPromotion => "A promotion piece is needed"@,
        MoveError::KingInCheck => "Your king would be in check"@,
    }
}

impl MoveError {
    /// A sentence that describes the error.
    pub fn message(&self) -> (r: &'static str)
        ensures
            r@ == message_of(*self),
    {
        proof {
            reveal_strlit("Invalid field");
            reveal_strlit("No piece of yours selected");
            reveal_strlit("Invalid move");
            reveal_strlit("There is a piece in the way");
            reveal_strlit("You cannot capture your own piece");
            reveal_strlit("Invalid castle");
            reveal_strlit("A promotion piece is needed");
            reveal_strlit("Your king would be in check");
        }
        match self {
            MoveError::InvalidSquare => "Invalid field",
            MoveError::NoPieceSelected => "No piece of yours selected",
            MoveError::InvalidMove => "Invalid move",
            MoveError::PieceInTheWay => "There is a piece in the way",
            MoveError::CaptureOwnPiece => "You cannot capture your own piece",
            MoveError::InvalidCastle => "Invalid castle",
            MoveError::MissingPromotion => "A promotion piece is needed",
            MoveError::KingInCheck => "Your king would be in check",
        }
    }
}

} // verus!
