use vstd::prelude::*;

use crate::board::{at, board, field_wf, get_cell, is_last_rank, Board};
use crate::chess_piece::{ChessPiece, Color, Piece};
use crate::error::MoveError;
use crate::game::{opponent, Game};
use crate::notation::{on_board, Square};

verus! {

/// The distance between two coordinates.
pub open spec fn dist(a: usize, b: usize) -> int {
    if a >= b { a - b } else { b - a }
}

/// The coordinate `k` steps from `x` in the direction of the sign of `d`.
pub open spec fn step(x: int, d: int, k: int) -> int {
    if d > 0 { x + k } else if d < 0 { x - k } else { x }
}

/// Every square strictly between `from` and `to` on their line is empty.
pub open spec fn path_clear(b: Board, from: Square, to: Square) -> bool {
    let dr = to.0 - from.0;
    let dc = to.1 - from.1;
    let n = if dist(from.0, to.0) > dist(from.1, to.1) { dist(from.0, to.0) } else { dist(from.1, to.1) };
    forall|k: int| 0 < k < n ==> (#[trigger] b[step(from.0 as int, dr, k)])[step(from.1 as int, dc, k)] is None
}

/// The two squares lie on one rank, file or diagonal.
pub open spec fn on_line(from: Square, to: Square) -> bool {
    dist(from.0, to.0) == 0 || dist(from.1, to.1) == 0 || dist(from.0, to.0) == dist(from.1, to.1)
}

/// The destination holds a piece of the side to move.
pub open spec fn captures_own(g: &Game, to: Square) -> bool {
    match at(board(&g.field), to) {
        Some(p) => p.color == g.next_to_move,
        None => false,
    }
}

pub open spec fn capture_rule(g: &Game, to: Square) -> Result<(), MoveError> {
    if captures_own(g, to) { Err(MoveError::CaptureOwnPiece) } else { Ok(()) }
}

pub open spec fn bishop_result(g: &Game, from: Square, to: Square) -> Result<(), MoveError> {
    if !(dist(from.0, to.0) == dist(from.1, to.1) && dist(from.0, to.0) != 0) {
        Err(MoveError::InvalidMove)
    } else if !path_clear(board(&g.field), from, to) {
        Err(MoveError::PieceInTheWay)
    } else {
        capture_rule(g, to)
    }
}

pub open spec fn rook_result(g: &Game, from: Square, to: Square) -> Result<(), MoveError> {
    if from == to || !(dist(from.0, to.0) == 0 || dist(from.1, to.1) == 0) {
        Err(MoveError::InvalidMove)
    } else if !path_clear(board(&g.field), from, to) {
        Err(MoveError::PieceInTheWay)
    } else {
        capture_rule(g, to)
    }
}

pub open spec fn queen_result(g: &Game, from: Square, to: Square) -> Result<(), MoveError> {
    if from == to || !on_line(from, to) {
        Err(MoveError::InvalidMove)
    } else if !path_clear(board(&g.field), from, to) {
        Err(MoveError::PieceInTheWay)
    } else {
        capture_rule(g, to)
    }
}

pub open spec fn knight_result(g: &Game, from: Square, to: Square) -> Result<(), MoveError> {
    let dr = dist(from.0, to.0);
    let dc = dist(from.1, to.1);
    if !((dr == 1 && dc == 2) || (dr == 2 && dc == 1)) {
        Err(MoveError::InvalidMove)
    } else {
        capture_rule(g, to)
    }
}

pub open spec fn home_row(c: Color) -> usize {
    match c {
        Color::WHITE => 7usize,
        Color::BLACK => 0usize,
    }
}

pub open spec fn can_short_castle(g: &Game, c: Color) -> bool {
    match c {
        Color::WHITE => g.can_castle.white_can_short_castle,
        Color::BLACK => g.can_castle.black_can_short_castle,
    }
}

pub open spec fn can_long_castle(g: &Game, c: Color) -> bool {
    match c {
        Color::WHITE => g.can_castle.white_can_long_castle,
        Color::BLACK => g.can_castle.black_can_long_castle,
    }
}

pub open spec fn empty_at(g: &Game, r: usize, c: usize) -> bool {
    at(board(&g.field), (r, c)) is None
}

/// The king of the side to move castles from its home square: the right is still held,
/// the rook stands in its corner and the squares between them are empty.
pub open spec fn castle_allowed(g: &Game, from: Square, to: Square) -> bool {
    let c = g.next_to_move;
    let h = home_row(c);
    let rook = Some(ChessPiece { piece: Piece::ROOK, color: c });
    &&& from == (h, 4usize)
    &&& to.0 == h
    &&& {
        ||| (to.1 == 6 && can_short_castle(g, c) && empty_at(g, h, 5) && empty_at(g, h, 6) && at(
            board(&g.field),
            (h, 7usize),
        ) == rook)
        ||| (to.1 == 2 && can_long_castle(g, c) && empty_at(g, h, 1) && empty_at(g, h, 2)
            && empty_at(g, h, 3) && at(board(&g.field), (h, 0usize)) == rook)
    }
}

pub open spec fn king_result(g: &Game, from: Square, to: Square) -> Result<(), MoveError> {
    let dr = dist(from.0, to.0);
    let dc = dist(from.1, to.1);
    if dr <= 1 && dc <= 1 && !(dr == 0 && dc == 0) {
        capture_rule(g, to)
    } else if dr == 0 && dc == 2 {
        if castle_allowed(g, from, to) { Ok(()) } else { Err(MoveError::InvalidCastle) }
    } else {
        Err(MoveError::InvalidMove)
    }
}

/// `to` lies `n` ranks ahead of `from` for a pawn of color `c`.
pub open spec fn ahead(c: Color, from: Square, to: Square, n: int) -> bool {
    match c {
        Color::WHITE => from.0 == to.0 + n,
        Color::BLACK => to.0 == from.0 + n,
    }
}

pub open spec fn pawn_start_row(c: Color) -> usize {
    match c {
        Color::WHITE => 6usize,
        Color::BLACK => 1usize,
    }
}

/// The row from which a pawn of color `c` may take en passant.
pub open spec fn en_passant_row(c: Color) -> usize {
    match c {
        Color::WHITE => 3usize,
        Color::BLACK => 4usize,
    }
}

/// The square a pawn of color `c` passes over on its two-square advance.
pub open spec fn passed_square(c: Color, from: Square) -> Square {
    match c {
        Color::WHITE => ((from.0 - 1) as usize, from.1),
        Color::BLACK => ((from.0 + 1) as usize, from.1),
    }
}

/// En passant is open (the last move was a two-square pawn advance), the capturing pawn
/// stands on the rank where such an advance ends, and an enemy pawn stands beside it on the
/// destination file.
pub open spec fn en_passant_allowed(g: &Game, from: Square, to: Square) -> bool {
    &&& g.can_en_passant
    &&& from.0 == en_passant_row(g.next_to_move)
    &&& at(board(&g.field), (from.0, to.1)) == Some(
        ChessPiece { piece: Piece::PAWN, color: opponent(g.next_to_move) },
    )
}

pub open spec fn pawn_geometry(g: &Game, from: Square, to: Square) -> Result<(), MoveError> {
    let c = g.next_to_move;
    let b = board(&g.field);
    if from.1 == to.1 && ahead(c, from, to, 1) {
        if at(b, to) is Some { Err(MoveError::PieceInTheWay) } else { Ok(()) }
    } else if from.1 == to.1 && ahead(c, from, to, 2) && from.0 == pawn_start_row(c) {
        if at(b, passed_square(c, from)) is Some || at(b, to) is Some {
            Err(MoveError::PieceInTheWay)
        } else {
            Ok(())
        }
    } else if dist(from.1, to.1) == 1 && ahead(c, from, to, 1) {
        match at(b, to) {
            Some(p) => if p.color == c { Err(MoveError::CaptureOwnPiece) } else { Ok(()) },
            None => if en_passant_allowed(g, from, to) { Ok(()) } else { Err(MoveError::InvalidMove) },
        }
    } else {
        Err(MoveError::InvalidMove)
    }
}

pub open spec fn pawn_result(
    g: &Game,
    from: Square,
    to: Square,
    promotion: Option<Piece>,
) -> Result<(), MoveError> {
    match pawn_geometry(g, from, to) {
        Err(e) => Err(e),
        Ok(_) => if is_last_rank(to.0 as int) && promotion is None {
            Err(MoveError::MissingPromotion)
        } else {
            Ok(())
        },
    }
}

/// Whether the piece kind `p` may go from `from` to `to`, before looking at the king's safety.
pub open spec fn piece_result(
    g: &Game,
    p: Piece,
    from: Square,
    to: Square,
    promotion: Option<Piece>,
) -> Result<(), MoveError> {
    match p {
        Piece::KING => king_result(g, from, to),
        Piece::QUEEN => queen_result(g, from, to),
        Piece::ROOK => rook_result(g, from, to),
        Piece::BISHOP => bishop_result(g, from, to),
        Piece::KNIGHT => knight_result(g, from, to),
        Piece::PAWN => pawn_result(g, from, to, promotion),
    }
}

fn abs_diff(a: usize, b: usize) -> (r: usize)
    ensures
        r == dist(a, b),
{
    if a >= b { a - b } else { b - a }
}

/// The coordinate `k` steps from `x` towards `target`.
fn step_towards(x: usize, target: usize, k: usize) -> (r: usize)
    requires
        x == target || k <= dist(x, target),
    ensures
        r == step(x as int, target - x, k as int),
{
    if target > x { x + k } else if target < x { x - k } else { x }
}

/// Whether every square strictly between `from` and `to` is empty.
fn path_is_clear(game: &Game, from: Square, to: Square) -> (r: bool)
    requires
        field_wf(&game.field),
        on_board(from),
        on_board(to),
        on_line(from, to),
    ensures
        r == path_clear(board(&game.field), from, to),
{
    let dr = abs_diff(from.0, to.0);
    let dc = abs_diff(from.1, to.1);
    let n: usize = if dr > dc { dr } else { dc };
    let mut i: usize = 1;
    while i < n
        invariant
            field_wf(&game.field),
            on_board(from),
            on_board(to),
            on_line(from, to),
            n == (if dist(from.0, to.0) > dist(from.1, to.1) { dist(from.0, to.0) } else { dist(from.1, to.1) }),
            1 <= i,
            forall|k: int|
                0 < k < i ==> (#[trigger] board(&game.field)[step(from.0 as int, to.0 - from.0, k)])[step(
                    from.1 as int,
                    to.1 - from.1,
                    k,
                )] is None,
        decreases n - i,
    {
        let r = step_towards(from.0, to.0, i);
        let c = step_towards(from.1, to.1, i);
        if get_cell(&game.field, (r, c)).is_some() {
            return false;
        }
        i = i + 1;
    }
    true
}

fn capture_check(game: &Game, to: Square) -> (r: Result<(), MoveError>)
    requires
        field_wf(&game.field),
        on_board(to),
    ensures
        r == capture_rule(game, to),
{
    match get_cell(&game.field, to) {
        Some(p) => if p.color == game.next_to_move { Err(MoveError::CaptureOwnPiece) } else { Ok(()) },
        None => Ok(()),
    }
}

/// Checks a bishop's move: a diagonal line with nothing in between.
pub fn validate_bishop_move(from: Square, to: Square, game: &Game) -> (r: Result<(), MoveError>)
    requires
        field_wf(&game.field),
        on_board(from),
        on_board(to),
    ensures
        r == bishop_result(game, from, to),
{
    let dr = abs_diff(from.0, to.0);
    let dc = abs_diff(from.1, to.1);
    if dr != dc || dr == 0 {
        return Err(MoveError::InvalidMove);
    }
    if !path_is_clear(game, from, to) {
        return Err(MoveError::PieceInTheWay);
    }
    capture_check(game, to)
}

/// Checks a rook's move: along a rank or a file with nothing in between.
pub fn validate_rook_move(from: Square, to: Square, game: &Game) -> (r: Result<(), MoveError>)
    requires
        field_wf(&game.field),
        on_board(from),
        on_board(to),
    ensures
        r == rook_result(game, from, to),
{
    let dr = abs_diff(from.0, to.0);
    let dc = abs_diff(from.1, to.1);
    if (dr == 0 && dc == 0) || (dr != 0 && dc != 0) {
        return Err(MoveError::InvalidMove);
    }
    if !path_is_clear(game, from, to) {
        return Err(MoveError::PieceInTheWay);
    }
    capture_check(game, to)
}

/// Checks a queen's move: along a rank, a file or a diagonal with nothing in between.
pub fn validate_queen_move(from: Square, to: Square, game: &Game) -> (r: Result<(), MoveError>)
    requires
        field_wf(&game.field),
        on_board(from),
        on_board(to),
    ensures
        r == queen_result(game, from, to),
{
    let dr = abs_diff(from.0, to.0);
    let dc = abs_diff(from.1, to.1);
    if dr == 0 && dc == 0 {
        return Err(MoveError::InvalidMove);
    }
    if dr != 0 && dc != 0 && dr != dc {
        return Err(MoveError::InvalidMove);
    }
    if !path_is_clear(game, from, to) {
        return Err(MoveError::PieceInTheWay);
    }
    capture_check(game, to)
}

/// Checks a knight's move: two squares one way and one the other.
pub fn validate_knight_move(from: Square, to: Square, game: &Game) -> (r: Result<(), MoveError>)
    requires
        field_wf(&game.field),
        on_board(from),
        on_board(to),
    ensures
        r == knight_result(game, from, to),
{
    let dr = abs_diff(from.0, to.0);
    let dc = abs_diff(from.1, to.1);
    if !((dr == 1 && dc == 2) || (dr == 2 && dc == 1)) {
        return Err(MoveError::InvalidMove);
    }
    capture_check(game, to)
}

fn is_empty(game: &Game, r: usize, c: usize) -> (e: bool)
    requires
        field_wf(&game.field),
        r < 8,
        c < 8,
    ensures
        e == empty_at(game, r, c),
{
    get_cell(&game.field, (r, c)).is_none()
}

fn castle_check(from: Square, to: Square, game: &Game) -> (r: bool)
    requires
        field_wf(&game.field),
        on_board(from),
        on_board(to),
    ensures
        r == castle_allowed(game, from, to),
{
    let c = game.next_to_move;
    let h: usize = match c {
        Color::WHITE => 7,
        Color::BLACK => 0,
    };
    let (short_right, long_right) = match c {
        Color::WHITE => (game.can_castle.white_can_short_castle, game.can_castle.white_can_long_castle),
        Color::BLACK => (game.can_castle.black_can_short_castle, game.can_castle.black_can_long_castle),
    };
    let rook = Some(ChessPiece { piece: Piece::ROOK, color: c });
    if from.0 != h || from.1 != 4 || to.0 != h {
        return false;
    }
    if to.1 == 6 {
        short_right && is_empty(game, h, 5) && is_empty(game, h, 6) && get_cell(&game.field, (h, 7)) == rook
    } else if to.1 == 2 {
        long_right && is_empty(game, h, 1) && is_empty(game, h, 2) && is_empty(game, h, 3)
            && get_cell(&game.field, (h, 0)) == rook
    } else {
        false
    }
}

/// Checks a king's move: one square any way, or two squares along the home rank to castle.
pub fn validate_king_move(from: Square, to: Square, game: &Game) -> (r: Result<(), MoveError>)
    requires
        field_wf(&game.field),
        on_board(from),
        on_board(to),
    ensures
        r == king_result(game, from, to),
{
    let dr = abs_diff(from.0, to.0);
    let dc = abs_diff(from.1, to.1);
    if dr <= 1 && dc <= 1 && !(dr == 0 && dc == 0) {
        capture_check(game, to)
    } else if dr == 0 && dc == 2 {
        if castle_check(from, to, game) {
            Ok(())
        } else {
            Err(MoveError::InvalidCastle)
        }
    } else {
        Err(MoveError::InvalidMove)
    }
}

/// Checks a pawn's move: one square ahead onto an empty square, two from its starting rank
/// over empty squares, or one diagonally to take a piece or en passant; on the last rank a
/// promotion piece is needed.
pub fn validate_pawn_move(
    from: Square,
    to: Square,
    promotion_piece: Option<Piece>,
    game: &Game,
) -> (r: Result<(), MoveError>)
    requires
        field_wf(&game.field),
        on_board(from),
        on_board(to),
    ensures
        r == pawn_result(game, from, to, promotion_piece),
{
    let c = game.next_to_move;
    let white = c == Color::WHITE;
    let one_ahead = if white { from.0 == to.0 + 1 } else { to.0 == from.0 + 1 };
    let two_ahead = if white { from.0 == to.0 + 2 } else { to.0 == from.0 + 2 };
    let start_row: usize = if white { 6 } else { 1 };
    let target = get_cell(&game.field, to);
    if from.1 == to.1 && one_ahead {
        if target.is_some() {
            return Err(MoveError::PieceInTheWay);
        }
    } else if from.1 == to.1 && two_ahead && from.0 == start_row {
        let passed: usize = if white { from.0 - 1 } else { from.0 + 1 };
        if get_cell(&game.field, (passed, from.1)).is_some() || target.is_some() {
            return Err(MoveError::PieceInTheWay);
        }
    } else if abs_diff(from.1, to.1) == 1 && one_ahead {
        match target {
            Some(p) => {
                if p.color == c {
                    return Err(MoveError::CaptureOwnPiece);
                }
            },
            None => {
                let ep_row: usize = if white { 3 } else { 4 };
                let enemy_pawn = Some(
                    ChessPiece {
                        piece: Piece::PAWN,
                        color: if white { Color::BLACK } else { Color::WHITE },
                    },
                );
                if !(game.can_en_passant && from.0 == ep_row && get_cell(&game.field, (from.0, to.1))
                    == enemy_pawn) {
                    return Err(MoveError::InvalidMove);
                }
            },
        }
    } else {
        return Err(MoveError::InvalidMove);
    }
    if (to.0 == 0 || to.0 == 7) && promotion_piece.is_none() {
        return Err(MoveError::MissingPromotion);
    }
    Ok(())
}

} // verus!
