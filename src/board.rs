use vstd::prelude::*;

use crate::chess_piece::{ChessPiece, Piece};
use crate::error::MoveError;
use crate::notation::{on_board, Square};
use crate::request::promotion_of;

verus! {

/// The grid of squares: `field[row][col]`.
pub type Field = Vec<Vec<Option<ChessPiece>>>;

/// The grid as a mathematical sequence of rows.
pub type Board = Seq<Seq<Option<ChessPiece>>>;

pub open spec fn board(field: &Field) -> Board {
    field@.map_values(|row: Vec<Option<ChessPiece>>| row@)
}

/// Eight rows of eight squares.
pub open spec fn board_wf(b: Board) -> bool {
    b.len() == 8 && forall|r: int| 0 <= r < 8 ==> #[trigger] b[r].len() == 8
}

pub open spec fn field_wf(field: &Field) -> bool {
    board_wf(board(field))
}

pub open spec fn at(b: Board, sq: Square) -> Option<ChessPiece> {
    b[sq.0 as int][sq.1 as int]
}

/// `b` with `v` on the square (r, c).
pub open spec fn put(b: Board, r: int, c: int, v: Option<ChessPiece>) -> Board {
    b.update(r, b[r].update(c, v))
}

/// `b` with the occupant of `from` carried to `to`.
pub open spec fn relocated(b: Board, from: Square, to: Square) -> Board {
    put(
        put(b, to.0 as int, to.1 as int, at(b, from)),
        from.0 as int,
        from.1 as int,
        None,
    )
}

/// For a king's castling move, the rook's origin and destination.
pub open spec fn castle_rook(from: Square, to: Square) -> Option<(Square, Square)> {
    if from == (0usize, 4usize) && to == (0usize, 6usize) {
        Some(((0usize, 7usize), (0usize, 5usize)))
    } else if from == (0usize, 4usize) && to == (0usize, 2usize) {
        Some(((0usize, 0usize), (0usize, 3usize)))
    } else if from == (7usize, 4usize) && to == (7usize, 6usize) {
        Some(((7usize, 7usize), (7usize, 5usize)))
    } else if from == (7usize, 4usize) && to == (7usize, 2usize) {
        Some(((7usize, 0usize), (7usize, 3usize)))
    } else {
        None
    }
}

/// The board after a king's move: on a castling move the rook moves too.
pub open spec fn king_board_after(b: Board, from: Square, to: Square) -> Board {
    match castle_rook(from, to) {
        Some((rf, rt)) => relocated(relocated(b, rf, rt), from, to),
        None => relocated(b, from, to),
    }
}

pub open spec fn is_last_rank(row: int) -> bool {
    row == 0 || row == 7
}

/// A pawn that changes file onto an empty square takes en passant.
pub open spec fn takes_en_passant(b: Board, from: Square, to: Square) -> bool {
    from.1 != to.1 && at(b, to) is None
}

/// The board after a pawn's move: an en passant capture empties the square beside the
/// origin, and on the last rank the pawn becomes the promotion piece.
pub open spec fn pawn_board_after(
    b: Board,
    from: Square,
    to: Square,
    promotion: Option<Piece>,
) -> Board {
    let b2 = relocated(en_passant_cleared(b, from, to), from, to);
    if is_last_rank(to.0 as int) {
        put(
            b2,
            to.0 as int,
            to.1 as int,
            Some(ChessPiece { piece: promotion.unwrap(), color: at(b, from).unwrap().color }),
        )
    } else {
        b2
    }
}

/// The board after moving the piece on `from` to `to`.
pub open spec fn board_after(b: Board, from: Square, to: Square, promotion: Option<Piece>) -> Board {
    match at(b, from) {
        Some(p) => match p.piece {
            Piece::KING => king_board_after(b, from, to),
            Piece::PAWN => pawn_board_after(b, from, to, promotion),
            _ => relocated(b, from, to),
        },
        None => relocated(b, from, to),
    }
}

/// What a square holds after one square is written.
pub proof fn lemma_put_cell(b: Board, r: int, c: int, v: Option<ChessPiece>, s: Square)
    requires
        board_wf(b),
        0 <= r < 8,
        0 <= c < 8,
        on_board(s),
    ensures
        at(put(b, r, c, v), s) == (if s.0 == r && s.1 == c { v } else { at(b, s) }),
        board_wf(put(b, r, c, v)),
{
    assert forall|i: int| 0 <= i < 8 implies #[trigger] put(b, r, c, v)[i].len() == 8 by {
        if i == r {
        } else {
        }
    }
}

/// Moving a piece keeps eight rows of eight squares.
pub proof fn lemma_board_after_wf(b: Board, from: Square, to: Square, promotion: Option<Piece>)
    requires
        board_wf(b),
        on_board(from),
        on_board(to),
    ensures
        board_wf(board_after(b, from, to, promotion)),
{
    assert forall|b0: Board, f: Square, t: Square| board_wf(b0) && on_board(f) && on_board(t) implies board_wf(#[trigger] relocated(b0, f, t)) by {
        lemma_put_cell(b0, t.0 as int, t.1 as int, at(b0, f), f);
        lemma_put_cell(put(b0, t.0 as int, t.1 as int, at(b0, f)), f.0 as int, f.1 as int, None, f);
    }
    lemma_put_cell(b, from.0 as int, to.1 as int, None, from);
    let b1 = if takes_en_passant(b, from, to) { put(b, from.0 as int, to.1 as int, None) } else { b };
    let b3 = relocated(b1, from, to);
    lemma_put_cell(b3, to.0 as int, to.1 as int, None, from);
    if at(b, from) is Some {
        let p = at(b, from).unwrap();
        lemma_put_cell(b3, to.0 as int, to.1 as int, Some(ChessPiece { piece: promotion.unwrap(), color: p.color }), from);
        if castle_rook(from, to) is Some {
            let (rf, rt) = castle_rook(from, to).unwrap();
            assert(board_wf(relocated(b, rf, rt)));
        }
    }
}

pub open spec fn occ(o: Option<ChessPiece>) -> int {
    if o is Some { 1 } else { 0 }
}

/// The number of occupied squares among the first `n` of a row.
pub open spec fn row_count(row: Seq<Option<ChessPiece>>, n: int) -> int
    decreases n,
{
    if n <= 0 {
        0
    } else {
        row_count(row, n - 1) + occ(row[n - 1])
    }
}

/// The number of occupied squares in the first `n` rows.
pub open spec fn rows_count(b: Board, n: int) -> int
    decreases n,
{
    if n <= 0 {
        0
    } else {
        rows_count(b, n - 1) + row_count(b[n - 1], 8)
    }
}

/// The number of pieces on the board.
pub open spec fn occupied(b: Board) -> int {
    rows_count(b, 8)
}

proof fn lemma_row_count_update(row: Seq<Option<ChessPiece>>, c: int, v: Option<ChessPiece>, n: int)
    requires
        0 <= c < row.len(),
        0 <= n <= row.len(),
    ensures
        row_count(row.update(c, v), n) == row_count(row, n) + (if c < n {
            occ(v) - occ(row[c])
        } else {
            0
        }),
    decreases n,
{
    if n > 0 {
        lemma_row_count_update(row, c, v, n - 1);
    }
}

proof fn lemma_rows_count_put(b: Board, r: int, c: int, v: Option<ChessPiece>, n: int)
    requires
        board_wf(b),
        0 <= r < 8,
        0 <= c < 8,
        0 <= n <= 8,
    ensures
        rows_count(put(b, r, c, v), n) == rows_count(b, n) + (if r < n {
            occ(v) - occ(b[r][c])
        } else {
            0
        }),
    decreases n,
{
    if n > 0 {
        lemma_rows_count_put(b, r, c, v, n - 1);
        if n - 1 == r {
            lemma_row_count_update(b[r], c, v, 8);
        } else {
            assert(put(b, r, c, v)[n - 1] == b[n - 1]);
        }
    }
}

/// Writing one square changes the number of pieces by what it gains and loses.
pub proof fn lemma_put_count(b: Board, r: int, c: int, v: Option<ChessPiece>)
    requires
        board_wf(b),
        0 <= r < 8,
        0 <= c < 8,
    ensures
        occupied(put(b, r, c, v)) == occupied(b) + occ(v) - occ(b[r][c]),
{
    lemma_rows_count_put(b, r, c, v, 8);
}

/// Carrying a piece to another square loses only what stood there.
pub proof fn lemma_relocated(b: Board, from: Square, to: Square)
    requires
        board_wf(b),
        on_board(from),
        on_board(to),
        from != to,
        at(b, from) is Some,
    ensures
        board_wf(relocated(b, from, to)),
        occupied(relocated(b, from, to)) == occupied(b) - occ(at(b, to)),
        at(relocated(b, from, to), from) is None,
        at(relocated(b, from, to), to) == at(b, from),
        forall|s: Square|
            on_board(s) && s != from && s != to ==> #[trigger] at(relocated(b, from, to), s) == at(b, s),
{
    let b1 = put(b, to.0 as int, to.1 as int, at(b, from));
    lemma_put_count(b, to.0 as int, to.1 as int, at(b, from));
    lemma_put_cell(b, to.0 as int, to.1 as int, at(b, from), from);
    lemma_put_cell(b, to.0 as int, to.1 as int, at(b, from), to);
    lemma_put_count(b1, from.0 as int, from.1 as int, None);
    lemma_put_cell(b1, from.0 as int, from.1 as int, None, to);
    lemma_put_cell(b1, from.0 as int, from.1 as int, None, from);
    assert forall|s: Square| on_board(s) && s != from && s != to implies #[trigger] at(
        relocated(b, from, to),
        s,
    ) == at(b, s) by {
        lemma_put_cell(b, to.0 as int, to.1 as int, at(b, from), s);
        lemma_put_cell(b1, from.0 as int, from.1 as int, None, s);
    }
}

/// Reads the occupant of a square.
pub fn get_cell(field: &Field, sq: Square) -> (r: Option<ChessPiece>)
    requires
        field_wf(field),
        on_board(sq),
    ensures
        r == at(board(field), sq),
{
    let row = &field[sq.0];
    proof {
        assert(board(field)[sq.0 as int] == row@);
    }
    row[sq.1]
}

/// Writes the occupant of a square.
pub fn set_cell(field: &mut Field, sq: Square, v: Option<ChessPiece>)
    requires
        field_wf(old(field)),
        on_board(sq),
    ensures
        board(final(field)) == put(board(old(field)), sq.0 as int, sq.1 as int, v),
        field_wf(final(field)),
{
    proof {
        assert(board(field)[sq.0 as int] == field@[sq.0 as int]@);
    }
    field[sq.0][sq.1] = v;
    proof {
        assert(board(field) =~= put(board(old(field)), sq.0 as int, sq.1 as int, v));
        lemma_put_cell(board(old(field)), sq.0 as int, sq.1 as int, v, sq);
    }
}

/// Carries the occupant of `from` to `to` and empties `from`.
pub fn relocate(field: &mut Field, from: Square, to: Square)
    requires
        field_wf(old(field)),
        on_board(from),
        on_board(to),
    ensures
        board(final(field)) == relocated(board(old(field)), from, to),
        field_wf(final(field)),
{
    let moving = get_cell(field, from);
    set_cell(field, to, moving);
    set_cell(field, from, None);
}

/// The board after the rook's part of a castling move: on one of the four castling moves of
/// a king, the rook of that side stands beside the king's destination; on any other move the
/// board is as it was.
pub open spec fn castle_rook_board(b: Board, from: Square, to: Square) -> Board {
    match castle_rook(from, to) {
        Some((rf, rt)) => relocated(b, rf, rt),
        None => b,
    }
}

/// The board after the en passant part of a pawn's move: where the pawn changes file onto an
/// empty square, the square beside its origin on the destination file is emptied.
pub open spec fn en_passant_cleared(b: Board, from: Square, to: Square) -> Board {
    if takes_en_passant(b, from, to) {
        put(b, from.0 as int, to.1 as int, None)
    } else {
        b
    }
}

/// Moves the rook of a castling move: on one of the four castling moves of a king, the rook
/// of that side goes beside the king's destination. Any other move leaves the board as it is;
/// the king itself is not moved.
pub fn make_king_move(from: Square, to: Square, field: &mut Field)
    requires
        field_wf(old(field)),
        on_board(from),
        on_board(to),
    ensures
        board(final(field)) == castle_rook_board(board(old(field)), from, to),
        field_wf(final(field)),
{
    if from.0 == 0 && from.1 == 4 && to.0 == 0 && to.1 == 6 {
        relocate(field, (0, 7), (0, 5));
    } else if from.0 == 0 && from.1 == 4 && to.0 == 0 && to.1 == 2 {
        relocate(field, (0, 0), (0, 3));
    } else if from.0 == 7 && from.1 == 4 && to.0 == 7 && to.1 == 6 {
        relocate(field, (7, 7), (7, 5));
    } else if from.0 == 7 && from.1 == 4 && to.0 == 7 && to.1 == 2 {
        relocate(field, (7, 0), (7, 3));
    }
}

/// Carries out a king's whole move: the rook when castling, then the king.
pub fn move_king(from: Square, to: Square, field: &mut Field)
    requires
        field_wf(old(field)),
        on_board(from),
        on_board(to),
    ensures
        board(final(field)) == king_board_after(board(old(field)), from, to),
        field_wf(final(field)),
{
    make_king_move(from, to, field);
    relocate(field, from, to);
}

fn clear_en_passant(from: Square, to: Square, field: &mut Field)
    requires
        field_wf(old(field)),
        on_board(from),
        on_board(to),
    ensures
        board(final(field)) == en_passant_cleared(board(old(field)), from, to),
        field_wf(final(field)),
{
    if from.1 != to.1 && get_cell(field, to).is_none() {
        set_cell(field, (from.0, to.1), None);
    }
}

/// The special effects of a pawn's move, before the pawn itself is carried over. On the last
/// rank, the piece standing on `to` becomes the piece that the promotion letter names and
/// keeps its color; a letter that names no piece is refused and changes nothing. Elsewhere,
/// an en passant capture empties the captured pawn's square.
pub fn make_pawn_move(
    from: Square,
    to: Square,
    promotion_piece: char,
    field: &mut Field,
) -> (r: Result<(), MoveError>)
    requires
        field_wf(old(field)),
        on_board(from),
        on_board(to),
        is_last_rank(to.0 as int) ==> at(board(old(field)), to) is Some,
    ensures
        field_wf(final(field)),
        is_last_rank(to.0 as int) && promotion_of(promotion_piece) is None ==> r == Err::<
            (),
            MoveError,
        >(MoveError::MissingPromotion) && board(final(field)) == board(old(field)),
        is_last_rank(to.0 as int) && promotion_of(promotion_piece) is Some ==> r is Ok && board(
            final(field),
        ) == put(
            board(old(field)),
            to.0 as int,
            to.1 as int,
            Some(
                ChessPiece {
                    piece: promotion_of(promotion_piece).unwrap(),
                    color: at(board(old(field)), to).unwrap().color,
                },
            ),
        ),
        !is_last_rank(to.0 as int) ==> r is Ok && board(final(field)) == en_passant_cleared(
            board(old(field)),
            from,
            to,
        ),
{
    if to.0 == 0 || to.0 == 7 {
        let piece = match crate::request::promotion_piece(promotion_piece) {
            Some(piece) => piece,
            None => {
                return Err(MoveError::MissingPromotion);
            },
        };
        match get_cell(field, to) {
            Some(p) => set_cell(field, to, Some(ChessPiece { piece, color: p.color })),
            None => {},
        }
    } else {
        clear_en_passant(from, to, field);
    }
    Ok(())
}

/// Carries out a pawn's whole move: an en passant capture, the pawn itself, and on the last
/// rank its promotion to the given piece in the pawn's color.
pub fn move_pawn(from: Square, to: Square, promotion: Option<Piece>, field: &mut Field)
    requires
        field_wf(old(field)),
        on_board(from),
        on_board(to),
        at(board(old(field)), from) is Some,
        is_last_rank(to.0 as int) ==> promotion is Some,
    ensures
        board(final(field)) == pawn_board_after(board(old(field)), from, to, promotion),
        field_wf(final(field)),
{
    let pawn = get_cell(field, from);
    clear_en_passant(from, to, field);
    relocate(field, from, to);
    if to.0 == 0 || to.0 == 7 {
        match (promotion, pawn) {
            (Some(piece), Some(p)) => {
                set_cell(field, to, Some(ChessPiece { piece, color: p.color }));
            },
            _ => {},
        }
    }
}

} // verus!
