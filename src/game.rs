use vstd::prelude::*;

use vstd::string::*;

use crate::board::{
    at, board, board_after, board_wf, castle_rook, field_wf, get_cell, is_last_rank,
    en_passant_cleared, lemma_board_after_wf, lemma_put_cell, lemma_put_count, lemma_relocated,
    move_king, move_pawn, occupied, put, relocate, relocated,
    takes_en_passant, Board, Field,
};
use crate::check_mate::{attackers, can_be_captured_by, CapturePiece};
use crate::chess_piece::{ChessPiece, Color, Piece};
use crate::error::MoveError;
use crate::notation::{fields_of, get_fields, on_board, square_chars, square_name, Square};
use crate::validation::{
    dist, piece_result, validate_bishop_move, validate_king_move, validate_knight_move,
    validate_pawn_move, validate_queen_move, validate_rook_move,
};

verus! {

/// Which castling moves each side may still make.
#[derive(Debug, Copy, Clone, PartialEq, Eq, Structural)]
pub struct CastlingRights {
    pub white_can_short_castle: bool,
    pub white_can_long_castle: bool,
    pub black_can_short_castle: bool,
    pub black_can_long_castle: bool,
}

/// Where each king stands.
#[derive(Debug, Copy, Clone)]
pub struct KingPosition {
    pub white_king_position: (usize, usize),
    pub black_king_position: (usize, usize),
}

/// How a finished game ended.
#[derive(Debug, Copy, Clone, PartialEq, Eq, Structural)]
pub enum GameResult {
    WhiteWon,
    BlackWon,
}

/// A game in progress: the position and what the rules need to remember of its history.
#[derive(Clone)]
pub struct Game {
    pub id: u128,
    pub next_to_move: Color,
    pub previous_move: String,
    pub can_castle: CastlingRights,
    pub can_en_passant: bool,
    pub king_position: KingPosition,
    pub field: Field,
    pub game_result: Option<GameResult>,
}

pub open spec fn opponent(c: Color) -> Color {
    match c {
        Color::WHITE => Color::BLACK,
        Color::BLACK => Color::WHITE,
    }
}

impl Game {
    /// An eight by eight board and king positions on it.
    pub open spec fn wf(&self) -> bool {
        &&& field_wf(&self.field)
        &&& on_board(self.king_position.white_king_position)
        &&& on_board(self.king_position.black_king_position)
    }

    pub open spec fn king_of(&self, c: Color) -> (usize, usize) {
        match c {
            Color::WHITE => self.king_position.white_king_position,
            Color::BLACK => self.king_position.black_king_position,
        }
    }
}

/// Relies on uuid's `Uuid::new_v4`, a random identifier, read as a number by `Uuid::as_u128`.
#[verifier::external_body]
fn random_game_id() -> u128 {
    uuid::Uuid::new_v4().as_u128()
}

/// The pieces of the back ranks, from file 'a' to file 'h'.
pub open spec fn back_rank_piece(col: int) -> Piece {
    if col == 0 || col == 7 {
        Piece::ROOK
    } else if col == 1 || col == 6 {
        Piece::KNIGHT
    } else if col == 2 || col == 5 {
        Piece::BISHOP
    } else if col == 3 {
        Piece::QUEEN
    } else {
        Piece::KING
    }
}

/// The occupant of a square in the starting position.
pub open spec fn initial_cell(row: int, col: int) -> Option<ChessPiece> {
    if row == 0 {
        Some(ChessPiece { piece: back_rank_piece(col), color: Color::BLACK })
    } else if row == 1 {
        Some(ChessPiece { piece: Piece::PAWN, color: Color::BLACK })
    } else if row == 6 {
        Some(ChessPiece { piece: Piece::PAWN, color: Color::WHITE })
    } else if row == 7 {
        Some(ChessPiece { piece: back_rank_piece(col), color: Color::WHITE })
    } else {
        None
    }
}

pub open spec fn initial_board() -> Board {
    Seq::new(8, |r: int| Seq::new(8, |c: int| initial_cell(r, c)))
}

/// The king of color `c` stands on `sq` and nowhere else.
pub open spec fn sole_king(b: Board, c: Color, sq: Square) -> bool {
    &&& on_board(sq)
    &&& at(b, sq) == Some(ChessPiece { piece: Piece::KING, color: c })
    &&& forall|s: Square|
        on_board(s) && #[trigger] at(b, s) == Some(ChessPiece { piece: Piece::KING, color: c }) ==> s
            == sq
}

/// The move takes a piece: one stands on the destination, or a pawn takes en passant.
pub open spec fn captures(g: &Game, from: Square, to: Square) -> bool {
    at(board(&g.field), to) is Some || (moved_piece(g, from).piece == Piece::PAWN && takes_en_passant(
        board(&g.field),
        from,
        to,
    ))
}

/// The piece that moves from `from`.
pub open spec fn moved_piece(g: &Game, from: Square) -> ChessPiece {
    at(board(&g.field), from).unwrap()
}

/// Castling rights after a move: a king's move takes both of its side's rights, a rook's
/// move from its corner takes the right of that corner.
pub open spec fn rights_after(g: &Game, from: Square) -> CastlingRights {
    let r = g.can_castle;
    let mover = g.next_to_move;
    let p = moved_piece(g, from).piece;
    let king = p == Piece::KING;
    let rook = p == Piece::ROOK;
    let white = mover == Color::WHITE;
    CastlingRights {
        white_can_short_castle: r.white_can_short_castle && !(white && (king || (rook && from == (
            7usize,
            7usize,
        )))),
        white_can_long_castle: r.white_can_long_castle && !(white && (king || (rook && from == (
            7usize,
            0usize,
        )))),
        black_can_short_castle: r.black_can_short_castle && !(!white && (king || (rook && from == (
            0usize,
            7usize,
        )))),
        black_can_long_castle: r.black_can_long_castle && !(!white && (king || (rook && from == (
            0usize,
            0usize,
        )))),
    }
}

/// A right once lost stays lost.
pub open spec fn rights_only_lost(before: CastlingRights, after: CastlingRights) -> bool {
    &&& !before.white_can_short_castle ==> !after.white_can_short_castle
    &&& !before.white_can_long_castle ==> !after.white_can_long_castle
    &&& !before.black_can_short_castle ==> !after.black_can_short_castle
    &&& !before.black_can_long_castle ==> !after.black_can_long_castle
}

/// King positions after a move: a king's move carries the mover's entry along.
pub open spec fn kings_after(g: &Game, from: Square, to: Square) -> KingPosition {
    let k = g.king_position;
    if moved_piece(g, from).piece == Piece::KING {
        match g.next_to_move {
            Color::WHITE => KingPosition { white_king_position: to, black_king_position: k.black_king_position },
            Color::BLACK => KingPosition { white_king_position: k.white_king_position, black_king_position: to },
        }
    } else {
        k
    }
}

pub open spec fn king_pos_of(k: KingPosition, c: Color) -> Square {
    match c {
        Color::WHITE => k.white_king_position,
        Color::BLACK => k.black_king_position,
    }
}

/// A pawn's two-square advance allows en passant on the next move.
pub open spec fn en_passant_after(g: &Game, from: Square, to: Square) -> bool {
    moved_piece(g, from).piece == Piece::PAWN && dist(from.0, to.0) == 2
}

pub open spec fn piece_letter(p: Piece) -> Seq<char> {
    match p {
        Piece::KING => seq!['K'],
        Piece::QUEEN => seq!['Q'],
        Piece::ROOK => seq!['R'],
        Piece::BISHOP => seq!['B'],
        Piece::KNIGHT => seq!['N'],
        _ => Seq::empty(),
    }
}

/// The record of a move: the piece's letter (none for a pawn), "x" on a capture, the
/// destination, and "=" on a promotion; "0-0" or "0-0-0" for castling.
pub open spec fn notation_after(b: Board, from: Square, to: Square) -> Seq<char> {
    let p = at(b, from).unwrap().piece;
    let takes = at(b, to) is Some || (p == Piece::PAWN && takes_en_passant(b, from, to));
    let capture: Seq<char> = if takes { seq!['x'] } else { Seq::empty() };
    let promotes: Seq<char> = if p == Piece::PAWN && is_last_rank(to.0 as int) {
        seq!['=']
    } else {
        Seq::empty()
    };
    if p == Piece::KING && castle_rook(from, to) is Some {
        if to.1 == 6 { seq!['0', '-', '0'] } else { seq!['0', '-', '0', '-', '0'] }
    } else {
        piece_letter(p) + capture + square_chars(to) + promotes
    }
}

/// What a move needs in order to be carried out: a piece on the origin, and a promotion
/// piece where a pawn reaches the last rank.
pub open spec fn can_apply(g: &Game, from: Square, to: Square, promotion: Option<Piece>) -> bool {
    &&& on_board(from)
    &&& on_board(to)
    &&& at(board(&g.field), from) is Some
    &&& (moved_piece(g, from).piece == Piece::PAWN && is_last_rank(to.0 as int) ==> promotion is Some)
}

/// The position after the move `from`-`to` has been carried out on `before`.
pub open spec fn applied(
    before: &Game,
    after: &Game,
    from: Square,
    to: Square,
    promotion: Option<Piece>,
) -> bool {
    &&& after.wf()
    &&& board(&after.field) == board_after(board(&before.field), from, to, promotion)
    &&& after.next_to_move == opponent(before.next_to_move)
    &&& after.can_castle == rights_after(before, from)
    &&& after.king_position == kings_after(before, from, to)
    &&& after.can_en_passant == en_passant_after(before, from, to)
    &&& after.previous_move@ == notation_after(board(&before.field), from, to)
    &&& after.id == before.id
}

/// The enemy pieces that could capture the mover's king after the move.
pub open spec fn king_attackers_after(
    g: &Game,
    from: Square,
    to: Square,
    promotion: Option<Piece>,
) -> Seq<CapturePiece> {
    attackers(
        board_after(board(&g.field), from, to, promotion),
        king_pos_of(kings_after(g, from, to), g.next_to_move),
        opponent(g.next_to_move),
    )
}

/// After the move the mover's king could be captured.
pub open spec fn leaves_king_attacked(g: &Game, from: Square, to: Square, promotion: Option<Piece>) -> bool {
    king_attackers_after(g, from, to, promotion).len() > 0
}

/// Whether the side to move may play `from`-`to`, and if not, why.
pub open spec fn move_result(g: &Game, from: Square, to: Square, promotion: Option<Piece>) -> Result<
    (),
    MoveError,
> {
    match at(board(&g.field), from) {
        None => Err(MoveError::NoPieceSelected),
        Some(p) => if p.color != g.next_to_move {
            Err(MoveError::NoPieceSelected)
        } else {
            match piece_result(g, p.piece, from, to, promotion) {
                Err(e) => Err(e),
                Ok(_) => if leaves_king_attacked(g, from, to, promotion) {
                    Err(MoveError::KingInCheck)
                } else {
                    Ok(())
                },
            }
        },
    }
}

/// `move_result` for two squares given in algebraic notation.
pub open spec fn notation_move_result(
    g: &Game,
    from: Seq<char>,
    to: Seq<char>,
    promotion: Option<Piece>,
) -> Result<(), MoveError> {
    match fields_of(from, to) {
        Err(e) => Err(e),
        Ok((f, t)) => move_result(g, f, t, promotion),
    }
}

/// The king of the side to move could be captured.
pub open spec fn in_check(g: &Game) -> bool {
    attackers(board(&g.field), g.king_of(g.next_to_move), opponent(g.next_to_move)).len() > 0
}

/// The side to move has a move that the rules allow (a pawn reaching the last rank is
/// tried as a queen).
pub open spec fn has_legal_move(g: &Game) -> bool {
    exists|f: Square, t: Square|
        on_board(f) && on_board(t) && (#[trigger] move_result(g, f, t, Some(Piece::QUEEN))) is Ok
}

/// The result of a position in which the side to move is in check and cannot answer it.
pub open spec fn result_after(g: &Game) -> Option<GameResult> {
    if in_check(g) && !has_legal_move(g) {
        match g.next_to_move {
            Color::WHITE => Some(GameResult::BlackWon),
            Color::BLACK => Some(GameResult::WhiteWon),
        }
    } else {
        None
    }
}

/// Two games that differ at most in their identifier, record and result.
pub open spec fn same_position(a: &Game, b: &Game) -> bool {
    &&& board(&a.field) == board(&b.field)
    &&& a.next_to_move == b.next_to_move
    &&& a.can_castle == b.can_castle
    &&& a.can_en_passant == b.can_en_passant
    &&& a.king_position == b.king_position
}

/// Whether a game has ended depends on the position alone.
proof fn lemma_result_reads_position(a: &Game, b: &Game)
    requires
        same_position(a, b),
    ensures
        result_after(a) == result_after(b),
{
    assert forall|f: Square, t: Square| #[trigger]
        move_result(a, f, t, Some(Piece::QUEEN)) == move_result(b, f, t, Some(Piece::QUEEN)) by {
        assert forall|p: Piece| #[trigger]
            piece_result(a, p, f, t, Some(Piece::QUEEN)) == piece_result(b, p, f, t, Some(Piece::QUEEN)) by {
        }
    }
    if has_legal_move(a) {
        let (f, t) = choose|f: Square, t: Square|
            on_board(f) && on_board(t) && (#[trigger] move_result(a, f, t, Some(Piece::QUEEN))) is Ok;
        assert(move_result(b, f, t, Some(Piece::QUEEN)) is Ok);
    }
    if has_legal_move(b) {
        let (f, t) = choose|f: Square, t: Square|
            on_board(f) && on_board(t) && (#[trigger] move_result(b, f, t, Some(Piece::QUEEN))) is Ok;
        assert(move_result(a, f, t, Some(Piece::QUEEN)) is Ok);
    }
}

/// The king of color `c` stands on exactly one square.
pub open spec fn one_king(b: Board, c: Color) -> bool {
    exists|k: Square| #[trigger] sole_king(b, c, k)
}

/// Where each side has exactly one king, a legal move leaves each side exactly one king; the
/// move may not take a king, and a pawn may not be promoted to one. Where the king positions
/// were right, they stay right.
pub proof fn lemma_legal_move_keeps_kings(
    g: &Game,
    from: Square,
    to: Square,
    promotion: Option<Piece>,
)
    requires
        g.wf(),
        on_board(from),
        on_board(to),
        one_king(board(&g.field), Color::WHITE),
        one_king(board(&g.field), Color::BLACK),
        move_result(g, from, to, promotion) is Ok,
        !(at(board(&g.field), to) matches Some(p) && p.piece == Piece::KING),
        !(moved_piece(g, from).piece == Piece::PAWN && is_last_rank(to.0 as int) && promotion
            == Some(Piece::KING)),
    ensures
        board_wf(board_after(board(&g.field), from, to, promotion)),
        one_king(board_after(board(&g.field), from, to, promotion), Color::WHITE),
        one_king(board_after(board(&g.field), from, to, promotion), Color::BLACK),
        sole_king(board(&g.field), Color::WHITE, g.king_position.white_king_position) ==> sole_king(
            board_after(board(&g.field), from, to, promotion),
            Color::WHITE,
            kings_after(g, from, to).white_king_position,
        ),
        sole_king(board(&g.field), Color::BLACK, g.king_position.black_king_position) ==> sole_king(
            board_after(board(&g.field), from, to, promotion),
            Color::BLACK,
            kings_after(g, from, to).black_king_position,
        ),
{
    let b = board(&g.field);
    let b2 = board_after(b, from, to, promotion);
    let w = choose|k: Square| #[trigger] sole_king(b, Color::WHITE, k);
    let bl = choose|k: Square| #[trigger] sole_king(b, Color::BLACK, k);
    lemma_kings_of_color(g, from, to, promotion, Color::WHITE, w);
    lemma_kings_of_color(g, from, to, promotion, Color::BLACK, bl);
    let w2 = king_after_move(g, from, to, Color::WHITE, w);
    let bl2 = king_after_move(g, from, to, Color::BLACK, bl);
    assert(sole_king(b2, Color::WHITE, w2));
    assert(sole_king(b2, Color::BLACK, bl2));
    if sole_king(b, Color::WHITE, g.king_position.white_king_position) {
        lemma_kings_of_color(g, from, to, promotion, Color::WHITE, g.king_position.white_king_position);
    }
    if sole_king(b, Color::BLACK, g.king_position.black_king_position) {
        lemma_kings_of_color(g, from, to, promotion, Color::BLACK, g.king_position.black_king_position);
    }
}

/// A legal move never duplicates a piece: the origin is emptied, the destination holds a
/// piece of the mover's color, and the number of pieces falls by one exactly when the move
/// captures (on the destination or en passant), and otherwise stays the same.
pub proof fn lemma_legal_move_keeps_pieces(
    g: &Game,
    from: Square,
    to: Square,
    promotion: Option<Piece>,
)
    requires
        g.wf(),
        on_board(from),
        on_board(to),
        move_result(g, from, to, promotion) is Ok,
    ensures
        board_wf(board_after(board(&g.field), from, to, promotion)),
        at(board_after(board(&g.field), from, to, promotion), from) is None,
        at(board_after(board(&g.field), from, to, promotion), to) matches Some(q) && q.color
            == g.next_to_move,
        occupied(board_after(board(&g.field), from, to, promotion)) == occupied(board(&g.field)) - (
        if captures(g, from, to) {
            1int
        } else {
            0int
        }),
{
    let b = board(&g.field);
    let p = moved_piece(g, from);
    assert(p.color == g.next_to_move);
    assert(from != to);
    if p.piece == Piece::KING && castle_rook(from, to) is Some {
        let (rf, rt) = castle_rook(from, to).unwrap();
        assert(at(b, rf) is Some);
        assert(at(b, rt) is None);
        assert(at(b, to) is None);
        lemma_relocated(b, rf, rt);
        let b1 = relocated(b, rf, rt);
        assert(at(b1, from) == at(b, from));
        assert(at(b1, to) == at(b, to));
        lemma_relocated(b1, from, to);
    } else if p.piece == Piece::PAWN {
        let eps: Square = (from.0, to.1);
        assert(from.0 != to.0);
        let b1 = en_passant_cleared(b, from, to);
        if takes_en_passant(b, from, to) {
            assert(at(b, eps) is Some);
            lemma_put_count(b, from.0 as int, to.1 as int, None);
            lemma_put_cell(b, from.0 as int, to.1 as int, None, from);
            lemma_put_cell(b, from.0 as int, to.1 as int, None, to);
        }
        assert(board_wf(b1));
        lemma_relocated(b1, from, to);
        let b3 = relocated(b1, from, to);
        if is_last_rank(to.0 as int) {
            let landing = Some(ChessPiece { piece: promotion.unwrap(), color: p.color });
            lemma_put_count(b3, to.0 as int, to.1 as int, landing);
            lemma_put_cell(b3, to.0 as int, to.1 as int, landing, from);
            lemma_put_cell(b3, to.0 as int, to.1 as int, landing, to);
        }
    } else {
        lemma_relocated(b, from, to);
    }
    lemma_board_after_wf(b, from, to, promotion);
}

/// Where the king of color `c`, standing on `k`, is after the move `from`-`to`.
pub open spec fn king_after_move(g: &Game, from: Square, to: Square, c: Color, k: Square) -> Square {
    if moved_piece(g, from) == (ChessPiece { piece: Piece::KING, color: c }) {
        to
    } else {
        k
    }
}

proof fn lemma_kings_of_color(
    g: &Game,
    from: Square,
    to: Square,
    promotion: Option<Piece>,
    c: Color,
    k: Square,
)
    requires
        g.wf(),
        on_board(from),
        on_board(to),
        sole_king(board(&g.field), c, k),
        move_result(g, from, to, promotion) is Ok,
        !(at(board(&g.field), to) matches Some(p) && p.piece == Piece::KING),
        !(moved_piece(g, from).piece == Piece::PAWN && is_last_rank(to.0 as int) && promotion
            == Some(Piece::KING)),
    ensures
        board_wf(board_after(board(&g.field), from, to, promotion)),
        sole_king(
            board_after(board(&g.field), from, to, promotion),
            c,
            king_after_move(g, from, to, c, k),
        ),
        k == king_pos_of(g.king_position, c) ==> king_after_move(g, from, to, c, k) == king_pos_of(
            kings_after(g, from, to),
            c,
        ),
{
    let b = board(&g.field);
    let p = moved_piece(g, from);
    let king = Some(ChessPiece { piece: Piece::KING, color: c });
    let k2 = king_after_move(g, from, to, c, k);
    assert(p.color == g.next_to_move);
    assert(from != to);
    // Where each square of the new board takes its occupant from.
    let ep = p.piece == Piece::PAWN && takes_en_passant(b, from, to);
    let castle = p.piece == Piece::KING && castle_rook(from, to) is Some;
    let rf: Square = if castle { castle_rook(from, to).unwrap().0 } else { from };
    let rt: Square = if castle { castle_rook(from, to).unwrap().1 } else { from };
    let eps: Square = (from.0, to.1);
    let promoted = p.piece == Piece::PAWN && is_last_rank(to.0 as int);
    let landing = if promoted {
        Some(ChessPiece { piece: promotion.unwrap(), color: p.color })
    } else {
        Some(p)
    };
    let b2 = board_after(b, from, to, promotion);
    if castle {
        assert(at(b, rf) == Some(ChessPiece { piece: Piece::ROOK, color: p.color }));
        assert(at(b, rt) is None);
        assert(at(b, to) is None);
    }
    if ep {
        assert(at(b, eps) == Some(ChessPiece { piece: Piece::PAWN, color: opponent(p.color) }));
    }
    assert forall|s: Square| on_board(s) implies #[trigger] at(b2, s) == (if s == to {
        landing
    } else if s == from {
        None
    } else if castle && s == rf {
        None
    } else if castle && s == rt {
        at(b, rf)
    } else if ep && s == eps {
        None
    } else {
        at(b, s)
    }) by {
        if p.piece == Piece::KING {
            if castle {
                let b1 = relocated(b, rf, rt);
                lemma_put_cell(b, rt.0 as int, rt.1 as int, at(b, rf), s);
                lemma_put_cell(b, rt.0 as int, rt.1 as int, at(b, rf), from);
                lemma_put_cell(put(b, rt.0 as int, rt.1 as int, at(b, rf)), rf.0 as int, rf.1 as int, None, s);
                lemma_put_cell(put(b, rt.0 as int, rt.1 as int, at(b, rf)), rf.0 as int, rf.1 as int, None, from);
                lemma_put_cell(b1, to.0 as int, to.1 as int, at(b1, from), s);
                lemma_put_cell(put(b1, to.0 as int, to.1 as int, at(b1, from)), from.0 as int, from.1 as int, None, s);
            } else {
                lemma_put_cell(b, to.0 as int, to.1 as int, at(b, from), s);
                lemma_put_cell(put(b, to.0 as int, to.1 as int, at(b, from)), from.0 as int, from.1 as int, None, s);
            }
        } else if p.piece == Piece::PAWN {
            let b1 = if takes_en_passant(b, from, to) {
                put(b, from.0 as int, to.1 as int, None)
            } else {
                b
            };
            lemma_put_cell(b, from.0 as int, to.1 as int, None, s);
            lemma_put_cell(b, from.0 as int, to.1 as int, None, from);
            let b3 = relocated(b1, from, to);
            lemma_put_cell(b1, to.0 as int, to.1 as int, at(b1, from), s);
            lemma_put_cell(put(b1, to.0 as int, to.1 as int, at(b1, from)), from.0 as int, from.1 as int, None, s);
            lemma_put_cell(b3, to.0 as int, to.1 as int, landing, s);
        } else {
            lemma_put_cell(b, to.0 as int, to.1 as int, at(b, from), s);
            lemma_put_cell(put(b, to.0 as int, to.1 as int, at(b, from)), from.0 as int, from.1 as int, None, s);
        }
    }
    assert(board_wf(b2)) by {
        lemma_board_after_wf(b, from, to, promotion);
    }
    assert forall|s: Square| on_board(s) && #[trigger] at(b2, s) == king implies s == k2 by {
        if s == to {
        } else if s == from {
        } else if castle && s == rf {
        } else if castle && s == rt {
        } else if ep && s == eps {
        } else {
            assert(at(b, s) == king);
        }
    }
    if p.piece == Piece::KING && p.color == c {
        assert(at(b2, to) == king);
    } else {
        assert(k2 == k);
        assert(k != from);
        assert(at(b2, k) == king);
    }
}

fn initial_piece(row: usize, col: usize) -> (r: Option<ChessPiece>)
    requires
        row < 8,
        col < 8,
    ensures
        r == initial_cell(row as int, col as int),
{
    let color = if row <= 1 { Color::BLACK } else { Color::WHITE };
    if row == 1 || row == 6 {
        Some(ChessPiece { piece: Piece::PAWN, color })
    } else if row == 0 || row == 7 {
        let piece = if col == 0 || col == 7 {
            Piece::ROOK
        } else if col == 1 || col == 6 {
            Piece::KNIGHT
        } else if col == 2 || col == 5 {
            Piece::BISHOP
        } else if col == 3 {
            Piece::QUEEN
        } else {
            Piece::KING
        };
        Some(ChessPiece { piece, color })
    } else {
        None
    }
}

fn create_new_game() -> (g: Game)
    ensures
        g.wf(),
        board(&g.field) == initial_board(),
        g.next_to_move == Color::WHITE,
        g.can_castle == (CastlingRights {
            white_can_short_castle: true,
            white_can_long_castle: true,
            black_can_short_castle: true,
            black_can_long_castle: true,
        }),
        !g.can_en_passant,
        g.king_position.white_king_position == (7usize, 4usize),
        g.king_position.black_king_position == (0usize, 4usize),
        g.previous_move@ == Seq::<char>::empty(),
        g.game_result is None,
        sole_king(board(&g.field), Color::WHITE, (7usize, 4usize)),
        sole_king(board(&g.field), Color::BLACK, (0usize, 4usize)),
{
    let mut field: Field = Vec::new();
    let mut r: usize = 0;
    while r < 8
        invariant
            r <= 8,
            field@.len() == r,
            forall|i: int| 0 <= i < r ==> (#[trigger] field@[i])@ == initial_board()[i],
        decreases 8 - r,
    {
        let mut row: Vec<Option<ChessPiece>> = Vec::new();
        let mut c: usize = 0;
        while c < 8
            invariant
                r < 8,
                c <= 8,
                row@.len() == c,
                forall|j: int| 0 <= j < c ==> #[trigger] row@[j] == initial_cell(r as int, j),
            decreases 8 - c,
        {
            row.push(initial_piece(r, c));
            c = c + 1;
        }
        assert(row@ =~= initial_board()[r as int]);
        field.push(row);
        r = r + 1;
    }
    assert(board(&field) =~= initial_board());
    Game {
        id: random_game_id(),
        next_to_move: Color::WHITE,
        previous_move: String::new(),
        can_castle: CastlingRights {
            white_can_short_castle: true,
            white_can_long_castle: true,
            black_can_short_castle: true,
            black_can_long_castle: true,
        },
        can_en_passant: false,
        king_position: KingPosition { white_king_position: (7, 4), black_king_position: (0, 4) },
        field,
        game_result: None,
    }
}

fn copy_field(field: &Field) -> (r: Field)
    requires
        field_wf(field),
    ensures
        board(&r) == board(field),
        field_wf(&r),
{
    let mut out: Field = Vec::new();
    let mut i: usize = 0;
    while i < 8
        invariant
            field_wf(field),
            i <= 8,
            out@.len() == i,
            forall|k: int| 0 <= k < i ==> (#[trigger] out@[k])@ == board(field)[k],
        decreases 8 - i,
    {
        let mut row: Vec<Option<ChessPiece>> = Vec::new();
        let mut j: usize = 0;
        while j < 8
            invariant
                field_wf(field),
                i < 8,
                j <= 8,
                row@.len() == j,
                forall|k: int| 0 <= k < j ==> #[trigger] row@[k] == board(field)[i as int][k],
            decreases 8 - j,
        {
            row.push(get_cell(field, (i, j)));
            j = j + 1;
        }
        assert(row@ =~= board(field)[i as int]);
        out.push(row);
        i = i + 1;
    }
    assert(board(&out) =~= board(field));
    out
}

fn letter_text(p: Piece) -> (r: &'static str)
    ensures
        r@ == piece_letter(p),
{
    proof {
        reveal_strlit("K");
        reveal_strlit("Q");
        reveal_strlit("R");
        reveal_strlit("B");
        reveal_strlit("N");
        reveal_strlit("");
    }
    match p {
        Piece::KING => "K",
        Piece::QUEEN => "Q",
        Piece::ROOK => "R",
        Piece::BISHOP => "B",
        Piece::KNIGHT => "N",
        _ => "",
    }
}

/// Writes the record of a move, before it is carried out.
fn move_notation(field: &Field, from: Square, to: Square) -> (r: String)
    requires
        field_wf(field),
        on_board(from),
        on_board(to),
        at(board(field), from) is Some,
    ensures
        r@ == notation_after(board(field), from, to),
{
    let p = match get_cell(field, from) {
        Some(x) => x.piece,
        None => Piece::PAWN,
    };
    let target = get_cell(field, to);
    let castles = (from.0 == 0 || from.0 == 7) && from.1 == 4 && to.0 == from.0 && (to.1 == 6 || to.1
        == 2);
    if p == Piece::KING && castles {
        proof {
            reveal_strlit("0-0");
            reveal_strlit("0-0-0");
        }
        if to.1 == 6 {
            return String::from_str("0-0");
        } else {
            return String::from_str("0-0-0");
        }
    }
    let takes = target.is_some() || (p == Piece::PAWN && from.1 != to.1);
    let mut s = String::from_str(letter_text(p));
    if takes {
        proof {
            reveal_strlit("x");
        }
        s.append("x");
    }
    let name = square_name(to);
    s.append(name.as_str());
    if p == Piece::PAWN && (to.0 == 0 || to.0 == 7) {
        proof {
            reveal_strlit("=");
        }
        s.append("=");
    }
    assert(s@ =~= notation_after(board(field), from, to));
    s
}

impl Game {
    /// A new game in the starting position, White to move, with a random identifier. Panics
    /// where the machine offers no working source of random numbers.
    pub fn new() -> (g: Game)
        ensures
            g.wf(),
            board(&g.field) == initial_board(),
            g.next_to_move == Color::WHITE,
            g.can_castle == (CastlingRights {
                white_can_short_castle: true,
                white_can_long_castle: true,
                black_can_short_castle: true,
                black_can_long_castle: true,
            }),
            !g.can_en_passant,
            g.king_position.white_king_position == (7usize, 4usize),
            g.king_position.black_king_position == (0usize, 4usize),
            g.previous_move@ == Seq::<char>::empty(),
            g.game_result is None,
            sole_king(board(&g.field), Color::WHITE, (7usize, 4usize)),
            sole_king(board(&g.field), Color::BLACK, (0usize, 4usize)),
    {
        create_new_game()
    }

    /// A copy of the position to try a move on.
    fn scratch_copy(&self) -> (r: Game)
        requires
            self.wf(),
        ensures
            r.wf(),
            board(&r.field) == board(&self.field),
            r.next_to_move == self.next_to_move,
            r.can_castle == self.can_castle,
            r.can_en_passant == self.can_en_passant,
            r.king_position == self.king_position,
            r.id == self.id,
            r.game_result == self.game_result,
    {
        Game {
            id: self.id,
            next_to_move: self.next_to_move,
            previous_move: String::new(),
            can_castle: self.can_castle,
            can_en_passant: self.can_en_passant,
            king_position: self.king_position,
            field: copy_field(&self.field),
            game_result: self.game_result,
        }
    }

    /// Carries out the move `from`-`to` without asking whether the rules allow it.
    fn apply(&mut self, from: Square, to: Square, promotion_piece: Option<Piece>)
        requires
            old(self).wf(),
            can_apply(old(self), from, to, promotion_piece),
        ensures
            applied(old(self), final(self), from, to, promotion_piece),
            final(self).game_result == old(self).game_result,
    {
        let moving = match get_cell(&self.field, from) {
            Some(x) => x,
            None => ChessPiece { piece: Piece::PAWN, color: Color::WHITE },
        };
        let notation = move_notation(&self.field, from, to);
        self.can_en_passant = false;
        let white = self.next_to_move == Color::WHITE;
        match moving.piece {
            Piece::KING => self.make_king_move(from, to),
            Piece::PAWN => self.make_pawn_move(from, to, promotion_piece),
            Piece::ROOK => self.make_rook_move(from, to),
            _ => relocate(&mut self.field, from, to),
        }
        self.previous_move = notation;
        self.next_to_move = if white { Color::BLACK } else { Color::WHITE };
    }

    /// Moves the king, with its rook when it castles; the mover loses both castling rights.
    fn make_king_move(&mut self, from: Square, to: Square)
        requires
            old(self).wf(),
            can_apply(old(self), from, to, None),
            moved_piece(old(self), from).piece == Piece::KING,
            !old(self).can_en_passant,
        ensures
            final(self).wf(),
            board(&final(self).field) == board_after(board(&old(self).field), from, to, None),
            final(self).can_castle == rights_after(old(self), from),
            final(self).king_position == kings_after(old(self), from, to),
            final(self).can_en_passant == en_passant_after(old(self), from, to),
            final(self).next_to_move == old(self).next_to_move,
            final(self).id == old(self).id,
            final(self).game_result == old(self).game_result,
            final(self).previous_move == old(self).previous_move,
    {
        move_king(from, to, &mut self.field);
        if self.next_to_move == Color::BLACK {
            self.can_castle.black_can_long_castle = false;
            self.can_castle.black_can_short_castle = false;
            self.king_position.black_king_position = to;
        } else {
            self.can_castle.white_can_long_castle = false;
            self.can_castle.white_can_short_castle = false;
            self.king_position.white_king_position = to;
        }
    }

    /// Moves a rook; leaving its corner takes the castling right of that corner.
    fn make_rook_move(&mut self, from: Square, to: Square)
        requires
            old(self).wf(),
            can_apply(old(self), from, to, None),
            moved_piece(old(self), from).piece == Piece::ROOK,
            !old(self).can_en_passant,
        ensures
            final(self).wf(),
            board(&final(self).field) == board_after(board(&old(self).field), from, to, None),
            final(self).can_castle == rights_after(old(self), from),
            final(self).king_position == kings_after(old(self), from, to),
            final(self).can_en_passant == en_passant_after(old(self), from, to),
            final(self).next_to_move == old(self).next_to_move,
            final(self).id == old(self).id,
            final(self).game_result == old(self).game_result,
            final(self).previous_move == old(self).previous_move,
    {
        if self.next_to_move == Color::BLACK {
            if from.0 == 0 && from.1 == 0 {
                self.can_castle.black_can_long_castle = false;
            }
            if from.0 == 0 && from.1 == 7 {
                self.can_castle.black_can_short_castle = false;
            }
        } else {
            if from.0 == 7 && from.1 == 0 {
                self.can_castle.white_can_long_castle = false;
            }
            if from.0 == 7 && from.1 == 7 {
                self.can_castle.white_can_short_castle = false;
            }
        }
        relocate(&mut self.field, from, to);
    }

    /// Moves a pawn, with en passant and promotion; a two-square advance allows en passant.
    fn make_pawn_move(&mut self, from: Square, to: Square, promotion_piece: Option<Piece>)
        requires
            old(self).wf(),
            can_apply(old(self), from, to, promotion_piece),
            moved_piece(old(self), from).piece == Piece::PAWN,
            !old(self).can_en_passant,
        ensures
            final(self).wf(),
            board(&final(self).field) == board_after(board(&old(self).field), from, to, promotion_piece),
            final(self).can_castle == rights_after(old(self), from),
            final(self).king_position == kings_after(old(self), from, to),
            final(self).can_en_passant == en_passant_after(old(self), from, to),
            final(self).next_to_move == old(self).next_to_move,
            final(self).id == old(self).id,
            final(self).game_result == old(self).game_result,
            final(self).previous_move == old(self).previous_move,
    {
        move_pawn(from, to, promotion_piece, &mut self.field);
        if from.0 == to.0 + 2 || to.0 == from.0 + 2 {
            self.can_en_passant = true;
        }
    }

    /// Tries the move on a copy of the position and lists the enemy pieces that could then
    /// capture the mover's king.
    fn attackers_after(&self, from: Square, to: Square, promotion_piece: Option<Piece>) -> (r: Vec<
        CapturePiece,
    >)
        requires
            self.wf(),
            can_apply(self, from, to, promotion_piece),
        ensures
            r@ == king_attackers_after(self, from, to, promotion_piece),
    {
        let mover = self.next_to_move;
        let mut trial = self.scratch_copy();
        trial.apply(from, to, promotion_piece);
        let (king, enemy) = match mover {
            Color::WHITE => (trial.king_position.white_king_position, Color::BLACK),
            Color::BLACK => (trial.king_position.black_king_position, Color::WHITE),
        };
        can_be_captured_by(enemy, king, &trial)
    }

    /// Whether the side to move may play `from`-`to`: a piece of its own on `from`, a move
    /// that the piece may make, and afterwards no enemy piece that could take its king.
    fn validate_squares(&self, from: Square, to: Square, promotion_piece: Option<Piece>) -> (r: Result<
        (),
        MoveError,
    >)
        requires
            self.wf(),
            on_board(from),
            on_board(to),
        ensures
            r == move_result(self, from, to, promotion_piece),
    {
        let p = match get_cell(&self.field, from) {
            None => {
                return Err(MoveError::NoPieceSelected);
            },
            Some(p) => p,
        };
        if p.color != self.next_to_move {
            return Err(MoveError::NoPieceSelected);
        }
        let shape = match p.piece {
            Piece::BISHOP => validate_bishop_move(from, to, self),
            Piece::ROOK => validate_rook_move(from, to, self),
            Piece::QUEEN => validate_queen_move(from, to, self),
            Piece::KNIGHT => validate_knight_move(from, to, self),
            Piece::PAWN => validate_pawn_move(from, to, promotion_piece, self),
            Piece::KING => validate_king_move(from, to, self),
        };
        match shape {
            Err(e) => {
                return Err(e);
            },
            Ok(()) => {},
        }
        let checking_pieces = self.attackers_after(from, to, promotion_piece);
        if checking_pieces.len() != 0 {
            Err(MoveError::KingInCheck)
        } else {
            Ok(())
        }
    }

    /// Whether the side to move may play the move between two squares in algebraic notation.
    pub fn validate_move(&self, algebraic_from: &str, algebraic_to: &str, promotion_piece: Option<
        Piece,
    >) -> (r: Result<(), MoveError>)
        requires
            self.wf(),
        ensures
            r == notation_move_result(self, algebraic_from@, algebraic_to@, promotion_piece),
    {
        let (from, to) = match get_fields(algebraic_from, algebraic_to) {
            Err(e) => {
                return Err(e);
            },
            Ok(squares) => squares,
        };
        self.validate_squares(from, to, promotion_piece)
    }

    /// Carries out a move between two squares in algebraic notation, without asking whether
    /// the rules allow it: the board, the castling rights, the en passant flag, the king
    /// positions, the record of the move and the side to move change with it.
    pub fn make_move(&mut self, algebraic_from: &str, algebraic_to: &str, promotion_piece: Option<
        Piece,
    >)
        requires
            old(self).wf(),
            fields_of(algebraic_from@, algebraic_to@) matches Ok((f, t)) && can_apply(
                old(self),
                f,
                t,
                promotion_piece,
            ),
        ensures
            fields_of(algebraic_from@, algebraic_to@) matches Ok((f, t)) && applied(
                old(self),
                final(self),
                f,
                t,
                promotion_piece,
            ),
            final(self).game_result == old(self).game_result,
            rights_only_lost(old(self).can_castle, final(self).can_castle),
    {
        match get_fields(algebraic_from, algebraic_to) {
            Ok((from, to)) => self.apply(from, to, promotion_piece),
            Err(_) => {},
        }
    }

    /// The king of the side to move could be captured.
    pub fn is_in_check(&self) -> (r: bool)
        requires
            self.wf(),
        ensures
            r == in_check(self),
    {
        let (king, enemy) = match self.next_to_move {
            Color::WHITE => (self.king_position.white_king_position, Color::BLACK),
            Color::BLACK => (self.king_position.black_king_position, Color::WHITE),
        };
        can_be_captured_by(enemy, king, self).len() != 0
    }

    fn has_legal_move_from(&self, from: Square) -> (r: bool)
        requires
            self.wf(),
            on_board(from),
        ensures
            r == exists|t: Square|
                on_board(t) && (#[trigger] move_result(self, from, t, Some(Piece::QUEEN))) is Ok,
    {
        let mut tr: usize = 0;
        while tr < 8
            invariant
                self.wf(),
                on_board(from),
                tr <= 8,
                forall|t: Square|
                    on_board(t) && t.0 < tr ==> (#[trigger] move_result(self, from, t, Some(Piece::QUEEN))) is Err,
            decreases 8 - tr,
        {
            let mut tc: usize = 0;
            while tc < 8
                invariant
                    self.wf(),
                    on_board(from),
                    tr < 8,
                    tc <= 8,
                    forall|t: Square|
                        on_board(t) && (t.0 < tr || (t.0 == tr && t.1 < tc)) ==> (#[trigger] move_result(
                            self,
                            from,
                            t,
                            Some(Piece::QUEEN),
                        )) is Err,
                decreases 8 - tc,
            {
                if self.validate_squares(from, (tr, tc), Some(Piece::QUEEN)).is_ok() {
                    return true;
                }
                tc = tc + 1;
            }
            tr = tr + 1;
        }
        false
    }

    /// The side to move has a move that the rules allow.
    pub fn has_legal_move(&self) -> (r: bool)
        requires
            self.wf(),
        ensures
            r == has_legal_move(self),
    {
        let mut fr: usize = 0;
        while fr < 8
            invariant
                self.wf(),
                fr <= 8,
                forall|f: Square, t: Square|
                    on_board(f) && on_board(t) && f.0 < fr ==> (#[trigger] move_result(
                        self,
                        f,
                        t,
                        Some(Piece::QUEEN),
                    )) is Err,
            decreases 8 - fr,
        {
            let mut fc: usize = 0;
            while fc < 8
                invariant
                    self.wf(),
                    fr < 8,
                    fc <= 8,
                    forall|f: Square, t: Square|
                        on_board(f) && on_board(t) && (f.0 < fr || (f.0 == fr && f.1 < fc)) ==> (
                        #[trigger] move_result(self, f, t, Some(Piece::QUEEN))) is Err,
                decreases 8 - fc,
            {
                if self.has_legal_move_from((fr, fc)) {
                    return true;
                }
                fc = fc + 1;
            }
            fr = fr + 1;
        }
        false
    }

    /// Plays a move if the rules allow it. A refused move changes nothing. After a move that
    /// leaves the other side in check with no move to answer it, the game has a result.
    pub fn validate_and_make_move(
        &mut self,
        algebraic_from: &str,
        algebraic_to: &str,
        promotion_piece: Option<Piece>,
    ) -> (r: Result<(), MoveError>)
        requires
            old(self).wf(),
        ensures
            r == notation_move_result(old(self), algebraic_from@, algebraic_to@, promotion_piece),
            r is Err ==> *final(self) == *old(self),
            r is Ok ==> (fields_of(algebraic_from@, algebraic_to@) matches Ok((f, t)) && applied(
                old(self),
                final(self),
                f,
                t,
                promotion_piece,
            )),
            r is Ok ==> final(self).game_result == (if result_after(final(self)) is Some {
                result_after(final(self))
            } else {
                old(self).game_result
            }),
            rights_only_lost(old(self).can_castle, final(self).can_castle),
    {
        let (from, to) = match get_fields(algebraic_from, algebraic_to) {
            Err(e) => {
                return Err(e);
            },
            Ok(squares) => squares,
        };
        match self.validate_squares(from, to, promotion_piece) {
            Err(e) => {
                return Err(e);
            },
            Ok(()) => {},
        }
        self.apply(from, to, promotion_piece);
        let ghost played = *self;
        if self.is_in_check() && !self.has_legal_move() {
            self.game_result = match self.next_to_move {
                Color::WHITE => Some(GameResult::BlackWon),
                Color::BLACK => Some(GameResult::WhiteWon),
            };
        }
        proof {
            lemma_result_reads_position(&played, self);
        }
        Ok(())
    }
}

/// Plays a move between two squares in algebraic notation on a copy of the game, without
/// asking whether the rules allow it, and lists the enemy pieces that could then capture the
/// mover's king.
pub fn can_king_be_captured_after_move(
    game: &Game,
    algebraic_from: &str,
    algebraic_to: &str,
    promotion_piece: Option<Piece>,
) -> (r: Vec<CapturePiece>)
    requires
        game.wf(),
        fields_of(algebraic_from@, algebraic_to@) matches Ok((f, t)) && can_apply(
            game,
            f,
            t,
            promotion_piece,
        ),
    ensures
        fields_of(algebraic_from@, algebraic_to@) matches Ok((f, t)) && r@ == king_attackers_after(
            game,
            f,
            t,
            promotion_piece,
        ),
{
    match get_fields(algebraic_from, algebraic_to) {
        Ok((from, to)) => game.attackers_after(from, to, promotion_piece),
        Err(_) => Vec::new(),
    }
}

} // verus!
