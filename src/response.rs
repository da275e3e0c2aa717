use vstd::prelude::*;
use vstd::string::*;

use crate::board::{board, field_wf, get_cell};
use crate::chess_piece::{ChessPiece, Color, Piece};

verus! {

pub open spec fn color_letter(c: Color) -> char {
    match c {
        Color::WHITE => 'W',
        Color::BLACK => 'B',
    }
}

pub open spec fn kind_letter(p: Piece) -> char {
    match p {
        Piece::KING => 'K',
        Piece::QUEEN => 'Q',
        Piece::ROOK => 'R',
        Piece::BISHOP => 'B',
        Piece::KNIGHT => 'N',
        Piece::PAWN => 'P',
    }
}

/// The code of a square: empty, or the color letter followed by the piece letter.
pub open spec fn square_code(o: Option<ChessPiece>) -> Seq<char> {
    match o {
        None => Seq::empty(),
        Some(cp) => seq![color_letter(cp.color), kind_letter(cp.piece)],
    }
}

fn code_text(o: Option<ChessPiece>) -> (r: &'static str)
    ensures
        r@ == square_code(o),
{
    proof {
        reveal_strlit("");
        reveal_strlit("WK");
        reveal_strlit("WQ");
        reveal_strlit("WR");
        reveal_strlit("WB");
        reveal_strlit("WN");
        reveal_strlit("WP");
        reveal_strlit("BK");
        reveal_strlit("BQ");
        reveal_strlit("BR");
        reveal_strlit("BB");
        reveal_strlit("BN");
        reveal_strlit("BP");
    }
    match o {
        None => "",
        Some(cp) => match (cp.color, cp.piece) {
            (Color::WHITE, Piece::KING) => "WK",
            (Color::WHITE, Piece::QUEEN) => "WQ",
            (Color::WHITE, Piece::ROOK) => "WR",
            (Color::WHITE, Piece::BISHOP) => "WB",
            (Color::WHITE, Piece::KNIGHT) => "WN",
            (Color::WHITE, Piece::PAWN) => "WP",
            (Color::BLACK, Piece::KING) => "BK",
            (Color::BLACK, Piece::QUEEN) => "BQ",
            (Color::BLACK, Piece::ROOK) => "BR",
            (Color::BLACK, Piece::BISHOP) => "BB",
            (Color::BLACK, Piece::KNIGHT) => "BN",
            (Color::BLACK, Piece::PAWN) => "BP",
        },
    }
}

/// The board as an eight by eight grid of square codes, for display.
pub fn serialize_field(field: &Vec<Vec<Option<ChessPiece>>>) -> (r: Vec<Vec<String>>)
    requires
        field_wf(field),
    ensures
        r@.len() == 8,
        forall|i: int| 0 <= i < 8 ==> (#[trigger] r@[i])@.len() == 8,
        forall|i: int, j: int|
            0 <= i < 8 && 0 <= j < 8 ==> (#[trigger] r@[i]@[j])@ == square_code(board(field)[i][j]),
{
    let mut serialized_fields: Vec<Vec<String>> = Vec::new();
    let mut i: usize = 0;
    while i < 8
        invariant
            field_wf(field),
            i <= 8,
            serialized_fields@.len() == i,
            forall|k: int| 0 <= k < i ==> (#[trigger] serialized_fields@[k])@.len() == 8,
            forall|k: int, j: int|
                0 <= k < i && 0 <= j < 8 ==> (#[trigger] serialized_fields@[k]@[j])@ == square_code(
                    board(field)[k][j],
                ),
        decreases 8 - i,
    {
        let mut row: Vec<String> = Vec::new();
        let mut j: usize = 0;
        while j < 8
            invariant
                field_wf(field),
                i < 8,
                j <= 8,
                row@.len() == j,
                forall|k: int| 0 <= k < j ==> (#[trigger] row@[k])@ == square_code(board(field)[i as int][k]),
            decreases 8 - j,
        {
            row.push(String::from_str(code_text(get_cell(field, (i, j)))));
            j = j + 1;
        }
        serialized_fields.push(row);
        i = i + 1;
    }
    serialized_fields
}

} // verus!
