use vstd::prelude::*;
use vstd::string::*;

use crate::error::MoveError;

verus! {

/// A square as (row, column): row 0 is rank 8, row 7 is rank 1; column 0 is file 'a'.
pub type Square = (usize, usize);

/// The column that a file letter names.
pub open spec fn file_col(c: char) -> Option<usize> {
    match c {
        'a' => Some(0usize),
        'b' => Some(1usize),
        'c' => Some(2usize),
        'd' => Some(3usize),
        'e' => Some(4usize),
        'f' => Some(5usize),
        'g' => Some(6usize),
        'h' => Some(7usize),
        _ => None,
    }
}

/// The row that a rank digit names.
pub open spec fn rank_row(c: char) -> Option<usize> {
    match c {
        '8' => Some(0usize),
        '7' => Some(1usize),
        '6' => Some(2usize),
        '5' => Some(3usize),
        '4' => Some(4usize),
        '3' => Some(5usize),
        '2' => Some(6usize),
        '1' => Some(7usize),
        _ => None,
    }
}

/// The file letter of a column.
pub open spec fn file_char(col: int) -> char {
    if col == 0 { 'a' }
    else if col == 1 { 'b' }
    else if col == 2 { 'c' }
    else if col == 3 { 'd' }
    else if col == 4 { 'e' }
    else if col == 5 { 'f' }
    else if col == 6 { 'g' }
    else { 'h' }
}

/// The rank digit of a row.
pub open spec fn rank_char(row: int) -> char {
    if row == 0 { '8' }
    else if row == 1 { '7' }
    else if row == 2 { '6' }
    else if row == 3 { '5' }
    else if row == 4 { '4' }
    else if row == 5 { '3' }
    else if row == 6 { '2' }
    else { '1' }
}

/// The square that a text names: its first character is the file, its second the rank;
/// anything after those two is not read.
pub open spec fn parse_square(s: Seq<char>) -> Option<Square> {
    if s.len() < 2 {
        None
    } else {
        match (file_col(s[0]), rank_row(s[1])) {
            (Some(col), Some(row)) => Some((row, col)),
            _ => None,
        }
    }
}

/// The algebraic name of a square, such as "e4".
pub open spec fn square_chars(sq: Square) -> Seq<char> {
    seq![file_char(sq.1 as int), rank_char(sq.0 as int)]
}

pub open spec fn on_board(sq: Square) -> bool {
    sq.0 < 8 && sq.1 < 8
}

/// The squares that two texts name, or the error of the first text that names none.
pub open spec fn fields_of(from: Seq<char>, to: Seq<char>) -> Result<(Square, Square), MoveError> {
    match (parse_square(from), parse_square(to)) {
        (Some(f), Some(t)) => Ok((f, t)),
        _ => Err(MoveError::InvalidSquare),
    }
}

fn column_of_file(c: char) -> (r: Option<usize>)
    ensures
        r == file_col(c),
{
    match c {
        'a' => Some(0),
        'b' => Some(1),
        'c' => Some(2),
        'd' => Some(3),
        'e' => Some(4),
        'f' => Some(5),
        'g' => Some(6),
        'h' => Some(7),
        _ => None,
    }
}

fn row_of_rank(c: char) -> (r: Option<usize>)
    ensures
        r == rank_row(c),
{
    match c {
        '8' => Some(0),
        '7' => Some(1),
        '6' => Some(2),
        '5' => Some(3),
        '4' => Some(4),
        '3' => Some(5),
        '2' => Some(6),
        '1' => Some(7),
        _ => None,
    }
}

/// Decodes one algebraic square.
pub fn parse_field(s: &str) -> (r: Option<Square>)
    ensures
        r == parse_square(s@),
        r matches Some(sq) ==> on_board(sq),
{
    if s.unicode_len() < 2 {
        return None;
    }
    let col = column_of_file(s.get_char(0));
    let row = row_of_rank(s.get_char(1));
    match (col, row) {
        (Some(c), Some(r)) => Some((r, c)),
        _ => None,
    }
}

/// Decodes the origin and destination squares of a move.
pub fn get_fields(from: &str, to: &str) -> (r: Result<(Square, Square), MoveError>)
    ensures
        r == fields_of(from@, to@),
        r matches Ok((f, t)) ==> on_board(f) && on_board(t),
{
    match (parse_field(from), parse_field(to)) {
        (Some(f), Some(t)) => Ok((f, t)),
        _ => Err(MoveError::InvalidSquare),
    }
}

fn file_text(col: usize) -> (r: &'static str)
    requires
        col < 8,
    ensures
        r@ == seq![file_char(col as int)],
{
    proof {
        reveal_strlit("a");
        reveal_strlit("b");
        reveal_strlit("c");
        reveal_strlit("d");
        reveal_strlit("e");
        reveal_strlit("f");
        reveal_strlit("g");
        reveal_strlit("h");
    }
    if col == 0 { "a" }
    else if col == 1 { "b" }
    else if col == 2 { "c" }
    else if col == 3 { "d" }
    else if col == 4 { "e" }
    else if col == 5 { "f" }
    else if col == 6 { "g" }
    else { "h" }
}

fn rank_text(row: usize) -> (r: &'static str)
    requires
        row < 8,
    ensures
        r@ == seq![rank_char(row as int)],
{
    proof {
        reveal_strlit("8");
        reveal_strlit("7");
        reveal_strlit("6");
        reveal_strlit("5");
        reveal_strlit("4");
        reveal_strlit("3");
        reveal_strlit("2");
        reveal_strlit("1");
    }
    if row == 0 { "8" }
    else if row == 1 { "7" }
    else if row == 2 { "6" }
    else if row == 3 { "5" }
    else if row == 4 { "4" }
    else if row == 5 { "3" }
    else if row == 6 { "2" }
    else { "1" }
}

/// Encodes a square in algebraic notation.
pub fn square_name(sq: Square) -> (r: String)
    requires
        on_board(sq),
    ensures
        r@ == square_chars(sq),
{
    let s = String::from_str(file_text(sq.1));
    let r = s.concat(rank_text(sq.0));
    assert(r@ =~= square_chars(sq));
    r
}

/// Decoding the name of a square gives that square back, and a two-character text that
/// names a square is that square's name.
pub proof fn lemma_square_round_trip(sq: Square, s: Seq<char>)
    requires
        on_board(sq),
    ensures
        parse_square(square_chars(sq)) == Some(sq),
        s.len() == 2 && parse_square(s) is Some ==> square_chars(parse_square(s).unwrap()) =~= s,
{
}

} // verus!
