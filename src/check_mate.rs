use vstd::prelude::*;

use crate::board::{board, field_wf, get_cell, Board};
use crate::chess_piece::{ChessPiece, Color, Piece};
use crate::game::Game;
use crate::notation::{on_board, Square};
use crate::validation::step;

verus! {

/// A piece that could capture on a given square, and where it stands.
#[derive(Debug, Copy, Clone, PartialEq, Eq, Structural)]
pub struct CapturePiece {
    pub row: usize,
    pub col: usize,
    pub piece: Piece,
}

pub open spec fn in_bounds(r: int, c: int) -> bool {
    0 <= r < 8 && 0 <= c < 8
}

/// The results `f(0)`, ..., `f(n - 1)` that are present, in that order.
pub open spec fn collect(f: spec_fn(int) -> Option<CapturePiece>, n: nat) -> Seq<CapturePiece>
    decreases n,
{
    if n == 0 {
        Seq::empty()
    } else {
        let prefix = collect(f, (n - 1) as nat);
        match f(n - 1) {
            Some(x) => prefix.push(x),
            None => prefix,
        }
    }
}

/// The eight knight jumps, in the order in which they are tried.
pub open spec fn knight_jump(i: int) -> (int, int) {
    if i == 0 { (2, 1) }
    else if i == 1 { (2, -1) }
    else if i == 2 { (1, 2) }
    else if i == 3 { (1, -2) }
    else if i == 4 { (-2, 1) }
    else if i == 5 { (-2, -1) }
    else if i == 6 { (-1, 2) }
    else { (-1, -2) }
}

/// The four diagonal directions, in the order in which they are scanned.
pub open spec fn diagonal_dir(j: int) -> (int, int) {
    if j == 0 { (1, 1) } else if j == 1 { (1, -1) } else if j == 2 { (-1, 1) } else { (-1, -1) }
}

/// The four rank and file directions, in the order in which they are scanned.
pub open spec fn linear_dir(j: int) -> (int, int) {
    if j == 0 { (1, 0) } else if j == 1 { (-1, 0) } else if j == 2 { (0, 1) } else { (0, -1) }
}

/// An enemy knight one jump away.
pub open spec fn knight_hit(b: Board, sq: Square, enemy: Color, i: int) -> Option<CapturePiece> {
    let r = sq.0 + knight_jump(i).0;
    let c = sq.1 + knight_jump(i).1;
    if in_bounds(r, c) && b[r][c] == Some(ChessPiece { piece: Piece::KNIGHT, color: enemy }) {
        Some(CapturePiece { row: r as usize, col: c as usize, piece: Piece::KNIGHT })
    } else {
        None
    }
}

/// The distance to the first occupied square from `sq` in direction (dr, dc), looking from
/// distance `i` on.
pub open spec fn first_occupied(b: Board, sq: Square, dr: int, dc: int, i: int) -> Option<int>
    decreases 8 - i,
{
    if i >= 8 || i < 1 {
        None
    } else {
        let r = step(sq.0 as int, dr, i);
        let c = step(sq.1 as int, dc, i);
        if !in_bounds(r, c) {
            None
        } else if b[r][c] is Some {
            Some(i)
        } else {
            first_occupied(b, sq, dr, dc, i + 1)
        }
    }
}

/// Whether an enemy `piece` first met at distance `i` in direction (dr, _) attacks the square:
/// along a diagonal a queen or bishop, a pawn next to it on the side it attacks from, or a king
/// next to it; along a rank or file a queen or rook, or a king next to it.
pub open spec fn attacks_along(piece: Piece, i: int, dr: int, enemy: Color, diagonal: bool) -> bool {
    if diagonal {
        match piece {
            Piece::QUEEN | Piece::BISHOP => true,
            Piece::PAWN => i == 1 && (match enemy {
                Color::WHITE => dr == 1,
                Color::BLACK => dr == -1,
            }),
            Piece::KING => i == 1,
            _ => false,
        }
    } else {
        match piece {
            Piece::QUEEN | Piece::ROOK => true,
            Piece::KING => i == 1,
            _ => false,
        }
    }
}

/// The attacker found by looking from `sq` in direction (dr, dc), if any.
pub open spec fn ray_hit(b: Board, sq: Square, enemy: Color, dr: int, dc: int, diagonal: bool) -> Option<
    CapturePiece,
> {
    match first_occupied(b, sq, dr, dc, 1) {
        None => None,
        Some(i) => {
            let r = step(sq.0 as int, dr, i);
            let c = step(sq.1 as int, dc, i);
            let p = b[r][c].unwrap();
            if p.color == enemy && attacks_along(p.piece, i, dr, enemy, diagonal) {
                Some(CapturePiece { row: r as usize, col: c as usize, piece: p.piece })
            } else {
                None
            }
        }
    }
}

pub open spec fn knight_attackers(b: Board, sq: Square, enemy: Color) -> Seq<CapturePiece> {
    collect(|i: int| knight_hit(b, sq, enemy, i), 8)
}

pub open spec fn diagonal_attackers(b: Board, sq: Square, enemy: Color) -> Seq<CapturePiece> {
    collect(|j: int| ray_hit(b, sq, enemy, diagonal_dir(j).0, diagonal_dir(j).1, true), 4)
}

pub open spec fn linear_attackers(b: Board, sq: Square, enemy: Color) -> Seq<CapturePiece> {
    collect(|j: int| ray_hit(b, sq, enemy, linear_dir(j).0, linear_dir(j).1, false), 4)
}

/// The pieces of color `enemy` that could capture on `sq`: knights first, then what the
/// diagonals and then the ranks and files show.
pub open spec fn attackers(b: Board, sq: Square, enemy: Color) -> Seq<CapturePiece> {
    knight_attackers(b, sq, enemy) + diagonal_attackers(b, sq, enemy) + linear_attackers(b, sq, enemy)
}

/// The coordinate `x + d`, where it is on the board.
fn shifted(x: usize, d: i8) -> (r: Option<usize>)
    requires
        x < 8,
        -2 <= d <= 2,
    ensures
        r == (if 0 <= x + d < 8 { Some((x + d) as usize) } else { None::<usize> }),
{
    if d >= 0 {
        let y = x + d as usize;
        if y < 8 { Some(y) } else { None }
    } else {
        let back = (-d) as usize;
        if back <= x { Some(x - back) } else { None }
    }
}

/// The coordinate `k` steps from `x` in the direction of `d`, where it is on the board.
fn stepped(x: usize, d: i8, k: usize) -> (r: Option<usize>)
    requires
        x < 8,
        -1 <= d <= 1,
        k < 8,
    ensures
        r == (if 0 <= step(x as int, d as int, k as int) < 8 {
            Some(step(x as int, d as int, k as int) as usize)
        } else {
            None::<usize>
        }),
{
    if d > 0 {
        if x + k < 8 { Some(x + k) } else { None }
    } else if d < 0 {
        if k <= x { Some(x - k) } else { None }
    } else {
        Some(x)
    }
}

fn knight_jump_exec(i: usize) -> (r: (i8, i8))
    requires
        i < 8,
    ensures
        r.0 as int == knight_jump(i as int).0,
        r.1 as int == knight_jump(i as int).1,
{
    if i == 0 { (2, 1) }
    else if i == 1 { (2, -1) }
    else if i == 2 { (1, 2) }
    else if i == 3 { (1, -2) }
    else if i == 4 { (-2, 1) }
    else if i == 5 { (-2, -1) }
    else if i == 6 { (-1, 2) }
    else { (-1, -2) }
}

fn direction(j: usize, diagonal: bool) -> (r: (i8, i8))
    requires
        j < 4,
    ensures
        diagonal ==> r.0 as int == diagonal_dir(j as int).0 && r.1 as int == diagonal_dir(j as int).1,
        !diagonal ==> r.0 as int == linear_dir(j as int).0 && r.1 as int == linear_dir(j as int).1,
{
    if diagonal {
        if j == 0 { (1, 1) } else if j == 1 { (1, -1) } else if j == 2 { (-1, 1) } else { (-1, -1) }
    } else {
        if j == 0 { (1, 0) } else if j == 1 { (-1, 0) } else if j == 2 { (0, 1) } else { (0, -1) }
    }
}

fn attacks_along_exec(piece: Piece, i: usize, dr: i8, enemy: Color, diagonal: bool) -> (r: bool)
    ensures
        r == attacks_along(piece, i as int, dr as int, enemy, diagonal),
{
    if diagonal {
        match piece {
            Piece::QUEEN | Piece::BISHOP => true,
            Piece::PAWN => i == 1 && match enemy {
                Color::WHITE => dr == 1,
                Color::BLACK => dr == -1,
            },
            Piece::KING => i == 1,
            _ => false,
        }
    } else {
        match piece {
            Piece::QUEEN | Piece::ROOK => true,
            Piece::KING => i == 1,
            _ => false,
        }
    }
}

/// Looks from `sq` in direction (dr, dc) and reports the first piece met if it attacks `sq`.
fn scan_ray(game: &Game, sq: Square, enemy: Color, dr: i8, dc: i8, diagonal: bool) -> (r: Option<
    CapturePiece,
>)
    requires
        field_wf(&game.field),
        on_board(sq),
        -1 <= dr <= 1,
        -1 <= dc <= 1,
    ensures
        r == ray_hit(board(&game.field), sq, enemy, dr as int, dc as int, diagonal),
{
    let ghost b = board(&game.field);
    let mut i: usize = 1;
    while i < 8
        invariant
            field_wf(&game.field),
            b == board(&game.field),
            on_board(sq),
            -1 <= dr <= 1,
            -1 <= dc <= 1,
            1 <= i <= 8,
            first_occupied(b, sq, dr as int, dc as int, 1) == first_occupied(b, sq, dr as int, dc as int, i as int),
        decreases 8 - i,
    {
        let r = stepped(sq.0, dr, i);
        let c = stepped(sq.1, dc, i);
        match (r, c) {
            (Some(r), Some(c)) => {
                match get_cell(&game.field, (r, c)) {
                    Some(p) => {
                        if p.color == enemy && attacks_along_exec(p.piece, i, dr, enemy, diagonal) {
                            return Some(CapturePiece { row: r, col: c, piece: p.piece });
                        } else {
                            return None;
                        }
                    },
                    None => {},
                }
            },
            _ => {
                return None;
            },
        }
        i = i + 1;
    }
    None
}

fn capturable_by_knight(
    enemy_color: Color,
    square: Square,
    game: &Game,
    capturable_by: &mut Vec<CapturePiece>,
)
    requires
        field_wf(&game.field),
        on_board(square),
    ensures
        final(capturable_by)@ == old(capturable_by)@ + knight_attackers(
            board(&game.field),
            square,
            enemy_color,
        ),
{
    let ghost b = board(&game.field);
    let ghost start = capturable_by@;
    let ghost f = |i: int| knight_hit(b, square, enemy_color, i);
    let mut i: usize = 0;
    while i < 8
        invariant
            field_wf(&game.field),
            b == board(&game.field),
            on_board(square),
            i <= 8,
            f == (|i: int| knight_hit(b, square, enemy_color, i)),
            capturable_by@ == start + collect(f, i as nat),
        decreases 8 - i,
    {
        let (dr, dc) = knight_jump_exec(i);
        let r = shifted(square.0, dr);
        let c = shifted(square.1, dc);
        match (r, c) {
            (Some(r), Some(c)) => {
                if get_cell(&game.field, (r, c)) == Some(
                    ChessPiece { piece: Piece::KNIGHT, color: enemy_color },
                ) {
                    capturable_by.push(CapturePiece { row: r, col: c, piece: Piece::KNIGHT });
                }
            },
            _ => {},
        }
        proof {
            assert(collect(f, (i + 1) as nat) == {
                let prefix = collect(f, i as nat);
                match f(i as int) {
                    Some(x) => prefix.push(x),
                    None => prefix,
                }
            });
        }
        assert(capturable_by@ =~= start + collect(f, (i + 1) as nat));
        i = i + 1;
    }
}

fn capturable_by_rays(
    enemy_color: Color,
    square: Square,
    game: &Game,
    diagonal: bool,
    capturable_by: &mut Vec<CapturePiece>,
)
    requires
        field_wf(&game.field),
        on_board(square),
    ensures
        diagonal ==> final(capturable_by)@ == old(capturable_by)@ + diagonal_attackers(
            board(&game.field),
            square,
            enemy_color,
        ),
        !diagonal ==> final(capturable_by)@ == old(capturable_by)@ + linear_attackers(
            board(&game.field),
            square,
            enemy_color,
        ),
{
    let ghost b = board(&game.field);
    let ghost start = capturable_by@;
    let ghost f = |j: int|
        if diagonal {
            ray_hit(b, square, enemy_color, diagonal_dir(j).0, diagonal_dir(j).1, true)
        } else {
            ray_hit(b, square, enemy_color, linear_dir(j).0, linear_dir(j).1, false)
        };
    let mut j: usize = 0;
    while j < 4
        invariant
            field_wf(&game.field),
            b == board(&game.field),
            on_board(square),
            j <= 4,
            f == (|j: int|
                if diagonal {
                    ray_hit(b, square, enemy_color, diagonal_dir(j).0, diagonal_dir(j).1, true)
                } else {
                    ray_hit(b, square, enemy_color, linear_dir(j).0, linear_dir(j).1, false)
                }),
            capturable_by@ == start + collect(f, j as nat),
        decreases 4 - j,
    {
        let (dr, dc) = direction(j, diagonal);
        let hit = scan_ray(game, square, enemy_color, dr, dc, diagonal);
        match hit {
            Some(x) => capturable_by.push(x),
            None => {},
        }
        assert(capturable_by@ =~= start + collect(f, (j + 1) as nat));
        j = j + 1;
    }
    proof {
        if diagonal {
            assert(collect(f, 4) == diagonal_attackers(b, square, enemy_color)) by {
                let g = |j: int| ray_hit(b, square, enemy_color, diagonal_dir(j).0, diagonal_dir(j).1, true);
                assert(f =~= g);
            }
        } else {
            assert(collect(f, 4) == linear_attackers(b, square, enemy_color)) by {
                let g = |j: int| ray_hit(b, square, enemy_color, linear_dir(j).0, linear_dir(j).1, false);
                assert(f =~= g);
            }
        }
    }
}

/// The pieces of color `enemy_color` that could capture on `square` in the position of `game`.
pub fn can_be_captured_by(enemy_color: Color, square: Square, game: &Game) -> (r: Vec<CapturePiece>)
    requires
        field_wf(&game.field),
        on_board(square),
    ensures
        r@ == attackers(board(&game.field), square, enemy_color),
{
    let mut capturable_by: Vec<CapturePiece> = Vec::new();
    capturable_by_knight(enemy_color, square, game, &mut capturable_by);
    capturable_by_rays(enemy_color, square, game, true, &mut capturable_by);
    capturable_by_rays(enemy_color, square, game, false, &mut capturable_by);
    assert(capturable_by@ =~= attackers(board(&game.field), square, enemy_color));
    capturable_by
}

} // verus!
