use chess_voting::board::{make_king_move, make_pawn_move, move_king, move_pawn};
use chess_voting::check_mate::{can_be_captured_by, CapturePiece};
use chess_voting::chess_piece::{ChessPiece, Color, Piece};
use chess_voting::error::MoveError;
use chess_voting::game::{can_king_be_captured_after_move, CastlingRights, Game, GameResult, KingPosition};
use chess_voting::notation::{get_fields, parse_field, square_name};
use chess_voting::request::promotion_piece;
use chess_voting::response::serialize_field;

fn piece(piece: Piece, color: Color) -> Option<ChessPiece> {
    Some(ChessPiece { piece, color })
}

/// A board with the two kings alone, no castling rights, White to move.
fn kings_only(white: (usize, usize), black: (usize, usize)) -> Game {
    let mut game = Game::new();
    for row in game.field.iter_mut() {
        for square in row.iter_mut() {
            *square = None;
        }
    }
    game.field[white.0][white.1] = piece(Piece::KING, Color::WHITE);
    game.field[black.0][black.1] = piece(Piece::KING, Color::BLACK);
    game.king_position = KingPosition {
        white_king_position: white,
        black_king_position: black,
    };
    game.can_castle = CastlingRights {
        white_can_short_castle: false,
        white_can_long_castle: false,
        black_can_short_castle: false,
        black_can_long_castle: false,
    };
    game
}

fn play(game: &mut Game, moves: &[(&str, &str)]) {
    for (from, to) in moves {
        if let Err(e) = game.validate_and_make_move(from, to, None) {
            panic!("move {}-{} refused: {:?}", from, to, e);
        }
    }
}

/// Tries a move that must be refused for leaving the king attacked, and checks that the
/// position stayed as it was.
fn assert_self_check_refused(mut game: Game, from: &str, to: &str) {
    let before = game.clone();
    assert_eq!(
        game.validate_and_make_move(from, to, None),
        Err(MoveError::KingInCheck)
    );
    assert_eq!(game.field, before.field);
    assert_eq!(game.next_to_move, before.next_to_move);
    assert_eq!(game.can_castle, before.can_castle);
    assert_eq!(game.previous_move, before.previous_move);
}

#[test]
fn opening_pawn_advance_is_recorded() {
    let mut game = Game::new();
    assert_eq!(game.validate_and_make_move("e2", "e4", None), Ok(()));
    assert_eq!(game.previous_move, "e4");
    assert_eq!(game.field[4][4], piece(Piece::PAWN, Color::WHITE));
    assert_eq!(game.field[6][4], None);
    assert_eq!(game.next_to_move, Color::BLACK);
}

#[test]
fn short_castle_moves_rook_and_takes_rights() {
    let mut game = Game::new();
    for col in [1, 2, 3, 5, 6] {
        game.field[7][col] = None;
    }
    assert_eq!(game.validate_and_make_move("e1", "g1", None), Ok(()));
    assert_eq!(game.previous_move, "0-0");
    assert_eq!(game.field[7][6], piece(Piece::KING, Color::WHITE));
    assert_eq!(game.field[7][5], piece(Piece::ROOK, Color::WHITE));
    assert_eq!(game.field[7][7], None);
    assert!(!game.can_castle.white_can_short_castle);
    assert!(!game.can_castle.white_can_long_castle);
    assert!(game.can_castle.black_can_short_castle);
    assert_eq!(game.king_position.white_king_position, (7, 6));
}

#[test]
fn en_passant_removes_the_passed_pawn() {
    let mut game = Game::new();
    play(&mut game, &[("e2", "e4"), ("a7", "a6"), ("e4", "e5"), ("d7", "d5")]);
    assert!(game.can_en_passant);
    assert_eq!(game.validate_and_make_move("e5", "d6", None), Ok(()));
    assert_eq!(game.previous_move, "xd6");
    assert_eq!(game.field[3][3], None);
    assert_eq!(game.field[3][4], None);
    assert_eq!(game.field[2][3], piece(Piece::PAWN, Color::WHITE));
}

#[test]
fn en_passant_needs_the_previous_double_step() {
    let mut game = Game::new();
    play(
        &mut game,
        &[("e2", "e4"), ("d7", "d5"), ("e4", "e5"), ("a7", "a6")],
    );
    assert!(!game.can_en_passant);
    assert_eq!(
        game.validate_and_make_move("e5", "d6", None),
        Err(MoveError::InvalidMove)
    );
}

#[test]
fn en_passant_flag_lasts_one_ply() {
    let mut game = Game::new();
    play(&mut game, &[("e2", "e4")]);
    assert!(game.can_en_passant);
    play(&mut game, &[("g8", "f6")]);
    assert!(!game.can_en_passant);
    play(&mut game, &[("d2", "d3")]);
    assert!(!game.can_en_passant);
}

#[test]
fn self_check_by_rook_is_refused() {
    let mut game = kings_only((7, 4), (0, 0));
    game.field[6][4] = piece(Piece::BISHOP, Color::WHITE);
    game.field[1][4] = piece(Piece::ROOK, Color::BLACK);
    assert_self_check_refused(game, "e2", "d3");
}

#[test]
fn self_check_by_bishop_is_refused() {
    let mut game = kings_only((7, 4), (0, 7));
    game.field[6][3] = piece(Piece::KNIGHT, Color::WHITE);
    game.field[3][0] = piece(Piece::BISHOP, Color::BLACK);
    assert_self_check_refused(game, "d2", "f3");
}

#[test]
fn self_check_by_queen_is_refused() {
    let mut game = kings_only((7, 4), (0, 0));
    game.field[6][5] = piece(Piece::PAWN, Color::WHITE);
    game.field[4][7] = piece(Piece::QUEEN, Color::BLACK);
    assert_self_check_refused(game, "f2", "f3");
}

#[test]
fn self_check_by_knight_is_refused() {
    let mut game = kings_only((7, 4), (0, 0));
    game.field[6][0] = piece(Piece::PAWN, Color::WHITE);
    game.field[5][3] = piece(Piece::KNIGHT, Color::BLACK);
    assert_self_check_refused(game, "a2", "a3");
}

#[test]
fn self_check_by_pawn_is_refused() {
    let mut game = kings_only((7, 4), (0, 0));
    game.field[6][0] = piece(Piece::PAWN, Color::WHITE);
    game.field[6][3] = piece(Piece::PAWN, Color::BLACK);
    assert_self_check_refused(game, "a2", "a3");
}

#[test]
fn self_check_by_king_is_refused() {
    let game = kings_only((7, 4), (5, 4));
    assert_self_check_refused(game, "e1", "e2");
}

#[test]
fn promotion_needs_a_piece() {
    let mut game = kings_only((7, 4), (3, 7));
    game.field[1][0] = piece(Piece::PAWN, Color::WHITE);
    assert_eq!(
        game.validate_and_make_move("a7", "a8", None),
        Err(MoveError::MissingPromotion)
    );
    assert_eq!(game.field[1][0], piece(Piece::PAWN, Color::WHITE));
    assert_eq!(
        game.validate_and_make_move("a7", "a8", Some(Piece::QUEEN)),
        Ok(())
    );
    assert_eq!(game.field[0][0], piece(Piece::QUEEN, Color::WHITE));
    assert_eq!(game.field[1][0], None);
    assert_eq!(game.previous_move, "a8=");
}

#[test]
fn refused_move_changes_nothing() {
    let mut game = Game::new();
    play(&mut game, &[("e2", "e4")]);
    let before = game.clone();
    assert_eq!(
        game.validate_and_make_move("d8", "d5", None),
        Err(MoveError::PieceInTheWay)
    );
    assert_eq!(game.field, before.field);
    assert_eq!(game.next_to_move, Color::BLACK);
    assert_eq!(game.can_castle, before.can_castle);
    assert_eq!(game.can_en_passant, before.can_en_passant);
    assert_eq!(game.previous_move, "e4");
}

#[test]
fn castling_rights_never_return() {
    let mut game = Game::new();
    play(
        &mut game,
        &[("e2", "e4"), ("e7", "e5"), ("e1", "e2"), ("b8", "c6"), ("e2", "e1")],
    );
    assert_eq!(game.previous_move, "Ke1");
    assert!(!game.can_castle.white_can_short_castle);
    assert!(!game.can_castle.white_can_long_castle);
    assert!(game.can_castle.black_can_short_castle);
    assert!(game.can_castle.black_can_long_castle);
}

#[test]
fn rook_move_takes_its_corner_right() {
    let mut game = Game::new();
    play(&mut game, &[("h2", "h4"), ("a7", "a5"), ("h1", "h3"), ("a8", "a6")]);
    assert_eq!(game.previous_move, "Ra6");
    assert!(!game.can_castle.white_can_short_castle);
    assert!(game.can_castle.white_can_long_castle);
    assert!(game.can_castle.black_can_short_castle);
    assert!(!game.can_castle.black_can_long_castle);
}

#[test]
fn each_error_has_its_input() {
    let game = Game::new();
    assert_eq!(game.validate_move("z9", "e4", None), Err(MoveError::InvalidSquare));
    assert_eq!(game.validate_move("e2", "e", None), Err(MoveError::InvalidSquare));
    assert_eq!(game.validate_move("e4", "e5", None), Err(MoveError::NoPieceSelected));
    assert_eq!(game.validate_move("e7", "e5", None), Err(MoveError::NoPieceSelected));
    assert_eq!(game.validate_move("b1", "b3", None), Err(MoveError::InvalidMove));
    assert_eq!(game.validate_move("a1", "a3", None), Err(MoveError::PieceInTheWay));
    assert_eq!(game.validate_move("g1", "e2", None), Err(MoveError::CaptureOwnPiece));
    assert_eq!(game.validate_move("e1", "g1", None), Err(MoveError::InvalidCastle));
    assert_eq!(game.validate_move("e2", "e5", None), Err(MoveError::InvalidMove));
    assert_eq!(game.validate_move("e2", "e4", None), Ok(()));
}

#[test]
fn fools_mate_ends_the_game() {
    let mut game = Game::new();
    assert!(game.has_legal_move());
    play(&mut game, &[("f2", "f3"), ("e7", "e5"), ("g2", "g4")]);
    assert_eq!(game.game_result, None);
    play(&mut game, &[("d8", "h4")]);
    assert!(game.is_in_check());
    assert!(!game.has_legal_move());
    assert_eq!(game.game_result, Some(GameResult::BlackWon));
}

#[test]
fn check_with_an_answer_does_not_end_the_game() {
    let mut game = Game::new();
    play(&mut game, &[("e2", "e4"), ("f7", "f6"), ("d1", "h5")]);
    assert!(game.is_in_check());
    assert!(game.has_legal_move());
    assert_eq!(game.game_result, None);
}

#[test]
fn decodes_squares() {
    assert_eq!(get_fields("e2", "e4"), Ok(((6, 4), (4, 4))));
    assert_eq!(get_fields("a8", "h1"), Ok(((0, 0), (7, 7))));
    assert_eq!(get_fields("i2", "e4"), Err(MoveError::InvalidSquare));
    assert_eq!(get_fields("e2", "e9"), Err(MoveError::InvalidSquare));
    assert_eq!(get_fields("e2", "e0"), Err(MoveError::InvalidSquare));
    assert_eq!(get_fields("e", "e4"), Err(MoveError::InvalidSquare));
    assert_eq!(parse_field("e2 "), Some((6, 4)));
}

#[test]
fn square_names_round_trip() {
    let files = ['a', 'b', 'c', 'd', 'e', 'f', 'g', 'h'];
    for row in 0..8usize {
        for col in 0..8usize {
            let name = square_name((row, col));
            let expected = format!("{}{}", files[col], 8 - row);
            assert_eq!(name, expected);
            assert_eq!(parse_field(&name), Some((row, col)));
        }
    }
}

#[test]
fn attackers_of_f3_in_the_opening() {
    let game = Game::new();
    let found = can_be_captured_by(Color::WHITE, (5, 5), &game);
    assert_eq!(
        found,
        vec![
            CapturePiece { row: 7, col: 6, piece: Piece::KNIGHT },
            CapturePiece { row: 6, col: 6, piece: Piece::PAWN },
            CapturePiece { row: 6, col: 4, piece: Piece::PAWN },
        ]
    );
    assert!(can_be_captured_by(Color::BLACK, (5, 5), &game).is_empty());
}

#[test]
fn attackers_along_lines() {
    let mut game = kings_only((7, 4), (0, 4));
    game.field[3][4] = piece(Piece::ROOK, Color::BLACK);
    game.field[4][1] = piece(Piece::BISHOP, Color::BLACK);
    game.field[6][3] = piece(Piece::PAWN, Color::BLACK);
    let found = can_be_captured_by(Color::BLACK, (7, 4), &game);
    assert_eq!(
        found,
        vec![
            CapturePiece { row: 6, col: 3, piece: Piece::PAWN },
            CapturePiece { row: 3, col: 4, piece: Piece::ROOK },
        ]
    );
}

#[test]
fn serializes_the_opening_board() {
    let game = Game::new();
    let grid = serialize_field(&game.field);
    assert_eq!(grid.len(), 8);
    assert_eq!(grid[0][0], "BR");
    assert_eq!(grid[0][4], "BK");
    assert_eq!(grid[1][3], "BP");
    assert_eq!(grid[3][3], "");
    assert_eq!(grid[6][0], "WP");
    assert_eq!(grid[7][3], "WQ");
    assert_eq!(grid[7][6], "WN");
}

#[test]
fn promotion_letters() {
    assert_eq!(promotion_piece('Q'), Some(Piece::QUEEN));
    assert_eq!(promotion_piece('N'), Some(Piece::KNIGHT));
    assert_eq!(promotion_piece('K'), Some(Piece::KING));
    assert_eq!(promotion_piece(' '), None);
}

#[test]
fn make_move_records_piece_letters() {
    let mut game = Game::new();
    game.make_move("g1", "f3", None);
    assert_eq!(game.previous_move, "Nf3");
    assert_eq!(game.next_to_move, Color::BLACK);
    game.make_move("b8", "c6", None);
    assert_eq!(game.previous_move, "Nc6");
    game.make_move("f3", "e5", None);
    game.make_move("c6", "e5", None);
    assert_eq!(game.previous_move, "Nxe5");
}

#[test]
fn new_games_have_distinct_ids() {
    let a = Game::new();
    let b = Game::new();
    assert_ne!(a.id, b.id);
}

#[test]
fn attackers_after_a_trial_move() {
    let game = Game::new();
    assert!(can_king_be_captured_after_move(&game, "e2", "e4", None).is_empty());

    let mut pinned = kings_only((7, 4), (0, 0));
    pinned.field[6][4] = piece(Piece::BISHOP, Color::WHITE);
    pinned.field[1][4] = piece(Piece::ROOK, Color::BLACK);
    assert_eq!(
        can_king_be_captured_after_move(&pinned, "e2", "d3", None),
        vec![CapturePiece { row: 1, col: 4, piece: Piece::ROOK }]
    );
    assert_eq!(pinned.field[6][4], piece(Piece::BISHOP, Color::WHITE));
    assert_eq!(pinned.previous_move, "");
}

#[test]
fn black_castles_long_and_promotes() {
    let mut game = kings_only((7, 7), (0, 4));
    game.field[0][0] = piece(Piece::ROOK, Color::BLACK);
    game.field[6][1] = piece(Piece::PAWN, Color::BLACK);
    game.can_castle.black_can_long_castle = true;
    game.next_to_move = Color::BLACK;
    assert_eq!(game.validate_and_make_move("e8", "c8", None), Ok(()));
    assert_eq!(game.previous_move, "0-0-0");
    assert_eq!(game.field[0][2], piece(Piece::KING, Color::BLACK));
    assert_eq!(game.field[0][3], piece(Piece::ROOK, Color::BLACK));
    assert_eq!(game.king_position.black_king_position, (0, 2));
    assert!(!game.can_castle.black_can_long_castle);
    play(&mut game, &[("h1", "h2")]);
    assert_eq!(game.previous_move, "Kh2");
    assert_eq!(
        game.validate_and_make_move("b2", "b1", Some(Piece::KNIGHT)),
        Ok(())
    );
    assert_eq!(game.field[7][1], piece(Piece::KNIGHT, Color::BLACK));
    assert_eq!(game.previous_move, "b1=");
}

#[test]
fn castling_needs_the_rook_in_its_corner() {
    let mut game = kings_only((7, 4), (0, 4));
    game.can_castle.white_can_short_castle = true;
    assert_eq!(
        game.validate_move("e1", "g1", None),
        Err(MoveError::InvalidCastle)
    );
    game.field[7][7] = piece(Piece::ROOK, Color::WHITE);
    assert_eq!(game.validate_move("e1", "g1", None), Ok(()));
}

#[test]
fn make_king_move_moves_only_the_castling_rook() {
    let mut field = Game::new().field;
    let before = field.clone();
    make_king_move((7, 4), (6, 4), &mut field);
    assert_eq!(field, before);
    make_king_move((7, 4), (7, 6), &mut field);
    assert_eq!(field[7][5], piece(Piece::ROOK, Color::WHITE));
    assert_eq!(field[7][7], None);
    assert_eq!(field[7][4], piece(Piece::KING, Color::WHITE));
    make_king_move((0, 4), (0, 2), &mut field);
    assert_eq!(field[0][3], piece(Piece::ROOK, Color::BLACK));
    assert_eq!(field[0][0], None);
}

#[test]
fn move_king_carries_king_and_rook() {
    let mut field = Game::new().field;
    field[7][5] = None;
    field[7][6] = None;
    move_king((7, 4), (7, 6), &mut field);
    assert_eq!(field[7][6], piece(Piece::KING, Color::WHITE));
    assert_eq!(field[7][5], piece(Piece::ROOK, Color::WHITE));
    assert_eq!(field[7][4], None);
    assert_eq!(field[7][7], None);
}

#[test]
fn make_pawn_move_leaves_an_ordinary_advance_alone() {
    let mut field = Game::new().field;
    let before = field.clone();
    assert_eq!(make_pawn_move((6, 4), (4, 4), ' ', &mut field), Ok(()));
    assert_eq!(field, before);
}

#[test]
fn make_pawn_move_clears_the_en_passant_square() {
    let mut field = Game::new().field;
    field[3][4] = piece(Piece::PAWN, Color::WHITE);
    field[3][3] = piece(Piece::PAWN, Color::BLACK);
    field[1][3] = None;
    assert_eq!(make_pawn_move((3, 4), (2, 3), ' ', &mut field), Ok(()));
    assert_eq!(field[3][3], None);
    assert_eq!(field[3][4], piece(Piece::PAWN, Color::WHITE));
    assert_eq!(field[2][3], None);
}

#[test]
fn make_pawn_move_promotes_the_piece_on_the_destination() {
    let mut field = Game::new().field;
    assert_eq!(make_pawn_move((1, 0), (0, 1), 'Q', &mut field), Ok(()));
    assert_eq!(field[0][1], piece(Piece::QUEEN, Color::BLACK));
    assert_eq!(field[1][0], piece(Piece::PAWN, Color::BLACK));
    let before = field.clone();
    assert_eq!(
        make_pawn_move((1, 0), (0, 1), 'x', &mut field),
        Err(MoveError::MissingPromotion)
    );
    assert_eq!(field, before);
}

#[test]
fn move_pawn_promotes_in_the_pawns_color() {
    let mut field = Game::new().field;
    field[1][0] = piece(Piece::PAWN, Color::WHITE);
    move_pawn((1, 0), (0, 1), Some(Piece::QUEEN), &mut field);
    assert_eq!(field[0][1], piece(Piece::QUEEN, Color::WHITE));
    assert_eq!(field[1][0], None);
}

#[test]
fn error_messages() {
    assert_eq!(MoveError::KingInCheck.message(), "Your king would be in check");
    assert_eq!(MoveError::InvalidSquare.message(), "Invalid field");
}

#[test]
fn captures_remove_exactly_one_piece() {
    fn count(game: &Game) -> usize {
        game.field.iter().flatten().filter(|s| s.is_some()).count()
    }
    let mut game = Game::new();
    assert_eq!(count(&game), 32);
    play(&mut game, &[("e2", "e4"), ("d7", "d5")]);
    assert_eq!(count(&game), 32);
    play(&mut game, &[("e4", "d5")]);
    assert_eq!(game.previous_move, "xd5");
    assert_eq!(count(&game), 31);
    play(&mut game, &[("c7", "c5"), ("d5", "c6")]);
    assert_eq!(game.previous_move, "xc6");
    assert_eq!(count(&game), 30);
}
