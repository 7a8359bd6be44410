use chess::util::{parse_san_move, resolve_san, split_san, SanParts};
use chess::{Board, BoardBuilder, Color, Move, Piece, Position};

fn nowhere() -> Position {
    Position::new(-1, -1)
}

#[test]
fn castles_are_read_whatever_the_board() {
    let board = Board::default();
    assert_eq!(parse_san_move(&board, "0-0"), Ok(Move::KingSideCastle));
    assert_eq!(parse_san_move(&board, "0-0-0"), Ok(Move::QueenSideCastle));
}

#[test]
fn what_a_move_text_says() {
    let chars: Vec<char> = "Nbd7".chars().collect();
    assert_eq!(
        split_san(&chars, Color::Black),
        SanParts {
            promotion: None,
            target_file: 'd',
            target_rank: '7',
            piece: Piece::Knight(Color::Black, nowhere()),
            column: Some(1),
            row: None,
        }
    );
    let chars: Vec<char> = "R1xa3".chars().collect();
    assert_eq!(
        split_san(&chars, Color::White),
        SanParts {
            promotion: None,
            target_file: 'a',
            target_rank: '3',
            piece: Piece::Rook(Color::White, nowhere()),
            column: None,
            row: Some(0),
        }
    );
    let chars: Vec<char> = "Qh4e1".chars().collect();
    assert_eq!(
        split_san(&chars, Color::White),
        SanParts {
            promotion: None,
            target_file: 'e',
            target_rank: '1',
            piece: Piece::Queen(Color::White, nowhere()),
            column: Some(7),
            row: Some(3),
        }
    );
    let chars: Vec<char> = "bxc8R".chars().collect();
    assert_eq!(
        split_san(&chars, Color::White),
        SanParts {
            promotion: Some(Piece::Rook(Color::White, nowhere())),
            target_file: 'c',
            target_rank: '8',
            piece: Piece::Pawn(Color::White, nowhere()),
            column: Some(1),
            row: None,
        }
    );
    let chars: Vec<char> = "".chars().collect();
    assert_eq!(
        split_san(&chars, Color::White),
        SanParts {
            promotion: None,
            target_file: ' ',
            target_rank: ' ',
            piece: Piece::Pawn(Color::White, nowhere()),
            column: None,
            row: None,
        }
    );
}

#[test]
fn moves_that_cannot_be_read() {
    let board = Board::default();
    assert_eq!(parse_san_move(&board, ""), Err("invalid to position".to_string()));
    assert_eq!(parse_san_move(&board, "4"), Err("invalid to position".to_string()));
    assert_eq!(parse_san_move(&board, "Nz3"), Err("invalid to position".to_string()));
    assert_eq!(parse_san_move(&board, "e4+"), Err("invalid to position".to_string()));
    assert_eq!(parse_san_move(&board, "e5"), Err("no matching move".to_string()));
    assert_eq!(parse_san_move(&board, "Ne4"), Err("no matching move".to_string()));
    assert_eq!(parse_san_move(&board, "Bc4"), Err("no matching move".to_string()));
}

#[test]
fn two_pieces_that_reach_one_square() {
    let board = BoardBuilder::default()
        .piece(Piece::King(Color::White, Position::new(0, 4)))
        .piece(Piece::King(Color::Black, Position::new(7, 4)))
        .piece(Piece::Knight(Color::White, Position::new(0, 1)))
        .piece(Piece::Knight(Color::White, Position::new(2, 5)))
        .piece(Piece::Rook(Color::White, Position::new(3, 0)))
        .piece(Piece::Rook(Color::White, Position::new(5, 0)))
        .build();
    let d2 = Position::new(1, 3);
    assert_eq!(parse_san_move(&board, "Nd2"), Err("ambiguous move".to_string()));
    assert_eq!(
        parse_san_move(&board, "Nbd2"),
        Ok(Move::Piece(Position::new(0, 1), d2))
    );
    assert_eq!(
        parse_san_move(&board, "Nfd2"),
        Ok(Move::Piece(Position::new(2, 5), d2))
    );
    assert_eq!(
        parse_san_move(&board, "N3d2"),
        Ok(Move::Piece(Position::new(2, 5), d2))
    );
    assert_eq!(
        parse_san_move(&board, "Nf3d2"),
        Ok(Move::Piece(Position::new(2, 5), d2))
    );
    let a5 = Position::new(4, 0);
    assert_eq!(parse_san_move(&board, "Ra5"), Err("ambiguous move".to_string()));
    assert_eq!(
        parse_san_move(&board, "R4a5"),
        Ok(Move::Piece(Position::new(3, 0), a5))
    );
    assert_eq!(
        parse_san_move(&board, "R6a5"),
        Ok(Move::Piece(Position::new(5, 0), a5))
    );
    assert_eq!(parse_san_move(&board, "Raa5"), Err("ambiguous move".to_string()));
}

#[test]
fn a_move_found_from_its_parts() {
    let board = Board::default();
    let parts = SanParts {
        promotion: None,
        target_file: 'f',
        target_rank: '3',
        piece: Piece::Knight(Color::White, nowhere()),
        column: None,
        row: None,
    };
    assert_eq!(
        resolve_san(&board, parts, Position::new(2, 5)),
        Ok(Move::Piece(Position::new(0, 6), Position::new(2, 5)))
    );
    assert_eq!(
        resolve_san(&board, parts, Position::new(3, 5)),
        Err("no matching move".to_string())
    );
}

#[test]
fn a_promotion_in_a_move_text() {
    let board = BoardBuilder::default()
        .piece(Piece::King(Color::White, Position::new(0, 4)))
        .piece(Piece::King(Color::Black, Position::new(7, 7)))
        .piece(Piece::Pawn(Color::White, Position::new(6, 0)))
        .build();
    assert_eq!(
        parse_san_move(&board, "a8N"),
        Ok(Move::Promotion(
            Position::new(6, 0),
            Position::new(7, 0),
            Piece::Knight(Color::White, nowhere())
        ))
    );
    assert_eq!(
        parse_san_move(&board, "a8"),
        Ok(Move::Piece(Position::new(6, 0), Position::new(7, 0)))
    );
}

#[test]
fn the_target_square_is_read_in_either_case() {
    let board = Board::default();
    assert_eq!(
        parse_san_move(&board, "E4"),
        Ok(Move::Piece(Position::new(1, 4), Position::new(3, 4)))
    );
}
