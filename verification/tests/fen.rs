use chess::util::{format_fen, parse_fen};
use chess::{
    Board, BoardBuilder, CastlingRights, Color, Evaluate, GameResult, Move, Piece, Position,
};

#[test]
fn a_position_read_from_text() {
    let board = parse_fen("r3k2r/8/8/3pP3/8/8/8/R3K2R b Kq d6 4 20").unwrap();
    assert_eq!(board.get_turn_color(), Color::Black);
    assert_eq!(board.get_en_passant(), Some(Position::new(5, 3)));
    assert_eq!(
        board.get_castling_rights(Color::White),
        CastlingRights { kingside: true, queenside: false }
    );
    assert_eq!(
        board.get_castling_rights(Color::Black),
        CastlingRights { kingside: false, queenside: true }
    );
    assert_eq!(
        board.get_piece(Position::new(7, 0)),
        Some(Piece::Rook(Color::Black, Position::new(7, 0)))
    );
    assert_eq!(
        board.get_piece(Position::new(4, 4)),
        Some(Piece::Pawn(Color::White, Position::new(4, 4)))
    );
    assert_eq!(
        board.get_piece(Position::new(4, 3)),
        Some(Piece::Pawn(Color::Black, Position::new(4, 3)))
    );
    assert_eq!(
        board.get_piece(Position::new(0, 4)),
        Some(Piece::King(Color::White, Position::new(0, 4)))
    );
    assert_eq!(board.get_piece(Position::new(3, 3)), None);
}

#[test]
fn a_position_written_as_text() {
    let board = BoardBuilder::default()
        .piece(Piece::King(Color::White, Position::new(0, 4)))
        .piece(Piece::King(Color::Black, Position::new(7, 4)))
        .piece(Piece::Queen(Color::Black, Position::new(3, 0)))
        .piece(Piece::Knight(Color::White, Position::new(3, 7)))
        .piece(Piece::Bishop(Color::White, Position::new(3, 3)))
        .set_turn(Color::Black)
        .enable_queenside_castle(Color::Black)
        .build();
    assert_eq!(
        format_fen(&board, 12, 34),
        Ok("4k3/8/8/8/q2B3N/8/8/4K3 b q - 12 34".to_string())
    );
    let none = BoardBuilder::default().build();
    assert_eq!(format_fen(&none, 255, 0), Ok("8/8/8/8/8/8/8/8 w - - 255 0".to_string()));
}

#[test]
fn the_counters_may_be_left_out() {
    let four = parse_fen("8/8/8/8/8/8/8/8 w - -").unwrap();
    let five = parse_fen("8/8/8/8/8/8/8/8 w - - 3").unwrap();
    let six = parse_fen("8/8/8/8/8/8/8/8 w - - 3 9").unwrap();
    assert_eq!(four, BoardBuilder::default().build());
    assert_eq!(five, four);
    assert_eq!(six, four);
    let spaced = parse_fen("  8/8/8/8/8/8/8/8 \t w\n-   - ").unwrap();
    assert_eq!(spaced, four);
}

#[test]
fn text_with_too_few_or_too_many_fields() {
    let expected = Err("wrong number of spaces".to_string());
    assert_eq!(parse_fen(""), expected);
    assert_eq!(parse_fen("8/8/8/8/8/8/8/8 w -"), expected);
    assert_eq!(parse_fen("8/8/8/8/8/8/8/8 w - - 0 1 x"), expected);
}

#[test]
fn placements_that_are_refused() {
    assert_eq!(
        parse_fen("rnbqkbnrr/8/8/8/8/8/8/8 w - - 0 1"),
        Err("too many pieces".to_string())
    );
    assert_eq!(
        parse_fen("8/8/8/8/8/8/8/8/8 w - - 0 1"),
        Err("too many pieces".to_string())
    );
    assert_eq!(
        parse_fen("8/8/8/8/8/8/8/7x w - - 0 1"),
        Err("unexpected piece".to_string())
    );
    assert_eq!(
        parse_fen("8/8/8/8/8/8/8/7é w - - 0 1"),
        Err("unexpected piece".to_string())
    );
    assert_eq!(
        parse_fen("7/8/8/8/8/8/8/8 w - - 0 1"),
        Err("incomplete row".to_string())
    );
    assert_eq!(
        parse_fen("8/8/8/8/8/8/7 w - - 0 1"),
        Err("incomplete position".to_string())
    );
    assert_eq!(
        parse_fen("8/8/8/8/8/8/8/7٣ w - - 0 1"),
        Err("unexpected digit".to_string())
    );
}

#[test]
fn placements_that_are_let_through() {
    // a short last rank, and marks that are neither letters nor numbers
    let short = parse_fen("8/8/8/8/8/8/8/4K w - - 0 1").unwrap();
    assert_eq!(
        short.get_piece(Position::new(0, 4)),
        Some(Piece::King(Color::White, Position::new(0, 4)))
    );
    let marks = parse_fen("8/8/8/8/8/8/8/!4K+3 w - - 0 1").unwrap();
    assert_eq!(marks, parse_fen("8/8/8/8/8/8/8/4K3 w - - 0 1").unwrap());
    // but nothing at all is read past the end of a rank
    assert_eq!(
        parse_fen("8/8/8/8/8/8/8/4K3! w - - 0 1"),
        Err("too many pieces".to_string())
    );
}

#[test]
fn other_fields_that_are_refused() {
    assert_eq!(
        parse_fen("8/8/8/8/8/8/8/8 white - - 0 1"),
        Err("invalid active color".to_string())
    );
    assert_eq!(
        parse_fen("8/8/8/8/8/8/8/8 W - - 0 1"),
        Err("invalid active color".to_string())
    );
    assert_eq!(
        parse_fen("8/8/8/8/8/8/8/8 w KX - 0 1"),
        Err("invalid castling side".to_string())
    );
    assert_eq!(
        parse_fen("8/8/8/8/8/8/8/8 w -- - 0 1"),
        Err("invalid castling side".to_string())
    );
    assert_eq!(
        parse_fen("8/8/8/8/8/8/8/8 w - z9 0 1"),
        Err("invalid en passant".to_string())
    );
    assert_eq!(
        parse_fen("8/8/8/8/8/8/8/8 w - e 0 1"),
        Err("invalid en passant".to_string())
    );
}

#[test]
fn the_en_passant_target_is_read_in_either_case() {
    let board = parse_fen("8/8/8/8/8/8/8/8 w - E3 0 1").unwrap();
    assert_eq!(board.get_en_passant(), Some(Position::new(2, 4)));
}

#[test]
fn text_written_and_read_back_is_the_same_position() {
    let mut board = Board::default();
    let line = [
        ((1, 4), (3, 4)),
        ((6, 2), (4, 2)),
        ((0, 6), (2, 5)),
        ((6, 3), (5, 3)),
        ((0, 5), (4, 1)),
        ((7, 2), (6, 3)),
        ((0, 4), (0, 5)),
        ((6, 0), (4, 0)),
    ];
    for (from, to) in line {
        let text = format_fen(&board, 0, 1).unwrap();
        let read = parse_fen(&text).unwrap();
        assert_eq!(read, board);
        assert_eq!(read.get_legal_moves(), board.get_legal_moves());
        assert_eq!(format_fen(&read, 0, 1).unwrap(), text);
        let m = Move::Piece(Position::new(from.0, from.1), Position::new(to.0, to.1));
        board = match board.play_move(m) {
            GameResult::Continuing(next) => next,
            other => panic!("{:?} gave {:?}", m, other),
        };
    }
    assert_eq!(
        format_fen(&board, 1, 5),
        Ok("rn1qkbnr/1p1bpppp/3p4/pBp5/4P3/5N2/PPPP1PPP/RNBQ1K1R w kq a6 1 5".to_string())
    );
}
