use chess::util::{format_fen, parse_fen, parse_san_move};
use chess::{Board, GameResult, Move, Position};

const B1: Position = Position { row: 0, col: 1 };
const C3: Position = Position { row: 2, col: 2 };
const C5: Position = Position { row: 4, col: 2 };
const C7: Position = Position { row: 6, col: 2 };
const D2: Position = Position { row: 1, col: 3 };
const D4: Position = Position { row: 3, col: 3 };
const D5: Position = Position { row: 4, col: 3 };
const D7: Position = Position { row: 6, col: 3 };
const E2: Position = Position { row: 1, col: 4 };
const E4: Position = Position { row: 3, col: 4 };
const F3: Position = Position { row: 2, col: 5 };
const G1: Position = Position { row: 0, col: 6 };

#[test]
fn test_fen() {
    let start = "rnbqkbnr/pppppppp/8/8/8/8/PPPPPPPP/RNBQKBNR w KQkq - 0 1";

    let board = Board::default();
    assert_eq!(format_fen(&board, 0, 1).unwrap(), String::from(start));

    let board = parse_fen(start).unwrap();
    assert_eq!(format_fen(&board, 0, 1).unwrap(), String::from(start));

    let board = match board.play_move(Move::Piece(E2, E4)) {
        GameResult::Continuing(board) => board,
        _ => panic!("e4 failed"),
    };
    assert_eq!(
        format_fen(&board, 0, 1).unwrap(),
        "rnbqkbnr/pppppppp/8/8/4P3/8/PPPP1PPP/RNBQKBNR b KQkq e3 0 1".to_string()
    );

    let board = match board.play_move(Move::Piece(C7, C5)) {
        GameResult::Continuing(board) => board,
        _ => panic!("c5 failed"),
    };
    assert_eq!(
        format_fen(&board, 0, 2).unwrap(),
        "rnbqkbnr/pp1ppppp/8/2p5/4P3/8/PPPP1PPP/RNBQKBNR w KQkq c6 0 2".to_string()
    );

    let board = match board.play_move(Move::Piece(G1, F3)) {
        GameResult::Continuing(board) => board,
        _ => panic!("Nf3 failed"),
    };
    assert_eq!(
        format_fen(&board, 1, 2).unwrap(),
        "rnbqkbnr/pp1ppppp/8/2p5/4P3/5N2/PPPP1PPP/RNBQKB1R b KQkq - 1 2".to_string()
    )
}

#[test]
fn test_parse_san_move() {
    let mut board = Board::default();

    // try valid moves from starting position
    assert_eq!(
        parse_san_move(&board, "d4").expect("d4"),
        Move::Piece(D2, D4)
    );
    assert_eq!(
        parse_san_move(&board, "Nc3").expect("Nc3"),
        Move::Piece(B1, C3)
    );
    // not valid first move for white
    assert_eq!(
        parse_san_move(&board, "d5").expect_err("d5"),
        "no matching move".to_string()
    );

    // make first move
    board = match board.play_move(Move::Piece(E2, E4)) {
        GameResult::Continuing(board) => board,
        e => panic!("unexpected error: {:?}", e),
    };
    // valid first move for black
    assert_eq!(
        parse_san_move(&board, "d5").expect("d5"),
        Move::Piece(D7, D5)
    );
    // white moves not valid for black
    assert_eq!(
        parse_san_move(&board, "c4").expect_err("c4"),
        "no matching move".to_string()
    );
}
