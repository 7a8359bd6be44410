use chess::{Board, Evaluate, GameResult, Move, Position};

#[test]
fn start_position_has_twenty_moves() {
    let board = Board::default();
    assert_eq!(board.get_legal_moves().len(), 20);
}

#[test]
fn twenty_replies_to_the_kings_pawn() {
    let board = Board::default();
    let board = match board.play_move(Move::Piece(Position::new(1, 4), Position::new(3, 4))) {
        GameResult::Continuing(board) => board,
        other => panic!("unexpected result: {:?}", other),
    };
    assert_eq!(board.get_legal_moves().len(), 20);
}
