use chess::game::{Game, GameAction, GameOver};
use chess::{Color, Piece, Position};

#[test]
fn test_game_moves() {
    let mut game = Game::default();
    let game_moves = vec!["d4", "d5", "c4", "dxc4", "e3", "Nf6", "Bxc4"];
    for game_move in game_moves {
        game.make_move(&GameAction::from(game_move))
            .expect(game_move);
    }
    assert_eq!(game.status, None);
}

#[test]
fn test_fools_mate() {
    let mut game = Game::default();
    let game_moves = vec!["f3", "e5", "g4", "Qh4"];
    for game_move in game_moves {
        game.make_move(&GameAction::from(game_move))
            .expect(game_move);
    }
    assert_eq!(game.status, Some(GameOver::BlackCheckmates));
}

#[test]
fn test_promotion() {
    let mut game = Game::default();
    let game_moves = vec![
        "e4", "d5", "exd5", "Nf6", "Bb5", "c6", "dxc6", "Qb6", "cxb7", "Qxb5",
        // bxc8Q is checkmate, but want to test non-queen promotion
        "bxc8R",
    ];
    for game_move in game_moves {
        game.make_move(&GameAction::from(game_move))
            .expect(game_move);
    }
    assert_eq!(game.status, None);
    assert_eq!(
        game.board.get_piece(Position::pgn("c8").unwrap()),
        Some(Piece::Rook(Color::White, Position::pgn("c8").unwrap()))
    )
}
