use chess::{
    Board, BoardBuilder, CastlingRights, Color, Evaluate, GameResult, Move, Piece, Position,
};

fn play(board: &Board, from: (i32, i32), to: (i32, i32)) -> Board {
    let m = Move::Piece(Position::new(from.0, from.1), Position::new(to.0, to.1));
    match board.play_move(m) {
        GameResult::Continuing(next) => next,
        other => panic!("{:?} gave {:?}", m, other),
    }
}

#[test]
fn the_starting_position() {
    let board = Board::default();
    assert_eq!(board.get_turn_color(), Color::White);
    assert_eq!(board.get_en_passant(), None);
    assert_eq!(
        board.get_castling_rights(Color::White),
        CastlingRights { kingside: true, queenside: true }
    );
    assert_eq!(board.get_castling_rights(Color::Black), CastlingRights::default());
    assert_eq!(
        board.get_piece(Position::new(0, 4)),
        Some(Piece::King(Color::White, Position::new(0, 4)))
    );
    assert_eq!(
        board.get_piece(Position::new(0, 5)),
        Some(Piece::Bishop(Color::White, Position::new(0, 5)))
    );
    assert_eq!(
        board.get_piece(Position::new(7, 3)),
        Some(Piece::Queen(Color::Black, Position::new(7, 3)))
    );
    assert_eq!(
        board.get_piece(Position::new(6, 0)),
        Some(Piece::Pawn(Color::Black, Position::new(6, 0)))
    );
    assert_eq!(board.get_piece(Position::new(3, 3)), None);
    for row in 0..8 {
        for col in 0..8 {
            let pos = Position::new(row, col);
            if let Some(piece) = board.get_piece(pos) {
                assert_eq!(piece.get_pos(), pos);
            }
            assert_eq!(board.has_piece(pos), row < 2 || row > 5);
        }
    }
}

#[test]
fn nothing_stands_off_the_board() {
    let board = Board::default();
    assert_eq!(board.get_piece(Position::new(-1, 0)), None);
    assert_eq!(board.get_piece(Position::new(0, 8)), None);
    assert!(!board.has_piece(Position::new(8, 8)));
    assert!(board.has_no_piece(Position::new(8, 8)));
    assert!(!board.has_ally_piece(Position::new(-1, -1), Color::White));
    assert!(!board.has_enemy_piece(Position::new(-1, -1), Color::White));
}

#[test]
fn whose_piece_stands_where() {
    let board = Board::default();
    assert!(board.has_ally_piece(Position::new(0, 0), Color::White));
    assert!(!board.has_ally_piece(Position::new(0, 0), Color::Black));
    assert!(board.has_enemy_piece(Position::new(0, 0), Color::Black));
    assert!(!board.has_enemy_piece(Position::new(0, 0), Color::White));
    assert!(!board.has_ally_piece(Position::new(4, 4), Color::White));
    assert!(!board.has_enemy_piece(Position::new(4, 4), Color::White));
    assert!(board.has_no_piece(Position::new(4, 4)));
}

#[test]
fn where_the_kings_stand() {
    let board = Board::default();
    assert_eq!(board.get_king_pos(Color::White), Position::new(0, 4));
    assert_eq!(board.get_king_pos(Color::Black), Position::new(7, 4));
    let moved = BoardBuilder::default()
        .piece(Piece::King(Color::White, Position::new(3, 6)))
        .build();
    assert_eq!(moved.get_king_pos(Color::White), Position::new(3, 6));
    // with no king the starting square is given
    assert_eq!(moved.get_king_pos(Color::Black), Position::new(7, 4));
}

#[test]
fn material_at_the_start_is_even() {
    let board = Board::default();
    assert_eq!(board.get_material_advantage(Color::White), 0);
    assert_eq!(board.get_material_advantage(Color::Black), 0);
    assert_eq!(board.material_value_for(Color::White), 0);
    assert_eq!(board.material_value_for(Color::Black), 0);
}

#[test]
fn material_counts_for_and_against() {
    let board = BoardBuilder::default()
        .piece(Piece::Queen(Color::White, Position::new(0, 3)))
        .piece(Piece::Rook(Color::Black, Position::new(7, 0)))
        .piece(Piece::Pawn(Color::Black, Position::new(6, 0)))
        .build();
    assert_eq!(board.get_material_advantage(Color::White), 3);
    assert_eq!(board.get_material_advantage(Color::Black), -3);
    // queen on d1: 179; rook on a8: 100; pawn on a7: 21 (half points)
    assert_eq!(board.material_value_for(Color::White), 179 - 100 - 21);
    assert_eq!(board.material_value_for(Color::Black), 100 + 21 - 179);
}

#[test]
fn turns() {
    let board = Board::default();
    assert_eq!(board.change_turn().get_turn_color(), Color::Black);
    assert_eq!(board.change_turn().change_turn(), board);
    assert_eq!(board.set_turn(Color::Black).get_turn_color(), Color::Black);
    assert_eq!(board.set_turn(Color::White), board);
    assert_eq!(board.get_current_player_color(), Color::White);
    assert_eq!(!Color::White, Color::Black);
    assert_eq!(Color::Black.other(), Color::White);
    assert_eq!(Color::White.to_string(), "White");
    assert_eq!(Color::Black.to_string(), "Black");
}

#[test]
fn moving_a_piece() {
    let board = Board::default();
    let moved = board.move_piece(Position::new(1, 4), Position::new(3, 4));
    assert_eq!(moved.get_piece(Position::new(1, 4)), None);
    assert_eq!(
        moved.get_piece(Position::new(3, 4)),
        Some(Piece::Pawn(Color::White, Position::new(3, 4)))
    );
    // the turn stays
    assert_eq!(moved.get_turn_color(), Color::White);
    // the board that was moved on is as it was
    assert_eq!(board, Board::default());
}

#[test]
fn moving_from_or_to_nowhere_changes_nothing() {
    let board = Board::default();
    assert_eq!(board.move_piece(Position::new(-1, 0), Position::new(3, 4)), board);
    assert_eq!(board.move_piece(Position::new(1, 4), Position::new(8, 4)), board);
    assert_eq!(board.move_piece(Position::new(4, 4), Position::new(5, 4)), board);
}

#[test]
fn a_double_step_leaves_an_en_passant_target() {
    let board = Board::default();
    let after = board.move_piece(Position::new(1, 4), Position::new(3, 4));
    assert_eq!(after.get_en_passant(), Some(Position::new(2, 4)));
    let black = after.move_piece(Position::new(6, 2), Position::new(4, 2));
    assert_eq!(black.get_en_passant(), Some(Position::new(5, 2)));
    let single = black.move_piece(Position::new(1, 0), Position::new(2, 0));
    assert_eq!(single.get_en_passant(), None);
}

#[test]
fn the_en_passant_target_gives_no_capture() {
    // after 1. e4 a6 2. e5 d5 the pawn on e5 may not take on d6
    let board = Board::default();
    let board = play(&board, (1, 4), (3, 4));
    let board = play(&board, (6, 0), (5, 0));
    let board = play(&board, (3, 4), (4, 4));
    let board = play(&board, (6, 3), (4, 3));
    assert_eq!(board.get_en_passant(), Some(Position::new(5, 3)));
    let capture = Move::Piece(Position::new(4, 4), Position::new(5, 3));
    assert!(!board.is_legal_move(capture, Color::White));
    assert!(!board.get_legal_moves().contains(&capture));
    assert_eq!(board.play_move(capture), GameResult::IllegalMove(capture));
}

#[test]
fn a_pawn_on_the_last_rank_becomes_a_queen() {
    let board = BoardBuilder::default()
        .piece(Piece::Pawn(Color::White, Position::new(6, 0)))
        .piece(Piece::Pawn(Color::Black, Position::new(1, 7)))
        .build();
    let white = board.move_piece(Position::new(6, 0), Position::new(7, 0));
    assert_eq!(
        white.get_piece(Position::new(7, 0)),
        Some(Piece::Queen(Color::White, Position::new(7, 0)))
    );
    let black = board.move_piece(Position::new(1, 7), Position::new(0, 7));
    assert_eq!(
        black.get_piece(Position::new(0, 7)),
        Some(Piece::Queen(Color::Black, Position::new(0, 7)))
    );
}

#[test]
fn a_promotion_names_the_new_piece() {
    let board = BoardBuilder::default()
        .piece(Piece::King(Color::White, Position::new(0, 4)))
        .piece(Piece::King(Color::Black, Position::new(7, 7)))
        .piece(Piece::Pawn(Color::White, Position::new(6, 0)))
        .build();
    let from = Position::new(6, 0);
    let to = Position::new(7, 0);
    let nowhere = Position::new(-1, -1);
    let knight = Move::Promotion(from, to, Piece::Knight(Color::Black, nowhere));
    assert!(board.is_legal_move(knight, Color::White));
    assert_eq!(
        board.apply_move(knight).get_piece(to),
        Some(Piece::Knight(Color::White, to))
    );
    // a pawn becomes neither a king nor a pawn
    let king = Move::Promotion(from, to, Piece::King(Color::White, nowhere));
    assert_eq!(board.apply_move(king).get_piece(to), Some(Piece::Queen(Color::White, to)));
    let pawn = Move::Promotion(from, to, Piece::Pawn(Color::White, nowhere));
    assert_eq!(board.apply_move(pawn).get_piece(to), Some(Piece::Queen(Color::White, to)));
    // only a pawn is promoted, and only on the last rank
    let early = BoardBuilder::default()
        .piece(Piece::King(Color::White, Position::new(0, 4)))
        .piece(Piece::King(Color::Black, Position::new(7, 7)))
        .piece(Piece::Pawn(Color::White, Position::new(1, 0)))
        .piece(Piece::Rook(Color::White, Position::new(6, 1)))
        .build();
    let rook = Piece::Rook(Color::White, nowhere);
    let too_early = Move::Promotion(Position::new(1, 0), Position::new(2, 0), rook);
    assert!(!early.is_legal_move(too_early, Color::White));
    assert_eq!(early.play_move(too_early), GameResult::IllegalMove(too_early));
    let no_pawn = Move::Promotion(Position::new(6, 1), Position::new(7, 1), rook);
    assert!(!early.is_legal_move(no_pawn, Color::White));
}

#[test]
fn threats() {
    let board = Board::default();
    // e3 is covered by white pawns, e6 by black ones
    assert!(board.is_threatened(Position::new(2, 4), Color::Black));
    assert!(!board.is_threatened(Position::new(2, 4), Color::White));
    assert!(board.is_threatened(Position::new(5, 4), Color::White));
    assert!(!board.is_threatened(Position::new(4, 4), Color::White));
    assert!(!board.is_threatened(Position::new(9, 9), Color::White));
    assert!(!board.is_in_check(Color::White));
    assert!(!board.is_in_check(Color::Black));
}

#[test]
fn check_from_a_rook() {
    let board = BoardBuilder::default()
        .piece(Piece::King(Color::White, Position::new(0, 4)))
        .piece(Piece::King(Color::Black, Position::new(7, 0)))
        .piece(Piece::Rook(Color::Black, Position::new(5, 4)))
        .build();
    assert!(board.is_in_check(Color::White));
    assert!(!board.is_in_check(Color::Black));
    let covered = BoardBuilder::default()
        .piece(Piece::King(Color::White, Position::new(0, 4)))
        .piece(Piece::King(Color::Black, Position::new(7, 0)))
        .piece(Piece::Rook(Color::Black, Position::new(5, 4)))
        .piece(Piece::Bishop(Color::White, Position::new(2, 4)))
        .build();
    assert!(!covered.is_in_check(Color::White));
}

#[test]
fn a_pinned_piece_may_not_leave_the_line() {
    let board = BoardBuilder::default()
        .piece(Piece::King(Color::White, Position::new(0, 4)))
        .piece(Piece::King(Color::Black, Position::new(7, 0)))
        .piece(Piece::Rook(Color::Black, Position::new(5, 4)))
        .piece(Piece::Bishop(Color::White, Position::new(2, 4)))
        .build();
    let bishop = Piece::Bishop(Color::White, Position::new(2, 4));
    // as the bishop moves, d4 is fine
    assert!(bishop.is_legal_move(Position::new(3, 3), &board));
    // but the move leaves the king in check
    let away = Move::Piece(Position::new(2, 4), Position::new(3, 3));
    assert!(board.apply_move(away).is_in_check(Color::White));
    assert!(!board.is_legal_move(away, Color::White));
    assert!(bishop.get_legal_moves(&board).is_empty());
    assert_eq!(board.play_move(away), GameResult::IllegalMove(away));
}

#[test]
fn no_legal_move_leaves_the_mover_in_check() {
    let board = BoardBuilder::default()
        .piece(Piece::King(Color::White, Position::new(0, 4)))
        .piece(Piece::Queen(Color::White, Position::new(1, 4)))
        .piece(Piece::Knight(Color::White, Position::new(0, 1)))
        .piece(Piece::King(Color::Black, Position::new(7, 0)))
        .piece(Piece::Rook(Color::Black, Position::new(5, 4)))
        .piece(Piece::Bishop(Color::Black, Position::new(3, 1)))
        .build();
    let moves = board.get_legal_moves();
    assert!(!moves.is_empty());
    for m in moves {
        assert!(board.is_legal_move(m, Color::White));
        assert!(!board.apply_move(m).is_in_check(Color::White));
    }
}

#[test]
fn a_move_that_is_not_legal_is_handed_back() {
    let board = Board::default();
    let legal = board.get_legal_moves();
    let mut refused = 0;
    for row in 0..8 {
        for col in 0..8 {
            let m = Move::Piece(Position::new(1, 4), Position::new(row, col));
            if legal.contains(&m) {
                assert!(matches!(board.play_move(m), GameResult::Continuing(_)));
            } else {
                assert_eq!(board.play_move(m), GameResult::IllegalMove(m));
                refused += 1;
            }
        }
    }
    assert_eq!(refused, 62);
    assert_eq!(
        board.play_move(Move::KingSideCastle),
        GameResult::IllegalMove(Move::KingSideCastle)
    );
    assert_eq!(
        board.play_move(Move::QueenSideCastle),
        GameResult::IllegalMove(Move::QueenSideCastle)
    );
    // the other side's pieces do not move
    let black = Move::Piece(Position::new(6, 4), Position::new(4, 4));
    assert_eq!(board.play_move(black), GameResult::IllegalMove(black));
    // and the board is as it was
    assert_eq!(board, Board::default());
}

#[test]
fn playing_a_move_gives_the_turn_to_the_other_side() {
    let board = Board::default();
    let next = play(&board, (1, 4), (3, 4));
    assert_eq!(next.get_turn_color(), Color::Black);
    assert_eq!(
        next.get_piece(Position::new(3, 4)),
        Some(Piece::Pawn(Color::White, Position::new(3, 4)))
    );
    assert_eq!(board.get_turn_color(), Color::White);
}

#[test]
fn the_fools_mate_on_the_board() {
    let board = Board::default();
    let board = play(&board, (1, 5), (2, 5));
    let board = play(&board, (6, 4), (4, 4));
    let board = play(&board, (1, 6), (3, 6));
    let mate = Move::Piece(Position::new(7, 3), Position::new(3, 7));
    assert_eq!(board.play_move(mate), GameResult::Victory(Color::Black));
}

#[test]
fn a_stalemate() {
    // the queen goes from b1 to b6 and leaves the king on a8 no square
    let board = BoardBuilder::default()
        .piece(Piece::King(Color::Black, Position::new(7, 0)))
        .piece(Piece::King(Color::White, Position::new(0, 7)))
        .piece(Piece::Queen(Color::White, Position::new(0, 1)))
        .set_turn(Color::White)
        .build();
    let m = Move::Piece(Position::new(0, 1), Position::new(5, 1));
    assert_eq!(board.play_move(m), GameResult::Stalemate);
    // a queen that goes to a7 beside its king gives mate
    let mate = BoardBuilder::default()
        .piece(Piece::King(Color::Black, Position::new(7, 0)))
        .piece(Piece::King(Color::White, Position::new(5, 1)))
        .piece(Piece::Queen(Color::White, Position::new(6, 7)))
        .set_turn(Color::White)
        .build();
    let m = Move::Piece(Position::new(6, 7), Position::new(6, 6));
    assert!(matches!(mate.play_move(m), GameResult::Continuing(_)));
    let m = Move::Piece(Position::new(6, 7), Position::new(6, 0));
    assert_eq!(mate.play_move(m), GameResult::Victory(Color::White));
}

#[test]
fn castling_on_the_kings_side() {
    let board = BoardBuilder::default()
        .piece(Piece::King(Color::White, Position::new(0, 4)))
        .piece(Piece::Rook(Color::White, Position::new(0, 7)))
        .piece(Piece::Rook(Color::White, Position::new(0, 0)))
        .piece(Piece::King(Color::Black, Position::new(7, 4)))
        .piece(Piece::Rook(Color::Black, Position::new(7, 7)))
        .piece(Piece::Pawn(Color::Black, Position::new(6, 5)))
        .enable_kingside_castle(Color::White)
        .enable_queenside_castle(Color::White)
        .enable_kingside_castle(Color::Black)
        .build();
    assert!(board.can_kingside_castle(Color::White));
    assert!(board.can_queenside_castle(Color::White));
    assert!(board.can_kingside_castle(Color::Black));
    assert!(!board.can_queenside_castle(Color::Black));
    assert!(board.is_legal_move(Move::KingSideCastle, Color::White));
    let moves = board.get_legal_moves();
    assert!(moves.contains(&Move::KingSideCastle));
    assert!(moves.contains(&Move::QueenSideCastle));
    let castled = match board.play_move(Move::KingSideCastle) {
        GameResult::Continuing(next) => next,
        other => panic!("castling gave {:?}", other),
    };
    assert_eq!(
        castled.get_piece(Position::new(0, 6)),
        Some(Piece::King(Color::White, Position::new(0, 6)))
    );
    assert_eq!(
        castled.get_piece(Position::new(0, 5)),
        Some(Piece::Rook(Color::White, Position::new(0, 5)))
    );
    assert_eq!(castled.get_piece(Position::new(0, 4)), None);
    assert_eq!(castled.get_piece(Position::new(0, 7)), None);
    assert_eq!(
        castled.get_castling_rights(Color::White),
        CastlingRights { kingside: false, queenside: false }
    );
    assert_eq!(
        castled.get_castling_rights(Color::Black),
        CastlingRights { kingside: true, queenside: false }
    );
    let black = match castled.play_move(Move::KingSideCastle) {
        GameResult::Continuing(next) => next,
        other => panic!("castling gave {:?}", other),
    };
    assert_eq!(
        black.get_piece(Position::new(7, 6)),
        Some(Piece::King(Color::Black, Position::new(7, 6)))
    );
    assert_eq!(
        black.get_piece(Position::new(7, 5)),
        Some(Piece::Rook(Color::Black, Position::new(7, 5)))
    );
}

#[test]
fn castling_on_the_queens_side() {
    let board = BoardBuilder::default()
        .piece(Piece::King(Color::White, Position::new(0, 4)))
        .piece(Piece::Rook(Color::White, Position::new(0, 0)))
        .piece(Piece::King(Color::Black, Position::new(7, 4)))
        .enable_queenside_castle(Color::White)
        .build();
    let castled = match board.play_move(Move::QueenSideCastle) {
        GameResult::Continuing(next) => next,
        other => panic!("castling gave {:?}", other),
    };
    assert_eq!(
        castled.get_piece(Position::new(0, 2)),
        Some(Piece::King(Color::White, Position::new(0, 2)))
    );
    assert_eq!(
        castled.get_piece(Position::new(0, 3)),
        Some(Piece::Rook(Color::White, Position::new(0, 3)))
    );
    assert_eq!(castled.get_piece(Position::new(0, 0)), None);
    // a piece beside the rook stands in the way
    let blocked = BoardBuilder::default()
        .piece(Piece::King(Color::White, Position::new(0, 4)))
        .piece(Piece::Rook(Color::White, Position::new(0, 0)))
        .piece(Piece::Knight(Color::White, Position::new(0, 1)))
        .piece(Piece::King(Color::Black, Position::new(7, 4)))
        .enable_queenside_castle(Color::White)
        .build();
    assert!(!blocked.can_queenside_castle(Color::White));
}

#[test]
fn no_castling_out_of_or_through_check() {
    let rights = BoardBuilder::default()
        .piece(Piece::King(Color::White, Position::new(0, 4)))
        .piece(Piece::Rook(Color::White, Position::new(0, 7)))
        .piece(Piece::Rook(Color::White, Position::new(0, 0)))
        .piece(Piece::King(Color::Black, Position::new(7, 0)))
        .enable_kingside_castle(Color::White)
        .enable_queenside_castle(Color::White);
    let in_check = rights.piece(Piece::Rook(Color::Black, Position::new(5, 4))).build();
    assert!(!in_check.can_kingside_castle(Color::White));
    assert!(!in_check.can_queenside_castle(Color::White));
    let through = rights.piece(Piece::Rook(Color::Black, Position::new(5, 5))).build();
    assert!(!through.can_kingside_castle(Color::White));
    assert!(through.can_queenside_castle(Color::White));
    let other_side = rights.piece(Piece::Rook(Color::Black, Position::new(5, 3))).build();
    assert!(other_side.can_kingside_castle(Color::White));
    assert!(!other_side.can_queenside_castle(Color::White));
    // a king that would land in check may not castle either
    let landing = rights.piece(Piece::Rook(Color::Black, Position::new(5, 6))).build();
    assert!(landing.can_kingside_castle(Color::White));
    assert!(!landing.is_legal_move(Move::KingSideCastle, Color::White));
    assert!(!landing.get_legal_moves().contains(&Move::KingSideCastle));
}

#[test]
fn a_king_that_has_moved_does_not_castle() {
    // 1. e4 e5 2. Nf3 Nf6 3. Be2 Be7: White may castle
    let board = Board::default();
    let board = play(&board, (1, 4), (3, 4));
    let board = play(&board, (6, 4), (4, 4));
    let board = play(&board, (0, 6), (2, 5));
    let board = play(&board, (7, 6), (5, 5));
    let board = play(&board, (0, 5), (1, 4));
    let board = play(&board, (7, 5), (6, 4));
    assert!(board.can_kingside_castle(Color::White));
    assert!(board.get_legal_moves().contains(&Move::KingSideCastle));
    // 4. Kf1 Kf8 5. Ke1 Ke8: the squares are as they were, the right is gone
    let moved = play(&board, (0, 4), (0, 5));
    let moved = play(&moved, (7, 4), (7, 5));
    let moved = play(&moved, (0, 5), (0, 4));
    let moved = play(&moved, (7, 5), (7, 4));
    for row in 0..8 {
        for col in 0..8 {
            let pos = Position::new(row, col);
            assert_eq!(moved.get_piece(pos), board.get_piece(pos));
        }
    }
    assert_eq!(moved.get_turn_color(), board.get_turn_color());
    assert_eq!(
        moved.get_castling_rights(Color::White),
        CastlingRights { kingside: false, queenside: false }
    );
    assert!(!moved.can_kingside_castle(Color::White));
    assert!(!moved.can_kingside_castle(Color::Black));
    assert!(!moved.get_legal_moves().contains(&Move::KingSideCastle));
    assert_eq!(
        moved.play_move(Move::KingSideCastle),
        GameResult::IllegalMove(Move::KingSideCastle)
    );
}

#[test]
fn a_rook_that_has_moved_loses_its_side() {
    let board = BoardBuilder::default()
        .piece(Piece::King(Color::White, Position::new(0, 4)))
        .piece(Piece::Rook(Color::White, Position::new(0, 7)))
        .piece(Piece::Rook(Color::White, Position::new(0, 0)))
        .piece(Piece::King(Color::Black, Position::new(7, 4)))
        .enable_kingside_castle(Color::White)
        .enable_queenside_castle(Color::White)
        .build();
    let kingside = board.move_piece(Position::new(0, 7), Position::new(3, 7));
    assert_eq!(
        kingside.get_castling_rights(Color::White),
        CastlingRights { kingside: false, queenside: true }
    );
    let queenside = board.move_piece(Position::new(0, 0), Position::new(3, 0));
    assert_eq!(
        queenside.get_castling_rights(Color::White),
        CastlingRights { kingside: true, queenside: false }
    );
    let mut rights = CastlingRights::default();
    assert!(rights.can_kingside_castle() && rights.can_queenside_castle());
    rights.no_kingside();
    assert!(!rights.can_kingside_castle() && rights.can_queenside_castle());
    rights.no_queenside();
    assert!(!rights.can_queenside_castle());
    let mut both = CastlingRights::default();
    both.invalidate();
    assert_eq!(both, CastlingRights { kingside: false, queenside: false });
}

#[test]
fn moves_as_text() {
    let m = Move::Piece(Position::new(1, 4), Position::new(3, 4));
    assert_eq!(m.to_string(), "e2 to e4");
    assert_eq!(Move::KingSideCastle.to_string(), "O-O");
    assert_eq!(Move::QueenSideCastle.to_string(), "O-O-O");
    let p = Move::Promotion(
        Position::new(6, 1),
        Position::new(7, 2),
        Piece::Rook(Color::White, Position::new(-1, -1)),
    );
    assert_eq!(p.to_string(), "b7 to c8 ♜");
}

#[test]
fn the_board_as_a_picture() {
    let picture = Board::default().to_string();
    let lines: Vec<&str> = picture.split('\n').collect();
    assert_eq!(lines.len(), 14);
    assert_eq!(lines[0], "   abcdefgh");
    assert_eq!(lines[1], "  ╔════════╗");
    assert_eq!(lines[2], "8 ║♖♘♗♕♔♗♘♖║");
    assert_eq!(lines[3], "7 ║♙♙♙♙♙♙♙♙║");
    assert!(lines[4].starts_with("6 ║\u{1b}[31m▓\u{1b}[m\u{1b}[0m"));
    assert_eq!(lines[5], "5 ║░▓░▓░▓░▓║");
    assert_eq!(lines[6], "4 ║▓░▓░▓░▓░║");
    assert!(lines[7].starts_with("3 ║\u{1b}[32m░\u{1b}[m\u{1b}[0m"));
    assert_eq!(lines[8], "2 ║♟︎♟︎♟︎♟︎♟︎♟︎♟︎♟︎║");
    assert_eq!(lines[9], "1 ║♜♞♝♛♚♝♞♜║");
    assert_eq!(lines[10], "  ╚════════╝");
    assert_eq!(lines[11], "   abcdefgh");
    assert_eq!(lines[12], "Both sides have equal materials");
    assert_eq!(lines[13], "White to move");
    let ahead = BoardBuilder::default()
        .piece(Piece::Rook(Color::Black, Position::new(7, 0)))
        .set_turn(Color::Black)
        .build()
        .to_string();
    assert!(ahead.ends_with("Black has a 5 point material advantage\nBlack to move"));
    assert!(ahead.contains("\n1 ║\u{1b}[32m░\u{1b}[m\u{1b}[0m"));
    assert!(ahead.contains("\n8 ║♖"));
}
