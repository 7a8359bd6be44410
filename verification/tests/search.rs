use chess::{Board, BoardBuilder, Color, Evaluate, Move, Piece, Position, Search};

/// Minimax without window, pruning or budget, written out for comparison.
fn plain(board: &Board, depth: i32, maximizing: bool, color: Color) -> i32 {
    if depth == 0 {
        return board.material_value_for(color);
    }
    let mut best = if maximizing { -19998 } else { 19998 };
    for m in board.get_legal_moves() {
        let value = plain(&board.apply_eval_move(m), depth - 1, !maximizing, color);
        if maximizing {
            if value > best {
                best = value;
            }
        } else if value < best {
            best = value;
        }
    }
    best
}

fn a_middle_game() -> Board {
    BoardBuilder::default()
        .piece(Piece::King(Color::White, Position::new(0, 6)))
        .piece(Piece::Rook(Color::White, Position::new(0, 3)))
        .piece(Piece::Knight(Color::White, Position::new(2, 5)))
        .piece(Piece::Pawn(Color::White, Position::new(1, 5)))
        .piece(Piece::Pawn(Color::White, Position::new(1, 6)))
        .piece(Piece::Pawn(Color::White, Position::new(3, 4)))
        .piece(Piece::King(Color::Black, Position::new(7, 6)))
        .piece(Piece::Queen(Color::Black, Position::new(4, 3)))
        .piece(Piece::Bishop(Color::Black, Position::new(5, 2)))
        .piece(Piece::Pawn(Color::Black, Position::new(6, 5)))
        .piece(Piece::Pawn(Color::Black, Position::new(6, 6)))
        .piece(Piece::Pawn(Color::Black, Position::new(4, 4)))
        .set_turn(Color::White)
        .build()
}

#[test]
fn the_evaluation_moves_play_no_matter_the_rules() {
    let board = Board::default();
    let m = Move::Piece(Position::new(1, 4), Position::new(3, 4));
    let next = board.apply_eval_move(m);
    assert_eq!(next, board.apply_move(m).change_turn());
    assert_eq!(next.get_turn_color(), Color::Black);
}

#[test]
fn a_leaf_gives_the_value_of_its_state() {
    let board = a_middle_game();
    let mut count = 0;
    let value = board.minimax(0, -20000, 20000, true, Color::White, &mut count, 1000);
    assert_eq!(value, board.material_value_for(Color::White));
    assert_eq!(count, 1);
    let mut count = 0;
    let value = board.minimax(0, -20000, 20000, false, Color::Black, &mut count, 1000);
    assert_eq!(value, board.material_value_for(Color::Black));
    assert_eq!(value, -board.material_value_for(Color::White));
}

#[test]
fn a_spent_budget_gives_the_value_of_the_state() {
    let board = a_middle_game();
    let mut count = 7;
    let value = board.minimax(3, -20000, 20000, true, Color::White, &mut count, 8);
    assert_eq!(value, board.material_value_for(Color::White));
    assert_eq!(count, 8);
    let mut count = 50;
    let value = board.minimax(3, -20000, 20000, true, Color::White, &mut count, 8);
    assert_eq!(value, board.material_value_for(Color::White));
    assert_eq!(count, 51);
}

#[test]
fn the_counter_stops_at_the_largest_number() {
    let board = a_middle_game();
    let mut count = i32::MAX;
    let value = board.minimax(2, -20000, 20000, true, Color::White, &mut count, i32::MAX);
    assert_eq!(value, board.material_value_for(Color::White));
    assert_eq!(count, i32::MAX);
}

#[test]
fn every_node_is_counted_once() {
    let board = Board::default();
    let mut count = 0;
    board.minimax(1, -20000, 20000, true, Color::White, &mut count, 1_000_000);
    // the node itself and its twenty children
    assert_eq!(count, 21);
}

#[test]
fn a_negative_depth_is_bounded_by_the_budget_alone() {
    let board = a_middle_game();
    let mut count = 0;
    board.minimax(-1, -20000, 20000, true, Color::White, &mut count, 40);
    assert!(count >= 40);
}

#[test]
fn a_node_without_moves_gives_the_bound_of_its_role() {
    let mated = BoardBuilder::default()
        .piece(Piece::King(Color::Black, Position::new(7, 0)))
        .piece(Piece::King(Color::White, Position::new(5, 1)))
        .piece(Piece::Queen(Color::White, Position::new(6, 0)))
        .set_turn(Color::Black)
        .build();
    assert!(mated.get_legal_moves().is_empty());
    let mut count = 0;
    assert_eq!(
        mated.minimax(2, -20000, 20000, false, Color::White, &mut count, 1000),
        19998
    );
    assert_eq!(
        mated.minimax(2, -20000, 20000, true, Color::White, &mut count, 1000),
        -19998
    );
}

#[test]
fn pruning_does_not_change_the_value() {
    let board = a_middle_game();
    for depth in 0..3 {
        for maximizing in [true, false] {
            let mut count = 0;
            let pruned = board.minimax(
                depth,
                -20000,
                20000,
                maximizing,
                Color::White,
                &mut count,
                i32::MAX,
            );
            assert_eq!(pruned, plain(&board, depth, maximizing, Color::White));
        }
    }
}

#[test]
fn the_best_move_is_one_that_minimax_values_most() {
    let board = a_middle_game();
    let best = board.get_best_next_move(1, i32::MAX);
    let moves = board.get_legal_moves();
    assert!(moves.contains(&best));
    let value = plain(&board.apply_eval_move(best), 1, false, Color::White);
    let mut last = None;
    for m in &moves {
        let other = plain(&board.apply_eval_move(*m), 1, false, Color::White);
        assert!(other <= value);
        if other == value {
            last = Some(*m);
        }
    }
    // of several moves of the greatest value the last is chosen
    assert_eq!(last, Some(best));
}

#[test]
fn the_best_move_takes_the_queen_with_the_pawn() {
    // the rook could take the queen too, but the bishop would take it back
    let board = a_middle_game();
    assert_eq!(
        board.get_best_next_move(1, i32::MAX),
        Move::Piece(Position::new(3, 4), Position::new(4, 3))
    );
}

#[test]
fn the_worst_move_is_chosen_with_the_roles_exchanged() {
    let board = a_middle_game();
    let worst = board.get_worst_next_move(1, i32::MAX);
    let moves = board.get_legal_moves();
    assert!(moves.contains(&worst));
    let value = plain(&board.apply_eval_move(worst), 1, true, Color::White);
    for m in &moves {
        assert!(plain(&board.apply_eval_move(*m), 1, true, Color::White) <= value);
    }
}

#[test]
fn a_small_budget_still_gives_a_legal_move() {
    let board = Board::default();
    let moves = board.get_legal_moves();
    for budget in [0, 1, 5, 30] {
        assert!(moves.contains(&board.get_best_next_move(3, budget)));
        assert!(moves.contains(&board.get_worst_next_move(3, budget)));
    }
    // with no budget every move has the value of its own state, and the
    // last of the best is kept
    let best = board.get_best_next_move(3, 0);
    let value = board.apply_eval_move(best).material_value_for(Color::White);
    let mut last = None;
    for m in &moves {
        let other = board.apply_eval_move(*m).material_value_for(Color::White);
        assert!(other <= value);
        if other == value {
            last = Some(*m);
        }
    }
    assert_eq!(last, Some(best));
}
