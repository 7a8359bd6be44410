use chess::{Color, Position};

#[test]
fn squares_on_and_off_the_board() {
    assert!(Position::new(0, 0).is_on_board());
    assert!(Position::new(7, 7).is_on_board());
    assert!(Position::new(8, 0).is_off_board());
    assert!(Position::new(0, -1).is_off_board());
    assert!(!Position::new(-1, 3).is_on_board());
    assert_eq!(Position::new(3, 4).get_row(), 3);
    assert_eq!(Position::new(3, 4).get_col(), 4);
}

#[test]
fn starting_squares_of_kings_and_queens() {
    assert_eq!(Position::king_pos(Color::White), Position::new(0, 4));
    assert_eq!(Position::king_pos(Color::Black), Position::new(7, 4));
    assert_eq!(Position::queen_pos(Color::White), Position::new(0, 3));
    assert_eq!(Position::queen_pos(Color::Black), Position::new(7, 3));
}

#[test]
fn relations_between_squares() {
    let e4 = Position::new(3, 4);
    assert!(e4.is_diagonal_to(Position::new(6, 7)));
    assert!(e4.is_diagonal_to(Position::new(0, 1)));
    assert!(!e4.is_diagonal_to(Position::new(4, 4)));
    assert!(e4.is_orthogonal_to(Position::new(3, 0)));
    assert!(e4.is_orthogonal_to(Position::new(7, 4)));
    assert!(!e4.is_orthogonal_to(Position::new(4, 5)));
    assert!(e4.is_adjacent_to(Position::new(4, 5)));
    assert!(e4.is_adjacent_to(Position::new(3, 3)));
    assert!(!e4.is_adjacent_to(e4));
    assert!(!e4.is_adjacent_to(Position::new(5, 4)));
    assert!(e4.is_knight_move(Position::new(5, 5)));
    assert!(e4.is_knight_move(Position::new(2, 2)));
    assert!(!e4.is_knight_move(Position::new(5, 6)));
    assert!(Position::new(2, 0).is_below(e4));
    assert!(Position::new(4, 0).is_above(e4));
    assert!(Position::new(0, 3).is_left_of(e4));
    assert!(Position::new(0, 5).is_right_of(e4));
}

#[test]
fn relations_hold_far_off_the_board() {
    let low = Position::new(i32::MIN, i32::MIN);
    let high = Position::new(i32::MAX, i32::MAX);
    assert!(low.is_diagonal_to(high));
    assert!(!low.is_orthogonal_to(high));
    assert!(!low.is_adjacent_to(high));
    assert!(!low.is_knight_move(high));
    assert!(low.is_off_board());
}

#[test]
fn steps_from_a_square() {
    let e4 = Position::new(3, 4);
    assert_eq!(e4.next_left(), Position::new(3, 3));
    assert_eq!(e4.next_right(), Position::new(3, 5));
    assert_eq!(e4.next_above(), Position::new(4, 4));
    assert_eq!(e4.next_below(), Position::new(2, 4));
    assert_eq!(e4.pawn_up(Color::White), Position::new(4, 4));
    assert_eq!(e4.pawn_up(Color::Black), Position::new(2, 4));
    assert_eq!(e4.pawn_back(Color::White), Position::new(2, 4));
    assert_eq!(e4.pawn_back(Color::Black), Position::new(4, 4));
    assert_eq!(Position::new(0, 0).next_left(), Position::new(0, -1));
}

#[test]
fn steps_stop_at_the_last_coordinate() {
    let low = Position::new(i32::MIN, i32::MIN);
    let high = Position::new(i32::MAX, i32::MAX);
    assert_eq!(low.next_left(), low);
    assert_eq!(low.next_below(), low);
    assert_eq!(high.next_right(), high);
    assert_eq!(high.next_above(), high);
}

#[test]
fn starting_ranks_and_corners() {
    assert!(Position::new(1, 3).is_starting_pawn(Color::White));
    assert!(!Position::new(1, 3).is_starting_pawn(Color::Black));
    assert!(Position::new(6, 3).is_starting_pawn(Color::Black));
    assert!(Position::new(0, 7).is_kingside_rook());
    assert!(Position::new(7, 7).is_kingside_rook());
    assert!(!Position::new(0, 0).is_kingside_rook());
    assert!(Position::new(0, 0).is_queenside_rook());
    assert!(Position::new(7, 0).is_queenside_rook());
    assert!(!Position::new(3, 0).is_queenside_rook());
}

#[test]
fn diagonal_path_ends_on_the_target() {
    let path = Position::new(0, 2).diagonals_to(Position::new(3, 5));
    assert_eq!(
        path,
        vec![Position::new(1, 3), Position::new(2, 4), Position::new(3, 5)]
    );
    let back = Position::new(3, 5).diagonals_to(Position::new(1, 7));
    assert_eq!(back, vec![Position::new(2, 6), Position::new(1, 7)]);
    assert!(Position::new(0, 0).diagonals_to(Position::new(1, 2)).is_empty());
    assert!(Position::new(4, 4).diagonals_to(Position::new(4, 4)).is_empty());
}

#[test]
fn orthogonal_path_ends_on_the_target() {
    let path = Position::new(0, 0).orthogonals_to(Position::new(0, 3));
    assert_eq!(
        path,
        vec![Position::new(0, 1), Position::new(0, 2), Position::new(0, 3)]
    );
    let down = Position::new(5, 2).orthogonals_to(Position::new(3, 2));
    assert_eq!(down, vec![Position::new(4, 2), Position::new(3, 2)]);
    assert!(Position::new(0, 0).orthogonals_to(Position::new(1, 1)).is_empty());
    assert!(Position::new(2, 2).orthogonals_to(Position::new(2, 2)).is_empty());
}

#[test]
fn squares_as_text() {
    assert_eq!(Position::new(3, 4).to_string(), "e4");
    assert_eq!(Position::new(0, 0).to_string(), "a1");
    assert_eq!(Position::new(7, 7).to_string(), "h8");
    assert_eq!(Position::new(9, 8).to_string(), "?10");
    assert_eq!(Position::new(-3, -1).to_string(), "?-2");
}

#[test]
fn squares_read_from_text() {
    assert_eq!(Position::pgn("e4"), Ok(Position::new(3, 4)));
    assert_eq!(Position::pgn("D8"), Ok(Position::new(7, 3)));
    assert_eq!(Position::pgn("  h1 "), Ok(Position::new(0, 7)));
    assert_eq!(Position::pgn("a1xyz"), Ok(Position::new(0, 0)));
    assert_eq!(Position::pgn("e9"), Ok(Position::new(8, 4)));
    assert_eq!(Position::pgn("e0"), Ok(Position::new(-1, 4)));
    assert_eq!(Position::read("c6"), Ok(Position::new(5, 2)));
}

#[test]
fn squares_that_cannot_be_read() {
    assert_eq!(Position::pgn(""), Err("invalid pgn ``".to_string()));
    assert_eq!(Position::pgn("e"), Err("invalid pgn `e`".to_string()));
    assert_eq!(Position::pgn("ex"), Err("invalid pgn `ex`".to_string()));
    assert_eq!(
        Position::pgn("i4"),
        Err("invalid column character `i`".to_string())
    );
    assert_eq!(
        Position::pgn(" Z3"),
        Err("invalid column character `z`".to_string())
    );
    assert_eq!(Position::read("E4"), Err("invalid column character `E`".to_string()));
}
