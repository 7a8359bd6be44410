use crate::board::CastlingRights;
use crate::{Color, Move, Piece, Position, Square};
use vstd::prelude::*;

verus! {

/// What a board holds, as mathematics: the 64 squares from a8 along each rank
/// down to h1, the en-passant target, both sides' castling rights and the
/// side to move.
#[verifier::ext_equal]
pub struct BoardState {
    pub squares: Seq<Square>,
    pub en_passant: Option<Position>,
    pub white_castling_rights: CastlingRights,
    pub black_castling_rights: CastlingRights,
    pub turn: Color,
}

/// Where the square `pos` stands in the sequence of squares.
pub open spec fn square_index(pos: Position) -> int {
    (7 - pos.row) * 8 + pos.col
}

/// The square that stands at `i` in the sequence of squares.
pub open spec fn square_position(i: int) -> Position {
    Position { row: (7 - i / 8) as i32, col: (i % 8) as i32 }
}

/// The piece that starts on the home-rank square `pos` of `color`.
pub open spec fn home_rank_piece(color: Color, pos: Position) -> Piece {
    if pos.col == 0 || pos.col == 7 {
        Piece::Rook(color, pos)
    } else if pos.col == 1 || pos.col == 6 {
        Piece::Knight(color, pos)
    } else if pos.col == 2 || pos.col == 5 {
        Piece::Bishop(color, pos)
    } else if pos.col == 3 {
        Piece::Queen(color, pos)
    } else {
        Piece::King(color, pos)
    }
}

/// What stands on `pos` when a game starts.
pub open spec fn starting_square(pos: Position) -> Square {
    if pos.row == 7 {
        Square { piece: Some(home_rank_piece(Color::Black, pos)) }
    } else if pos.row == 6 {
        Square { piece: Some(Piece::Pawn(Color::Black, pos)) }
    } else if pos.row == 1 {
        Square { piece: Some(Piece::Pawn(Color::White, pos)) }
    } else if pos.row == 0 {
        Square { piece: Some(home_rank_piece(Color::White, pos)) }
    } else {
        Square { piece: None }
    }
}

impl BoardState {
    /// There are 64 squares, and every piece knows the square it stands on.
    pub open spec fn well_formed(self) -> bool {
        &&& self.squares.len() == 64
        &&& forall|i: int|
            0 <= i < 64 ==> match (#[trigger] self.squares[i]).piece {
                Some(p) => p.pos() == square_position(i),
                None => true,
            }
    }

    /// The standard starting arrangement, White to move.
    pub open spec fn start() -> BoardState {
        BoardState {
            squares: Seq::new(64, |i: int| starting_square(square_position(i))),
            en_passant: None,
            white_castling_rights: CastlingRights { kingside: true, queenside: true },
            black_castling_rights: CastlingRights { kingside: true, queenside: true },
            turn: Color::White,
        }
    }

    /// No piece, no castling right, White to move.
    pub open spec fn bare() -> BoardState {
        BoardState {
            squares: Seq::new(64, |i: int| Square { piece: None }),
            en_passant: None,
            white_castling_rights: CastlingRights { kingside: false, queenside: false },
            black_castling_rights: CastlingRights { kingside: false, queenside: false },
            turn: Color::White,
        }
    }

    pub open spec fn castling_rights(self, color: Color) -> CastlingRights {
        match color {
            Color::White => self.white_castling_rights,
            Color::Black => self.black_castling_rights,
        }
    }

    /// The piece on `pos`; none on an empty square and none off the board.
    pub open spec fn piece_at(self, pos: Position) -> Option<Piece> {
        if pos.on_board() {
            self.squares[square_index(pos)].piece
        } else {
            None
        }
    }

    pub open spec fn has_piece(self, pos: Position) -> bool {
        self.piece_at(pos) is Some
    }

    pub open spec fn has_ally_piece(self, pos: Position, ally_color: Color) -> bool {
        match self.piece_at(pos) {
            Some(p) => p.color() == ally_color,
            None => false,
        }
    }

    pub open spec fn has_enemy_piece(self, pos: Position, ally_color: Color) -> bool {
        match self.piece_at(pos) {
            Some(p) => p.color() != ally_color,
            None => false,
        }
    }

    /// The square of the last king of `color` among the first `n` squares.
    pub open spec fn king_among(self, color: Color, n: nat) -> Option<Position>
        decreases n,
    {
        if n == 0 {
            None
        } else {
            match self.squares[n - 1].piece {
                Some(Piece::King(c, p)) => if c == color {
                    Some(p)
                } else {
                    self.king_among(color, (n - 1) as nat)
                },
                _ => self.king_among(color, (n - 1) as nat),
            }
        }
    }

    /// Where `color`'s king stands: with several, the one met last on the way
    /// from a8 to h1; with none, the king's starting square.
    pub open spec fn king_pos(self, color: Color) -> Position {
        match self.king_among(color, 64) {
            Some(p) => p,
            None => match color {
                Color::White => Position { row: 0, col: 4 },
                Color::Black => Position { row: 7, col: 4 },
            },
        }
    }

    /// Whether a king of `color` stands on the board.
    pub open spec fn has_king(self, color: Color) -> bool {
        self.king_among(color, 64) is Some
    }

    /// What the piece on square `i` counts for `color` in material: its value
    /// if it is `color`'s, its value taken away if it is the other side's.
    pub open spec fn material_at(self, i: int, color: Color) -> int {
        match self.squares[i].piece {
            Some(p) => if p.color() == color {
                p.material()
            } else {
                -p.material()
            },
            None => 0,
        }
    }

    /// The sum of `material_at` over the first `n` squares.
    pub open spec fn material_among(self, color: Color, n: nat) -> int
        decreases n,
    {
        if n == 0 {
            0
        } else {
            self.material_among(color, (n - 1) as nat) + self.material_at(n - 1, color)
        }
    }

    pub open spec fn material_advantage(self, color: Color) -> int {
        self.material_among(color, 64)
    }

    /// What the piece on square `i` counts for `color` where it stands, in
    /// half points: its weighted value if it is `color`'s, that value taken
    /// away if it is the other side's.
    pub open spec fn value_at(self, i: int, color: Color) -> int {
        match self.squares[i].piece {
            Some(p) => if p.color() == color {
                p.weighted()
            } else {
                -p.weighted()
            },
            None => 0,
        }
    }

    /// The sum of `value_at` over the first `n` squares.
    pub open spec fn value_among(self, color: Color, n: nat) -> int
        decreases n,
    {
        if n == 0 {
            0
        } else {
            self.value_among(color, (n - 1) as nat) + self.value_at(n - 1, color)
        }
    }

    /// The value of the position for `color`, in half points.
    pub open spec fn value_for(self, color: Color) -> int {
        self.value_among(color, 64)
    }

    /// The board with `piece` on the square it names; the same board where
    /// that square is off the board.
    pub open spec fn with_piece(self, piece: Piece) -> BoardState {
        if piece.pos().on_board() {
            BoardState {
                squares: self.squares.update(
                    square_index(piece.pos()),
                    Square { piece: Some(piece) },
                ),
                ..self
            }
        } else {
            self
        }
    }

    pub open spec fn with_en_passant(self, target: Option<Position>) -> BoardState {
        BoardState { en_passant: target, ..self }
    }

    /// The board on which `color` has the right to castle on the king's side.
    pub open spec fn with_kingside_castle(self, color: Color) -> BoardState {
        match color {
            Color::White => BoardState {
                white_castling_rights: CastlingRights {
                    kingside: true,
                    ..self.white_castling_rights
                },
                ..self
            },
            Color::Black => BoardState {
                black_castling_rights: CastlingRights {
                    kingside: true,
                    ..self.black_castling_rights
                },
                ..self
            },
        }
    }

    /// The board on which `color` has the right to castle on the queen's side.
    pub open spec fn with_queenside_castle(self, color: Color) -> BoardState {
        match color {
            Color::White => BoardState {
                white_castling_rights: CastlingRights {
                    queenside: true,
                    ..self.white_castling_rights
                },
                ..self
            },
            Color::Black => BoardState {
                black_castling_rights: CastlingRights {
                    queenside: true,
                    ..self.black_castling_rights
                },
                ..self
            },
        }
    }

    pub open spec fn set_turn(self, color: Color) -> BoardState {
        BoardState { turn: color, ..self }
    }

    pub open spec fn change_turn(self) -> BoardState {
        BoardState { turn: self.turn.opposite(), ..self }
    }

    /// The castling rights that are left to the owner of `piece` once it has
    /// moved away from the square it knows.
    pub open spec fn rights_after(rights: CastlingRights, piece: Piece) -> CastlingRights {
        if piece is King {
            CastlingRights { kingside: false, queenside: false }
        } else if piece.queenside_rook() {
            CastlingRights { queenside: false, ..rights }
        } else if piece.kingside_rook() {
            CastlingRights { kingside: false, ..rights }
        } else {
            rights
        }
    }

    /// The piece that arrives on `to` when `piece` moves there: a pawn that
    /// reaches either end rank arrives as `promotion` if one is given and is
    /// neither king nor pawn, else as a queen.
    pub open spec fn arriving(piece: Piece, to: Position, promotion: Option<Piece>) -> Piece {
        if piece is Pawn && (to.row == 0 || to.row == 7) {
            match promotion {
                Some(chosen) => if chosen is King || chosen is Pawn {
                    Piece::Queen(piece.color(), to)
                } else {
                    chosen.at(to).owned_by(piece.color())
                },
                None => Piece::Queen(piece.color(), to),
            }
        } else {
            piece.at(to)
        }
    }

    /// The en-passant target that a move of `piece` from `from` to `to`
    /// leaves: the square passed over by a pawn that leaves its starting
    /// rank by two ranks, none after any other move.
    pub open spec fn target_after(piece: Piece, from: Position, to: Position) -> Option<
        Position,
    > {
        if piece.starting_pawn() && (from.row - to.row == 2 || to.row - from.row == 2) {
            Some(to.forward(piece.color().opposite()))
        } else {
            None
        }
    }

    /// The board after the piece on `from` has been put on `to`; the same
    /// board where either square is off the board or `from` is empty.
    pub open spec fn relocate(self, from: Position, to: Position, promotion: Option<Piece>) -> BoardState {
        if from.on_board() && to.on_board() {
            match self.piece_at(from) {
                Some(piece) => BoardState {
                    squares: self.squares.update(square_index(from), Square { piece: None }).update(
                        square_index(to),
                        Square { piece: Some(Self::arriving(piece, to, promotion)) },
                    ),
                    en_passant: Self::target_after(piece, from, to),
                    white_castling_rights: if piece.color() == Color::White {
                        Self::rights_after(self.white_castling_rights, piece)
                    } else {
                        self.white_castling_rights
                    },
                    black_castling_rights: if piece.color() == Color::Black {
                        Self::rights_after(self.black_castling_rights, piece)
                    } else {
                        self.black_castling_rights
                    },
                    turn: self.turn,
                },
                None => self,
            }
        } else {
            self
        }
    }

    pub open spec fn move_piece(self, from: Position, to: Position) -> BoardState {
        self.relocate(from, to, None)
    }
    /// Whether the piece on square `i` belongs to the other side than `ally`
    /// and threatens `pos`.
    pub open spec fn attacker_at(self, i: int, pos: Position, ally: Color) -> bool {
        match self.squares[i].piece {
            Some(p) => p.color() != ally && p.attacks(pos, self),
            None => false,
        }
    }

    /// Whether some piece of the other side than `ally` threatens `pos`.
    pub open spec fn threatened(self, pos: Position, ally: Color) -> bool {
        exists|i: int| 0 <= i < 64 && #[trigger] self.attacker_at(i, pos, ally)
    }

    pub open spec fn in_check(self, color: Color) -> bool {
        self.threatened(self.king_pos(color), color)
    }

    /// The rank on which `color`'s pieces start.
    pub open spec fn home_row(color: Color) -> i32 {
        match color {
            Color::White => 0,
            Color::Black => 7,
        }
    }

    /// Whether `color` may castle on the king's side as far as the position
    /// shows: the two squares between king and rook are empty, the king is
    /// not in check, the square it passes is not threatened, and the right
    /// has not been lost.
    pub open spec fn can_kingside_castle(self, color: Color) -> bool {
        let row = Self::home_row(color);
        &&& !self.has_piece(Position { row, col: 5 })
        &&& !self.has_piece(Position { row, col: 6 })
        &&& !self.in_check(color)
        &&& !self.threatened(Position { row, col: 5 }, color)
        &&& self.castling_rights(color).kingside
    }

    /// Whether `color` may castle on the queen's side as far as the position
    /// shows: the three squares between king and rook are empty, the king is
    /// not in check, the square it passes is not threatened, and the right
    /// has not been lost.
    pub open spec fn can_queenside_castle(self, color: Color) -> bool {
        let row = Self::home_row(color);
        &&& !self.has_piece(Position { row, col: 1 })
        &&& !self.has_piece(Position { row, col: 2 })
        &&& !self.has_piece(Position { row, col: 3 })
        &&& !self.in_check(color)
        &&& !self.threatened(Position { row, col: 3 }, color)
        &&& self.castling_rights(color).queenside
    }

    /// The board after the pieces have been moved as `m` says, whether or
    /// not `m` is legal; the side to move stays. A castle moves the king and
    /// the corner rook of the side to move.
    pub open spec fn apply_move(self, m: Move) -> BoardState {
        match m {
            Move::KingSideCastle => {
                let king = self.king_pos(self.turn);
                let rook = Position { row: Self::home_row(self.turn), col: 7 };
                self.move_piece(king, rook.left()).move_piece(rook, king.right())
            },
            Move::QueenSideCastle => {
                let king = self.king_pos(self.turn);
                let rook = Position { row: Self::home_row(self.turn), col: 0 };
                self.move_piece(king, king.left().left()).move_piece(rook, king.left())
            },
            Move::Piece(from, to) => self.move_piece(from, to),
            Move::Promotion(from, to, piece) => self.relocate(from, to, Some(piece)),
        }
    }

    /// Whether `m` is as the pieces move, for `color`, leaving aside what
    /// becomes of `color`'s king.
    pub open spec fn allowed(self, m: Move, color: Color) -> bool {
        match m {
            Move::KingSideCastle => self.can_kingside_castle(color),
            Move::QueenSideCastle => self.can_queenside_castle(color),
            Move::Piece(from, to) => match self.piece_at(from) {
                Some(piece) => piece.pseudo_legal(to, self) && piece.color() == color,
                None => false,
            },
            Move::Promotion(from, to, _) => match self.piece_at(from) {
                Some(piece) => piece is Pawn && (to.row == 0 || to.row == 7) && piece.pseudo_legal(
                    to,
                    self,
                ) && piece.color() == color,
                None => false,
            },
        }
    }

    /// Whether `color` may play `m`: `m` is as the pieces move, and once it
    /// has been made `color`'s king is not in check.
    pub open spec fn is_legal_move(self, m: Move, color: Color) -> bool {
        self.allowed(m, color) && !self.apply_move(m).in_check(color)
    }

    /// The legal moves of the pieces of the side to move that stand on the
    /// first `n` squares, square by square.
    pub open spec fn legal_moves_among(self, n: nat) -> Seq<Move>
        decreases n,
    {
        if n == 0 {
            Seq::empty()
        } else {
            self.legal_moves_among((n - 1) as nat) + self.legal_moves_at(n - 1)
        }
    }

    /// The legal moves of the piece on square `i`, none unless it belongs to
    /// the side to move.
    pub open spec fn legal_moves_at(self, i: int) -> Seq<Move> {
        match self.squares[i].piece {
            Some(p) => if p.color() == self.turn {
                p.legal_moves(self)
            } else {
                Seq::empty()
            },
            None => Seq::empty(),
        }
    }

    /// The legal moves of the side to move, piece by piece from a8 along
    /// each rank down to h1.
    pub open spec fn legal_moves(self) -> Seq<Move> {
        self.legal_moves_among(64)
    }

    /// The board that the side to move leaves to the other side by `m`.
    pub open spec fn after(self, m: Move) -> BoardState {
        self.apply_move(m).change_turn()
    }

    /// What comes of the side to move playing `m`: an illegal move is handed
    /// back; a legal one that leaves the other side no legal move wins if
    /// that side is in check and is a stalemate if not; any other legal move
    /// gives the next board.
    pub open spec fn play_move(self, m: Move) -> Outcome {
        if self.is_legal_move(m, self.turn) {
            let next = self.after(m);
            if next.legal_moves().len() == 0 {
                if next.in_check(next.turn) {
                    Outcome::Victory(self.turn)
                } else {
                    Outcome::Stalemate
                }
            } else {
                Outcome::Continuing(next)
            }
        } else {
            Outcome::IllegalMove(m)
        }
    }
}

/// What `GameResult` says, with the board as mathematics.
pub enum Outcome {
    Continuing(BoardState),
    Victory(Color),
    Stalemate,
    IllegalMove(Move),
}

} // verus!
