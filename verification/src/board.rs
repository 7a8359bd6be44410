use crate::laws::{law_legal_moves_are_legal, law_moves_not_listed_are_refused};
use crate::state::{square_index, square_position, BoardState, Outcome};
use crate::{Color, Evaluate, GameResult, Move, Piece, Position, Square};
use vstd::prelude::*;

verus! {

/// Which castles one side may still make, as far as the moves its king and
/// rooks have made decide it.
#[derive(Clone, Copy, Debug, PartialEq, Eq, PartialOrd, Ord, Structural)]
pub struct CastlingRights {
    pub kingside: bool,
    pub queenside: bool,
}

impl Default for CastlingRights {
    fn default() -> (rights: Self)
        ensures
            rights == (CastlingRights { kingside: true, queenside: true }),
    {
        Self { kingside: true, queenside: true }
    }
}

impl CastlingRights {
    pub fn can_kingside_castle(&self) -> (b: bool)
        ensures
            b == self.kingside,
    {
        self.kingside
    }

    pub fn can_queenside_castle(&self) -> (b: bool)
        ensures
            b == self.queenside,
    {
        self.queenside
    }

    pub fn no_kingside(&mut self)
        ensures
            *final(self) == (CastlingRights { kingside: false, queenside: old(self).queenside }),
    {
        self.kingside = false
    }

    pub fn no_queenside(&mut self)
        ensures
            *final(self) == (CastlingRights { kingside: old(self).kingside, queenside: false }),
    {
        self.queenside = false
    }

    pub fn invalidate(&mut self)
        ensures
            *final(self) == (CastlingRights { kingside: false, queenside: false }),
    {
        self.no_kingside();
        self.no_queenside()
    }
}

/// A position of the game: the squares, the en-passant target, the castling
/// rights and the side to move. A board is a value; every operation that
/// changes something returns a new one.
#[derive(Clone, Copy, Debug, PartialEq, Eq, PartialOrd, Ord)]
pub struct Board {
    squares: [Square; 64],
    en_passant: Option<Position>,
    white_castling_rights: CastlingRights,
    black_castling_rights: CastlingRights,
    turn: Color,
}

impl View for Board {
    type V = BoardState;

    closed spec fn view(&self) -> BoardState {
        BoardState {
            squares: self.squares@,
            en_passant: self.en_passant,
            white_castling_rights: self.white_castling_rights,
            black_castling_rights: self.black_castling_rights,
            turn: self.turn,
        }
    }
}

impl Default for Board {
    /// The standard starting arrangement, White to move.
    fn default() -> (board: Self)
        ensures
            board@ == BoardState::start(),
    {
        let squares: [Square; 64] = [
            Square::from(Piece::Rook(Color::Black, Position::new(7, 0))),
            Square::from(Piece::Knight(Color::Black, Position::new(7, 1))),
            Square::from(Piece::Bishop(Color::Black, Position::new(7, 2))),
            Square::from(Piece::Queen(Color::Black, Position::new(7, 3))),
            Square::from(Piece::King(Color::Black, Position::new(7, 4))),
            Square::from(Piece::Bishop(Color::Black, Position::new(7, 5))),
            Square::from(Piece::Knight(Color::Black, Position::new(7, 6))),
            Square::from(Piece::Rook(Color::Black, Position::new(7, 7))),
            Square::from(Piece::Pawn(Color::Black, Position::new(6, 0))),
            Square::from(Piece::Pawn(Color::Black, Position::new(6, 1))),
            Square::from(Piece::Pawn(Color::Black, Position::new(6, 2))),
            Square::from(Piece::Pawn(Color::Black, Position::new(6, 3))),
            Square::from(Piece::Pawn(Color::Black, Position::new(6, 4))),
            Square::from(Piece::Pawn(Color::Black, Position::new(6, 5))),
            Square::from(Piece::Pawn(Color::Black, Position::new(6, 6))),
            Square::from(Piece::Pawn(Color::Black, Position::new(6, 7))),
            Square::empty(),
            Square::empty(),
            Square::empty(),
            Square::empty(),
            Square::empty(),
            Square::empty(),
            Square::empty(),
            Square::empty(),
            Square::empty(),
            Square::empty(),
            Square::empty(),
            Square::empty(),
            Square::empty(),
            Square::empty(),
            Square::empty(),
            Square::empty(),
            Square::empty(),
            Square::empty(),
            Square::empty(),
            Square::empty(),
            Square::empty(),
            Square::empty(),
            Square::empty(),
            Square::empty(),
            Square::empty(),
            Square::empty(),
            Square::empty(),
            Square::empty(),
            Square::empty(),
            Square::empty(),
            Square::empty(),
            Square::empty(),
            Square::from(Piece::Pawn(Color::White, Position::new(1, 0))),
            Square::from(Piece::Pawn(Color::White, Position::new(1, 1))),
            Square::from(Piece::Pawn(Color::White, Position::new(1, 2))),
            Square::from(Piece::Pawn(Color::White, Position::new(1, 3))),
            Square::from(Piece::Pawn(Color::White, Position::new(1, 4))),
            Square::from(Piece::Pawn(Color::White, Position::new(1, 5))),
            Square::from(Piece::Pawn(Color::White, Position::new(1, 6))),
            Square::from(Piece::Pawn(Color::White, Position::new(1, 7))),
            Square::from(Piece::Rook(Color::White, Position::new(0, 0))),
            Square::from(Piece::Knight(Color::White, Position::new(0, 1))),
            Square::from(Piece::Bishop(Color::White, Position::new(0, 2))),
            Square::from(Piece::Queen(Color::White, Position::new(0, 3))),
            Square::from(Piece::King(Color::White, Position::new(0, 4))),
            Square::from(Piece::Bishop(Color::White, Position::new(0, 5))),
            Square::from(Piece::Knight(Color::White, Position::new(0, 6))),
            Square::from(Piece::Rook(Color::White, Position::new(0, 7))),
        ];
        Self {
            squares,
            en_passant: None,
            white_castling_rights: CastlingRights::default(),
            black_castling_rights: CastlingRights::default(),
            turn: Color::White,
        }
    }
}

/// Sets up a board piece by piece. It starts from the board with no piece
/// on it, no castling right, no en-passant target and White to move.
#[derive(Clone, Copy, Debug)]
pub struct BoardBuilder {
    board: Board,
}

impl View for BoardBuilder {
    type V = BoardState;

    closed spec fn view(&self) -> BoardState {
        self.board@
    }
}

impl Default for BoardBuilder {
    fn default() -> (builder: Self)
        ensures
            builder@ == BoardState::bare(),
    {
        let squares: [Square; 64] = [
            Square::empty(),
            Square::empty(),
            Square::empty(),
            Square::empty(),
            Square::empty(),
            Square::empty(),
            Square::empty(),
            Square::empty(),
            Square::empty(),
            Square::empty(),
            Square::empty(),
            Square::empty(),
            Square::empty(),
            Square::empty(),
            Square::empty(),
            Square::empty(),
            Square::empty(),
            Square::empty(),
            Square::empty(),
            Square::empty(),
            Square::empty(),
            Square::empty(),
            Square::empty(),
            Square::empty(),
            Square::empty(),
            Square::empty(),
            Square::empty(),
            Square::empty(),
            Square::empty(),
            Square::empty(),
            Square::empty(),
            Square::empty(),
            Square::empty(),
            Square::empty(),
            Square::empty(),
            Square::empty(),
            Square::empty(),
            Square::empty(),
            Square::empty(),
            Square::empty(),
            Square::empty(),
            Square::empty(),
            Square::empty(),
            Square::empty(),
            Square::empty(),
            Square::empty(),
            Square::empty(),
            Square::empty(),
            Square::empty(),
            Square::empty(),
            Square::empty(),
            Square::empty(),
            Square::empty(),
            Square::empty(),
            Square::empty(),
            Square::empty(),
            Square::empty(),
            Square::empty(),
            Square::empty(),
            Square::empty(),
            Square::empty(),
            Square::empty(),
            Square::empty(),
            Square::empty(),
        ];
        Self {
            board: Board {
                squares,
                en_passant: None,
                white_castling_rights: CastlingRights { kingside: false, queenside: false },
                black_castling_rights: CastlingRights { kingside: false, queenside: false },
                turn: Color::White,
            },
        }
    }
}

impl BoardBuilder {
    /// Puts `piece` on the square it names, in place of what stood there. A
    /// piece whose square is off the board is left out.
    pub fn piece(self, piece: Piece) -> (builder: Self)
        ensures
            builder@ == self@.with_piece(piece),
    {
        proof {
            use_type_invariant(&self.board);
        }
        let pos = piece.get_pos();
        if pos.is_off_board() {
            return self;
        }
        let mut squares = self.board.squares;
        squares[index_of(pos)] = Square::from(piece);
        let board = Board {
            squares,
            en_passant: self.board.en_passant,
            white_castling_rights: self.board.white_castling_rights,
            black_castling_rights: self.board.black_castling_rights,
            turn: self.board.turn,
        };
        Self { board }
    }

    pub fn set_turn(self, color: Color) -> (builder: Self)
        ensures
            builder@ == self@.set_turn(color),
    {
        Self { board: self.board.set_turn(color) }
    }

    pub fn set_en_passant(self, target: Option<Position>) -> (builder: Self)
        ensures
            builder@ == self@.with_en_passant(target),
    {
        proof {
            use_type_invariant(&self.board);
        }
        let mut board = self.board;
        board.en_passant = target;
        Self { board }
    }

    pub fn enable_kingside_castle(self, color: Color) -> (builder: Self)
        ensures
            builder@ == self@.with_kingside_castle(color),
    {
        proof {
            use_type_invariant(&self.board);
        }
        let mut board = self.board;
        match color {
            Color::White => {
                board.white_castling_rights.kingside = true;
            },
            Color::Black => {
                board.black_castling_rights.kingside = true;
            },
        }
        Self { board }
    }

    pub fn enable_queenside_castle(self, color: Color) -> (builder: Self)
        ensures
            builder@ == self@.with_queenside_castle(color),
    {
        proof {
            use_type_invariant(&self.board);
        }
        let mut board = self.board;
        match color {
            Color::White => {
                board.white_castling_rights.queenside = true;
            },
            Color::Black => {
                board.black_castling_rights.queenside = true;
            },
        }
        Self { board }
    }

    pub fn build(self) -> (board: Board)
        ensures
            board@ == self@,
    {
        self.board
    }
}

impl Evaluate for Board {
    open spec fn value(&self, color: Color) -> i32 {
        self@.value_for(color) as i32
    }

    open spec fn player(&self) -> Color {
        self@.turn
    }

    open spec fn moves(&self) -> Seq<Move> {
        self@.legal_moves()
    }

    open spec fn next(&self, m: Move) -> Board {
        Board::holding(self@.after(m))
    }

    /// The sum of the weighted values of `ally_color`'s pieces less that of
    /// the other side's, in half points.
    fn material_value_for(&self, ally_color: Color) -> (v: i32)
        ensures
            v == self@.value_for(ally_color),
    {
        proof {
            use_type_invariant(self);
        }
        let mut total: i32 = 0;
        let mut i: usize = 0;
        while i < 64
            invariant
                i <= 64,
                self@.well_formed(),
                total == self@.value_among(ally_color, i as nat),
                -1300000 * i <= total <= 1300000 * i,
            decreases 64 - i,
        {
            total = total + (match self.squares[i].get_piece() {
                Some(piece) => if piece.get_color() == ally_color {
                    piece.get_weighted_value()
                } else {
                    -piece.get_weighted_value()
                },
                None => 0,
            });
            i += 1;
        }
        total
    }

    fn get_current_player_color(&self) -> (c: Color) {
        self.turn
    }

    /// The legal moves of the side to move, piece by piece from a8 along
    /// each rank down to h1. They are the moves that are legal for the side
    /// to move and are no promotion; a castle is among them only where the
    /// side to move has a king.
    fn get_legal_moves(&self) -> (moves: Vec<Move>)
        ensures
            forall|m: Move| #[trigger]
                moves@.contains(m) ==> self@.is_legal_move(m, self@.turn) && !(m is Promotion),
            forall|m: Move|
                self@.is_legal_move(m, self@.turn) && !(m is Promotion) && (m is KingSideCastle
                    || m is QueenSideCastle ==> self@.has_king(self@.turn))
                    ==> #[trigger] moves@.contains(m),
    {
        proof {
            use_type_invariant(self);
            assert forall|m: Move| #[trigger]
                self@.legal_moves().contains(m) implies self@.is_legal_move(m, self@.turn) && !(m
                is Promotion) by {
                law_legal_moves_are_legal(self@, m);
            }
            assert forall|m: Move|
                self@.is_legal_move(m, self@.turn) && !(m is Promotion) && (m is KingSideCastle
                    || m is QueenSideCastle ==> self@.has_king(
                    self@.turn,
                )) implies #[trigger] self@.legal_moves().contains(m) by {
                law_moves_not_listed_are_refused(self@, m);
            }
        }
        let mut result: Vec<Move> = Vec::new();
        let color = self.turn;
        let mut i: usize = 0;
        while i < 64
            invariant
                i <= 64,
                color == self@.turn,
                result@ == self@.legal_moves_among(i as nat),
            decreases 64 - i,
        {
            if let Some(piece) = self.squares[i].get_piece() {
                if piece.get_color() == color {
                    let mut found = piece.get_legal_moves(self);
                    result.append(&mut found);
                }
            }
            i += 1;
        }
        result
    }

    /// The board that the side to move leaves to the other side by `m`,
    /// whether or not `m` is legal.
    fn apply_eval_move(&self, m: Move) -> (next: Board)
        ensures
            next@ == self@.after(m),
    {
        let next = self.apply_move(m).change_turn();
        proof {
            Board::lemma_holding(next);
        }
        next
    }
}

fn arriving(piece: Piece, to: Position, promotion: Option<Piece>) -> (arrived: Piece)
    ensures
        arrived == BoardState::arriving(piece, to, promotion),
        arrived.pos() == to,
{
    if piece.is_pawn() && (to.get_row() == 0 || to.get_row() == 7) {
        match promotion {
            Some(chosen) => if chosen.is_king() || chosen.is_pawn() {
                Piece::Queen(piece.get_color(), to)
            } else {
                chosen.move_to(to).with_color(piece.get_color())
            },
            None => Piece::Queen(piece.get_color(), to),
        }
    } else {
        piece.move_to(to)
    }
}

fn target_after(piece: Piece, from: Position, to: Position) -> (target: Option<Position>)
    requires
        from.on_board(),
        to.on_board(),
    ensures
        target == BoardState::target_after(piece, from, to),
{
    if piece.is_starting_pawn() && (from.get_row() - to.get_row() == 2 || to.get_row()
        - from.get_row() == 2) {
        Some(to.pawn_back(piece.get_color()))
    } else {
        None
    }
}

fn rights_after(rights: CastlingRights, piece: Piece) -> (left: CastlingRights)
    ensures
        left == BoardState::rights_after(rights, piece),
{
    let mut castling_rights = rights;
    if piece.is_king() {
        castling_rights.invalidate();
    } else if piece.is_queenside_rook() {
        castling_rights.no_queenside();
    } else if piece.is_kingside_rook() {
        castling_rights.no_kingside();
    }
    castling_rights
}

fn index_of(pos: Position) -> (i: usize)
    requires
        pos.on_board(),
    ensures
        i == square_index(pos),
        i < 64,
        square_position(i as int) == pos,
{
    ((7 - pos.get_row()) * 8 + pos.get_col()) as usize
}

impl Board {
    /// What holds of every board: its pieces stand where they say they do.
    #[verifier::type_invariant]
    pub open spec fn valid(self) -> bool {
        self@.well_formed()
    }

    /// The board that holds `state`.
    pub closed spec fn holding(state: BoardState) -> Board {
        choose|b: Board| b@ == state
    }

    /// A board is the one board that holds what it holds.
    pub proof fn lemma_holding(b: Board)
        ensures
            Board::holding(b@) == b,
    {
        let other = Board::holding(b@);
        assert(other.squares =~= b.squares);
    }

    pub fn set_turn(&self, color: Color) -> (b: Board)
        ensures
            b@ == self@.set_turn(color),
    {
        proof {
            use_type_invariant(self);
        }
        let mut result = *self;
        result.turn = color;
        result
    }

    pub fn get_turn_color(&self) -> (c: Color)
        ensures
            c == self@.turn,
    {
        self.turn
    }

    pub fn get_en_passant(&self) -> (p: Option<Position>)
        ensures
            p == self@.en_passant,
    {
        self.en_passant
    }

    pub fn get_castling_rights(&self, color: Color) -> (rights: CastlingRights)
        ensures
            rights == self@.castling_rights(color),
    {
        match color {
            Color::White => self.white_castling_rights,
            Color::Black => self.black_castling_rights,
        }
    }

    pub fn get_piece(&self, pos: Position) -> (p: Option<Piece>)
        ensures
            p == self@.piece_at(pos),
    {
        if pos.is_off_board() {
            return None;
        }
        self.squares[index_of(pos)].get_piece()
    }

    pub fn has_ally_piece(&self, pos: Position, ally_color: Color) -> (b: bool)
        ensures
            b == self@.has_ally_piece(pos, ally_color),
    {
        if let Some(piece) = self.get_piece(pos) {
            piece.get_color() == ally_color
        } else {
            false
        }
    }

    pub fn has_enemy_piece(&self, pos: Position, ally_color: Color) -> (b: bool)
        ensures
            b == self@.has_enemy_piece(pos, ally_color),
    {
        if let Some(piece) = self.get_piece(pos) {
            piece.get_color() == ally_color.other()
        } else {
            false
        }
    }

    pub fn has_piece(&self, pos: Position) -> (b: bool)
        ensures
            b == self@.has_piece(pos),
    {
        self.get_piece(pos).is_some()
    }

    pub fn has_no_piece(&self, pos: Position) -> (b: bool)
        ensures
            b == !self@.has_piece(pos),
    {
        self.get_piece(pos).is_none()
    }

    pub fn get_king_pos(&self, color: Color) -> (p: Position)
        ensures
            p == self@.king_pos(color),
    {
        let mut king_pos = Position::king_pos(color);
        let mut i: usize = 0;
        while i < 64
            invariant
                i <= 64,
                king_pos == (match self@.king_among(color, i as nat) {
                    Some(p) => p,
                    None => match color {
                        Color::White => Position { row: 0, col: 4 },
                        Color::Black => Position { row: 7, col: 4 },
                    },
                }),
            decreases 64 - i,
        {
            if let Some(Piece::King(c, pos)) = self.squares[i].get_piece() {
                if c == color {
                    king_pos = pos;
                }
            }
            i += 1;
        }
        king_pos
    }

    pub fn get_material_advantage(&self, color: Color) -> (v: i32)
        ensures
            v == self@.material_advantage(color),
    {
        let mut total: i32 = 0;
        let mut i: usize = 0;
        while i < 64
            invariant
                i <= 64,
                total == self@.material_among(color, i as nat),
                -60000 * i <= total <= 60000 * i,
            decreases 64 - i,
        {
            total = total + (match self.squares[i].get_piece() {
                Some(piece) => if piece.get_color() == color {
                    piece.get_material_value()
                } else {
                    -piece.get_material_value()
                },
                None => 0,
            });
            i += 1;
        }
        total
    }

    pub fn move_piece(&self, from: Position, to: Position) -> (b: Board)
        ensures
            b@ == self@.move_piece(from, to),
    {
        self.relocate(from, to, None)
    }

    /// Puts the piece on `from` on `to`, as `move_piece` does, with the
    /// piece of `promotion` in place of a queen where a pawn is promoted.
    pub fn relocate(&self, from: Position, to: Position, promotion: Option<Piece>) -> (b: Board)
        ensures
            b@ == self@.relocate(from, to, promotion),
    {
        proof {
            use_type_invariant(self);
        }
        if from.is_off_board() || to.is_off_board() {
            return *self;
        }
        let origin: usize = index_of(from);
        let target: usize = index_of(to);
        match self.squares[origin].get_piece() {
            Some(piece) => {
                let arrived = arriving(piece, to, promotion);
                let mut squares = self.squares;
                squares[origin] = Square::empty();
                squares[target] = Square::from(arrived);
                let result = Board {
                    squares,
                    en_passant: target_after(piece, from, to),
                    white_castling_rights: match piece.get_color() {
                        Color::White => rights_after(self.white_castling_rights, piece),
                        Color::Black => self.white_castling_rights,
                    },
                    black_castling_rights: match piece.get_color() {
                        Color::White => self.black_castling_rights,
                        Color::Black => rights_after(self.black_castling_rights, piece),
                    },
                    turn: self.turn,
                };
                result
            },
            None => *self,
        }
    }

    pub fn change_turn(self) -> (b: Board)
        ensures
            b@ == self@.change_turn(),
    {
        proof {
            use_type_invariant(&self);
        }
        let mut result = self;
        result.turn = self.turn.other();
        result
    }
    pub fn is_threatened(&self, pos: Position, ally_color: Color) -> (b: bool)
        ensures
            b == self@.threatened(pos, ally_color),
    {
        let mut i: usize = 0;
        while i < 64
            invariant
                i <= 64,
                forall|j: int| 0 <= j < i ==> !self@.attacker_at(j, pos, ally_color),
            decreases 64 - i,
        {
            if let Some(piece) = self.squares[i].get_piece() {
                if piece.get_color() != ally_color && piece.is_legal_attack(pos, self) {
                    assert(self@.attacker_at(i as int, pos, ally_color));
                    return true;
                }
            }
            i += 1;
        }
        false
    }

    pub fn is_in_check(&self, color: Color) -> (b: bool)
        ensures
            b == self@.in_check(color),
    {
        let king_pos = self.get_king_pos(color);
        self.is_threatened(king_pos, color)
    }

    pub fn can_kingside_castle(&self, color: Color) -> (b: bool)
        ensures
            b == self@.can_kingside_castle(color),
    {
        let row: i32 = match color {
            Color::White => 0,
            Color::Black => 7,
        };
        self.has_no_piece(Position::new(row, 5)) && self.has_no_piece(Position::new(row, 6))
            && !self.is_in_check(color) && !self.is_threatened(
            Position::king_pos(color).next_right(),
            color,
        ) && self.get_castling_rights(color).can_kingside_castle()
    }

    pub fn can_queenside_castle(&self, color: Color) -> (b: bool)
        ensures
            b == self@.can_queenside_castle(color),
    {
        let row: i32 = match color {
            Color::White => 0,
            Color::Black => 7,
        };
        self.has_no_piece(Position::new(row, 1)) && self.has_no_piece(Position::new(row, 2))
            && self.has_no_piece(Position::new(row, 3)) && !self.is_in_check(color)
            && !self.is_threatened(Position::queen_pos(color), color)
            && self.get_castling_rights(color).can_queenside_castle()
    }

    /// Whether `player_color` may play `m` on this board. A move that is
    /// legal never leaves the mover's own king in check.
    pub fn is_legal_move(&self, m: Move, player_color: Color) -> (b: bool)
        ensures
            b == self@.is_legal_move(m, player_color),
            b ==> !self@.apply_move(m).in_check(player_color),
    {
        (match m {
            Move::KingSideCastle => self.can_kingside_castle(player_color),
            Move::QueenSideCastle => self.can_queenside_castle(player_color),
            Move::Piece(from, to) => {
                if let Some(piece) = self.get_piece(from) {
                    piece.is_legal_move(to, self) && piece.get_color() == player_color
                } else {
                    false
                }
            },
            Move::Promotion(from, to, _) => {
                if let Some(piece) = self.get_piece(from) {
                    piece.is_pawn() && (to.get_row() == 0 || to.get_row() == 7)
                        && piece.is_legal_move(to, self) && piece.get_color() == player_color
                } else {
                    false
                }
            },
        }) && !self.apply_move(m).is_in_check(player_color)
    }

    pub fn apply_move(&self, m: Move) -> (b: Board)
        ensures
            b@ == self@.apply_move(m),
    {
        match m {
            Move::KingSideCastle => {
                let king_pos = self.get_king_pos(self.turn);
                let rook_pos = match self.turn {
                    Color::White => Position::new(0, 7),
                    Color::Black => Position::new(7, 7),
                };
                self.move_piece(king_pos, rook_pos.next_left()).move_piece(
                    rook_pos,
                    king_pos.next_right(),
                )
            },
            Move::QueenSideCastle => {
                let king_pos = self.get_king_pos(self.turn);
                let rook_pos = match self.turn {
                    Color::White => Position::new(0, 0),
                    Color::Black => Position::new(7, 0),
                };
                self.move_piece(king_pos, king_pos.next_left().next_left()).move_piece(
                    rook_pos,
                    king_pos.next_left(),
                )
            },
            Move::Piece(from, to) => self.move_piece(from, to),
            Move::Promotion(from, to, piece) => self.relocate(from, to, Some(piece)),
        }
    }

    /// Plays `m` for the side to move and says what came of it. The board
    /// itself stays as it is.
    pub fn play_move(&self, m: Move) -> (result: GameResult)
        ensures
            result@ == self@.play_move(m),
            !(m is Promotion) && (m is KingSideCastle || m is QueenSideCastle ==> self@.has_king(
                self@.turn,
            )) && !self@.legal_moves().contains(m) ==> result@ == Outcome::IllegalMove(m),
    {
        proof {
            use_type_invariant(self);
            if !(m is Promotion) && (m is KingSideCastle || m is QueenSideCastle
                ==> self@.has_king(self@.turn)) {
                law_moves_not_listed_are_refused(self@, m);
            }
        }
        let current_color = self.get_turn_color();
        if self.is_legal_move(m, current_color) {
            let next_turn = self.apply_move(m).change_turn();
            if next_turn.get_legal_moves().len() == 0 {
                if next_turn.is_in_check(next_turn.get_turn_color()) {
                    GameResult::Victory(current_color)
                } else {
                    GameResult::Stalemate
                }
            } else {
                GameResult::Continuing(next_turn)
            }
        } else {
            GameResult::IllegalMove(m)
        }
    }
}

} // verus!
