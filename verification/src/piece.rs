use crate::state::BoardState;
use crate::{Board, Color, Move, Position};
use vstd::prelude::*;
use vstd::string::*;

verus! {

/// Positional weights in half points, one row per rank as the owner sees the
/// board from the far side: row 0 is the rank farthest from the owner's home
/// rank, row 7 the home rank itself.
pub const KING_WEIGHTS: [[i32; 8]; 8] = [
    [-6, -8, -8, -10, -10, -8, -8, -6],
    [-6, -8, -8, -10, -10, -8, -8, -6],
    [-6, -8, -8, -10, -10, -8, -8, -6],
    [-6, -8, -8, -10, -10, -8, -8, -6],
    [-4, -6, -6, -8, -8, -6, -6, -4],
    [-2, -4, -4, -4, -4, -4, -4, -2],
    [4, 4, 0, 0, 0, 0, 4, 4],
    [4, 6, 2, 0, 0, 2, 6, 4],
];

pub const QUEEN_WEIGHTS: [[i32; 8]; 8] = [
    [-4, -2, -2, -1, -1, -2, -2, -4],
    [-2, 0, 0, 0, 0, 0, 0, -2],
    [-2, 0, 1, 1, 1, 1, 0, -2],
    [-1, 0, 1, 1, 1, 1, 0, -1],
    [0, 0, 1, 1, 1, 1, 0, -1],
    [-2, 1, 1, 1, 1, 1, 0, -2],
    [-2, 0, 1, 0, 0, 0, 0, -2],
    [-2, 0, -2, -1, -1, -1, -2, -4],
];

pub const ROOK_WEIGHTS: [[i32; 8]; 8] = [
    [0, 0, 0, 0, 0, 0, 0, 0],
    [1, 2, 2, 2, 2, 2, 2, 1],
    [-1, 0, 0, 0, 0, 0, 0, -1],
    [-1, 0, 0, 0, 0, 0, 0, -1],
    [-1, 0, 0, 0, 0, 0, 0, -1],
    [-1, 0, 0, 0, 0, 0, 0, -1],
    [-1, 0, 0, 0, 0, 0, 0, -1],
    [0, 0, 0, 1, 1, 0, 0, 0],
];

pub const BISHOP_WEIGHTS: [[i32; 8]; 8] = [
    [-4, -2, -2, -2, -2, -2, -2, -4],
    [-2, 0, 0, 0, 0, 0, 0, -2],
    [-2, 0, 1, 2, 2, 1, 0, -2],
    [-2, 1, 1, 2, 2, 1, 1, -2],
    [-2, 0, 2, 2, 2, 2, 0, -2],
    [-2, 2, 2, 2, 2, 2, 2, -2],
    [-2, 1, 0, 0, 0, 0, 1, -2],
    [-4, -2, -2, -2, -2, -2, -2, -4],
];

pub const KNIGHT_WEIGHTS: [[i32; 8]; 8] = [
    [-10, -8, -6, -6, -6, -6, -8, -10],
    [-8, -4, 0, 0, 0, 0, -4, -8],
    [-6, 0, 2, 3, 3, 2, 0, -6],
    [-6, 1, 3, 4, 4, 3, 1, -6],
    [-6, 0, 3, 4, 4, 3, 0, -6],
    [-6, 1, 2, 3, 3, 2, 1, -6],
    [-8, -4, 0, 1, 1, 0, -4, -8],
    [-10, -8, -6, -6, -6, -6, -8, -10],
];

pub const PAWN_WEIGHTS: [[i32; 8]; 8] = [
    [0, 0, 0, 0, 0, 0, 0, 0],
    [10, 10, 10, 10, 10, 10, 10, 10],
    [2, 2, 4, 6, 6, 4, 2, 2],
    [1, 1, 2, 5, 5, 2, 1, 1],
    [0, 0, 0, 4, 4, 0, 0, 0],
    [1, -1, -2, 0, 0, -2, -1, 1],
    [1, 3, -2, -4, -4, 2, 3, 1],
    [0, 0, 0, 0, 0, 0, 0, 0],
];

/// A piece: its kind, its owner and the square it stands on.
#[derive(Clone, Copy, Debug, PartialEq, Eq, PartialOrd, Ord, Structural)]
pub enum Piece {
    King(Color, Position),
    Queen(Color, Position),
    Rook(Color, Position),
    Bishop(Color, Position),
    Knight(Color, Position),
    Pawn(Color, Position),
}

/// Whether every square of `path` but the last is empty.
pub open spec fn clear_before_last(b: BoardState, path: Seq<Position>) -> bool {
    forall|i: int| 0 <= i < path.len() - 1 ==> !b.has_piece(#[trigger] path[i])
}

fn path_is_clear(board: &Board, path: Vec<Position>) -> (clear: bool)
    ensures
        clear == clear_before_last(board@, path@),
{
    let mut traveling = path;
    traveling.pop();
    let mut i: usize = 0;
    while i < traveling.len()
        invariant
            i <= traveling.len(),
            traveling@.len() == (if path@.len() == 0 { 0 } else { path@.len() - 1 }),
            forall|j: int| 0 <= j < traveling@.len() ==> traveling@[j] == path@[j],
            forall|j: int| 0 <= j < i ==> !board@.has_piece(#[trigger] path@[j]),
        decreases traveling.len() - i,
    {
        if board.has_piece(traveling[i]) {
            return false;
        }
        i += 1;
    }
    true
}

impl Piece {
    pub open spec fn color(self) -> Color {
        match self {
            Piece::King(c, _) => c,
            Piece::Queen(c, _) => c,
            Piece::Rook(c, _) => c,
            Piece::Bishop(c, _) => c,
            Piece::Knight(c, _) => c,
            Piece::Pawn(c, _) => c,
        }
    }

    pub open spec fn pos(self) -> Position {
        match self {
            Piece::King(_, p) => p,
            Piece::Queen(_, p) => p,
            Piece::Rook(_, p) => p,
            Piece::Bishop(_, p) => p,
            Piece::Knight(_, p) => p,
            Piece::Pawn(_, p) => p,
        }
    }

    /// The same kind of piece for the same owner on the square `to`.
    pub open spec fn at(self, to: Position) -> Piece {
        match self {
            Piece::King(c, _) => Piece::King(c, to),
            Piece::Queen(c, _) => Piece::Queen(c, to),
            Piece::Rook(c, _) => Piece::Rook(c, to),
            Piece::Bishop(c, _) => Piece::Bishop(c, to),
            Piece::Knight(c, _) => Piece::Knight(c, to),
            Piece::Pawn(c, _) => Piece::Pawn(c, to),
        }
    }

    /// Whether the two pieces are of one kind, whoever owns them and
    /// wherever they stand.
    pub open spec fn same_kind(self, other: Piece) -> bool {
        ||| self is King && other is King
        ||| self is Queen && other is Queen
        ||| self is Rook && other is Rook
        ||| self is Bishop && other is Bishop
        ||| self is Knight && other is Knight
        ||| self is Pawn && other is Pawn
    }

    /// The same kind of piece on the same square for `color`.
    pub open spec fn owned_by(self, color: Color) -> Piece {
        match self {
            Piece::King(_, p) => Piece::King(color, p),
            Piece::Queen(_, p) => Piece::Queen(color, p),
            Piece::Rook(_, p) => Piece::Rook(color, p),
            Piece::Bishop(_, p) => Piece::Bishop(color, p),
            Piece::Knight(_, p) => Piece::Knight(color, p),
            Piece::Pawn(_, p) => Piece::Pawn(color, p),
        }
    }

    pub open spec fn material(self) -> int {
        match self {
            Piece::King(_, _) => 60000,
            Piece::Queen(_, _) => 9,
            Piece::Rook(_, _) => 5,
            Piece::Bishop(_, _) => 3,
            Piece::Knight(_, _) => 3,
            Piece::Pawn(_, _) => 1,
        }
    }

    /// The weight, in half points, of standing on this square: the entry of
    /// the kind's table in the row counted from the far side.
    pub open spec fn square_weight(self) -> int
        recommends
            self.pos().on_board(),
    {
        let row = match self.color() {
            Color::White => 7 - self.pos().row,
            Color::Black => self.pos().row as int,
        };
        let col = self.pos().col as int;
        match self {
            Piece::King(_, _) => KING_WEIGHTS[row][col] as int,
            Piece::Queen(_, _) => QUEEN_WEIGHTS[row][col] as int,
            Piece::Rook(_, _) => ROOK_WEIGHTS[row][col] as int,
            Piece::Bishop(_, _) => BISHOP_WEIGHTS[row][col] as int,
            Piece::Knight(_, _) => KNIGHT_WEIGHTS[row][col] as int,
            Piece::Pawn(_, _) => PAWN_WEIGHTS[row][col] as int,
        }
    }

    /// What the piece is worth where it stands, in half points: ten times
    /// its material value plus the weight of its square.
    pub open spec fn weighted(self) -> int
        recommends
            self.pos().on_board(),
    {
        self.square_weight() + 20 * self.material()
    }

    pub open spec fn starting_pawn(self) -> bool {
        match self {
            Piece::Pawn(c, pos) => pos.starting_pawn_rank(c),
            _ => false,
        }
    }

    pub open spec fn queenside_rook(self) -> bool {
        match self {
            Piece::Rook(_, pos) => pos.queenside_corner(),
            _ => false,
        }
    }

    pub open spec fn kingside_rook(self) -> bool {
        match self {
            Piece::Rook(_, pos) => pos.kingside_corner(),
            _ => false,
        }
    }

    /// Whether a rook on `pos` reaches `to`: both on one rank or file, with
    /// nothing on the squares between them.
    pub open spec fn straight_reach(pos: Position, to: Position, b: BoardState) -> bool {
        pos.orthogonal_to(to) && clear_before_last(b, pos.orthogonal_path(to))
    }

    /// Whether a bishop on `pos` reaches `to`: both on one diagonal, with
    /// nothing on the squares between them.
    pub open spec fn diagonal_reach(pos: Position, to: Position, b: BoardState) -> bool {
        pos.diagonal_to(to) && clear_before_last(b, pos.diagonal_path(to))
    }

    /// Whether the piece threatens the square `to`: `to` is on the board,
    /// holds no piece of the same side, and lies where the piece captures.
    pub open spec fn attacks(self, to: Position, b: BoardState) -> bool {
        &&& to.on_board()
        &&& !b.has_ally_piece(to, self.color())
        &&& match self {
            Piece::Pawn(c, pos) => to == pos.forward(c).left() || to == pos.forward(c).right(),
            Piece::King(_, pos) => pos.adjacent_to(to),
            Piece::Queen(_, pos) => Self::straight_reach(pos, to, b) || Self::diagonal_reach(
                pos,
                to,
                b,
            ),
            Piece::Rook(_, pos) => Self::straight_reach(pos, to, b),
            Piece::Bishop(_, pos) => Self::diagonal_reach(pos, to, b),
            Piece::Knight(_, pos) => pos.knight_move_to(to),
        }
    }

    /// Whether the piece may go to `to` as far as its own way of moving
    /// decides it, whether or not its king is left in check: `to` is on the
    /// board, holds no piece of the same side, and
    /// - a pawn goes one square forward onto an empty square, two squares
    ///   forward from its starting rank over an empty square onto an empty
    ///   square, or one square diagonally forward onto an enemy piece;
    /// - every other piece goes where it threatens.
    pub open spec fn pseudo_legal(self, to: Position, b: BoardState) -> bool {
        &&& to.on_board()
        &&& !b.has_ally_piece(to, self.color())
        &&& match self {
            Piece::Pawn(c, pos) => {
                let up = pos.forward(c);
                ||| (self.starting_pawn() && !b.has_piece(to) && !b.has_piece(up) && to
                    == up.forward(c))
                ||| (b.has_enemy_piece(to, c) && to == up.left())
                ||| (b.has_enemy_piece(to, c) && to == up.right())
                ||| (!b.has_piece(to) && to == up)
            },
            _ => self.attacks(to, b),
        }
    }

    /// The squares a king on `pos` steps to.
    pub open spec fn king_steps(pos: Position) -> Seq<Position> {
        seq![
            pos.left(),
            pos.right(),
            pos.above(),
            pos.below(),
            pos.left().above(),
            pos.left().below(),
            pos.right().above(),
            pos.right().below(),
        ]
    }

    /// The squares a knight on `pos` jumps to.
    pub open spec fn knight_jumps(pos: Position) -> Seq<Position> {
        seq![
            pos.left().left().above(),
            pos.left().above().above(),
            pos.left().left().below(),
            pos.left().below().below(),
            pos.right().right().above(),
            pos.right().above().above(),
            pos.right().right().below(),
            pos.right().below().below(),
        ]
    }

    /// The squares a pawn of `color` on `pos` may ever go to: two forward,
    /// one forward, and the two diagonally forward.
    pub open spec fn pawn_steps(color: Color, pos: Position) -> Seq<Position> {
        let up = pos.forward(color);
        seq![up.forward(color), up, up.left(), up.right()]
    }

    /// The squares of the file of `pos`, from the first rank up.
    pub open spec fn file_squares(pos: Position) -> Seq<Position> {
        Seq::new(8, |i: int| Position { row: i as i32, col: pos.col })
    }

    /// The squares of the rank of `pos`, from the a-file on.
    pub open spec fn rank_squares(pos: Position) -> Seq<Position> {
        Seq::new(8, |i: int| Position { row: pos.row, col: i as i32 })
    }

    /// The squares of the board, rank by rank from a1.
    pub open spec fn all_squares() -> Seq<Position> {
        Seq::new(64, |i: int| Position { row: (i / 8) as i32, col: (i % 8) as i32 })
    }

    /// Whether the move of the piece to `to` is among its legal moves: `to`
    /// is another square than its own (and, where `diagonal` is set, on a
    /// diagonal with it), the piece may go there as it moves, both squares
    /// are on the board, and the board finds the move legal for its owner.
    pub open spec fn keeps(self, to: Position, diagonal: bool, b: BoardState) -> bool {
        &&& to != self.pos()
        &&& diagonal ==> to.diagonal_to(self.pos())
        &&& self.pseudo_legal(to, b)
        &&& self.pos().on_board()
        &&& to.on_board()
        &&& b.is_legal_move(Move::Piece(self.pos(), to), self.color())
    }

    /// The moves of the piece to those squares of `dests` that `keeps`
    /// holds of, in the order of `dests`.
    pub open spec fn kept(self, dests: Seq<Position>, diagonal: bool, b: BoardState) -> Seq<Move>
        decreases dests.len(),
    {
        if dests.len() == 0 {
            Seq::empty()
        } else {
            let before = self.kept(dests.drop_last(), diagonal, b);
            if self.keeps(dests.last(), diagonal, b) {
                before.push(Move::Piece(self.pos(), dests.last()))
            } else {
                before
            }
        }
    }

    /// The castles that `color` may legally make, the king's side first.
    pub open spec fn castles(color: Color, b: BoardState) -> Seq<Move> {
        (if b.can_kingside_castle(color) && b.is_legal_move(Move::KingSideCastle, color) {
            seq![Move::KingSideCastle]
        } else {
            Seq::empty()
        }) + (if b.can_queenside_castle(color) && b.is_legal_move(Move::QueenSideCastle, color) {
            seq![Move::QueenSideCastle]
        } else {
            Seq::empty()
        })
    }

    /// The legal moves of the piece on the board `b`: every square the piece
    /// may go to as it moves, kept where the board finds the move legal;
    /// for a king also the castles.
    pub open spec fn legal_moves(self, b: BoardState) -> Seq<Move> {
        match self {
            Piece::Pawn(c, pos) => self.kept(Self::pawn_steps(c, pos), false, b),
            Piece::King(c, pos) => self.kept(Self::king_steps(pos), false, b) + Self::castles(c, b),
            Piece::Queen(_, pos) => self.kept(Self::file_squares(pos), false, b) + self.kept(
                Self::rank_squares(pos),
                false,
                b,
            ) + self.kept(Self::all_squares(), true, b),
            Piece::Rook(_, pos) => self.kept(Self::file_squares(pos), false, b) + self.kept(
                Self::rank_squares(pos),
                false,
                b,
            ),
            Piece::Bishop(_, _) => self.kept(Self::all_squares(), true, b),
            Piece::Knight(_, pos) => self.kept(Self::knight_jumps(pos), false, b),
        }
    }

    /// The piece as a figurine: the filled figurine for White, the outlined
    /// one for Black.
    pub open spec fn figurine(self) -> Seq<char> {
        match self {
            Piece::King(Color::Black, _) => "♔"@,
            Piece::Queen(Color::Black, _) => "♕"@,
            Piece::Rook(Color::Black, _) => "♖"@,
            Piece::Knight(Color::Black, _) => "♘"@,
            Piece::Bishop(Color::Black, _) => "♗"@,
            Piece::Pawn(Color::Black, _) => "♙"@,
            Piece::King(Color::White, _) => "♚"@,
            Piece::Queen(Color::White, _) => "♛"@,
            Piece::Rook(Color::White, _) => "♜"@,
            Piece::Knight(Color::White, _) => "♞"@,
            Piece::Bishop(Color::White, _) => "♝"@,
            Piece::Pawn(Color::White, _) => "♟︎"@,
        }
    }

    pub fn to_string(&self) -> (s: String)
        ensures
            s@ == self.figurine(),
    {
        String::from_str(
            match self.get_color() {
                Color::Black => match self {
                    Self::King(_, _) => "♔",
                    Self::Queen(_, _) => "♕",
                    Self::Rook(_, _) => "♖",
                    Self::Knight(_, _) => "♘",
                    Self::Bishop(_, _) => "♗",
                    Self::Pawn(_, _) => "♙",
                },
                Color::White => match self {
                    Self::King(_, _) => "♚",
                    Self::Queen(_, _) => "♛",
                    Self::Rook(_, _) => "♜",
                    Self::Knight(_, _) => "♞",
                    Self::Bishop(_, _) => "♝",
                    Self::Pawn(_, _) => "♟︎",
                },
            },
        )
    }

    pub fn get_material_value(&self) -> (v: i32)
        ensures
            v == self.material(),
    {
        match self {
            Self::King(_, _) => 60000,
            Self::Queen(_, _) => 9,
            Self::Rook(_, _) => 5,
            Self::Bishop(_, _) => 3,
            Self::Knight(_, _) => 3,
            Self::Pawn(_, _) => 1,
        }
    }

    /// The piece's worth where it stands, in half points, so that every
    /// weight is a whole number.
    pub fn get_weighted_value(&self) -> (v: i32)
        requires
            self.pos().on_board(),
        ensures
            v == self.weighted(),
            -1300000 < v < 1300000,
    {
        let pos = self.get_pos();
        let row: usize = match self.get_color() {
            Color::White => (7 - pos.get_row()) as usize,
            Color::Black => pos.get_row() as usize,
        };
        let col: usize = pos.get_col() as usize;
        let weight: i32 = match self {
            Self::King(_, _) => KING_WEIGHTS[row][col],
            Self::Queen(_, _) => QUEEN_WEIGHTS[row][col],
            Self::Rook(_, _) => ROOK_WEIGHTS[row][col],
            Self::Bishop(_, _) => BISHOP_WEIGHTS[row][col],
            Self::Knight(_, _) => KNIGHT_WEIGHTS[row][col],
            Self::Pawn(_, _) => PAWN_WEIGHTS[row][col],
        };
        weight + self.get_material_value() * 20
    }

    pub fn get_color(&self) -> (c: Color)
        ensures
            c == self.color(),
    {
        match self {
            Self::King(c, _)
            | Self::Queen(c, _)
            | Self::Rook(c, _)
            | Self::Bishop(c, _)
            | Self::Knight(c, _)
            | Self::Pawn(c, _) => *c,
        }
    }

    pub fn get_pos(&self) -> (p: Position)
        ensures
            p == self.pos(),
    {
        match self {
            Self::King(_, p)
            | Self::Queen(_, p)
            | Self::Rook(_, p)
            | Self::Bishop(_, p)
            | Self::Knight(_, p)
            | Self::Pawn(_, p) => *p,
        }
    }

    pub fn is_king(&self) -> (b: bool)
        ensures
            b == (*self is King),
    {
        if let Self::King(_, _) = self {
            true
        } else {
            false
        }
    }

    pub fn is_queen(&self) -> (b: bool)
        ensures
            b == (*self is Queen),
    {
        if let Self::Queen(_, _) = self {
            true
        } else {
            false
        }
    }

    pub fn is_rook(&self) -> (b: bool)
        ensures
            b == (*self is Rook),
    {
        if let Self::Rook(_, _) = self {
            true
        } else {
            false
        }
    }

    pub fn is_bishop(&self) -> (b: bool)
        ensures
            b == (*self is Bishop),
    {
        if let Self::Bishop(_, _) = self {
            true
        } else {
            false
        }
    }

    pub fn is_knight(&self) -> (b: bool)
        ensures
            b == (*self is Knight),
    {
        if let Self::Knight(_, _) = self {
            true
        } else {
            false
        }
    }

    pub fn is_pawn(&self) -> (b: bool)
        ensures
            b == (*self is Pawn),
    {
        if let Self::Pawn(_, _) = self {
            true
        } else {
            false
        }
    }

    pub fn is_starting_pawn(&self) -> (b: bool)
        ensures
            b == self.starting_pawn(),
    {
        if let Self::Pawn(c, pos) = self {
            pos.is_starting_pawn(*c)
        } else {
            false
        }
    }

    pub fn is_queenside_rook(&self) -> (b: bool)
        ensures
            b == self.queenside_rook(),
    {
        if let Self::Rook(_, pos) = self {
            pos.is_queenside_rook()
        } else {
            false
        }
    }

    pub fn is_kingside_rook(&self) -> (b: bool)
        ensures
            b == self.kingside_rook(),
    {
        if let Self::Rook(_, pos) = self {
            pos.is_kingside_rook()
        } else {
            false
        }
    }

    pub fn move_to(&self, new_pos: Position) -> (p: Piece)
        ensures
            p == self.at(new_pos),
    {
        match *self {
            Self::King(c, _) => Self::King(c, new_pos),
            Self::Queen(c, _) => Self::Queen(c, new_pos),
            Self::Rook(c, _) => Self::Rook(c, new_pos),
            Self::Bishop(c, _) => Self::Bishop(c, new_pos),
            Self::Knight(c, _) => Self::Knight(c, new_pos),
            Self::Pawn(c, _) => Self::Pawn(c, new_pos),
        }
    }

    pub fn with_color(&self, color: Color) -> (p: Piece)
        ensures
            p == self.owned_by(color),
    {
        match *self {
            Self::King(_, pos) => Self::King(color, pos),
            Self::Queen(_, pos) => Self::Queen(color, pos),
            Self::Rook(_, pos) => Self::Rook(color, pos),
            Self::Bishop(_, pos) => Self::Bishop(color, pos),
            Self::Knight(_, pos) => Self::Knight(color, pos),
            Self::Pawn(_, pos) => Self::Pawn(color, pos),
        }
    }

    /// Whether `other` is a piece of the same kind.
    pub fn is_same_kind(&self, other: &Piece) -> (b: bool)
        ensures
            b == self.same_kind(*other),
    {
        match (self, other) {
            (Self::King(_, _), Self::King(_, _)) => true,
            (Self::Queen(_, _), Self::Queen(_, _)) => true,
            (Self::Rook(_, _), Self::Rook(_, _)) => true,
            (Self::Bishop(_, _), Self::Bishop(_, _)) => true,
            (Self::Knight(_, _), Self::Knight(_, _)) => true,
            (Self::Pawn(_, _), Self::Pawn(_, _)) => true,
            _ => false,
        }
    }
    pub fn is_legal_move(&self, new_pos: Position, board: &Board) -> (b: bool)
        ensures
            b == self.pseudo_legal(new_pos, board@),
    {
        if board.has_ally_piece(new_pos, self.get_color()) || new_pos.is_off_board() {
            return false;
        }
        match *self {
            Self::Pawn(ally_color, pos) => {
                let up = pos.pawn_up(ally_color);
                (self.is_starting_pawn() && board.has_no_piece(new_pos) && board.has_no_piece(up)
                    && new_pos == up.pawn_up(ally_color)) || (board.has_enemy_piece(
                    new_pos,
                    ally_color,
                ) && new_pos == up.next_left()) || (board.has_enemy_piece(new_pos, ally_color)
                    && new_pos == up.next_right()) || (board.has_no_piece(new_pos) && new_pos
                    == up)
            },
            _ => self.is_legal_attack(new_pos, board),
        }
    }

    pub fn is_legal_attack(&self, new_pos: Position, board: &Board) -> (b: bool)
        ensures
            b == self.attacks(new_pos, board@),
    {
        if board.has_ally_piece(new_pos, self.get_color()) || new_pos.is_off_board() {
            return false;
        }
        match *self {
            Self::Pawn(ally_color, pos) => {
                let up = pos.pawn_up(ally_color);
                new_pos == up.next_left() || new_pos == up.next_right()
            },
            Self::King(_, pos) => pos.is_adjacent_to(new_pos),
            Self::Queen(_, pos) => {
                if pos.is_orthogonal_to(new_pos) {
                    path_is_clear(board, pos.orthogonals_to(new_pos))
                } else if pos.is_diagonal_to(new_pos) {
                    path_is_clear(board, pos.diagonals_to(new_pos))
                } else {
                    false
                }
            },
            Self::Rook(_, pos) => {
                if pos.is_orthogonal_to(new_pos) {
                    path_is_clear(board, pos.orthogonals_to(new_pos))
                } else {
                    false
                }
            },
            Self::Bishop(_, pos) => {
                if pos.is_diagonal_to(new_pos) {
                    path_is_clear(board, pos.diagonals_to(new_pos))
                } else {
                    false
                }
            },
            Self::Knight(_, pos) => pos.is_knight_move(new_pos),
        }
    }
    /// Adds to `result` the piece's legal moves to the squares of `dests`.
    fn collect(&self, board: &Board, dests: &Vec<Position>, diagonal: bool, result: &mut Vec<Move>)
        ensures
            final(result)@ == old(result)@ + self.kept(dests@, diagonal, board@),
    {
        let pos = self.get_pos();
        let color = self.get_color();
        let mut i: usize = 0;
        while i < dests.len()
            invariant
                i <= dests.len(),
                pos == self.pos(),
                color == self.color(),
                result@ == old(result)@ + self.kept(dests@.take(i as int), diagonal, board@),
            decreases dests.len() - i,
        {
            let to = dests[i];
            proof {
                assert(dests@.take(i + 1).drop_last() =~= dests@.take(i as int));
            }
            if to != pos && (!diagonal || to.is_diagonal_to(pos)) && self.is_legal_move(to, board)
                && pos.is_on_board() && to.is_on_board() && board.is_legal_move(
                Move::Piece(pos, to),
                color,
            ) {
                result.push(Move::Piece(pos, to));
            }
            i += 1;
        }
        proof {
            assert(dests@.take(dests@.len() as int) =~= dests@);
        }
    }

    fn file_of(pos: Position) -> (squares: Vec<Position>)
        ensures
            squares@ == Self::file_squares(pos),
    {
        let mut squares: Vec<Position> = Vec::new();
        let mut row: i32 = 0;
        while row < 8
            invariant
                0 <= row <= 8,
                squares@ == Seq::new(row as nat, |i: int| Position { row: i as i32, col: pos.col }),
            decreases 8 - row,
        {
            squares.push(Position::new(row, pos.get_col()));
            row += 1;
        }
        squares
    }

    fn rank_of(pos: Position) -> (squares: Vec<Position>)
        ensures
            squares@ == Self::rank_squares(pos),
    {
        let mut squares: Vec<Position> = Vec::new();
        let mut col: i32 = 0;
        while col < 8
            invariant
                0 <= col <= 8,
                squares@ == Seq::new(col as nat, |i: int| Position { row: pos.row, col: i as i32 }),
            decreases 8 - col,
        {
            squares.push(Position::new(pos.get_row(), col));
            col += 1;
        }
        squares
    }

    fn whole_board() -> (squares: Vec<Position>)
        ensures
            squares@ == Self::all_squares(),
    {
        let mut squares: Vec<Position> = Vec::new();
        let mut row: i32 = 0;
        while row < 8
            invariant
                0 <= row <= 8,
                squares@ == Seq::new(
                    (8 * row) as nat,
                    |i: int| Position { row: (i / 8) as i32, col: (i % 8) as i32 },
                ),
            decreases 8 - row,
        {
            let mut col: i32 = 0;
            while col < 8
                invariant
                    0 <= row < 8,
                    0 <= col <= 8,
                    squares@ == Seq::new(
                        (8 * row + col) as nat,
                        |i: int| Position { row: (i / 8) as i32, col: (i % 8) as i32 },
                    ),
                decreases 8 - col,
            {
                squares.push(Position::new(row, col));
                col += 1;
            }
            row += 1;
        }
        squares
    }

    /// The piece's legal moves on `board`.
    pub fn get_legal_moves(&self, board: &Board) -> (moves: Vec<Move>)
        ensures
            moves@ == self.legal_moves(board@),
    {
        let mut result: Vec<Move> = Vec::new();
        match *self {
            Self::Pawn(ally_color, pos) => {
                let up = pos.pawn_up(ally_color);
                let dests: Vec<Position> = vec![
                    up.pawn_up(ally_color),
                    up,
                    up.next_left(),
                    up.next_right(),
                ];
                self.collect(board, &dests, false, &mut result);
            },
            Self::King(ally_color, pos) => {
                let dests: Vec<Position> = vec![
                    pos.next_left(),
                    pos.next_right(),
                    pos.next_above(),
                    pos.next_below(),
                    pos.next_left().next_above(),
                    pos.next_left().next_below(),
                    pos.next_right().next_above(),
                    pos.next_right().next_below(),
                ];
                self.collect(board, &dests, false, &mut result);
                if board.can_kingside_castle(ally_color) && board.is_legal_move(
                    Move::KingSideCastle,
                    ally_color,
                ) {
                    result.push(Move::KingSideCastle);
                }
                if board.can_queenside_castle(ally_color) && board.is_legal_move(
                    Move::QueenSideCastle,
                    ally_color,
                ) {
                    result.push(Move::QueenSideCastle);
                }
            },
            Self::Queen(_, pos) => {
                self.collect(board, &Self::file_of(pos), false, &mut result);
                self.collect(board, &Self::rank_of(pos), false, &mut result);
                self.collect(board, &Self::whole_board(), true, &mut result);
            },
            Self::Rook(_, pos) => {
                self.collect(board, &Self::file_of(pos), false, &mut result);
                self.collect(board, &Self::rank_of(pos), false, &mut result);
            },
            Self::Bishop(_, _) => {
                self.collect(board, &Self::whole_board(), true, &mut result);
            },
            Self::Knight(_, pos) => {
                let dests: Vec<Position> = vec![
                    pos.next_left().next_left().next_above(),
                    pos.next_left().next_above().next_above(),
                    pos.next_left().next_left().next_below(),
                    pos.next_left().next_below().next_below(),
                    pos.next_right().next_right().next_above(),
                    pos.next_right().next_above().next_above(),
                    pos.next_right().next_right().next_below(),
                    pos.next_right().next_below().next_below(),
                ];
                self.collect(board, &dests, false, &mut result);
            },
        }
        result
    }
}

} // verus!
