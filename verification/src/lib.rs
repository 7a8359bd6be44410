use core::ops::Not;
use vstd::prelude::*;
use vstd::string::*;

pub mod board;
pub mod game;
pub mod laws;
pub mod piece;
pub mod position;
pub mod pruning;
pub mod render;
pub mod round_trip;
pub mod search;
pub mod square;
pub mod state;
pub mod text;
pub mod util;

pub use board::{Board, BoardBuilder, CastlingRights};
pub use piece::Piece;
pub use position::Position;
pub use search::{Evaluate, Search};
pub use square::Square;
pub use state::{BoardState, Outcome};

verus! {

/// A move: a castle, a piece going from one square to another, or a pawn
/// going from one square to another and becoming the piece named.
#[derive(Clone, Copy, Debug, PartialEq, Eq, PartialOrd, Ord, Structural)]
pub enum Move {
    QueenSideCastle,
    KingSideCastle,
    Piece(Position, Position),
    Promotion(Position, Position, Piece),
}

impl Move {
    /// The move as it is written: the two squares with `to` between them,
    /// followed for a promotion by the figurine of the piece the pawn
    /// becomes, and `O-O` or `O-O-O` for a castle.
    pub open spec fn text(self) -> Seq<char> {
        match self {
            Move::Piece(from, to) => from.text() + " to "@ + to.text(),
            Move::Promotion(from, to, piece) => from.text() + " to "@ + to.text() + " "@
                + piece.figurine(),
            Move::KingSideCastle => "O-O"@,
            Move::QueenSideCastle => "O-O-O"@,
        }
    }

    pub fn to_string(&self) -> (s: String)
        ensures
            s@ == self.text(),
    {
        match self {
            Move::Piece(from, to) => {
                let mut s = from.to_string();
                s.append(" to ");
                s.append(to.to_string().as_str());
                s
            },
            Move::Promotion(from, to, piece) => {
                let mut s = from.to_string();
                s.append(" to ");
                s.append(to.to_string().as_str());
                s.append(" ");
                s.append(piece.to_string().as_str());
                s
            },
            Move::KingSideCastle => String::from_str("O-O"),
            Move::QueenSideCastle => String::from_str("O-O-O"),
        }
    }
}

/// What came of playing a move.
#[derive(Clone, Copy, Debug, PartialEq, Eq)]
pub enum GameResult {
    /// The move was made; here is the board for the other side.
    Continuing(Board),
    /// The move was made and won the game for this side.
    Victory(Color),
    /// The move was made and left the other side without a legal move
    /// though not in check.
    Stalemate,
    /// The move is not legal and nothing was played.
    IllegalMove(Move),
}

impl View for GameResult {
    type V = Outcome;

    open spec fn view(&self) -> Outcome {
        match *self {
            GameResult::Continuing(board) => Outcome::Continuing(board@),
            GameResult::Victory(color) => Outcome::Victory(color),
            GameResult::Stalemate => Outcome::Stalemate,
            GameResult::IllegalMove(m) => Outcome::IllegalMove(m),
        }
    }
}

/// One of the two sides.
#[derive(Clone, Copy, Debug, PartialEq, Eq, PartialOrd, Ord, Structural)]
pub enum Color {
    White,
    Black,
}

impl Color {
    pub open spec fn opposite(self) -> Color {
        match self {
            Color::White => Color::Black,
            Color::Black => Color::White,
        }
    }

    /// The other side.
    pub fn other(self) -> (c: Color)
        ensures
            c == self.opposite(),
    {
        self.not()
    }

    /// The side's name.
    pub open spec fn name(self) -> Seq<char> {
        match self {
            Color::White => "White"@,
            Color::Black => "Black"@,
        }
    }

    pub fn to_string(&self) -> (s: String)
        ensures
            s@ == self.name(),
    {
        String::from_str(
            match self {
                Self::White => "White",
                Self::Black => "Black",
            },
        )
    }
}

impl vstd::std_specs::ops::NotSpecImpl for Color {
    open spec fn obeys_not_spec() -> bool {
        true
    }

    open spec fn not_req(self) -> bool {
        true
    }

    open spec fn not_spec(self) -> Color {
        self.opposite()
    }
}

impl Not for Color {
    type Output = Color;

    fn not(self) -> (c: Color) {
        match self {
            Color::White => Color::Black,
            Color::Black => Color::White,
        }
    }
}

} // verus!
