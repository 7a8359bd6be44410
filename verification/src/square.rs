use crate::Piece;
use vstd::prelude::*;
use vstd::std_specs::convert::FromSpecImpl;

verus! {

/// One square of the board: empty, or holding one piece.
#[derive(Clone, Copy, Debug, PartialEq, Eq, PartialOrd, Ord, Structural)]
pub struct Square {
    pub piece: Option<Piece>,
}

impl FromSpecImpl<Piece> for Square {
    open spec fn obeys_from_spec() -> bool {
        true
    }

    open spec fn from_spec(piece: Piece) -> Square {
        Square { piece: Some(piece) }
    }
}

impl From<Piece> for Square {
    fn from(piece: Piece) -> (s: Square) {
        Self { piece: Some(piece) }
    }
}

impl Square {
    /// The square with nothing on it.
    pub fn empty() -> (s: Square)
        ensures
            s == (Square { piece: None }),
    {
        Self { piece: None }
    }

    pub fn is_empty(&self) -> (b: bool)
        ensures
            b == (self.piece is None),
    {
        self.piece.is_none()
    }

    pub fn get_piece(&self) -> (p: Option<Piece>)
        ensures
            p == self.piece,
    {
        self.piece
    }
}

} // verus!
