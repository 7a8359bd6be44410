use crate::board::Board;
use crate::state::{BoardState, Outcome};
use crate::text::told;
use crate::util::{fen_text, format_fen, parse_fen, parse_fen_text, parse_san_move, san_move};
use crate::{Color, GameResult};
use vstd::prelude::*;
use vstd::std_specs::convert::FromSpecImpl;
use vstd::string::*;

verus! {

/// What a player does when it is their turn.
pub enum GameAction {
    /// Accept the draw that the other player offered with their last move.
    AcceptDraw,
    /// Make the move, given in short algebraic notation.
    MakeMove(String),
    /// Make the move, given in short algebraic notation, and offer a draw.
    OfferDraw(String),
    /// Resign.
    Resign,
}

/// The conversion is stated by the `ensures` of `from`: the action holds a
/// string of the same characters, and which string that is, is not said.
impl<'a> FromSpecImpl<&'a str> for GameAction {
    open spec fn obeys_from_spec() -> bool {
        false
    }

    open spec fn from_spec(move_str: &'a str) -> GameAction {
        GameAction::MakeMove(arbitrary())
    }
}

impl<'a> From<&'a str> for GameAction {
    /// The action that is met most: to make the move `move_str`.
    fn from(move_str: &'a str) -> (action: GameAction)
        ensures
            action matches GameAction::MakeMove(text) && text@ == move_str@,
    {
        GameAction::MakeMove(String::from_str(move_str))
    }
}

#[derive(Clone, Copy, Debug, PartialEq, Eq, Structural)]
pub enum GameError {
    /// The move text fits more than one move.
    AmbiguousMove,
    /// The game is over: nothing more can be done.
    GameAlreadyOver,
    /// The move cannot be read, or it is not a legal move for the side to
    /// move.
    InvalidMove,
    /// The position cannot be read.
    InvalidPosition,
}

#[derive(Clone, Copy, Debug, PartialEq, Eq, Structural)]
pub enum GameOver {
    WhiteCheckmates,
    WhiteResigns,
    BlackCheckmates,
    BlackResigns,
    Stalemate,
    DrawAccepted,
}

/// A game between two players: the board, whether the player who moved
/// last offered a draw, and how the game ended once it has.
pub struct Game {
    pub board: Board,
    pub draw_offered: Option<Color>,
    pub status: Option<GameOver>,
}

/// What a game holds, as mathematics.
pub struct GameState {
    pub board: BoardState,
    pub draw_offered: Option<Color>,
    pub status: Option<GameOver>,
}

impl View for Game {
    type V = GameState;

    open spec fn view(&self) -> GameState {
        GameState { board: self.board@, draw_offered: self.draw_offered, status: self.status }
    }
}

impl Default for Game {
    /// A game at its start: no draw offered, not over.
    fn default() -> (game: Self)
        ensures
            game@ == (GameState { board: BoardState::start(), draw_offered: None, status: None }),
    {
        Game { board: Board::default(), draw_offered: None, status: None }
    }
}

impl GameState {
    /// The game after the side to move has accepted a draw, and what it is
    /// told: the draw stands if the other side offered it.
    pub open spec fn accept_draw(self) -> (GameState, Result<Option<GameOver>, GameError>) {
        match self.draw_offered {
            Some(color) => if color != self.board.turn {
                (
                    GameState { status: Some(GameOver::DrawAccepted), ..self },
                    Ok(Some(GameOver::DrawAccepted)),
                )
            } else {
                (self, Err(GameError::InvalidMove))
            },
            None => (self, Err(GameError::InvalidMove)),
        }
    }

    /// The game after the side to move has resigned, and what it is told.
    pub open spec fn resign(self) -> (GameState, Result<Option<GameOver>, GameError>) {
        let over = match self.board.turn {
            Color::Black => GameOver::BlackResigns,
            Color::White => GameOver::WhiteResigns,
        };
        (GameState { status: Some(over), ..self }, Ok(Some(over)))
    }

    /// The game after the side to move has made the move that `movestr`
    /// names, offering a draw or not, and what it is told. A text that names
    /// no move changes nothing. A move that is read takes the place of any
    /// draw offer, even where it then proves illegal. A move that ends the
    /// game leaves the board as it was.
    pub open spec fn move_piece(self, movestr: Seq<char>, draw_offered: bool) -> (
        GameState,
        Result<Option<GameOver>, GameError>,
    ) {
        match san_move(self.board, movestr) {
            Err(_) => (self, Err(GameError::InvalidMove)),
            Ok(chess_move) => {
                let offer = if draw_offered {
                    Some(self.board.turn)
                } else {
                    None
                };
                match self.board.play_move(chess_move) {
                    Outcome::Continuing(board) => (
                        GameState { board, draw_offered: offer, status: None },
                        Ok(None),
                    ),
                    Outcome::IllegalMove(_) => (
                        GameState { draw_offered: offer, ..self },
                        Err(GameError::InvalidMove),
                    ),
                    Outcome::Stalemate => (
                        GameState { draw_offered: offer, status: Some(GameOver::Stalemate), ..self },
                        Ok(Some(GameOver::Stalemate)),
                    ),
                    Outcome::Victory(color) => {
                        let over = match color {
                            Color::Black => GameOver::BlackCheckmates,
                            Color::White => GameOver::WhiteCheckmates,
                        };
                        (
                            GameState { draw_offered: offer, status: Some(over), ..self },
                            Ok(Some(over)),
                        )
                    },
                }
            },
        }
    }

    /// The game after `action`, and what the player is told. Nothing can be
    /// done once the game is over.
    pub open spec fn make_move(self, action: GameAction) -> (
        GameState,
        Result<Option<GameOver>, GameError>,
    ) {
        if self.status is Some {
            (self, Err(GameError::GameAlreadyOver))
        } else {
            match action {
                GameAction::AcceptDraw => self.accept_draw(),
                GameAction::MakeMove(move_str) => self.move_piece(move_str@, false),
                GameAction::OfferDraw(move_str) => self.move_piece(move_str@, true),
                GameAction::Resign => self.resign(),
            }
        }
    }
}

/// What a player is told, with the status itself in place of a reference
/// to it.
pub open spec fn told_status(r: Result<&Option<GameOver>, GameError>) -> Result<
    Option<GameOver>,
    GameError,
> {
    match r {
        Ok(status) => Ok(*status),
        Err(e) => Err(e),
    }
}

impl Game {
    /// The game that stands at the position `fen`, with the draw offer and
    /// the status given.
    pub fn from_fen(fen: &str, draw_offered: Option<Color>, status: Option<GameOver>) -> (r: Result<
        Self,
        GameError,
    >)
        ensures
            match r {
                Ok(game) => parse_fen_text(fen@) == Ok::<BoardState, Seq<char>>(game@.board)
                    && game.draw_offered == draw_offered && game.status == status,
                Err(e) => parse_fen_text(fen@) is Err && e == GameError::InvalidPosition,
            },
    {
        let board = match parse_fen(fen) {
            Ok(board) => board,
            Err(_) => {
                return Err(GameError::InvalidPosition);
            },
        };
        Ok(Game { board, draw_offered, status })
    }

    pub fn to_fen(&self, halfmove_clock: u8, fullmove_number: u8) -> (r: Result<String, String>)
        ensures
            r is Ok,
            r->Ok_0@ == fen_text(self@.board, halfmove_clock, fullmove_number),
    {
        format_fen(&self.board, halfmove_clock, fullmove_number)
    }

    pub fn get_turn_color(&self) -> (c: Color)
        ensures
            c == self@.board.turn,
    {
        self.board.get_turn_color()
    }

    /// Does what `action` says for the side to move, and tells how the game
    /// stands after it: over, and how, or not.
    pub fn make_move(&mut self, action: &GameAction) -> (r: Result<&Option<GameOver>, GameError>)
        ensures
            final(self)@ == old(self)@.make_move(*action).0,
            told_status(r) == old(self)@.make_move(*action).1,
    {
        if self.status.is_some() {
            return Err(GameError::GameAlreadyOver);
        }
        match action {
            GameAction::AcceptDraw => self.accept_draw(),
            GameAction::MakeMove(move_str) => self.move_piece(move_str.as_str(), false),
            GameAction::OfferDraw(move_str) => self.move_piece(move_str.as_str(), true),
            GameAction::Resign => self.resign(),
        }
    }

    /// Accepts the draw that the other player offered with their last move.
    pub fn accept_draw(&mut self) -> (r: Result<&Option<GameOver>, GameError>)
        ensures
            final(self)@ == old(self)@.accept_draw().0,
            told_status(r) == old(self)@.accept_draw().1,
    {
        if let Some(color) = self.draw_offered {
            if color != self.get_turn_color() {
                self.status = Some(GameOver::DrawAccepted);
                return Ok(&self.status);
            }
        }
        Err(GameError::InvalidMove)
    }

    /// Makes a move, given in short algebraic notation, and offers a draw
    /// with it or not.
    pub fn move_piece(&mut self, movestr: &str, draw_offered: bool) -> (r: Result<
        &Option<GameOver>,
        GameError,
    >)
        ensures
            final(self)@ == old(self)@.move_piece(movestr@, draw_offered).0,
            told_status(r) == old(self)@.move_piece(movestr@, draw_offered).1,
    {
        let chess_move = match parse_san_move(&self.board, movestr) {
            Ok(chess_move) => chess_move,
            Err(_) => {
                return Err(GameError::InvalidMove);
            },
        };

        self.draw_offered = match draw_offered {
            true => Some(self.get_turn_color()),
            false => None,
        };
        self.status = match self.board.play_move(chess_move) {
            GameResult::Continuing(board) => {
                self.board = board;
                None
            },
            GameResult::IllegalMove(_) => {
                return Err(GameError::InvalidMove);
            },
            GameResult::Stalemate => Some(GameOver::Stalemate),
            GameResult::Victory(color) => match color {
                Color::Black => Some(GameOver::BlackCheckmates),
                Color::White => Some(GameOver::WhiteCheckmates),
            },
        };
        Ok(&self.status)
    }

    /// Resigns for the side to move.
    pub fn resign(&mut self) -> (r: Result<&Option<GameOver>, GameError>)
        ensures
            final(self)@ == old(self)@.resign().0,
            told_status(r) == old(self)@.resign().1,
    {
        self.status = match self.get_turn_color() {
            Color::Black => Some(GameOver::BlackResigns),
            Color::White => Some(GameOver::WhiteResigns),
        };
        Ok(&self.status)
    }
}

} // verus!
