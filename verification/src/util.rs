use crate::board::{Board, BoardBuilder};
use crate::state::{square_index, BoardState};
use crate::text::{
    ascii_lower, ascii_upper_letter, char_is_alphabetic, char_is_numeric, chars_of, decimal,
    digit_of, digit_value, is_alphabetic, is_numeric, push_char, push_decimal, string_of,
    to_ascii_lower, told,
};
use crate::position::{file_of, file_of_char, pgn_square};
use crate::{Color, Evaluate, Move, Piece, Position, Square};
use vstd::prelude::*;
use vstd::string::*;

verus! {

/// The letter of a piece in a position's text: the kind's letter, in upper
/// case for White.
pub open spec fn piece_letter(p: Piece) -> char {
    match p {
        Piece::King(Color::White, _) => 'K',
        Piece::Knight(Color::White, _) => 'N',
        Piece::Bishop(Color::White, _) => 'B',
        Piece::Queen(Color::White, _) => 'Q',
        Piece::Pawn(Color::White, _) => 'P',
        Piece::Rook(Color::White, _) => 'R',
        Piece::King(Color::Black, _) => 'k',
        Piece::Knight(Color::Black, _) => 'n',
        Piece::Bishop(Color::Black, _) => 'b',
        Piece::Queen(Color::Black, _) => 'q',
        Piece::Pawn(Color::Black, _) => 'p',
        Piece::Rook(Color::Black, _) => 'r',
    }
}

/// The placement text for the first `n` squares, from a8 along each rank,
/// and the number of empty squares not yet written: each piece is its
/// letter, each run of empty squares within a rank its length, and a slash
/// stands between two ranks.
pub open spec fn placement_upto(squares: Seq<Square>, n: nat) -> (Seq<char>, int)
    decreases n,
{
    if n == 0 {
        (Seq::empty(), 0)
    } else {
        let before = placement_upto(squares, (n - 1) as nat);
        let i = n - 1;
        let with_square = match squares[i].piece {
            None => (before.0, before.1 + 1),
            Some(piece) => ((if before.1 != 0 {
                before.0 + decimal(before.1)
            } else {
                before.0
            }).push(piece_letter(piece)), 0),
        };
        if i % 8 == 7 {
            let flushed = if with_square.1 != 0 {
                with_square.0 + decimal(with_square.1)
            } else {
                with_square.0
            };
            (if i != 63 {
                flushed.push('/')
            } else {
                flushed
            }, 0)
        } else {
            with_square
        }
    }
}

/// The castling rights as text: of `K`, `Q`, `k` and `q` those that stand
/// for a right that is left, or `-` where none is.
pub open spec fn castling_text(b: BoardState) -> Seq<char> {
    let rights = (if b.white_castling_rights.kingside {
        seq!['K']
    } else {
        Seq::empty()
    }) + (if b.white_castling_rights.queenside {
        seq!['Q']
    } else {
        Seq::empty()
    }) + (if b.black_castling_rights.kingside {
        seq!['k']
    } else {
        Seq::empty()
    }) + (if b.black_castling_rights.queenside {
        seq!['q']
    } else {
        Seq::empty()
    });
    if rights.len() == 0 {
        seq!['-']
    } else {
        rights
    }
}

/// The position as text: placement, side to move, castling rights,
/// en-passant target, and the two counters that the caller keeps, with one
/// space between them.
pub open spec fn fen_text(b: BoardState, halfmove_clock: u8, fullmove_number: u8) -> Seq<char> {
    placement_upto(b.squares, 64).0 + seq![' '] + seq![
        match b.turn {
            Color::Black => 'b',
            Color::White => 'w',
        },
    ] + seq![' '] + castling_text(b) + seq![' '] + (match b.en_passant {
        None => seq!['-'],
        Some(position) => position.text(),
    }) + seq![' '] + decimal(halfmove_clock as int) + seq![' '] + decimal(fullmove_number as int)
}

fn letter_of(piece: Piece) -> (c: char)
    ensures
        c == piece_letter(piece),
{
    let ch: char = match piece {
        Piece::King(_, _) => 'k',
        Piece::Knight(_, _) => 'n',
        Piece::Bishop(_, _) => 'b',
        Piece::Queen(_, _) => 'q',
        Piece::Pawn(_, _) => 'p',
        Piece::Rook(_, _) => 'r',
    };
    match piece.get_color() {
        Color::White => ((ch as u8) - 32) as char,
        Color::Black => ch,
    }
}

fn placement_of(board: &Board) -> (text: String)
    ensures
        text@ == placement_upto(board@.squares, 64).0,
{
    let mut text = String::new();
    let mut skip: i32 = 0;
    let mut i: usize = 0;
    while i < 64
        invariant
            i <= 64,
            0 <= skip <= 8,
            skip <= i % 8,
            (text@, skip as int) == placement_upto(board@.squares, i as nat),
        decreases 64 - i,
    {
        let row: i32 = 7 - (i / 8) as i32;
        let col: i32 = (i % 8) as i32;
        let piece = board.get_piece(Position::new(row, col));
        match piece {
            None => {
                skip += 1;
            },
            Some(piece) => {
                if skip != 0 {
                    push_decimal(&mut text, skip as i64);
                    skip = 0;
                }
                push_char(&mut text, letter_of(piece));
            },
        };
        if col == 7 {
            if skip != 0 {
                push_decimal(&mut text, skip as i64);
                skip = 0;
            }
            if row != 0 {
                push_char(&mut text, '/');
            }
        }
        i += 1;
    }
    text
}

fn rights_of(board: &Board) -> (text: String)
    ensures
        text@ == castling_text(board@),
{
    let mut text = String::new();
    let mut any_castling_rights = false;
    let white_castling_rights = board.get_castling_rights(Color::White);
    if white_castling_rights.can_kingside_castle() {
        push_char(&mut text, 'K');
        any_castling_rights = true;
    }
    if white_castling_rights.can_queenside_castle() {
        push_char(&mut text, 'Q');
        any_castling_rights = true
    }
    let black_castling_rights = board.get_castling_rights(Color::Black);
    if black_castling_rights.can_kingside_castle() {
        push_char(&mut text, 'k');
        any_castling_rights = true;
    }
    if black_castling_rights.can_queenside_castle() {
        push_char(&mut text, 'q');
        any_castling_rights = true
    }
    if !any_castling_rights {
        push_char(&mut text, '-');
    }
    text
}

/// Writes the position in Forsyth-Edwards notation. The board does not
/// count moves, so both counters are given. Always succeeds.
pub fn format_fen(board: &Board, halfmove_clock: u8, fullmove_number: u8) -> (r: Result<
    String,
    String,
>)
    ensures
        r is Ok,
        r->Ok_0@ == fen_text(board@, halfmove_clock, fullmove_number),
{
    let mut fen = placement_of(board);
    push_char(&mut fen, ' ');
    push_char(
        &mut fen,
        match board.get_turn_color() {
            Color::Black => 'b',
            Color::White => 'w',
        },
    );
    push_char(&mut fen, ' ');
    fen.append(rights_of(board).as_str());
    push_char(&mut fen, ' ');
    match board.get_en_passant() {
        None => {
            push_char(&mut fen, '-');
        },
        Some(position) => {
            fen.append(position.to_string().as_str());
        },
    }
    push_char(&mut fen, ' ');
    push_decimal(&mut fen, halfmove_clock as i64);
    push_char(&mut fen, ' ');
    push_decimal(&mut fen, fullmove_number as i64);
    Ok(fen)
}

/// Whether `c` is one of the white-space characters of ASCII.
pub open spec fn is_space(c: char) -> bool {
    c == ' ' || c == '\t' || c == '\n' || c == '\x0C' || c == '\r'
}

/// The first place at or after `i` in `s` that holds no white space.
pub open spec fn skip_spaces(s: Seq<char>, i: int) -> int
    decreases s.len() - i,
{
    if 0 <= i < s.len() && is_space(s[i]) {
        skip_spaces(s, i + 1)
    } else {
        i
    }
}

/// The first place at or after `i` in `s` that holds white space.
pub open spec fn word_end(s: Seq<char>, i: int) -> int
    decreases s.len() - i,
{
    if 0 <= i < s.len() && !is_space(s[i]) {
        word_end(s, i + 1)
    } else {
        i
    }
}

/// Where the field number `k` of `s` starts, the fields being what white
/// space separates; the length of `s` where there is no such field.
pub open spec fn field_start(s: Seq<char>, k: nat) -> int
    decreases k,
{
    if k == 0 {
        skip_spaces(s, 0)
    } else {
        skip_spaces(s, word_end(s, field_start(s, (k - 1) as nat)))
    }
}

pub open spec fn has_field(s: Seq<char>, k: nat) -> bool {
    field_start(s, k) < s.len()
}

pub open spec fn field(s: Seq<char>, k: nat) -> Seq<char> {
    s.subrange(field_start(s, k), word_end(s, field_start(s, k)))
}

/// A placement half read: the board so far and the square that comes next.
pub struct Placing {
    pub builder: BoardBuilder,
    pub row: i32,
    pub col: i32,
}

/// A placement half read, as mathematics.
pub struct PlacingState {
    pub board: BoardState,
    pub row: int,
    pub col: int,
}

impl View for Placing {
    type V = PlacingState;

    open spec fn view(&self) -> PlacingState {
        PlacingState { board: self.builder@, row: self.row as int, col: self.col as int }
    }
}

/// The piece that the letter `c` stands for, on `pos`; none where `c` is no
/// piece's letter.
pub open spec fn piece_of_letter(c: char, pos: Position) -> Option<Piece> {
    let color = if ascii_upper_letter(c) {
        Color::White
    } else {
        Color::Black
    };
    let kind = ascii_lower(c);
    if kind == 'b' {
        Some(Piece::Bishop(color, pos))
    } else if kind == 'n' {
        Some(Piece::Knight(color, pos))
    } else if kind == 'q' {
        Some(Piece::Queen(color, pos))
    } else if kind == 'k' {
        Some(Piece::King(color, pos))
    } else if kind == 'p' {
        Some(Piece::Pawn(color, pos))
    } else if kind == 'r' {
        Some(Piece::Rook(color, pos))
    } else {
        None
    }
}

/// What one character of a placement does, `alphabetic` and `numeric`
/// saying what kind of character it is: a piece's letter puts the piece on
/// the next square, a digit passes over that many squares, a slash goes to
/// the next rank if this one is full. Any other letter is refused, and so
/// is any other numeric character; every other character is passed over.
/// Nothing is read past the end of a rank or below the first rank.
pub open spec fn place_char(p: PlacingState, c: char, alphabetic: bool, numeric: bool) -> Result<
    PlacingState,
    Seq<char>,
> {
    let pos = Position { row: p.row as i32, col: p.col as i32 };
    if (p.col > 7 && c != '/') || p.row < 0 {
        Err("too many pieces"@)
    } else if piece_of_letter(c, pos) is Some {
        Ok(
            PlacingState {
                board: p.board.with_piece(piece_of_letter(c, pos)->0),
                row: p.row,
                col: p.col + 1,
            },
        )
    } else if digit_value(c) is Some {
        Ok(PlacingState { board: p.board, row: p.row, col: p.col + digit_value(c)->0 })
    } else if c == '/' {
        if p.col != 8 {
            Err("incomplete row"@)
        } else {
            Ok(PlacingState { board: p.board, row: p.row - 1, col: 0 })
        }
    } else if alphabetic {
        Err("unexpected piece"@)
    } else if numeric {
        Err("unexpected digit"@)
    } else {
        Ok(p)
    }
}

/// What the first `n` characters of `chars` do to the placement `p`, one
/// after the other.
pub open spec fn place_from(p: PlacingState, chars: Seq<char>, n: nat) -> Result<
    PlacingState,
    Seq<char>,
>
    decreases n,
{
    if n == 0 {
        Ok(p)
    } else {
        match place_from(p, chars, (n - 1) as nat) {
            Ok(q) => place_char(
                q,
                chars[n - 1],
                char_is_alphabetic(chars[n - 1]),
                char_is_numeric(chars[n - 1]),
            ),
            Err(e) => Err(e),
        }
    }
}

/// The placement before anything is read: no piece, and a8 comes next.
pub open spec fn nothing_placed() -> PlacingState {
    PlacingState { board: BoardState::bare(), row: 7, col: 0 }
}

/// The board that a placement describes. The text must end at the end of a
/// rank or on the first rank.
pub open spec fn placement(chars: Seq<char>) -> Result<BoardState, Seq<char>> {
    match place_from(nothing_placed(), chars, chars.len()) {
        Ok(p) => if p.col != 8 && p.row != 0 {
            Err("incomplete position"@)
        } else {
            Ok(p.board)
        },
        Err(e) => Err(e),
    }
}

/// The side that `chars` names: `w` or `b`.
pub open spec fn active_color(chars: Seq<char>) -> Option<Color> {
    if chars == seq!['b'] {
        Some(Color::Black)
    } else if chars == seq!['w'] {
        Some(Color::White)
    } else {
        None
    }
}

/// The board with the castling rights that the first `n` characters of
/// `chars` name: `K` and `Q` for White, `k` and `q` for Black.
pub open spec fn castling_upto(b: BoardState, chars: Seq<char>, n: nat) -> Result<
    BoardState,
    Seq<char>,
>
    decreases n,
{
    if n == 0 {
        Ok(b)
    } else {
        match castling_upto(b, chars, (n - 1) as nat) {
            Ok(before) => {
                let c = chars[n - 1];
                let color = if ascii_upper_letter(c) {
                    Color::White
                } else {
                    Color::Black
                };
                if ascii_lower(c) == 'k' {
                    Ok(before.with_kingside_castle(color))
                } else if ascii_lower(c) == 'q' {
                    Ok(before.with_queenside_castle(color))
                } else {
                    Err("invalid castling side"@)
                }
            },
            Err(e) => Err(e),
        }
    }
}

/// The board with the castling rights that `chars` names; `-` names none.
pub open spec fn castling(b: BoardState, chars: Seq<char>) -> Result<BoardState, Seq<char>> {
    if chars == seq!['-'] {
        Ok(b)
    } else {
        castling_upto(b, chars, chars.len())
    }
}

/// The en-passant target that `chars` names; `-` names none.
pub open spec fn en_passant_target(chars: Seq<char>) -> Result<Option<Position>, Seq<char>> {
    if chars == seq!['-'] {
        Ok(None)
    } else {
        match pgn_square(chars) {
            Ok(position) => Ok(Some(position)),
            Err(_) => Err("invalid en passant"@),
        }
    }
}

/// The board that the text `s` describes. The text has four to six fields
/// with white space between them: placement, side to move, castling rights
/// and en-passant target, then the two counters, which are not read.
pub open spec fn parse_fen_text(s: Seq<char>) -> Result<BoardState, Seq<char>> {
    if !has_field(s, 3) || has_field(s, 6) {
        Err("wrong number of spaces"@)
    } else {
        match placement(field(s, 0)) {
            Err(e) => Err(e),
            Ok(placed) => match active_color(field(s, 1)) {
                None => Err("invalid active color"@),
                Some(color) => match castling(placed.set_turn(color), field(s, 2)) {
                    Err(e) => Err(e),
                    Ok(with_rights) => match en_passant_target(field(s, 3)) {
                        Err(e) => Err(e),
                        Ok(target) => Ok(with_rights.with_en_passant(target)),
                    },
                },
            },
        }
    }
}

fn space(c: char) -> (b: bool)
    ensures
        b == is_space(c),
{
    c == ' ' || c == '\t' || c == '\n' || c == '\x0C' || c == '\r'
}

fn after_spaces(chars: &Vec<char>, from: usize) -> (i: usize)
    requires
        from <= chars.len(),
    ensures
        i == skip_spaces(chars@, from as int),
        from <= i <= chars.len(),
    decreases chars.len() - from,
{
    if from < chars.len() && space(chars[from]) {
        after_spaces(chars, from + 1)
    } else {
        from
    }
}

fn end_of_word(chars: &Vec<char>, from: usize) -> (i: usize)
    requires
        from <= chars.len(),
    ensures
        i == word_end(chars@, from as int),
        from <= i <= chars.len(),
    decreases chars.len() - from,
{
    if from < chars.len() && !space(chars[from]) {
        end_of_word(chars, from + 1)
    } else {
        from
    }
}

fn slice_of(chars: &Vec<char>, from: usize, to: usize) -> (part: Vec<char>)
    requires
        from <= to <= chars.len(),
    ensures
        part@ == chars@.subrange(from as int, to as int),
{
    let mut part: Vec<char> = Vec::new();
    let mut i: usize = from;
    while i < to
        invariant
            from <= i <= to <= chars.len(),
            part@ == chars@.subrange(from as int, i as int),
        decreases to - i,
    {
        part.push(chars[i]);
        i += 1;
    }
    part
}

fn piece_for(c: char, pos: Position) -> (piece: Option<Piece>)
    ensures
        piece == piece_of_letter(c, pos),
{
    let color = if 'A' <= c && c <= 'Z' {
        Color::White
    } else {
        Color::Black
    };
    let kind = to_ascii_lower(c);
    if kind == 'b' {
        Some(Piece::Bishop(color, pos))
    } else if kind == 'n' {
        Some(Piece::Knight(color, pos))
    } else if kind == 'q' {
        Some(Piece::Queen(color, pos))
    } else if kind == 'k' {
        Some(Piece::King(color, pos))
    } else if kind == 'p' {
        Some(Piece::Pawn(color, pos))
    } else if kind == 'r' {
        Some(Piece::Rook(color, pos))
    } else {
        None
    }
}

/// Reads one character of a placement. `alphabetic` and `numeric` say what
/// `char::is_alphabetic` and `char::is_numeric` make of the character.
pub fn place(p: Placing, c: char, alphabetic: bool, numeric: bool) -> (r: Result<Placing, String>)
    ensures
        match r {
            Ok(q) => place_char(p@, c, alphabetic, numeric) == Ok::<PlacingState, Seq<char>>(q@),
            Err(e) => place_char(p@, c, alphabetic, numeric) == Err::<PlacingState, Seq<char>>(
                e@,
            ),
        },
{
    if (p.col > 7 && c != '/') || p.row < 0 {
        return Err(String::from_str("too many pieces"));
    }
    let position = Position::new(p.row, p.col);
    if let Some(piece) = piece_for(c, position) {
        Ok(Placing { builder: p.builder.piece(piece), row: p.row, col: p.col + 1 })
    } else if let Some(skip) = digit_of(c) {
        Ok(Placing { builder: p.builder, row: p.row, col: p.col + skip as i32 })
    } else if c == '/' {
        if p.col != 8 {
            return Err(String::from_str("incomplete row"));
        }
        Ok(Placing { builder: p.builder, row: p.row - 1, col: 0 })
    } else if alphabetic {
        Err(String::from_str("unexpected piece"))
    } else if numeric {
        Err(String::from_str("unexpected digit"))
    } else {
        Ok(p)
    }
}

fn read_placement(chars: &Vec<char>) -> (r: Result<BoardBuilder, String>)
    ensures
        match r {
            Ok(builder) => placement(chars@) == Ok::<BoardState, Seq<char>>(builder@),
            Err(e) => placement(chars@) == Err::<BoardState, Seq<char>>(e@),
        },
{
    let mut placing = Placing { builder: BoardBuilder::default(), row: 7, col: 0 };
    let mut i: usize = 0;
    while i < chars.len()
        invariant
            i <= chars.len(),
            place_from(nothing_placed(), chars@, i as nat) == Ok::<PlacingState, Seq<char>>(
                placing@,
            ),
        decreases chars.len() - i,
    {
        let c = chars[i];
        match place(placing, c, is_alphabetic(c), is_numeric(c)) {
            Ok(next) => {
                placing = next;
            },
            Err(e) => {
                proof {
                    lemma_place_fails(nothing_placed(), chars@, (i + 1) as nat, chars@.len());
                }
                return Err(e);
            },
        }
        i += 1;
    }
    if placing.col != 8 && placing.row != 0 {
        return Err(String::from_str("incomplete position"));
    }
    Ok(placing.builder)
}

/// Once a character has been refused, the placement is refused whatever
/// follows.
proof fn lemma_place_fails(p: PlacingState, chars: Seq<char>, n: nat, m: nat)
    requires
        n <= m,
        place_from(p, chars, n) is Err,
    ensures
        place_from(p, chars, m) == place_from(p, chars, n),
    decreases m,
{
    if n < m {
        lemma_place_fails(p, chars, n, (m - 1) as nat);
    }
}

proof fn lemma_castling_fails(b: BoardState, chars: Seq<char>, n: nat, m: nat)
    requires
        n <= m,
        castling_upto(b, chars, n) is Err,
    ensures
        castling_upto(b, chars, m) == castling_upto(b, chars, n),
    decreases m,
{
    if n < m {
        lemma_castling_fails(b, chars, n, (m - 1) as nat);
    }
}

fn read_castling(builder: BoardBuilder, chars: &Vec<char>) -> (r: Result<BoardBuilder, String>)
    ensures
        match r {
            Ok(with_rights) => castling(builder@, chars@) == Ok::<BoardState, Seq<char>>(
                with_rights@,
            ),
            Err(e) => castling(builder@, chars@) == Err::<BoardState, Seq<char>>(e@),
        },
{
    if chars.len() == 1 && chars[0] == '-' {
        assert(chars@ =~= seq!['-']);
        return Ok(builder);
    }
    let mut result = builder;
    let mut i: usize = 0;
    while i < chars.len()
        invariant
            i <= chars.len(),
            chars@ != seq!['-'],
            castling_upto(builder@, chars@, i as nat) == Ok::<BoardState, Seq<char>>(result@),
        decreases chars.len() - i,
    {
        let c = chars[i];
        let color = if 'A' <= c && c <= 'Z' {
            Color::White
        } else {
            Color::Black
        };
        let side = to_ascii_lower(c);
        if side == 'k' {
            result = result.enable_kingside_castle(color);
        } else if side == 'q' {
            result = result.enable_queenside_castle(color);
        } else {
            proof {
                lemma_castling_fails(builder@, chars@, (i + 1) as nat, chars@.len());
            }
            return Err(String::from_str("invalid castling side"));
        }
        i += 1;
    }
    Ok(result)
}

fn read_color(chars: &Vec<char>) -> (color: Option<Color>)
    ensures
        color == active_color(chars@),
{
    if chars.len() == 1 && chars[0] == 'b' {
        assert(chars@ =~= seq!['b']);
        Some(Color::Black)
    } else if chars.len() == 1 && chars[0] == 'w' {
        assert(chars@ =~= seq!['w']);
        Some(Color::White)
    } else {
        None
    }
}

fn read_target(chars: &Vec<char>) -> (r: Result<Option<Position>, String>)
    ensures
        told(r) == en_passant_target(chars@),
{
    if chars.len() == 1 && chars[0] == '-' {
        assert(chars@ =~= seq!['-']);
        return Ok(None);
    }
    match Position::pgn(string_of(chars).as_str()) {
        Ok(position) => Ok(Some(position)),
        Err(_) => Err(String::from_str("invalid en passant")),
    }
}

/// Reads a position in Forsyth-Edwards notation.
pub fn parse_fen(fen: &str) -> (r: Result<Board, String>)
    ensures
        match r {
            Ok(board) => parse_fen_text(fen@) == Ok::<BoardState, Seq<char>>(board@),
            Err(e) => parse_fen_text(fen@) == Err::<BoardState, Seq<char>>(e@),
        },
{
    let chars = chars_of(fen);
    let placement_start = after_spaces(&chars, 0);
    let placement_end = end_of_word(&chars, placement_start);
    let color_start = after_spaces(&chars, placement_end);
    let color_end = end_of_word(&chars, color_start);
    let castling_start = after_spaces(&chars, color_end);
    let castling_end = end_of_word(&chars, castling_start);
    let target_start = after_spaces(&chars, castling_end);
    let target_end = end_of_word(&chars, target_start);
    let halfmove_start = after_spaces(&chars, target_end);
    let halfmove_end = end_of_word(&chars, halfmove_start);
    let fullmove_start = after_spaces(&chars, halfmove_end);
    let fullmove_end = end_of_word(&chars, fullmove_start);
    let extra_start = after_spaces(&chars, fullmove_end);
    proof {
        reveal_with_fuel(field_start, 7);
    }
    if target_start >= chars.len() || extra_start < chars.len() {
        return Err(String::from_str("wrong number of spaces"));
    }
    let mut builder = match read_placement(&slice_of(&chars, placement_start, placement_end)) {
        Ok(builder) => builder,
        Err(e) => {
            return Err(e);
        },
    };
    builder = builder.set_turn(
        match read_color(&slice_of(&chars, color_start, color_end)) {
            Some(color) => color,
            None => {
                return Err(String::from_str("invalid active color"));
            },
        },
    );
    builder = match read_castling(builder, &slice_of(&chars, castling_start, castling_end)) {
        Ok(builder) => builder,
        Err(e) => {
            return Err(e);
        },
    };
    builder = builder.set_en_passant(
        match read_target(&slice_of(&chars, target_start, target_end)) {
            Ok(target) => target,
            Err(e) => {
                return Err(e);
            },
        },
    );
    Ok(builder.build())
}

/// What a move in short algebraic notation says, before the board is
/// looked at: the piece a pawn is to become, the two characters that name
/// the target square, the kind of piece that moves, and the file and the
/// rank it comes from as far as they are given.
#[derive(Clone, Copy, Debug, PartialEq, Eq, Structural)]
pub struct SanParts {
    pub promotion: Option<Piece>,
    pub target_file: char,
    pub target_rank: char,
    pub piece: Piece,
    pub column: Option<i32>,
    pub row: Option<i32>,
}

/// The piece that the letter `c` names in a move, for `color`, on no
/// square of the board; a pawn where `c` names no piece.
pub open spec fn named_piece(c: Option<char>, color: Color) -> Piece {
    let nowhere = Position { row: -1i32, col: -1i32 };
    if c == Some('B') {
        Piece::Bishop(color, nowhere)
    } else if c == Some('K') {
        Piece::King(color, nowhere)
    } else if c == Some('N') {
        Piece::Knight(color, nowhere)
    } else if c == Some('Q') {
        Piece::Queen(color, nowhere)
    } else if c == Some('R') {
        Piece::Rook(color, nowhere)
    } else {
        Piece::Pawn(color, nowhere)
    }
}

/// The rank that the digit `c` names: `1` to `8` name the ranks 0 to 7.
pub open spec fn rank_of_char(c: Option<char>) -> Option<i32> {
    match c {
        Some(d) => match digit_value(d) {
            Some(v) => if 1 <= v <= 8 {
                Some((v - 1) as i32)
            } else {
                None
            },
            None => None,
        },
        None => None,
    }
}

pub open spec fn file_of_letter(c: Option<char>) -> Option<i32> {
    match c {
        Some(l) => file_of_char(l),
        None => None,
    }
}

/// The character of `s` at `i` if `i` lies from `lo` up to `hi`.
pub open spec fn char_within(s: Seq<char>, i: int, lo: int, hi: int) -> Option<char> {
    if lo <= i < hi && 0 <= i < s.len() {
        Some(s[i])
    } else {
        None
    }
}

/// What the move text `s` says, for the side `color`. The text is read
/// from its end: a piece's letter, if the text ends in one, is what a pawn
/// is to become; the two characters before it name the target square. It
/// is then read from its start: a piece's letter, if the text starts with
/// one, is the kind that moves, a pawn if not; a file letter and a rank
/// digit that follow say where it comes from.
pub open spec fn san_parts(s: Seq<char>, color: Color) -> SanParts {
    let n = s.len() as int;
    let last = char_within(s, n - 1, 0, n);
    let promoted = named_piece(last, color);
    let promotion = if promoted is Pawn {
        None
    } else {
        Some(promoted)
    };
    let hi = if promotion is Some {
        n - 2
    } else {
        n - 1
    };
    let rank = if promotion is Some {
        char_within(s, n - 2, 0, n)
    } else {
        last
    };
    let file = char_within(s, hi - 1, 0, n);
    let end = if hi - 1 > 0 {
        hi - 1
    } else {
        0
    };
    let first = char_within(s, 0, 0, end);
    let piece = named_piece(first, color);
    let lo = if piece is Pawn {
        1int
    } else {
        2int
    };
    let from = if piece is Pawn {
        first
    } else {
        char_within(s, 1, 0, end)
    };
    let column = file_of_letter(from);
    let from_rank = if column is Some {
        char_within(s, lo, 0, end)
    } else {
        from
    };
    SanParts {
        promotion,
        target_file: match file {
            Some(c) => c,
            None => ' ',
        },
        target_rank: match rank {
            Some(c) => c,
            None => ' ',
        },
        piece,
        column,
        row: rank_of_char(from_rank),
    }
}

/// The piece that makes the move `m` if `m` is what `parts` and the target
/// `to` describe: a piece going to `to` that is of the kind named and comes
/// from the file and the rank named, where they are.
pub open spec fn san_candidate(b: BoardState, m: Move, parts: SanParts, to: Position) -> Option<
    Piece,
> {
    match m {
        Move::Piece(from, target) => match b.piece_at(from) {
            Some(piece) => if target == to && piece.same_kind(parts.piece) && (parts.column
                is None || parts.column == Some(piece.pos().col)) && (parts.row is None
                || parts.row == Some(piece.pos().row)) {
                Some(piece)
            } else {
                None
            },
            None => None,
        },
        _ => None,
    }
}

/// The pieces that make those of the first `n` of `moves` that `parts` and
/// `to` describe.
pub open spec fn san_candidates(
    b: BoardState,
    moves: Seq<Move>,
    n: nat,
    parts: SanParts,
    to: Position,
) -> Seq<Piece>
    decreases n,
{
    if n == 0 {
        Seq::empty()
    } else {
        let before = san_candidates(b, moves, (n - 1) as nat, parts, to);
        match san_candidate(b, moves[n - 1], parts, to) {
            Some(piece) => before.push(piece),
            None => before,
        }
    }
}

/// The move that `parts` and the target `to` name on the board `b`: the
/// one legal move that they describe, as a promotion where `parts` says
/// what the pawn becomes.
pub open spec fn san_resolve(b: BoardState, parts: SanParts, to: Position) -> Result<
    Move,
    Seq<char>,
> {
    let found = san_candidates(b, b.legal_moves(), b.legal_moves().len(), parts, to);
    if found.len() == 0 {
        Err("no matching move"@)
    } else if found.len() == 1 {
        match parts.promotion {
            None => Ok(Move::Piece(found[0].pos(), to)),
            Some(piece) => Ok(Move::Promotion(found[0].pos(), to, piece)),
        }
    } else {
        Err("ambiguous move"@)
    }
}

/// The move that the text `s` names on the board `b`. `0-0` and `0-0-0`
/// are the castles, whatever the board. Any other text names a target
/// square, read as `Position::pgn` reads it, and the piece that goes there.
pub open spec fn san_move(b: BoardState, s: Seq<char>) -> Result<Move, Seq<char>> {
    if s == seq!['0', '-', '0'] {
        Ok(Move::KingSideCastle)
    } else if s == seq!['0', '-', '0', '-', '0'] {
        Ok(Move::QueenSideCastle)
    } else {
        let parts = san_parts(s, b.turn);
        match pgn_square(seq![parts.target_file, parts.target_rank]) {
            Ok(to) => san_resolve(b, parts, to),
            Err(_) => Err("invalid to position"@),
        }
    }
}

fn piece_named(c: Option<char>, color: Color) -> (piece: Piece)
    ensures
        piece == named_piece(c, color),
{
    let offboard = Position::new(-1, -1);
    match c {
        Some('B') => Piece::Bishop(color, offboard),
        Some('K') => Piece::King(color, offboard),
        Some('N') => Piece::Knight(color, offboard),
        Some('Q') => Piece::Queen(color, offboard),
        Some('R') => Piece::Rook(color, offboard),
        _ => Piece::Pawn(color, offboard),
    }
}

fn rank_named(c: Option<char>) -> (row: Option<i32>)
    ensures
        row == rank_of_char(c),
{
    match c {
        Some(d) => match digit_of(d) {
            Some(v) => if 1 <= v && v <= 8 {
                Some(v as i32 - 1)
            } else {
                None
            },
            None => None,
        },
        None => None,
    }
}

/// Splits a move in short algebraic notation into what it says.
pub fn split_san(chars: &Vec<char>, color: Color) -> (parts: SanParts)
    ensures
        parts == san_parts(chars@, color),
{
    // the text is read from both ends: `lo` is the next place from the
    // start, `hi` the place after the next one from the end
    let mut lo: usize = 0;
    let mut hi: usize = chars.len();

    // optional pawn promotion
    let mut last: Option<char> = None;
    if lo < hi {
        hi -= 1;
        last = Some(chars[hi]);
    }
    let promoted = piece_named(last, color);
    let move_promotion = if promoted.is_pawn() {
        None
    } else {
        Some(promoted)
    };
    if move_promotion.is_some() {
        last = None;
        if lo < hi {
            hi -= 1;
            last = Some(chars[hi]);
        }
    }
    // to position
    let mut file: Option<char> = None;
    if lo < hi {
        hi -= 1;
        file = Some(chars[hi]);
    }
    // what is left is the source
    let mut source_column: Option<char> = None;
    if lo < hi {
        source_column = Some(chars[lo]);
        lo += 1;
    }
    let piece = piece_named(source_column, color);
    if !piece.is_pawn() {
        source_column = None;
        if lo < hi {
            source_column = Some(chars[lo]);
            lo += 1;
        }
    }
    let column = match source_column {
        Some(c) => file_of(c),
        None => None,
    };
    let mut source_row = source_column;
    if column.is_some() {
        source_row = None;
        if lo < hi {
            source_row = Some(chars[lo]);
        }
    }
    SanParts {
        promotion: move_promotion,
        target_file: match file {
            Some(c) => c,
            None => ' ',
        },
        target_rank: match last {
            Some(c) => c,
            None => ' ',
        },
        piece,
        column,
        row: rank_named(source_row),
    }
}

/// Finds the one legal move on `board` that `parts` and the target `to`
/// describe.
pub fn resolve_san(board: &Board, parts: SanParts, to: Position) -> (r: Result<Move, String>)
    ensures
        told(r) == san_resolve(board@, parts, to),
{
    let legal_moves = board.get_legal_moves();
    let mut candidates: Vec<Piece> = Vec::new();
    let mut i: usize = 0;
    while i < legal_moves.len()
        invariant
            i <= legal_moves.len(),
            legal_moves@ == board@.legal_moves(),
            candidates@ == san_candidates(board@, legal_moves@, i as nat, parts, to),
        decreases legal_moves.len() - i,
    {
        if let Move::Piece(from, target) = legal_moves[i] {
            if to == target {
                if let Some(board_piece) = board.get_piece(from) {
                    let pos = board_piece.get_pos();
                    if board_piece.is_same_kind(&parts.piece) && (parts.column.is_none()
                        || parts.column == Some(pos.get_col())) && (parts.row.is_none()
                        || parts.row == Some(pos.get_row())) {
                        candidates.push(board_piece);
                    }
                }
            }
        }
        i += 1;
    }
    if candidates.len() == 0 {
        Err(String::from_str("no matching move"))
    } else if candidates.len() == 1 {
        let move_from = candidates[0].get_pos();
        match parts.promotion {
            None => Ok(Move::Piece(move_from, to)),
            Some(piece) => Ok(Move::Promotion(move_from, to, piece)),
        }
    } else {
        Err(String::from_str("ambiguous move"))
    }
}

/// Reads a move in short algebraic notation for the side to move. The
/// text holds no mark of check or mate. A text that more than one legal
/// move answers to is refused as ambiguous.
pub fn parse_san_move(board: &Board, move_str: &str) -> (r: Result<Move, String>)
    ensures
        told(r) == san_move(board@, move_str@),
{
    let chars = chars_of(move_str);
    if chars.len() == 3 && chars[0] == '0' && chars[1] == '-' && chars[2] == '0' {
        assert(chars@ =~= seq!['0', '-', '0']);
        return Ok(Move::KingSideCastle);
    } else if chars.len() == 5 && chars[0] == '0' && chars[1] == '-' && chars[2] == '0'
        && chars[3] == '-' && chars[4] == '0' {
        assert(chars@ =~= seq!['0', '-', '0', '-', '0']);
        return Ok(Move::QueenSideCastle);
    }
    let parts = split_san(&chars, board.get_turn_color());
    let mut to = String::new();
    push_char(&mut to, parts.target_file);
    push_char(&mut to, parts.target_rank);
    assert(to@ =~= seq![parts.target_file, parts.target_rank]);
    let move_to = match Position::pgn(to.as_str()) {
        Ok(position) => position,
        Err(_) => {
            return Err(String::from_str("invalid to position"));
        },
    };
    resolve_san(board, parts, move_to)
}

} // verus!
