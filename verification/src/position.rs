use crate::text::{
    chars_of, decimal, digit_of, digit_value, lowercased, push_char, push_decimal, str_to_lowercase,
    str_trim, told, trimmed,
};
use crate::Color;
use vstd::prelude::*;
use vstd::string::*;

verus! {

/// A square's coordinates. Rank and file run from 0 to 7 on the board; any
/// other value is a legitimate coordinate that lies off the board.
#[derive(Clone, Copy, Debug, PartialEq, Eq, PartialOrd, Ord, Structural)]
pub struct Position {
    pub row: i32,
    pub col: i32,
}

/// The integer nearest to `x` that an `i32` can hold.
pub open spec fn clip(x: int) -> i32 {
    if x < i32::MIN {
        i32::MIN
    } else if x > i32::MAX {
        i32::MAX
    } else {
        x as i32
    }
}

/// The distance between two integers.
pub open spec fn gap(a: int, b: int) -> int {
    if a <= b {
        b - a
    } else {
        a - b
    }
}

/// The square reached from `from` after `n` steps of `(dr, dc)`.
pub open spec fn walk(from: Position, dr: int, dc: int, n: int) -> Position {
    Position { row: clip(from.row + n * dr), col: clip(from.col + n * dc) }
}

/// The `len` squares that follow `from` in the direction `(dr, dc)`, nearest first.
pub open spec fn ray(from: Position, dr: int, dc: int, len: nat) -> Seq<Position> {
    Seq::new(len, |i: int| walk(from, dr, dc, i + 1))
}

/// The letter of the file `col`; a question mark for a file off the board.
pub open spec fn file_char(col: int) -> char {
    if col == 0 {
        'a'
    } else if col == 1 {
        'b'
    } else if col == 2 {
        'c'
    } else if col == 3 {
        'd'
    } else if col == 4 {
        'e'
    } else if col == 5 {
        'f'
    } else if col == 6 {
        'g'
    } else if col == 7 {
        'h'
    } else {
        '?'
    }
}

/// The file that the letter `c` names; none where `c` is none of `a` to `h`.
pub open spec fn file_of_char(c: char) -> Option<i32> {
    if c == 'a' {
        Some(0)
    } else if c == 'b' {
        Some(1)
    } else if c == 'c' {
        Some(2)
    } else if c == 'd' {
        Some(3)
    } else if c == 'e' {
        Some(4)
    } else if c == 'f' {
        Some(5)
    } else if c == 'g' {
        Some(6)
    } else if c == 'h' {
        Some(7)
    } else {
        None
    }
}

/// The square that the text `t` names, `t` being trimmed and in lower
/// case: a file letter and a digit, the digit one more than the rank; what
/// follows the two is not looked at. The digit is not held to the board:
/// `0` names the rank below the first and `9` the rank above the eighth.
pub open spec fn parse_square(t: Seq<char>) -> Result<Position, Seq<char>> {
    if t.len() < 2 || digit_value(t[1]) is None {
        Err("invalid pgn `"@ + t + "`"@)
    } else {
        match file_of_char(t[0]) {
            Some(col) => Ok(Position { row: (digit_value(t[1])->0 - 1) as i32, col }),
            None => Err("invalid column character `"@ + seq![t[0]] + "`"@),
        }
    }
}

/// The square that the text `s` names: as it stands where it starts with
/// a file letter and a digit, else once it has been trimmed and put in
/// lower case.
pub open spec fn pgn_square(s: Seq<char>) -> Result<Position, Seq<char>> {
    if parse_square(s) is Ok {
        parse_square(s)
    } else {
        parse_square(str_to_lowercase(str_trim(s)))
    }
}

pub(crate) fn file_of(c: char) -> (col: Option<i32>)
    ensures
        col == file_of_char(c),
{
    if c == 'a' {
        Some(0)
    } else if c == 'b' {
        Some(1)
    } else if c == 'c' {
        Some(2)
    } else if c == 'd' {
        Some(3)
    } else if c == 'e' {
        Some(4)
    } else if c == 'f' {
        Some(5)
    } else if c == 'g' {
        Some(6)
    } else if c == 'h' {
        Some(7)
    } else {
        None
    }
}

proof fn lemma_unit_steps(n: int, d: int)
    ensures
        d == 1 ==> n * d == n,
        d == -1 ==> n * d == -n,
        d == 0 ==> n * d == 0,
{
}

fn distance(a: i32, b: i32) -> (d: i64)
    ensures
        d == gap(a as int, b as int),
{
    let wide_a: i64 = a as i64;
    let wide_b: i64 = b as i64;
    if wide_a <= wide_b {
        wide_b - wide_a
    } else {
        wide_a - wide_b
    }
}

impl Position {
    pub open spec fn on_board(self) -> bool {
        0 <= self.row <= 7 && 0 <= self.col <= 7
    }

    pub open spec fn left(self) -> Position {
        Position { row: self.row, col: clip(self.col - 1) }
    }

    pub open spec fn right(self) -> Position {
        Position { row: self.row, col: clip(self.col + 1) }
    }

    pub open spec fn above(self) -> Position {
        Position { row: clip(self.row + 1), col: self.col }
    }

    pub open spec fn below(self) -> Position {
        Position { row: clip(self.row - 1), col: self.col }
    }

    /// One step in the direction in which `color`'s pawns advance.
    pub open spec fn forward(self, color: Color) -> Position {
        match color {
            Color::White => self.above(),
            Color::Black => self.below(),
        }
    }

    pub open spec fn diagonal_to(self, other: Position) -> bool {
        gap(self.col as int, other.col as int) == gap(self.row as int, other.row as int)
    }

    pub open spec fn orthogonal_to(self, other: Position) -> bool {
        self.col == other.col || self.row == other.row
    }

    /// Whether `other` is one king's step away.
    pub open spec fn adjacent_to(self, other: Position) -> bool {
        let dr = gap(self.row as int, other.row as int);
        let dc = gap(self.col as int, other.col as int);
        dr <= 1 && dc <= 1 && (dr == 1 || dc == 1)
    }

    pub open spec fn knight_move_to(self, other: Position) -> bool {
        let dr = gap(self.row as int, other.row as int);
        let dc = gap(self.col as int, other.col as int);
        (dr == 2 && dc == 1) || (dr == 1 && dc == 2)
    }

    pub open spec fn starting_pawn_rank(self, color: Color) -> bool {
        match color {
            Color::White => self.row == 1,
            Color::Black => self.row == 6,
        }
    }

    pub open spec fn kingside_corner(self) -> bool {
        (self.row == 0 || self.row == 7) && self.col == 7
    }

    pub open spec fn queenside_corner(self) -> bool {
        (self.row == 0 || self.row == 7) && self.col == 0
    }

    /// The squares of the diagonal from `self` to `to`, `self` left out and
    /// `to` included; empty where the two do not share a diagonal.
    pub open spec fn diagonal_path(self, to: Position) -> Seq<Position> {
        if self.diagonal_to(to) {
            ray(
                self,
                if self.row < to.row { 1 } else { -1 },
                if self.col < to.col { 1 } else { -1 },
                gap(self.col as int, to.col as int) as nat,
            )
        } else {
            Seq::empty()
        }
    }

    /// The squares of the rank or file from `self` to `to`, `self` left out
    /// and `to` included; empty where the two share neither. Where both the
    /// rank and the file differ there is no such line.
    pub open spec fn orthogonal_path(self, to: Position) -> Seq<Position> {
        if self.orthogonal_to(to) {
            if self.col != to.col {
                ray(
                    self,
                    0,
                    if self.col < to.col { 1 } else { -1 },
                    gap(self.col as int, to.col as int) as nat,
                )
            } else {
                ray(
                    self,
                    if self.row < to.row { 1 } else { -1 },
                    0,
                    gap(self.row as int, to.row as int) as nat,
                )
            }
        } else {
            Seq::empty()
        }
    }

    /// The square as it is written: the letter of its file, a question mark
    /// for a file off the board, and the number of its rank, counted from 1.
    pub open spec fn text(self) -> Seq<char> {
        seq![file_char(self.col as int)] + decimal(self.row + 1)
    }

    pub fn to_string(&self) -> (s: String)
        ensures
            s@ == self.text(),
    {
        let mut s = String::new();
        push_char(
            &mut s,
            if self.col == 0 {
                'a'
            } else if self.col == 1 {
                'b'
            } else if self.col == 2 {
                'c'
            } else if self.col == 3 {
                'd'
            } else if self.col == 4 {
                'e'
            } else if self.col == 5 {
                'f'
            } else if self.col == 6 {
                'g'
            } else if self.col == 7 {
                'h'
            } else {
                '?'
            },
        );
        let rank: i64 = self.row as i64 + 1;
        push_decimal(&mut s, rank);
        s
    }

    /// Reads a square such as `e4` or `D8`. Text that starts with a file
    /// letter and a digit is read as it stands; any other text is trimmed
    /// and put in lower case, then read as `read` does.
    pub fn pgn(s: &str) -> (r: Result<Position, String>)
        ensures
            told(r) == pgn_square(s@),
    {
        match Self::read(s) {
            Ok(position) => Ok(position),
            Err(_) => {
                let s = lowercased(trimmed(s));
                Self::read(s.as_str())
            },
        }
    }

    /// Reads a square from text that is trimmed and in lower case.
    pub fn read(s: &str) -> (r: Result<Position, String>)
        ensures
            told(r) == parse_square(s@),
    {
        let chars = chars_of(s);
        if chars.len() < 2 {
            return Err(Self::invalid("invalid pgn `", s));
        }
        let col = chars[0];
        let row: i32 = match digit_of(chars[1]) {
            Some(d) => d as i32,
            None => {
                return Err(Self::invalid("invalid pgn `", s));
            },
        };
        let c: i32 = match file_of(col) {
            Some(c) => c,
            None => {
                let mut shown = String::new();
                push_char(&mut shown, col);
                return Err(Self::invalid("invalid column character `", shown.as_str()));
            },
        };
        Ok(Self::new(row - 1, c))
    }

    fn invalid(what: &str, shown: &str) -> (message: String)
        ensures
            message@ == what@ + shown@ + "`"@,
    {
        let mut message = String::from_str(what);
        message.append(shown);
        message.append("`");
        message
    }

    /// The square on which `color`'s king starts.
    pub fn king_pos(color: Color) -> (p: Position)
        ensures
            p == (match color {
                Color::White => Position { row: 0, col: 4 },
                Color::Black => Position { row: 7, col: 4 },
            }),
    {
        match color {
            Color::White => Self::new(0, 4),
            Color::Black => Self::new(7, 4),
        }
    }

    /// The square on which `color`'s queen starts.
    pub fn queen_pos(color: Color) -> (p: Position)
        ensures
            p == (match color {
                Color::White => Position { row: 0, col: 3 },
                Color::Black => Position { row: 7, col: 3 },
            }),
    {
        match color {
            Color::White => Self::new(0, 3),
            Color::Black => Self::new(7, 3),
        }
    }

    pub fn new(row: i32, col: i32) -> (p: Position)
        ensures
            p == (Position { row, col }),
    {
        Self { row, col }
    }

    pub fn is_on_board(&self) -> (b: bool)
        ensures
            b == self.on_board(),
    {
        !self.is_off_board()
    }

    pub fn is_off_board(&self) -> (b: bool)
        ensures
            b == !self.on_board(),
    {
        self.row < 0 || self.row > 7 || self.col < 0 || self.col > 7
    }

    pub fn get_row(&self) -> (r: i32)
        ensures
            r == self.row,
    {
        self.row
    }

    pub fn get_col(&self) -> (c: i32)
        ensures
            c == self.col,
    {
        self.col
    }

    fn add_row(&self, drow: i32) -> (p: Position)
        requires
            i32::MIN <= self.row + drow <= i32::MAX,
        ensures
            p == (Position { row: (self.row + drow) as i32, col: self.col }),
    {
        let mut result = *self;
        result.row = result.row + drow;
        result
    }

    fn add_col(&self, dcol: i32) -> (p: Position)
        requires
            i32::MIN <= self.col + dcol <= i32::MAX,
        ensures
            p == (Position { row: self.row, col: (self.col + dcol) as i32 }),
    {
        let mut result = *self;
        result.col = result.col + dcol;
        result
    }

    pub fn is_diagonal_to(&self, other: Self) -> (b: bool)
        ensures
            b == self.diagonal_to(other),
    {
        distance(self.col, other.col) == distance(self.row, other.row)
    }

    fn diagonal_distance(&self, other: Self) -> (d: i64)
        ensures
            d == gap(self.col as int, other.col as int),
    {
        distance(self.col, other.col)
    }

    pub fn is_orthogonal_to(&self, other: Self) -> (b: bool)
        ensures
            b == self.orthogonal_to(other),
    {
        (self.col == other.col) || (self.row == other.row)
    }

    fn orthogonal_distance(&self, other: Self) -> (d: i64)
        ensures
            d == gap(self.col as int, other.col as int) + gap(self.row as int, other.row as int),
    {
        distance(self.col, other.col) + distance(self.row, other.row)
    }

    pub fn is_adjacent_to(&self, other: Self) -> (b: bool)
        ensures
            b == self.adjacent_to(other),
    {
        if self.is_orthogonal_to(other) {
            self.orthogonal_distance(other) == 1
        } else if self.is_diagonal_to(other) {
            self.diagonal_distance(other) == 1
        } else {
            false
        }
    }

    pub fn is_below(&self, other: Self) -> (b: bool)
        ensures
            b == (self.row < other.row),
    {
        self.row < other.row
    }

    pub fn is_above(&self, other: Self) -> (b: bool)
        ensures
            b == (self.row > other.row),
    {
        self.row > other.row
    }

    pub fn is_left_of(&self, other: Self) -> (b: bool)
        ensures
            b == (self.col < other.col),
    {
        self.col < other.col
    }

    pub fn is_right_of(&self, other: Self) -> (b: bool)
        ensures
            b == (self.col > other.col),
    {
        self.col > other.col
    }

    /// The square one rank down; at the lowest rank an `i32` can hold, the
    /// square itself.
    pub fn next_below(&self) -> (p: Position)
        ensures
            p == self.below(),
    {
        if self.row > i32::MIN {
            Self::new(self.row - 1, self.col)
        } else {
            *self
        }
    }

    /// The square one rank up; at the highest rank an `i32` can hold, the
    /// square itself.
    pub fn next_above(&self) -> (p: Position)
        ensures
            p == self.above(),
    {
        if self.row < i32::MAX {
            Self::new(self.row + 1, self.col)
        } else {
            *self
        }
    }

    pub fn pawn_up(&self, ally_color: Color) -> (p: Position)
        ensures
            p == self.forward(ally_color),
    {
        match ally_color {
            Color::White => self.next_above(),
            Color::Black => self.next_below(),
        }
    }

    pub fn pawn_back(&self, ally_color: Color) -> (p: Position)
        ensures
            p == self.forward(ally_color.opposite()),
    {
        self.pawn_up(ally_color.other())
    }

    /// The square one file to the left; at the lowest file an `i32` can
    /// hold, the square itself.
    pub fn next_left(&self) -> (p: Position)
        ensures
            p == self.left(),
    {
        if self.col > i32::MIN {
            Self::new(self.row, self.col - 1)
        } else {
            *self
        }
    }

    /// The square one file to the right; at the highest file an `i32` can
    /// hold, the square itself.
    pub fn next_right(&self) -> (p: Position)
        ensures
            p == self.right(),
    {
        if self.col < i32::MAX {
            Self::new(self.row, self.col + 1)
        } else {
            *self
        }
    }

    pub fn is_starting_pawn(&self, color: Color) -> (b: bool)
        ensures
            b == self.starting_pawn_rank(color),
    {
        match color {
            Color::White => self.row == 1,
            Color::Black => self.row == 6,
        }
    }

    pub fn is_kingside_rook(&self) -> (b: bool)
        ensures
            b == self.kingside_corner(),
    {
        (self.row == 0 || self.row == 7) && self.col == 7
    }

    pub fn is_queenside_rook(&self) -> (b: bool)
        ensures
            b == self.queenside_corner(),
    {
        (self.row == 0 || self.row == 7) && self.col == 0
    }

    pub fn diagonals_to(&self, to: Self) -> (path: Vec<Position>)
        ensures
            path@ == self.diagonal_path(to),
    {
        if !self.is_diagonal_to(to) {
            return Vec::new();
        }
        let row_step: i32;
        let col_step: i32;
        if self.is_left_of(to) {
            col_step = 1;
        } else {
            col_step = -1;
        }

        if self.is_below(to) {
            row_step = 1;
        } else {
            row_step = -1;
        }

        let count: i64 = self.diagonal_distance(to);
        let mut acc = *self;
        let mut result: Vec<Position> = Vec::new();
        let mut i: i64 = 0;
        while i < count
            invariant
                0 <= i <= count,
                count == gap(self.col as int, to.col as int),
                count == gap(self.row as int, to.row as int),
                row_step == (if self.row < to.row { 1i32 } else { -1i32 }),
                col_step == (if self.col < to.col { 1i32 } else { -1i32 }),
                acc.row == self.row + i * row_step,
                acc.col == self.col + i * col_step,
                result@ == ray(*self, row_step as int, col_step as int, i as nat),
            decreases count - i,
        {
            proof {
                lemma_unit_steps(i as int, row_step as int);
                lemma_unit_steps(i as int, col_step as int);
                lemma_unit_steps(i + 1, row_step as int);
                lemma_unit_steps(i + 1, col_step as int);
            }
            acc = acc.add_row(row_step).add_col(col_step);
            result.push(acc);
            i = i + 1;
        }
        result
    }

    pub fn orthogonals_to(&self, to: Self) -> (path: Vec<Position>)
        ensures
            path@ == self.orthogonal_path(to),
    {
        if !self.is_orthogonal_to(to) {
            return Vec::new();
        }
        let mut row_step: i32 = 0;
        let mut col_step: i32 = 0;
        if self.is_left_of(to) {
            col_step = 1;
        } else if self.is_right_of(to) {
            col_step = -1;
        } else if self.is_above(to) {
            row_step = -1;
        } else if self.is_below(to) {
            row_step = 1;
        }

        let count: i64 = self.orthogonal_distance(to);
        let mut acc = *self;
        let mut result: Vec<Position> = Vec::new();
        let mut i: i64 = 0;
        while i < count
            invariant
                0 <= i <= count,
                self.orthogonal_to(to),
                count == gap(self.col as int, to.col as int) + gap(self.row as int, to.row as int),
                col_step == (if self.col < to.col { 1i32 } else if self.col > to.col { -1i32 } else { 0i32 }),
                row_step == (if self.col != to.col { 0i32 } else if self.row > to.row { -1i32 } else if self.row < to.row { 1i32 } else { 0i32 }),
                acc.row == self.row + i * row_step,
                acc.col == self.col + i * col_step,
                result@ == ray(*self, row_step as int, col_step as int, i as nat),
            decreases count - i,
        {
            proof {
                lemma_unit_steps(i as int, row_step as int);
                lemma_unit_steps(i as int, col_step as int);
                lemma_unit_steps(i + 1, row_step as int);
                lemma_unit_steps(i + 1, col_step as int);
            }
            acc = acc.add_row(row_step).add_col(col_step);
            result.push(acc);
            i = i + 1;
        }
        result
    }

    pub fn is_knight_move(&self, other: Self) -> (b: bool)
        ensures
            b == self.knight_move_to(other),
    {
        let dr: i64 = distance(self.row, other.row);
        let dc: i64 = distance(self.col, other.col);
        dr == 2 && dc == 1 || dr == 1 && dc == 2
    }
}

} // verus!
