use crate::state::BoardState;
use crate::text::{decimal, push_decimal};
use crate::{Board, Color, Position};
use vstd::prelude::*;
use vstd::string::*;

verus! {

/// The shade of the square that is drawn in line `line` and column `col`
/// of the picture: the squares alternate, and the first one drawn has the
/// shade of the side that is not to move.
pub open spec fn shade(b: BoardState, line: int, col: int) -> Color {
    if (line + col) % 2 == 0 {
        b.turn.opposite()
    } else {
        b.turn
    }
}

/// The rank that is drawn in line `line` of the picture: the side to move
/// sees its own pieces at the bottom.
pub open spec fn rank_drawn(b: BoardState, line: int) -> int {
    match b.turn {
        Color::White => 7 - line,
        Color::Black => line,
    }
}

/// One square of the picture: the figurine of the piece on it or, where it
/// is empty, its shade; in red where the other side threatens the square,
/// else in green where the side to move does.
pub open spec fn cell_text(b: BoardState, line: int, col: int) -> Seq<char> {
    let pos = Position { row: rank_drawn(b, line) as i32, col: col as i32 };
    let s = match b.piece_at(pos) {
        Some(piece) => piece.figurine(),
        None => match shade(b, line, col) {
            Color::White => "░"@,
            Color::Black => "▓"@,
        },
    };
    if b.threatened(pos, b.turn) {
        "\x1b[31m"@ + s + "\x1b[m\x1b[0m"@
    } else if b.threatened(pos, b.turn.opposite()) {
        "\x1b[32m"@ + s + "\x1b[m\x1b[0m"@
    } else {
        s
    }
}

/// The first `n` squares of line `line` of the picture.
pub open spec fn cells_text(b: BoardState, line: int, n: nat) -> Seq<char>
    decreases n,
{
    if n == 0 {
        Seq::empty()
    } else {
        cells_text(b, line, (n - 1) as nat) + cell_text(b, line, n - 1)
    }
}

/// Line `line` of the picture: a line break, the number of the rank, and
/// its eight squares between two bars.
pub open spec fn line_text(b: BoardState, line: int) -> Seq<char> {
    "\n"@ + decimal(rank_drawn(b, line) + 1) + " ║"@ + cells_text(b, line, 8) + "║"@
}

/// The first `n` lines of the picture.
pub open spec fn lines_text(b: BoardState, n: nat) -> Seq<char>
    decreases n,
{
    if n == 0 {
        Seq::empty()
    } else {
        lines_text(b, (n - 1) as nat) + line_text(b, n - 1)
    }
}

/// Who is ahead in material, and by how much.
pub open spec fn advantage_text(b: BoardState) -> Seq<char> {
    let white = b.material_advantage(Color::White);
    let black = b.material_advantage(Color::Black);
    if white == black {
        "Both sides have equal materials\n"@
    } else if white > black {
        "White has a "@ + decimal(white) + " point material advantage\n"@
    } else {
        "Black has a "@ + decimal(black) + " point material advantage\n"@
    }
}

/// The picture of the board for a terminal: the files, the eight ranks in
/// a frame as the side to move sees them, the files again, who is ahead in
/// material, and who is to move.
pub open spec fn board_text(b: BoardState) -> Seq<char> {
    "   abcdefgh\n  ╔════════╗"@ + lines_text(b, 8) + "\n  ╚════════╝\n   abcdefgh\n"@
        + advantage_text(b) + b.turn.name() + " to move"@
}

fn push_cell(board: &Board, line: i32, col: i32, out: &mut String)
    requires
        0 <= line < 8,
        0 <= col < 8,
    ensures
        final(out)@ == old(out)@ + cell_text(board@, line as int, col as int),
{
    let turn = board.get_turn_color();
    let print_row: i32 = match turn {
        Color::White => 7 - line,
        Color::Black => line,
    };
    let pos = Position::new(print_row, col);
    let square_color = if (line + col) % 2 == 0 {
        turn.other()
    } else {
        turn
    };
    let s = if let Some(piece) = board.get_piece(pos) {
        piece.to_string()
    } else {
        String::from_str(
            match square_color {
                Color::White => "░",
                Color::Black => "▓",
            },
        )
    };
    if board.is_threatened(pos, turn) {
        out.append("\x1b[31m");
        out.append(s.as_str());
        out.append("\x1b[m\x1b[0m");
    } else if board.is_threatened(pos, turn.other()) {
        out.append("\x1b[32m");
        out.append(s.as_str());
        out.append("\x1b[m\x1b[0m");
    } else {
        out.append(s.as_str());
    }
}

fn push_line(board: &Board, line: i32, out: &mut String)
    requires
        0 <= line < 8,
    ensures
        final(out)@ == old(out)@ + line_text(board@, line as int),
{
    out.append("\n");
    let print_row: i32 = match board.get_turn_color() {
        Color::White => 7 - line,
        Color::Black => line,
    };
    push_decimal(out, (print_row + 1) as i64);
    out.append(" ║");
    let ghost start = out@;
    let mut col: i32 = 0;
    while col < 8
        invariant
            0 <= col <= 8,
            0 <= line < 8,
            out@ == start + cells_text(board@, line as int, col as nat),
        decreases 8 - col,
    {
        push_cell(board, line, col, out);
        col += 1;
    }
    out.append("║");
}

fn push_advantage(board: &Board, out: &mut String)
    ensures
        final(out)@ == old(out)@ + advantage_text(board@),
{
    let white_adv = board.get_material_advantage(Color::White);
    let black_adv = board.get_material_advantage(Color::Black);
    if white_adv == black_adv {
        out.append("Both sides have equal materials\n");
    } else if white_adv > black_adv {
        out.append("White has a ");
        push_decimal(out, white_adv as i64);
        out.append(" point material advantage\n");
    } else {
        out.append("Black has a ");
        push_decimal(out, black_adv as i64);
        out.append(" point material advantage\n");
    }
}

impl Board {
    /// Draws the board for a terminal that knows the ANSI colours.
    pub fn to_string(&self) -> (s: String)
        ensures
            s@ == board_text(self@),
    {
        let mut s = String::from_str("   abcdefgh\n  ╔════════╗");
        let ghost start = s@;
        let mut line: i32 = 0;
        while line < 8
            invariant
                0 <= line <= 8,
                s@ == start + lines_text(self@, line as nat),
            decreases 8 - line,
        {
            push_line(self, line, &mut s);
            line += 1;
        }
        s.append("\n  ╚════════╝\n   abcdefgh\n");
        push_advantage(self, &mut s);
        s.append(self.get_turn_color().to_string().as_str());
        s.append(" to move");
        s
    }
}

} // verus!
