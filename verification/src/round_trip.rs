use crate::board::CastlingRights;
use crate::laws::{alike, law_en_passant_target_changes_no_move};
use crate::position::{file_char, parse_square};
use crate::state::{square_index, square_position, BoardState};
use crate::text::{
    char_is_alphabetic, char_is_numeric, decimal, decimal_digits, digit_char, digit_value,
};
use crate::util::{
    active_color, castling, castling_text, castling_upto, en_passant_target, fen_text, field,
    field_start, has_field, is_space, nothing_placed, parse_fen_text, piece_letter,
    piece_of_letter, place_char, place_from, placement, placement_upto, skip_spaces, word_end,
    PlacingState,
};
use crate::{Color, Piece, Position, Square};
use vstd::prelude::*;

verus! {

/// Whether `s` holds no white space.
pub open spec fn solid(s: Seq<char>) -> bool {
    forall|i: int| 0 <= i < s.len() ==> !is_space(#[trigger] s[i])
}

proof fn lemma_digit(d: int)
    requires
        0 <= d <= 9,
    ensures
        digit_value(digit_char(d)) == Some(d),
        !is_space(digit_char(d)),
        digit_char(d) != '/',
        forall|pos: Position| piece_of_letter(digit_char(d), pos) is None,
{
}

proof fn lemma_decimal_digits(n: nat)
    ensures
        decimal_digits(n).len() >= 1,
        solid(decimal_digits(n)),
        digit_value(decimal_digits(n)[0]) is Some,
        n < 10 ==> decimal_digits(n) == seq![digit_char(n as int)],
    decreases n,
{
    if n < 10 {
        lemma_digit(n as int);
    } else {
        lemma_decimal_digits(n / 10);
        lemma_digit((n % 10) as int);
    }
}

proof fn lemma_letter(p: Piece)
    ensures
        !is_space(piece_letter(p)),
        digit_value(piece_letter(p)) is None,
        piece_letter(p) != '/',
        piece_of_letter(piece_letter(p), p.pos()) == Some(p),
{
}

/// The placement text holds no white space, the run of empty squares that
/// is not yet written lies within one rank, and the text of the whole
/// board is not empty.
proof fn lemma_placement_shape(squares: Seq<Square>, n: nat)
    requires
        n <= 64,
    ensures
        solid(placement_upto(squares, n).0),
        0 <= placement_upto(squares, n).1 <= n % 8,
        n == 64 ==> placement_upto(squares, n).0.len() > 0,
    decreases n,
{
    if n > 0 {
        lemma_placement_shape(squares, (n - 1) as nat);
        let before = placement_upto(squares, (n - 1) as nat);
        let i = n - 1;
        if before.1 != 0 {
            lemma_decimal_digits(before.1 as nat);
        }
        let with_square = match squares[i].piece {
            None => (before.0, before.1 + 1),
            Some(piece) => ((if before.1 != 0 {
                before.0 + decimal(before.1)
            } else {
                before.0
            }).push(piece_letter(piece)), 0),
        };
        match squares[i].piece {
            None => {},
            Some(piece) => {
                lemma_letter(piece);
            },
        }
        if with_square.1 != 0 {
            lemma_decimal_digits(with_square.1 as nat);
        }
    }
}

proof fn lemma_place_prefix(p: PlacingState, a: Seq<char>, b: Seq<char>, j: nat)
    requires
        j <= a.len(),
    ensures
        place_from(p, a + b, j) == place_from(p, a, j),
    decreases j,
{
    if j > 0 {
        lemma_place_prefix(p, a, b, (j - 1) as nat);
    }
}

/// Reading a text and one more character is reading the text and then the
/// character.
proof fn lemma_place_push(p: PlacingState, t: Seq<char>, c: char)
    ensures
        place_from(p, t.push(c), t.len() + 1) == (match place_from(p, t, t.len()) {
            Ok(q) => place_char(q, c, char_is_alphabetic(c), char_is_numeric(c)),
            Err(e) => Err(e),
        }),
{
    assert(t.push(c) =~= t + seq![c]);
    lemma_place_prefix(p, t, seq![c], t.len());
}

/// The board with the pieces of the first `n` of `squares` and nothing else.
pub open spec fn partly(squares: Seq<Square>, n: nat) -> BoardState {
    BoardState {
        squares: Seq::new(
            64,
            |i: int|
                if i < n {
                    squares[i]
                } else {
                    Square { piece: None }
                },
        ),
        ..BoardState::bare()
    }
}

/// Where a placement stands once `n` squares have been read, the last
/// `skip` of them not yet passed over.
pub open spec fn reading(squares: Seq<Square>, n: nat, skip: int) -> PlacingState {
    PlacingState {
        board: partly(squares, n),
        row: if n == 64 {
            0
        } else {
            7 - n / 8
        },
        col: (if n == 64 {
            8
        } else {
            n % 8
        }) - skip,
    }
}

/// What one square adds to the placement text, read back, leaves the
/// placement one square on.
proof fn lemma_placement_step(squares: Seq<Square>, n: nat)
    requires
        n < 64,
        squares.len() == 64,
        forall|i: int|
            0 <= i < 64 ==> match (#[trigger] squares[i]).piece {
                Some(p) => p.pos() == square_position(i),
                None => true,
            },
        place_from(
            nothing_placed(),
            placement_upto(squares, n).0,
            placement_upto(squares, n).0.len(),
        ) == Ok::<PlacingState, Seq<char>>(reading(squares, n, placement_upto(squares, n).1)),
    ensures
        place_from(
            nothing_placed(),
            placement_upto(squares, n + 1).0,
            placement_upto(squares, n + 1).0.len(),
        ) == Ok::<PlacingState, Seq<char>>(
            reading(squares, n + 1, placement_upto(squares, n + 1).1),
        ),
{
    let start = nothing_placed();
    let before = placement_upto(squares, n);
    let after = placement_upto(squares, n + 1);
    let i = n as int;
    lemma_placement_shape(squares, n);
    let skip = before.1;
    let here = reading(squares, n, skip);
    match squares[i].piece {
        None => {
            assert(partly(squares, n + 1).squares =~= partly(squares, n).squares);
            if i % 8 == 7 {
                let d = skip + 1;
                lemma_decimal_digits(d as nat);
                lemma_digit(d);
                let with_run = before.0.push(digit_char(d));
                lemma_place_push(start, before.0, digit_char(d));
                if i != 63 {
                    lemma_place_push(start, with_run, '/');
                    assert(after.0 =~= with_run.push('/'));
                } else {
                    assert(after.0 =~= with_run);
                }
            }
        },
        Some(piece) => {
            lemma_letter(piece);
            let with_run = if skip != 0 {
                before.0.push(digit_char(skip))
            } else {
                before.0
            };
            if skip != 0 {
                lemma_decimal_digits(skip as nat);
                lemma_digit(skip);
                lemma_place_push(start, before.0, digit_char(skip));
            }
            let with_letter = with_run.push(piece_letter(piece));
            lemma_place_push(start, with_run, piece_letter(piece));
            assert(here.board.with_piece(piece) == partly(squares, n + 1));
            if i % 8 == 7 {
                if i != 63 {
                    lemma_place_push(start, with_letter, '/');
                    assert(after.0 =~= with_letter.push('/'));
                } else {
                    assert(after.0 =~= with_letter);
                }
            } else {
                assert(after.0 =~= with_letter);
            }
        },
    }
}

/// The placement text of `n` squares, read back, gives the pieces of those
/// squares.
proof fn lemma_placement_read(squares: Seq<Square>, n: nat)
    requires
        n <= 64,
        squares.len() == 64,
        forall|i: int|
            0 <= i < 64 ==> match (#[trigger] squares[i]).piece {
                Some(p) => p.pos() == square_position(i),
                None => true,
            },
    ensures
        place_from(
            nothing_placed(),
            placement_upto(squares, n).0,
            placement_upto(squares, n).0.len(),
        ) == Ok::<PlacingState, Seq<char>>(reading(squares, n, placement_upto(squares, n).1)),
    decreases n,
{
    if n == 0 {
        assert(partly(squares, 0).squares =~= BoardState::bare().squares);
    } else {
        lemma_placement_read(squares, (n - 1) as nat);
        lemma_placement_step(squares, (n - 1) as nat);
    }
}

proof fn lemma_castling_prefix(b: BoardState, t: Seq<char>, u: Seq<char>, j: nat)
    requires
        j <= t.len(),
    ensures
        castling_upto(b, t + u, j) == castling_upto(b, t, j),
    decreases j,
{
    if j > 0 {
        lemma_castling_prefix(b, t, u, (j - 1) as nat);
    }
}

/// The rights that a text names, the text being `t` with one of `K`, `Q`,
/// `k` and `q` after it or not.
proof fn lemma_castling_more(b: BoardState, t: Seq<char>, c: char, there: bool) -> (u: Seq<char>)
    requires
        c == 'K' || c == 'Q' || c == 'k' || c == 'q',
        castling_upto(b, t, t.len()) is Ok,
    ensures
        u == t + (if there {
            seq![c]
        } else {
            Seq::empty()
        }),
        castling_upto(b, u, u.len()) is Ok,
        ({
            let before = castling_upto(b, t, t.len())->Ok_0;
            let after = castling_upto(b, u, u.len())->Ok_0;
            after == (if !there {
                before
            } else if c == 'K' {
                before.with_kingside_castle(Color::White)
            } else if c == 'Q' {
                before.with_queenside_castle(Color::White)
            } else if c == 'k' {
                before.with_kingside_castle(Color::Black)
            } else {
                before.with_queenside_castle(Color::Black)
            })
        }),
        there ==> u.len() > 0 && u != seq!['-'],
        !there ==> u == t,
{
    if there {
        let u = t + seq![c];
        lemma_castling_prefix(b, t, seq![c], t.len());
        u
    } else {
        t
    }
}

/// The text of a board's castling rights, read back onto a board without
/// any, gives that board with those rights.
proof fn lemma_castling_read(x: BoardState, b: BoardState)
    requires
        x.white_castling_rights == (CastlingRights { kingside: false, queenside: false }),
        x.black_castling_rights == (CastlingRights { kingside: false, queenside: false }),
    ensures
        castling(x, castling_text(b)) == Ok::<BoardState, Seq<char>>(
            BoardState {
                white_castling_rights: b.white_castling_rights,
                black_castling_rights: b.black_castling_rights,
                ..x
            },
        ),
        castling_text(b).len() > 0,
        solid(castling_text(b)),
{
    let none = Seq::<char>::empty();
    let white_king = lemma_castling_more(x, none, 'K', b.white_castling_rights.kingside);
    let white = lemma_castling_more(x, white_king, 'Q', b.white_castling_rights.queenside);
    let black_king = lemma_castling_more(x, white, 'k', b.black_castling_rights.kingside);
    lemma_castling_more(x, black_king, 'q', b.black_castling_rights.queenside);
}

/// The text of an en-passant target can be read back where the target's
/// file is on the board and its rank is not lower than the one below the
/// first; what is read is the target itself where its rank is written with
/// one digit.
proof fn lemma_target_read(target: Option<Position>)
    requires
        match target {
            Some(p) => 0 <= p.col <= 7 && -1 <= p.row,
            None => true,
        },
    ensures
        ({
            let text = match target {
                None => seq!['-'],
                Some(position) => position.text(),
            };
            &&& en_passant_target(text) is Ok
            &&& (match target {
                Some(p) => p.row <= 8,
                None => true,
            }) ==> en_passant_target(text) == Ok::<Option<Position>, Seq<char>>(target)
            &&& text.len() > 0
            &&& solid(text)
        }),
{
    match target {
        None => {
        },
        Some(p) => {
            let d = p.row + 1;
            lemma_decimal_digits(d as nat);
            let text = p.text();
            if p.row <= 8 {
                lemma_digit(d);
            }
        },
    }
}

proof fn lemma_word(s: Seq<char>, start: int, end: int)
    requires
        0 <= start <= end <= s.len(),
        forall|j: int| start <= j < end ==> !is_space(#[trigger] s[j]),
        end == s.len() || is_space(s[end]),
    ensures
        word_end(s, start) == end,
    decreases end - start,
{
    if start < end {
        lemma_word(s, start + 1, end);
    }
}

/// How a text of six solid words with one space between them falls into
/// fields.
proof fn lemma_fields(
    w0: Seq<char>,
    w1: Seq<char>,
    w2: Seq<char>,
    w3: Seq<char>,
    w4: Seq<char>,
    w5: Seq<char>,
)
    requires
        w0.len() > 0 && solid(w0),
        w1.len() > 0 && solid(w1),
        w2.len() > 0 && solid(w2),
        w3.len() > 0 && solid(w3),
        w4.len() > 0 && solid(w4),
        w5.len() > 0 && solid(w5),
    ensures
        ({
            let s = w0 + seq![' '] + w1 + seq![' '] + w2 + seq![' '] + w3 + seq![' '] + w4 + seq![
                ' ',
            ] + w5;
            &&& has_field(s, 3)
            &&& !has_field(s, 6)
            &&& field(s, 0) == w0
            &&& field(s, 1) == w1
            &&& field(s, 2) == w2
            &&& field(s, 3) == w3
        }),
{
    let s = w0 + seq![' '] + w1 + seq![' '] + w2 + seq![' '] + w3 + seq![' '] + w4 + seq![' ']
        + w5;
    let e0 = w0.len() as int;
    let o1 = e0 + 1;
    let e1 = o1 + w1.len();
    let o2 = e1 + 1;
    let e2 = o2 + w2.len();
    let o3 = e2 + 1;
    let e3 = o3 + w3.len();
    let o4 = e3 + 1;
    let e4 = o4 + w4.len();
    let o5 = e4 + 1;
    let e5 = o5 + w5.len();
    lemma_word(s, 0, e0);
    lemma_word(s, o1, e1);
    lemma_word(s, o2, e2);
    lemma_word(s, o3, e3);
    lemma_word(s, o4, e4);
    lemma_word(s, o5, e5);
    reveal_with_fuel(field_start, 7);
    reveal_with_fuel(skip_spaces, 3);
}

/// A position written as text and read back has the same legal moves: it
/// is the position it was but for the en-passant target, and the target
/// too is the same where its rank is written with one digit. This holds of
/// every board whose pieces stand where they say they do and whose
/// en-passant target, if it has one, lies on a file of the board and not
/// lower than the rank below the first.
pub proof fn law_fen_round_trip(b: BoardState, halfmove_clock: u8, fullmove_number: u8)
    requires
        b.well_formed(),
        match b.en_passant {
            Some(p) => 0 <= p.col <= 7 && -1 <= p.row,
            None => true,
        },
    ensures
        parse_fen_text(fen_text(b, halfmove_clock, fullmove_number)) is Ok,
        parse_fen_text(fen_text(b, halfmove_clock, fullmove_number))->Ok_0.legal_moves()
            == b.legal_moves(),
        alike(parse_fen_text(fen_text(b, halfmove_clock, fullmove_number))->Ok_0, b),
        (match b.en_passant {
            Some(p) => p.row <= 8,
            None => true,
        }) ==> parse_fen_text(fen_text(b, halfmove_clock, fullmove_number)) == Ok::<
            BoardState,
            Seq<char>,
        >(b),
{
    let placed_text = placement_upto(b.squares, 64).0;
    let turn_text = seq![
        match b.turn {
            Color::Black => 'b',
            Color::White => 'w',
        },
    ];
    let rights_text = castling_text(b);
    let target_text = match b.en_passant {
        None => seq!['-'],
        Some(position) => position.text(),
    };
    let halfmove_text = decimal(halfmove_clock as int);
    let fullmove_text = decimal(fullmove_number as int);
    lemma_placement_shape(b.squares, 64);
    lemma_placement_read(b.squares, 64);
    let placed = partly(b.squares, 64);
    assert(active_color(turn_text) == Some(b.turn)) by {
        if b.turn == Color::White {
            assert(seq!['w'][0] != seq!['b'][0]);
        }
    }
    lemma_castling_read(placed.set_turn(b.turn), b);
    lemma_target_read(b.en_passant);
    lemma_decimal_digits(halfmove_clock as nat);
    lemma_decimal_digits(fullmove_number as nat);
    lemma_fields(
        placed_text,
        turn_text,
        rights_text,
        target_text,
        halfmove_text,
        fullmove_text,
    );
    let s = fen_text(b, halfmove_clock, fullmove_number);
    let read = parse_fen_text(s)->Ok_0;
    assert(read.squares == b.squares);
    law_en_passant_target_changes_no_move(read, b);
    if (match b.en_passant {
        Some(p) => p.row <= 8,
        None => true,
    }) {
    }
}

} // verus!
