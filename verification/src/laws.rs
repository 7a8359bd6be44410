use crate::state::{square_index, square_position, BoardState, Outcome};
use crate::{Color, Move, Piece, Position};
use vstd::prelude::*;

verus! {

/// A move that `kept` returns goes from the piece's square to one of
/// `dests` that `keeps` holds of, and every such move is returned.
pub proof fn lemma_kept_contains(p: Piece, dests: Seq<Position>, diagonal: bool, b: BoardState, m: Move)
    ensures
        p.kept(dests, diagonal, b).contains(m) <==> exists|k: int|
            0 <= k < dests.len() && p.keeps(#[trigger] dests[k], diagonal, b) && m == Move::Piece(
                p.pos(),
                dests[k],
            ),
    decreases dests.len(),
{
    if dests.len() > 0 {
        let before = p.kept(dests.drop_last(), diagonal, b);
        lemma_kept_contains(p, dests.drop_last(), diagonal, b, m);
        if exists|k: int|
            0 <= k < dests.len() && p.keeps(#[trigger] dests[k], diagonal, b) && m == Move::Piece(
                p.pos(),
                dests[k],
            ) {
            let k = choose|k: int|
                0 <= k < dests.len() && p.keeps(#[trigger] dests[k], diagonal, b) && m
                    == Move::Piece(p.pos(), dests[k]);
            if k < dests.len() - 1 {
                assert(dests.drop_last()[k] == dests[k]);
                let j = choose|j: int| 0 <= j < before.len() && before[j] == m;
                assert(p.kept(dests, diagonal, b)[j] == m);
            } else {
                assert(before.push(m)[before.len() as int] == m);
            }
        }
    }
}

/// A sequence put after another holds what either holds.
pub proof fn lemma_concat_contains<A>(a: Seq<A>, b: Seq<A>, x: A)
    ensures
        (a + b).contains(x) <==> a.contains(x) || b.contains(x),
{
    if a.contains(x) {
        let i = choose|i: int| 0 <= i < a.len() && a[i] == x;
        assert((a + b)[i] == x);
    }
    if b.contains(x) {
        let i = choose|i: int| 0 <= i < b.len() && b[i] == x;
        assert((a + b)[a.len() + i] == x);
    }
    if (a + b).contains(x) {
        let i = choose|i: int| 0 <= i < (a + b).len() && (a + b)[i] == x;
    }
}

/// The legal moves of the first `n` squares are those of each of them.
pub proof fn lemma_among_contains(b: BoardState, n: nat, m: Move)
    ensures
        b.legal_moves_among(n).contains(m) <==> exists|i: int|
            0 <= i < n && #[trigger] b.legal_moves_at(i).contains(m),
    decreases n,
{
    if n > 0 {
        lemma_among_contains(b, (n - 1) as nat, m);
        lemma_concat_contains(b.legal_moves_among((n - 1) as nat), b.legal_moves_at(n - 1), m);
    }
}

/// Where a king of `color` stands among the first `n` squares, one of them
/// holds it.
pub proof fn lemma_king_among(b: BoardState, color: Color, n: nat) -> (i: int)
    requires
        b.king_among(color, n) is Some,
    ensures
        0 <= i < n,
        b.squares[i].piece == Some(Piece::King(color, b.king_among(color, n)->0)),
    decreases n,
{
    if n == 0 {
        0
    } else {
        match b.squares[n - 1].piece {
            Some(Piece::King(c, p)) => if c == color {
                n - 1
            } else {
                lemma_king_among(b, color, (n - 1) as nat)
            },
            _ => lemma_king_among(b, color, (n - 1) as nat),
        }
    }
}

/// Where a side has a king, the square given as the king's holds a king of
/// that side; on a board whose pieces stand where they say they do, that
/// king stands on the square it is looked for on.
pub proof fn law_king_stands_where_it_is_found(b: BoardState, color: Color)
    requires
        b.well_formed(),
        b.has_king(color),
    ensures
        b.piece_at(b.king_pos(color)) == Some(Piece::King(color, b.king_pos(color))),
{
    lemma_king_among(b, color, 64);
}

/// A piece that stands on the board where it says it does has, among its
/// legal moves, every move from its square that is legal for its owner.
pub proof fn lemma_piece_moves(b: BoardState, p: Piece, to: Position)
    requires
        b.piece_at(p.pos()) == Some(p),
        b.is_legal_move(Move::Piece(p.pos(), to), p.color()),
    ensures
        p.legal_moves(b).contains(Move::Piece(p.pos(), to)),
{
    let m = Move::Piece(p.pos(), to);
    let pos = p.pos();
    match p {
        Piece::Pawn(c, _) => {
            let steps = Piece::pawn_steps(c, pos);
            let up = pos.forward(c);
            let k: int = if to == up.forward(c) {
                0
            } else if to == up {
                1
            } else if to == up.left() {
                2
            } else {
                3
            };
            lemma_kept_contains(p, steps, false, b, m);
        },
        Piece::King(c, _) => {
            let steps = Piece::king_steps(pos);
            let k: int = if to == pos.left() {
                0
            } else if to == pos.right() {
                1
            } else if to == pos.above() {
                2
            } else if to == pos.below() {
                3
            } else if to == pos.left().above() {
                4
            } else if to == pos.left().below() {
                5
            } else if to == pos.right().above() {
                6
            } else {
                7
            };
            lemma_kept_contains(p, steps, false, b, m);
            lemma_concat_contains(p.kept(steps, false, b), Piece::castles(c, b), m);
        },
        Piece::Knight(_, _) => {
            let jumps = Piece::knight_jumps(pos);
            let k: int = if to == pos.left().left().above() {
                0
            } else if to == pos.left().above().above() {
                1
            } else if to == pos.left().left().below() {
                2
            } else if to == pos.left().below().below() {
                3
            } else if to == pos.right().right().above() {
                4
            } else if to == pos.right().above().above() {
                5
            } else if to == pos.right().right().below() {
                6
            } else {
                7
            };
            lemma_kept_contains(p, jumps, false, b, m);
        },
        Piece::Rook(_, _) => {
            lemma_straight(b, p, to);
        },
        Piece::Bishop(_, _) => {
            lemma_diagonal(b, p, to);
        },
        Piece::Queen(_, _) => {
            let straight = p.kept(Piece::file_squares(pos), false, b) + p.kept(
                Piece::rank_squares(pos),
                false,
                b,
            );
            let diagonal = p.kept(Piece::all_squares(), true, b);
            lemma_concat_contains(straight, diagonal, m);
            if pos.orthogonal_to(to) {
                lemma_straight(b, p, to);
            } else {
                lemma_diagonal(b, p, to);
            }
        },
    }
}

/// The moves along the file and the rank of a piece hold its move to every
/// square of the two that `keeps` holds of.
proof fn lemma_straight(b: BoardState, p: Piece, to: Position)
    requires
        p.pos().on_board(),
        p.pos().orthogonal_to(to),
        p.keeps(to, false, b),
    ensures
        (p.kept(Piece::file_squares(p.pos()), false, b) + p.kept(
            Piece::rank_squares(p.pos()),
            false,
            b,
        )).contains(Move::Piece(p.pos(), to)),
{
    let pos = p.pos();
    let m = Move::Piece(pos, to);
    let file = Piece::file_squares(pos);
    let rank = Piece::rank_squares(pos);
    lemma_concat_contains(p.kept(file, false, b), p.kept(rank, false, b), m);
    if pos.col == to.col {
        assert(file[to.row as int] == to);
        lemma_kept_contains(p, file, false, b, m);
    } else {
        assert(rank[to.col as int] == to);
        lemma_kept_contains(p, rank, false, b, m);
    }
}

/// The moves along the diagonals of a piece hold its move to every square
/// of them that `keeps` holds of.
proof fn lemma_diagonal(b: BoardState, p: Piece, to: Position)
    requires
        p.pos().on_board(),
        p.pos().diagonal_to(to),
        p.keeps(to, false, b),
    ensures
        p.kept(Piece::all_squares(), true, b).contains(Move::Piece(p.pos(), to)),
{
    let all = Piece::all_squares();
    let k = to.row * 8 + to.col;
    assert(all[k] == to);
    lemma_kept_contains(p, all, true, b, Move::Piece(p.pos(), to));
}

/// Every one of the legal moves is legal for the side to move, and none is
/// a promotion; so playing it is not refused.
pub proof fn law_legal_moves_are_legal(b: BoardState, m: Move)
    requires
        b.legal_moves().contains(m),
    ensures
        b.is_legal_move(m, b.turn),
        !(m is Promotion),
        !(b.play_move(m) is IllegalMove),
{
    lemma_among_contains(b, 64, m);
    let i = choose|i: int| 0 <= i < 64 && #[trigger] b.legal_moves_at(i).contains(m);
    let p = b.squares[i].piece->0;
    lemma_piece_legal(b, p, m);
}

/// A move that is not among the legal moves is not legal for the side to
/// move: playing it hands it back as illegal, and nothing is played. This
/// holds on a board whose pieces stand where they say they do, of every
/// move but a promotion, and of a castle where the side to move has a
/// king. So the legal moves are the moves that are legal and no promotion.
pub proof fn law_moves_not_listed_are_refused(b: BoardState, m: Move)
    requires
        b.well_formed(),
        !(m is Promotion),
        m is KingSideCastle || m is QueenSideCastle ==> b.has_king(b.turn),
    ensures
        b.legal_moves().contains(m) <==> b.is_legal_move(m, b.turn),
        !b.legal_moves().contains(m) ==> b.play_move(m) == Outcome::IllegalMove(m),
{
    lemma_among_contains(b, 64, m);
    if b.legal_moves().contains(m) {
        law_legal_moves_are_legal(b, m);
    }
    if b.is_legal_move(m, b.turn) {
        match m {
            Move::Piece(from, to) => {
                let p = b.piece_at(from)->0;
                let i = square_index(from);
                lemma_piece_moves(b, p, to);
                assert(b.legal_moves_at(i).contains(m));
            },
            _ => {
                let i = lemma_king_among(b, b.turn, 64);
                let king = b.squares[i].piece->0;
                lemma_concat_contains(
                    king.kept(Piece::king_steps(king.pos()), false, b),
                    Piece::castles(b.turn, b),
                    m,
                );
                assert(Piece::castles(b.turn, b).contains(m)) by {
                    lemma_castles(b.turn, b, m);
                }
                assert(b.legal_moves_at(i).contains(m));
            },
        }
    }
}

/// The castles that `castles` returns are those that are legal.
proof fn lemma_castles(color: Color, b: BoardState, m: Move)
    ensures
        Piece::castles(color, b).contains(m) <==> (m is KingSideCastle || m is QueenSideCastle)
            && b.is_legal_move(m, color),
{
    let king: Seq<Move> = if b.can_kingside_castle(color) && b.is_legal_move(
        Move::KingSideCastle,
        color,
    ) {
        seq![Move::KingSideCastle]
    } else {
        Seq::empty()
    };
    let queen: Seq<Move> = if b.can_queenside_castle(color) && b.is_legal_move(
        Move::QueenSideCastle,
        color,
    ) {
        seq![Move::QueenSideCastle]
    } else {
        Seq::empty()
    };
    lemma_concat_contains(king, queen, m);
    if king.len() > 0 {
        assert(king[0] == Move::KingSideCastle);
    }
    if queen.len() > 0 {
        assert(queen[0] == Move::QueenSideCastle);
    }
}

/// Every legal move of a piece is legal for its owner.
pub proof fn lemma_piece_legal(b: BoardState, p: Piece, m: Move)
    requires
        p.legal_moves(b).contains(m),
    ensures
        b.is_legal_move(m, p.color()),
        !(m is Promotion),
{
    let pos = p.pos();
    match p {
        Piece::Pawn(c, _) => {
            lemma_kept_contains(p, Piece::pawn_steps(c, pos), false, b, m);
        },
        Piece::King(c, _) => {
            lemma_concat_contains(
                p.kept(Piece::king_steps(pos), false, b),
                Piece::castles(c, b),
                m,
            );
            lemma_kept_contains(p, Piece::king_steps(pos), false, b, m);
            lemma_castles(c, b, m);
        },
        Piece::Knight(_, _) => {
            lemma_kept_contains(p, Piece::knight_jumps(pos), false, b, m);
        },
        Piece::Rook(_, _) => {
            lemma_concat_contains(
                p.kept(Piece::file_squares(pos), false, b),
                p.kept(Piece::rank_squares(pos), false, b),
                m,
            );
            lemma_kept_contains(p, Piece::file_squares(pos), false, b, m);
            lemma_kept_contains(p, Piece::rank_squares(pos), false, b, m);
        },
        Piece::Bishop(_, _) => {
            lemma_kept_contains(p, Piece::all_squares(), true, b, m);
        },
        Piece::Queen(_, _) => {
            let straight = p.kept(Piece::file_squares(pos), false, b) + p.kept(
                Piece::rank_squares(pos),
                false,
                b,
            );
            lemma_concat_contains(straight, p.kept(Piece::all_squares(), true, b), m);
            lemma_concat_contains(
                p.kept(Piece::file_squares(pos), false, b),
                p.kept(Piece::rank_squares(pos), false, b),
                m,
            );
            lemma_kept_contains(p, Piece::file_squares(pos), false, b, m);
            lemma_kept_contains(p, Piece::rank_squares(pos), false, b, m);
            lemma_kept_contains(p, Piece::all_squares(), true, b, m);
        },
    }
}

/// The board after the moves of `moves` have been made one after the
/// other, each by the side whose turn it then is, legal or not.
pub open spec fn played(b: BoardState, moves: Seq<Move>) -> BoardState
    decreases moves.len(),
{
    if moves.len() == 0 {
        b
    } else {
        played(b, moves.drop_last()).after(moves.last())
    }
}

/// Putting a piece on another square gives no castling right back.
proof fn lemma_relocate_keeps_rights_lost(
    b: BoardState,
    from: Position,
    to: Position,
    promotion: Option<Piece>,
    color: Color,
)
    ensures
        b.relocate(from, to, promotion).castling_rights(color).kingside ==> b.castling_rights(
            color,
        ).kingside,
        b.relocate(from, to, promotion).castling_rights(color).queenside ==> b.castling_rights(
            color,
        ).queenside,
{
}

/// No move gives a castling right back: a right that a side has once a
/// move has been made, by whichever side, it had before.
pub proof fn law_no_move_restores_castling_rights(b: BoardState, m: Move, color: Color)
    ensures
        b.apply_move(m).castling_rights(color).kingside ==> b.castling_rights(color).kingside,
        b.apply_move(m).castling_rights(color).queenside ==> b.castling_rights(color).queenside,
        b.after(m).castling_rights(color).kingside ==> b.castling_rights(color).kingside,
        b.after(m).castling_rights(color).queenside ==> b.castling_rights(color).queenside,
        b.play_move(m) matches Outcome::Continuing(next) ==> (next.castling_rights(
            color,
        ).kingside ==> b.castling_rights(color).kingside) && (next.castling_rights(
            color,
        ).queenside ==> b.castling_rights(color).queenside),
{
    match m {
        Move::KingSideCastle => {
            let king = b.king_pos(b.turn);
            let rook = Position { row: BoardState::home_row(b.turn), col: 7 };
            lemma_relocate_keeps_rights_lost(b, king, rook.left(), None, color);
            lemma_relocate_keeps_rights_lost(
                b.move_piece(king, rook.left()),
                rook,
                king.right(),
                None,
                color,
            );
        },
        Move::QueenSideCastle => {
            let king = b.king_pos(b.turn);
            let rook = Position { row: BoardState::home_row(b.turn), col: 0 };
            lemma_relocate_keeps_rights_lost(b, king, king.left().left(), None, color);
            lemma_relocate_keeps_rights_lost(
                b.move_piece(king, king.left().left()),
                rook,
                king.left(),
                None,
                color,
            );
        },
        Move::Piece(from, to) => {
            lemma_relocate_keeps_rights_lost(b, from, to, None, color);
        },
        Move::Promotion(from, to, piece) => {
            lemma_relocate_keeps_rights_lost(b, from, to, Some(piece), color);
        },
    }
}

/// A castling right that is lost stays lost: whatever moves follow, the
/// side does not have the right again and cannot castle on that side.
pub proof fn law_lost_castling_right_stays_lost(b: BoardState, moves: Seq<Move>, color: Color)
    ensures
        !b.castling_rights(color).kingside ==> !played(b, moves).castling_rights(color).kingside
            && !played(b, moves).can_kingside_castle(color) && !played(b, moves).is_legal_move(
            Move::KingSideCastle,
            color,
        ),
        !b.castling_rights(color).queenside ==> !played(b, moves).castling_rights(
            color,
        ).queenside && !played(b, moves).can_queenside_castle(color) && !played(
            b,
            moves,
        ).is_legal_move(Move::QueenSideCastle, color),
    decreases moves.len(),
{
    if moves.len() > 0 {
        law_lost_castling_right_stays_lost(b, moves.drop_last(), color);
        law_no_move_restores_castling_rights(played(b, moves.drop_last()), moves.last(), color);
    }
}

/// A king that moves loses both castling rights for good: once the king of
/// `color` has gone from one square of the board to another, its side
/// cannot castle, whatever moves follow and wherever the king then stands.
pub proof fn law_king_move_ends_castling(
    b: BoardState,
    from: Position,
    to: Position,
    color: Color,
    moves: Seq<Move>,
)
    requires
        from.on_board(),
        to.on_board(),
        b.piece_at(from) matches Some(piece) && piece is King && piece.color() == color,
    ensures
        !played(b.after(Move::Piece(from, to)), moves).can_kingside_castle(color),
        !played(b.after(Move::Piece(from, to)), moves).can_queenside_castle(color),
        !played(b.after(Move::Piece(from, to)), moves).is_legal_move(Move::KingSideCastle, color),
        !played(b.after(Move::Piece(from, to)), moves).is_legal_move(
            Move::QueenSideCastle,
            color,
        ),
{
    law_lost_castling_right_stays_lost(b.after(Move::Piece(from, to)), moves, color);
}

/// Whether two boards differ at most in their en-passant target.
pub open spec fn alike(a: BoardState, b: BoardState) -> bool {
    &&& a.squares == b.squares
    &&& a.white_castling_rights == b.white_castling_rights
    &&& a.black_castling_rights == b.black_castling_rights
    &&& a.turn == b.turn
}

proof fn lemma_alike_piece(a: BoardState, b: BoardState, p: Piece, to: Position)
    requires
        alike(a, b),
    ensures
        p.attacks(to, a) == p.attacks(to, b),
        p.pseudo_legal(to, a) == p.pseudo_legal(to, b),
{
}

proof fn lemma_alike_threatened(a: BoardState, b: BoardState, pos: Position, ally: Color)
    requires
        alike(a, b),
    ensures
        a.threatened(pos, ally) == b.threatened(pos, ally),
{
    assert forall|i: int| 0 <= i < 64 implies #[trigger] a.attacker_at(i, pos, ally)
        == b.attacker_at(i, pos, ally) by {
        match a.squares[i].piece {
            Some(p) => {
                lemma_alike_piece(a, b, p, pos);
            },
            None => {},
        }
    }
    if b.threatened(pos, ally) {
        let i = choose|i: int| 0 <= i < 64 && #[trigger] b.attacker_at(i, pos, ally);
        assert(a.attacker_at(i, pos, ally));
    }
}

proof fn lemma_alike_king(a: BoardState, b: BoardState, color: Color, n: nat)
    requires
        alike(a, b),
    ensures
        a.king_among(color, n) == b.king_among(color, n),
    decreases n,
{
    if n > 0 {
        lemma_alike_king(a, b, color, (n - 1) as nat);
    }
}

proof fn lemma_alike_check(a: BoardState, b: BoardState, color: Color)
    requires
        alike(a, b),
    ensures
        a.king_pos(color) == b.king_pos(color),
        a.in_check(color) == b.in_check(color),
        a.can_kingside_castle(color) == b.can_kingside_castle(color),
        a.can_queenside_castle(color) == b.can_queenside_castle(color),
{
    lemma_alike_king(a, b, color, 64);
    lemma_alike_threatened(a, b, a.king_pos(color), color);
    let row = BoardState::home_row(color);
    lemma_alike_threatened(a, b, Position { row, col: 5 }, color);
    lemma_alike_threatened(a, b, Position { row, col: 3 }, color);
}

proof fn lemma_alike_applied(a: BoardState, b: BoardState, m: Move)
    requires
        alike(a, b),
    ensures
        alike(a.apply_move(m), b.apply_move(m)),
{
    lemma_alike_king(a, b, a.turn, 64);
}

proof fn lemma_alike_legal(a: BoardState, b: BoardState, m: Move, color: Color)
    requires
        alike(a, b),
    ensures
        a.is_legal_move(m, color) == b.is_legal_move(m, color),
{
    lemma_alike_check(a, b, color);
    lemma_alike_applied(a, b, m);
    lemma_alike_check(a.apply_move(m), b.apply_move(m), color);
    match m {
        Move::Piece(from, to) => {
            match a.piece_at(from) {
                Some(p) => {
                    lemma_alike_piece(a, b, p, to);
                },
                None => {},
            }
        },
        Move::Promotion(from, to, _) => {
            match a.piece_at(from) {
                Some(p) => {
                    lemma_alike_piece(a, b, p, to);
                },
                None => {},
            }
        },
        _ => {},
    }
}

proof fn lemma_alike_kept(
    a: BoardState,
    b: BoardState,
    p: Piece,
    dests: Seq<Position>,
    diagonal: bool,
)
    requires
        alike(a, b),
    ensures
        p.kept(dests, diagonal, a) == p.kept(dests, diagonal, b),
    decreases dests.len(),
{
    if dests.len() > 0 {
        lemma_alike_kept(a, b, p, dests.drop_last(), diagonal);
        lemma_alike_piece(a, b, p, dests.last());
        lemma_alike_legal(a, b, Move::Piece(p.pos(), dests.last()), p.color());
    }
}

proof fn lemma_alike_moves(a: BoardState, b: BoardState, n: nat)
    requires
        alike(a, b),
        n <= 64,
    ensures
        a.legal_moves_among(n) == b.legal_moves_among(n),
    decreases n,
{
    if n > 0 {
        lemma_alike_moves(a, b, (n - 1) as nat);
        match a.squares[n - 1].piece {
            Some(p) => {
                let pos = p.pos();
                lemma_alike_kept(a, b, p, Piece::pawn_steps(p.color(), pos), false);
                lemma_alike_kept(a, b, p, Piece::king_steps(pos), false);
                lemma_alike_kept(a, b, p, Piece::knight_jumps(pos), false);
                lemma_alike_kept(a, b, p, Piece::file_squares(pos), false);
                lemma_alike_kept(a, b, p, Piece::rank_squares(pos), false);
                lemma_alike_kept(a, b, p, Piece::all_squares(), true);
                lemma_alike_check(a, b, p.color());
                lemma_alike_legal(a, b, Move::KingSideCastle, p.color());
                lemma_alike_legal(a, b, Move::QueenSideCastle, p.color());
            },
            None => {},
        }
    }
}

/// The en-passant target does not bear on what is legal: two boards that
/// differ in nothing else have the same legal moves, and a move is legal
/// on the one if it is legal on the other. A pawn takes where an enemy
/// piece stands and nowhere else.
pub proof fn law_en_passant_target_changes_no_move(a: BoardState, b: BoardState)
    requires
        alike(a, b),
    ensures
        a.legal_moves() == b.legal_moves(),
        forall|m: Move, color: Color| #[trigger]
            a.is_legal_move(m, color) == b.is_legal_move(m, color),
{
    lemma_alike_moves(a, b, 64);
    assert forall|m: Move, color: Color| #[trigger]
        a.is_legal_move(m, color) == b.is_legal_move(m, color) by {
        lemma_alike_legal(a, b, m, color);
    }
}

} // verus!
