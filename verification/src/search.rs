use crate::{Color, Move};
use vstd::prelude::*;

verus! {

/// The value below every value a search looks for, in half points.
pub const LOWEST: i32 = -19998;

/// The value above every value a search looks for, in half points.
pub const HIGHEST: i32 = 19998;

/// The lower end of the window a search starts with, in half points.
pub const WINDOW_LOW: i32 = -20000;

/// The upper end of the window a search starts with, in half points.
pub const WINDOW_HIGH: i32 = 20000;

/// What a game state has to offer for a search to find moves in it: the
/// side to move, the legal moves in a fixed order, the state after a move,
/// and a value of the state for either side.
pub trait Evaluate: Sized {
    /// The value of the state for `color`, in half points.
    spec fn value(&self, color: Color) -> i32;

    /// The side to move.
    spec fn player(&self) -> Color;

    /// The legal moves of the side to move.
    spec fn moves(&self) -> Seq<Move>;

    /// The state after the side to move has played `m`.
    spec fn next(&self, m: Move) -> Self;

    fn material_value_for(&self, color: Color) -> (v: i32)
        ensures
            v == self.value(color),
    ;

    fn get_current_player_color(&self) -> (c: Color)
        ensures
            c == self.player(),
    ;

    fn get_legal_moves(&self) -> (moves: Vec<Move>)
        ensures
            moves@ == self.moves(),
    ;

    fn apply_eval_move(&self, m: Move) -> (next: Self)
        ensures
            next == self.next(m),
    ;
}

/// The node counter after one more node: it stops at the largest `i32`.
pub open spec fn counted(count: i32) -> i32 {
    if count < i32::MAX {
        (count + 1) as i32
    } else {
        count
    }
}

/// The depth left for the children of a node that has `depth` left. A
/// negative depth never comes to zero: it stays as it is.
pub open spec fn child_depth(depth: i32) -> i32 {
    if depth > 0 {
        (depth - 1) as i32
    } else {
        depth
    }
}

/// How many levels a search of this depth can go down for the depth's sake.
pub open spec fn height(depth: i32) -> nat {
    if depth > 0 {
        depth as nat
    } else {
        0
    }
}

/// How many nodes are left of the budget.
pub open spec fn fuel(limit: i32, count: i32) -> nat {
    if limit > count {
        (limit - count) as nat
    } else {
        0
    }
}

/// The value that a search of the node `s` returns, and the node counter
/// after it. The node is counted; at depth 0, or with the counter at the
/// budget `limit` or beyond, its value is the state's value for `color`;
/// else it is what the search of its children gives.
pub open spec fn minimax_from<T: Evaluate>(
    s: T,
    depth: i32,
    alpha: i32,
    beta: i32,
    maximizing: bool,
    color: Color,
    count: i32,
    limit: i32,
) -> (i32, i32)
    decreases height(depth), fuel(limit, count), 1nat, 0nat,
{
    let visited = counted(count);
    if depth == 0 || visited >= limit {
        (s.value(color), visited)
    } else {
        children_from(
            s,
            s.moves(),
            0,
            child_depth(depth),
            alpha,
            beta,
            maximizing,
            color,
            visited,
            limit,
            if maximizing { LOWEST } else { HIGHEST },
        )
    }
}

/// The value that the search of the node `s` returns once its children
/// before `moves[i]` have given the best value `best` and narrowed the
/// window to `alpha` and `beta`, and the node counter after it. Each child
/// is searched at `depth` for the other role; a maximizing node keeps the
/// greatest value and raises `alpha` to it, a minimizing node keeps the
/// least and lowers `beta` to it; the node is done as soon as `beta` is not
/// above `alpha`.
pub open spec fn children_from<T: Evaluate>(
    s: T,
    moves: Seq<Move>,
    i: int,
    depth: i32,
    alpha: i32,
    beta: i32,
    maximizing: bool,
    color: Color,
    count: i32,
    limit: i32,
    best: i32,
) -> (i32, i32)
    decreases
            (if depth >= 0 {
                depth + 1
            } else {
                0
            }) as nat,
            fuel(limit, count) + 1,
            0nat,
            (if i < moves.len() {
                moves.len() - i
            } else {
                0
            }) as nat,
{
    if i < 0 || i >= moves.len() {
        (best, count)
    } else {
        let found = minimax_from(
            s.next(moves[i]),
            depth,
            alpha,
            beta,
            !maximizing,
            color,
            count,
            limit,
        );
        let value = found.0;
        let visited = if found.1 >= count {
            found.1
        } else {
            count
        };
        if maximizing {
            let best = if value > best {
                value
            } else {
                best
            };
            let alpha = if best > alpha {
                best
            } else {
                alpha
            };
            if beta <= alpha {
                (best, visited)
            } else {
                children_from(
                    s,
                    moves,
                    i + 1,
                    depth,
                    alpha,
                    beta,
                    maximizing,
                    color,
                    visited,
                    limit,
                    best,
                )
            }
        } else {
            let best = if value < best {
                value
            } else {
                best
            };
            let beta = if best < beta {
                best
            } else {
                beta
            };
            if beta <= alpha {
                (best, visited)
            } else {
                children_from(
                    s,
                    moves,
                    i + 1,
                    depth,
                    alpha,
                    beta,
                    maximizing,
                    color,
                    visited,
                    limit,
                    best,
                )
            }
        }
    }
}

/// What the root of a search has come to: the move it keeps, the value
/// that move was kept at, and the node counter.
pub struct Choice {
    pub chosen: Move,
    pub value: i32,
    pub visited: i32,
}

/// What the root comes to once the moves before `moves[i]` have left it
/// with `so_far`: each move's state is searched in the full window, in the
/// role `maximizing`, and a move whose value is not below the value kept
/// so far takes the place of the move kept.
pub open spec fn choice_from<T: Evaluate>(
    s: T,
    moves: Seq<Move>,
    i: int,
    depth: i32,
    maximizing: bool,
    color: Color,
    limit: i32,
    so_far: Choice,
) -> Choice
    decreases moves.len() - i,
{
    if i < 0 || i >= moves.len() {
        so_far
    } else {
        let found = minimax_from(
            s.next(moves[i]),
            depth,
            WINDOW_LOW,
            WINDOW_HIGH,
            maximizing,
            color,
            so_far.visited,
            limit,
        );
        choice_from(
            s,
            moves,
            i + 1,
            depth,
            maximizing,
            color,
            limit,
            if found.0 >= so_far.value {
                Choice { chosen: moves[i], value: found.0, visited: found.1 }
            } else {
                Choice { visited: found.1, ..so_far }
            },
        )
    }
}

/// What the root comes to from its first move on: it starts with its first
/// move kept at the lowest value and with no node counted.
pub open spec fn choice<T: Evaluate>(s: T, depth: i32, limit: i32, maximizing: bool) -> Choice {
    choice_from(
        s,
        s.moves(),
        0,
        depth,
        maximizing,
        s.player(),
        limit,
        Choice { chosen: s.moves()[0], value: LOWEST, visited: 0 },
    )
}

/// The move the side to move should play: the one after which the other
/// side, minimizing, leaves the greatest value; of several, the last.
pub open spec fn best_move<T: Evaluate>(s: T, depth: i32, limit: i32) -> Move {
    choice(s, depth, limit, false).chosen
}

/// The move a weak player makes: chosen as the best move is, but with each
/// move's state searched as a maximizing node.
pub open spec fn worst_move<T: Evaluate>(s: T, depth: i32, limit: i32) -> Move {
    choice(s, depth, limit, true).chosen
}

fn search<T: Evaluate>(
    state: &T,
    depth: i32,
    alpha: i32,
    beta: i32,
    is_maximizing: bool,
    getting_move_for: Color,
    board_count: &mut i32,
    board_limit: i32,
) -> (value: i32)
    ensures
        (value, *final(board_count)) == minimax_from(
            *state,
            depth,
            alpha,
            beta,
            is_maximizing,
            getting_move_for,
            *old(board_count),
            board_limit,
        ),
        *final(board_count) >= *old(board_count),
    decreases height(depth), fuel(board_limit, *old(board_count)),
{
    if *board_count < i32::MAX {
        *board_count = *board_count + 1;
    }
    if depth == 0 || *board_count >= board_limit {
        return state.material_value_for(getting_move_for);
    }
    let legal_moves = state.get_legal_moves();
    let below: i32 = if depth > 0 {
        depth - 1
    } else {
        depth
    };
    let mut lower: i32 = alpha;
    let mut upper: i32 = beta;
    let mut best_move_value: i32 = if is_maximizing {
        LOWEST
    } else {
        HIGHEST
    };
    let ghost whole = minimax_from(
        *state,
        depth,
        alpha,
        beta,
        is_maximizing,
        getting_move_for,
        *old(board_count),
        board_limit,
    );
    let mut i: usize = 0;
    while i < legal_moves.len()
        invariant
            i <= legal_moves.len(),
            legal_moves@ == state.moves(),
            below == child_depth(depth),
            depth != 0,
            *old(board_count) < *board_count,
            *old(board_count) < board_limit,
            whole == minimax_from(
                *state,
                depth,
                alpha,
                beta,
                is_maximizing,
                getting_move_for,
                *old(board_count),
                board_limit,
            ),
            children_from(
                *state,
                legal_moves@,
                i as int,
                below,
                lower,
                upper,
                is_maximizing,
                getting_move_for,
                *board_count,
                board_limit,
                best_move_value,
            ) == whole,
        decreases legal_moves.len() - i,
    {
        let child = state.apply_eval_move(legal_moves[i]);
        let child_board_value = search(
            &child,
            below,
            lower,
            upper,
            !is_maximizing,
            getting_move_for,
            board_count,
            board_limit,
        );
        if is_maximizing {
            if child_board_value > best_move_value {
                best_move_value = child_board_value;
            }
            if best_move_value > lower {
                lower = best_move_value
            }
        } else {
            if child_board_value < best_move_value {
                best_move_value = child_board_value;
            }
            if best_move_value < upper {
                upper = best_move_value
            }
        }
        if upper <= lower {
            return best_move_value;
        }
        i += 1;
    }
    best_move_value
}

fn choose_move<T: Evaluate>(state: &T, depth: i32, board_limit: i32, maximizing: bool) -> (m: Move)
    requires
        state.moves().len() > 0,
    ensures
        m == choice(*state, depth, board_limit, maximizing).chosen,
        state.moves().contains(m),
{
    let legal_moves = state.get_legal_moves();
    let mut best_move_value: i32 = LOWEST;
    let mut best_move = legal_moves[0];
    let color = state.get_current_player_color();
    let mut board_count: i32 = 0;
    let mut i: usize = 0;
    while i < legal_moves.len()
        invariant
            i <= legal_moves.len(),
            legal_moves@ == state.moves(),
            color == state.player(),
            legal_moves@.contains(best_move),
            choice_from(
                *state,
                legal_moves@,
                i as int,
                depth,
                maximizing,
                color,
                board_limit,
                Choice { chosen: best_move, value: best_move_value, visited: board_count },
            ) == choice(*state, depth, board_limit, maximizing),
        decreases legal_moves.len() - i,
    {
        let m = legal_moves[i];
        let child = state.apply_eval_move(m);
        let child_board_value = search(
            &child,
            depth,
            WINDOW_LOW,
            WINDOW_HIGH,
            maximizing,
            color,
            &mut board_count,
            board_limit,
        );
        if child_board_value >= best_move_value {
            best_move = m;
            best_move_value = child_board_value;
        }
        i += 1;
    }
    best_move
}

/// The search that every game state has: minimax with alpha-beta pruning,
/// bounded by a depth and by a budget of nodes that the whole tree shares.
pub trait Search: Evaluate {
    /// The best move for the side to move. The state must have a legal
    /// move. Whatever the budget, the move is one of the legal moves.
    fn get_best_next_move(&self, depth: i32, board_limit: i32) -> (m: Move)
        requires
            self.moves().len() > 0,
        ensures
            m == best_move(*self, depth, board_limit),
            self.moves().contains(m),
    ;

    /// The move of a weak player. The state must have a legal move.
    fn get_worst_next_move(&self, depth: i32, board_limit: i32) -> (m: Move)
        requires
            self.moves().len() > 0,
        ensures
            m == worst_move(*self, depth, board_limit),
            self.moves().contains(m),
    ;

    /// The value of this node, for `getting_move_for`, in the window from
    /// `alpha` to `beta`. `board_count` counts the nodes visited so far in
    /// the whole tree and goes up by one for every node visited here; once
    /// it has come to `board_limit`, every node gives its state's value.
    fn minimax(
        &self,
        depth: i32,
        alpha: i32,
        beta: i32,
        is_maximizing: bool,
        getting_move_for: Color,
        board_count: &mut i32,
        board_limit: i32,
    ) -> (value: i32)
        ensures
            (value, *final(board_count)) == minimax_from(
                *self,
                depth,
                alpha,
                beta,
                is_maximizing,
                getting_move_for,
                *old(board_count),
                board_limit,
            ),
            *final(board_count) >= *old(board_count),
    ;
}

impl<T: Evaluate> Search for T {
    fn get_best_next_move(&self, depth: i32, board_limit: i32) -> (m: Move) {
        choose_move(self, depth, board_limit, false)
    }

    fn get_worst_next_move(&self, depth: i32, board_limit: i32) -> (m: Move) {
        choose_move(self, depth, board_limit, true)
    }

    fn minimax(
        &self,
        depth: i32,
        alpha: i32,
        beta: i32,
        is_maximizing: bool,
        getting_move_for: Color,
        board_count: &mut i32,
        board_limit: i32,
    ) -> (value: i32) {
        search(
            self,
            depth,
            alpha,
            beta,
            is_maximizing,
            getting_move_for,
            board_count,
            board_limit,
        )
    }
}

} // verus!
