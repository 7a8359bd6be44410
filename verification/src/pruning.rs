use crate::search::{
    child_depth, children_from, choice, choice_from, counted, minimax_from, Choice, Evaluate,
    HIGHEST, LOWEST, WINDOW_HIGH, WINDOW_LOW,
};
use crate::{Color, Move};
use vstd::prelude::*;

verus! {

/// The value of the node `s` by minimax alone, `depth` levels down: no
/// window, no pruning and no budget.
pub open spec fn plain_value<T: Evaluate>(s: T, depth: nat, maximizing: bool, color: Color) -> i32
    decreases depth, 1nat, 0nat,
{
    if depth == 0 {
        s.value(color)
    } else {
        plain_children(
            s,
            s.moves(),
            0,
            (depth - 1) as nat,
            maximizing,
            color,
            if maximizing { LOWEST } else { HIGHEST },
        )
    }
}

/// The value of the node `s` by minimax alone once its children before
/// `moves[i]` have given the best value `best`: the greatest of `best` and
/// the values of the children that are left at a maximizing node, the
/// least at a minimizing node.
pub open spec fn plain_children<T: Evaluate>(
    s: T,
    moves: Seq<Move>,
    i: int,
    depth: nat,
    maximizing: bool,
    color: Color,
    best: i32,
) -> i32
    decreases depth + 1, 0nat, (if i < moves.len() { moves.len() - i } else { 0 }) as nat,
{
    if i < 0 || i >= moves.len() {
        best
    } else {
        let value = plain_value(s.next(moves[i]), depth, !maximizing, color);
        plain_children(
            s,
            moves,
            i + 1,
            depth,
            maximizing,
            color,
            if maximizing {
                if value > best { value } else { best }
            } else {
                if value < best { value } else { best }
            },
        )
    }
}

/// How the value `v` that a search in the window from `alpha` to `beta`
/// returns stands to the value `p` of minimax alone: the same inside the
/// window; at or below `alpha`, and not below `p`, where `p` is at or below
/// `alpha`; at or above `beta`, and not above `p`, where `p` is at or
/// above `beta`.
pub open spec fn agrees(v: int, p: int, alpha: int, beta: int) -> bool {
    &&& alpha < p < beta ==> v == p
    &&& p <= alpha ==> p <= v <= alpha
    &&& p >= beta ==> beta <= v <= p
}

/// A search never lowers the node counter.
pub proof fn lemma_counter_grows<T: Evaluate>(
    s: T,
    depth: i32,
    alpha: i32,
    beta: i32,
    maximizing: bool,
    color: Color,
    count: i32,
    limit: i32,
)
    ensures
        minimax_from(s, depth, alpha, beta, maximizing, color, count, limit).1 >= counted(count),
        counted(count) >= count,
    decreases
            crate::search::height(depth),
            crate::search::fuel(limit, count),
            1nat,
            0nat,
{
    let visited = counted(count);
    if depth == 0 || visited >= limit {
    } else {
        lemma_counter_grows_children(
            s,
            s.moves(),
            0,
            child_depth(depth),
            alpha,
            beta,
            maximizing,
            color,
            visited,
            limit,
            if maximizing { LOWEST } else { HIGHEST },
        );
    }
}

/// The search of a node's children never lowers the node counter.
pub proof fn lemma_counter_grows_children<T: Evaluate>(
    s: T,
    moves: Seq<Move>,
    i: int,
    depth: i32,
    alpha: i32,
    beta: i32,
    maximizing: bool,
    color: Color,
    count: i32,
    limit: i32,
    best: i32,
)
    ensures
        children_from(s, moves, i, depth, alpha, beta, maximizing, color, count, limit, best).1
            >= count,
    decreases
            (if depth >= 0 { depth + 1 } else { 0 }) as nat,
            crate::search::fuel(limit, count) + 1,
            0nat,
            (if i < moves.len() { moves.len() - i } else { 0 }) as nat,
{
    if i < 0 || i >= moves.len() {
    } else {
        let found = minimax_from(
            s.next(moves[i]),
            depth,
            alpha,
            beta,
            !maximizing,
            color,
            count,
            limit,
        );
        let value = found.0;
        let visited = if found.1 >= count { found.1 } else { count };
        if maximizing {
            let best2 = if value > best { value } else { best };
            let alpha2 = if best2 > alpha { best2 } else { alpha };
            if beta <= alpha2 {
            } else {
                lemma_counter_grows_children(
                    s,
                    moves,
                    i + 1,
                    depth,
                    alpha2,
                    beta,
                    maximizing,
                    color,
                    visited,
                    limit,
                    best2,
                );
            }
        } else {
            let best2 = if value < best { value } else { best };
            let beta2 = if best2 < beta { best2 } else { beta };
            if beta2 <= alpha {
            } else {
                lemma_counter_grows_children(
                    s,
                    moves,
                    i + 1,
                    depth,
                    alpha,
                    beta2,
                    maximizing,
                    color,
                    visited,
                    limit,
                    best2,
                );
            }
        }
    }
}

/// Minimax alone never gives a maximizing node less, nor a minimizing node
/// more, than the best value it has.
pub proof fn lemma_plain_keeps_best<T: Evaluate>(
    s: T,
    moves: Seq<Move>,
    i: int,
    depth: nat,
    maximizing: bool,
    color: Color,
    best: i32,
)
    ensures
        maximizing ==> plain_children(s, moves, i, depth, maximizing, color, best) >= best,
        !maximizing ==> plain_children(s, moves, i, depth, maximizing, color, best) <= best,
    decreases (if i < moves.len() { moves.len() - i } else { 0 }) as nat,
{
    if i < 0 || i >= moves.len() {
    } else {
        let value = plain_value(s.next(moves[i]), depth, !maximizing, color);
        lemma_plain_keeps_best(
            s,
            moves,
            i + 1,
            depth,
            maximizing,
            color,
            if maximizing {
                if value > best { value } else { best }
            } else {
                if value < best { value } else { best }
            },
        );
    }
}

/// Pruning does not change what a search finds: as long as the budget is
/// not used up, the value that a search of a node returns in a window
/// agrees with the value of minimax alone.
pub proof fn law_pruning_keeps_the_value<T: Evaluate>(
    s: T,
    depth: i32,
    alpha: i32,
    beta: i32,
    maximizing: bool,
    color: Color,
    count: i32,
    limit: i32,
)
    requires
        depth >= 0,
        alpha < beta,
        minimax_from(s, depth, alpha, beta, maximizing, color, count, limit).1 < limit,
    ensures
        agrees(
            minimax_from(s, depth, alpha, beta, maximizing, color, count, limit).0 as int,
            plain_value(s, depth as nat, maximizing, color) as int,
            alpha as int,
            beta as int,
        ),
    decreases depth, 1nat, 0nat,
{
    let visited = counted(count);
    if depth == 0 || visited >= limit {
    } else {
        let start: i32 = if maximizing { LOWEST } else { HIGHEST };
        lemma_children_agree(
            s,
            s.moves(),
            0,
            child_depth(depth),
            alpha,
            beta,
            maximizing,
            color,
            visited,
            limit,
            start,
            start,
        );
    }
}

/// The search of a node's children agrees with minimax alone, the search
/// having the best value `best` and minimax alone the best value `plain`:
/// either the two are the same, or `best` lies outside the window on the
/// side that the node cannot improve on and `plain` still farther out.
proof fn lemma_children_agree<T: Evaluate>(
    s: T,
    moves: Seq<Move>,
    i: int,
    depth: i32,
    alpha: i32,
    beta: i32,
    maximizing: bool,
    color: Color,
    count: i32,
    limit: i32,
    best: i32,
    plain: i32,
)
    requires
        depth >= 0,
        alpha < beta,
        0 <= i <= moves.len(),
        children_from(s, moves, i, depth, alpha, beta, maximizing, color, count, limit, best).1
            < limit,
        maximizing ==> plain <= best && (best <= alpha || best == plain),
        !maximizing ==> plain >= best && (best >= beta || best == plain),
    ensures
        agrees(
            children_from(s, moves, i, depth, alpha, beta, maximizing, color, count, limit, best).0 as int,
            plain_children(s, moves, i, depth as nat, maximizing, color, plain) as int,
            alpha as int,
            beta as int,
        ),
    decreases depth + 1, 0nat, moves.len() - i,
{
    if i < moves.len() {
        let child = s.next(moves[i]);
        let found = minimax_from(child, depth, alpha, beta, !maximizing, color, count, limit);
        let outcome = plain_value(child, depth as nat, !maximizing, color);
        let best2 = if maximizing {
            if found.0 > best { found.0 } else { best }
        } else {
            if found.0 < best { found.0 } else { best }
        };
        let plain2 = if maximizing {
            if outcome > plain { outcome } else { plain }
        } else {
            if outcome < plain { outcome } else { plain }
        };
        let alpha2 = if maximizing && best2 > alpha { best2 } else { alpha };
        let beta2 = if !maximizing && best2 < beta { best2 } else { beta };
        lemma_counter_grows(child, depth, alpha, beta, !maximizing, color, count, limit);
        lemma_plain_keeps_best(s, moves, i + 1, depth as nat, maximizing, color, plain2);
        if beta2 > alpha2 {
            lemma_counter_grows_children(
                s,
                moves,
                i + 1,
                depth,
                alpha2,
                beta2,
                maximizing,
                color,
                found.1,
                limit,
                best2,
            );
        }
        law_pruning_keeps_the_value(child, depth, alpha, beta, !maximizing, color, count, limit);
        if beta2 > alpha2 {
            lemma_children_agree(
                s,
                moves,
                i + 1,
                depth,
                alpha2,
                beta2,
                maximizing,
                color,
                found.1,
                limit,
                best2,
                plain2,
            );
        }
    }
}

/// The value of the move `m` for the side to move in `s` by minimax alone:
/// that of the state after `m`, `depth` levels down, in the role
/// `maximizing`.
pub open spec fn outcome<T: Evaluate>(s: T, m: Move, depth: i32, maximizing: bool) -> i32 {
    plain_value(s.next(m), depth as nat, maximizing, s.player())
}

/// The root never lowers the node counter.
proof fn lemma_choice_counter_grows<T: Evaluate>(
    s: T,
    moves: Seq<Move>,
    i: int,
    depth: i32,
    maximizing: bool,
    color: Color,
    limit: i32,
    so_far: Choice,
)
    ensures
        choice_from(s, moves, i, depth, maximizing, color, limit, so_far).visited
            >= so_far.visited,
    decreases moves.len() - i,
{
    if i < 0 || i >= moves.len() {
    } else {
        let found = minimax_from(
            s.next(moves[i]),
            depth,
            WINDOW_LOW,
            WINDOW_HIGH,
            maximizing,
            color,
            so_far.visited,
            limit,
        );
        lemma_counter_grows(
            s.next(moves[i]),
            depth,
            WINDOW_LOW,
            WINDOW_HIGH,
            maximizing,
            color,
            so_far.visited,
            limit,
        );
        lemma_choice_counter_grows(
            s,
            moves,
            i + 1,
            depth,
            maximizing,
            color,
            limit,
            if found.0 >= so_far.value {
                Choice { chosen: moves[i], value: found.0, visited: found.1 }
            } else {
                Choice { visited: found.1, ..so_far }
            },
        );
    }
}

proof fn lemma_choice_from<T: Evaluate>(
    s: T,
    moves: Seq<Move>,
    i: int,
    depth: i32,
    maximizing: bool,
    limit: i32,
    so_far: Choice,
)
    requires
        depth >= 0,
        0 <= i <= moves.len(),
        choice_from(s, moves, i, depth, maximizing, s.player(), limit, so_far).visited < limit,
        forall|j: int|
            0 <= j < moves.len() ==> outcome(s, #[trigger] moves[j], depth, maximizing)
                < WINDOW_HIGH,
        so_far.value >= LOWEST,
        moves.contains(so_far.chosen),
        forall|j: int|
            0 <= j < i ==> outcome(s, #[trigger] moves[j], depth, maximizing) <= so_far.value,
        so_far.value > LOWEST || (exists|j: int|
            0 <= j < i && outcome(s, #[trigger] moves[j], depth, maximizing) >= LOWEST)
            ==> outcome(s, so_far.chosen, depth, maximizing) == so_far.value,
    ensures
        ({
            let c = choice_from(s, moves, i, depth, maximizing, s.player(), limit, so_far);
            &&& moves.contains(c.chosen)
            &&& forall|j: int|
                0 <= j < moves.len() ==> outcome(s, #[trigger] moves[j], depth, maximizing)
                    <= c.value
            &&& c.value > LOWEST || (exists|j: int|
                0 <= j < moves.len() && outcome(s, #[trigger] moves[j], depth, maximizing)
                    >= LOWEST) ==> outcome(s, c.chosen, depth, maximizing) == c.value
        }),
    decreases moves.len() - i,
{
    if i >= moves.len() {
    } else {
        let color = s.player();
        let child = s.next(moves[i]);
        let found = minimax_from(
            child,
            depth,
            WINDOW_LOW,
            WINDOW_HIGH,
            maximizing,
            color,
            so_far.visited,
            limit,
        );
        let next = if found.0 >= so_far.value {
            Choice { chosen: moves[i], value: found.0, visited: found.1 }
        } else {
            Choice { visited: found.1, ..so_far }
        };
        lemma_choice_counter_grows(s, moves, i + 1, depth, maximizing, color, limit, next);
        law_pruning_keeps_the_value(
            child,
            depth,
            WINDOW_LOW,
            WINDOW_HIGH,
            maximizing,
            color,
            so_far.visited,
            limit,
        );
        if next.value > LOWEST || (exists|j: int|
            0 <= j < i + 1 && outcome(s, #[trigger] moves[j], depth, maximizing) >= LOWEST) {
            if found.0 >= so_far.value {
            } else if so_far.value > LOWEST {
            } else {
                let j = choose|j: int|
                    0 <= j < i + 1 && outcome(s, #[trigger] moves[j], depth, maximizing)
                        >= LOWEST;
            }
        }
        lemma_choice_from(s, moves, i + 1, depth, maximizing, limit, next);
    }
}

/// The move that a search chooses is one that minimax alone values most:
/// as long as the budget is not used up, no legal move has a greater value
/// by minimax alone than the move chosen, and the value the move was kept
/// at is its value by minimax alone. This holds where every legal move's
/// value lies below the window's upper end and some legal move's value is
/// not below the lowest value. With `maximizing` unset the move chosen is
/// the best move, with `maximizing` set the move of a weak player.
pub proof fn law_chosen_move_has_the_greatest_value<T: Evaluate>(
    s: T,
    depth: i32,
    limit: i32,
    maximizing: bool,
)
    requires
        depth >= 0,
        s.moves().len() > 0,
        choice(s, depth, limit, maximizing).visited < limit,
        forall|m: Move| #[trigger]
            s.moves().contains(m) ==> outcome(s, m, depth, maximizing) < WINDOW_HIGH,
        exists|m: Move| #[trigger]
            s.moves().contains(m) && outcome(s, m, depth, maximizing) >= LOWEST,
    ensures
        s.moves().contains(choice(s, depth, limit, maximizing).chosen),
        outcome(s, choice(s, depth, limit, maximizing).chosen, depth, maximizing) == choice(
            s,
            depth,
            limit,
            maximizing,
        ).value,
        forall|m: Move| #[trigger]
            s.moves().contains(m) ==> outcome(s, m, depth, maximizing) <= outcome(
                s,
                choice(s, depth, limit, maximizing).chosen,
                depth,
                maximizing,
            ),
{
    let moves = s.moves();
    let start = Choice { chosen: moves[0], value: LOWEST, visited: 0 };
    assert forall|j: int| 0 <= j < moves.len() implies outcome(
        s,
        #[trigger] moves[j],
        depth,
        maximizing,
    ) < WINDOW_HIGH by {
        assert(moves.contains(moves[j]));
    }
    lemma_choice_from(s, moves, 0, depth, maximizing, limit, start);
    let reached = choose|m: Move| #[trigger]
        moves.contains(m) && outcome(s, m, depth, maximizing) >= LOWEST;
    assert(moves.contains(reached));
}

} // verus!
