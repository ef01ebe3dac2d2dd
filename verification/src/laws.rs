//! What holds of the game on every board.

use vstd::prelude::*;
use crate::cell::State;
use crate::position::{
    cell_at_pixel_spec, in_grid, wrap_spec, CELL_HEIGHT, CELL_WIDTH, GRID_HEIGHT, GRID_WIDTH,
    SCREEN_HEIGHT, SCREEN_WIDTH,
};
use crate::rules::{
    alive_at, board_wf, dead_board, generations, live_neighbors, next_generation, toggled, Board,
};

verus! {

/// The screen is exactly as large as the grid painted on it, and the pixels
/// that have a cell under them are the pixels of the screen.
pub proof fn lemma_screen_covers_grid(px: int, py: int)
    ensures
        SCREEN_WIDTH == GRID_WIDTH * CELL_WIDTH,
        SCREEN_HEIGHT == GRID_HEIGHT * CELL_HEIGHT,
        cell_at_pixel_spec(px, py) is Some <==> 0 <= px < SCREEN_WIDTH && 0 <= py
            < SCREEN_HEIGHT,
{
}

/// Wrapping leaves a coordinate of the axis where it is, and carries the
/// coordinate just past either end to the other end.
pub proof fn lemma_wrap_at_edges(i: int, n: int)
    requires
        0 <= i < n,
    ensures
        wrap_spec(i, n) == i,
        wrap_spec(-1, n) == n - 1,
        wrap_spec(n, n) == 0,
        wrap_spec(i + n, n) == i,
        wrap_spec(i - n, n) == i,
{
    vstd::arithmetic::div_mod::lemma_small_mod(i as nat, n as nat);
    vstd::arithmetic::div_mod::lemma_mod_self_0(n);
    vstd::arithmetic::div_mod::lemma_mod_add_multiples_vanish(i, n);
    vstd::arithmetic::div_mod::lemma_mod_sub_multiples_vanish(i, n);
    vstd::arithmetic::div_mod::lemma_mod_sub_multiples_vanish(n - 1, n);
    vstd::arithmetic::div_mod::lemma_small_mod((n - 1) as nat, n as nat);
}

/// Flipping is its own inverse: a state flipped twice is the state itself.
pub proof fn lemma_flip_twice(state: State)
    ensures
        state.flipped_spec().flipped_spec() == state,
{
}

/// Toggling changes one cell: the cell at `(x, y)` is flipped, and every
/// other cell of the board is as it was.
pub proof fn lemma_toggle_changes_one_cell(board: Board, x: int, y: int)
    requires
        board_wf(board),
        in_grid(x, y),
    ensures
        board_wf(toggled(board, x, y)),
        toggled(board, x, y)[x][y] == board[x][y].flipped_spec(),
        forall|i: int, j: int|
            in_grid(i, j) && (i != x || j != y) ==> #[trigger] toggled(board, x, y)[i][j]
                == board[i][j],
{
}

/// Toggling the same cell twice gives back the board that one started from.
pub proof fn lemma_toggle_twice(board: Board, x: int, y: int)
    requires
        board_wf(board),
        in_grid(x, y),
    ensures
        toggled(toggled(board, x, y), x, y) == board,
{
    assert(toggled(toggled(board, x, y), x, y) =~~= board);
}

/// The next generation is a board again, so that generations can follow one
/// another without end.
pub proof fn lemma_next_generation_wf(board: Board)
    ensures
        board_wf(next_generation(board)),
{
}

/// The next generation depends on the board alone: from equal boards the
/// same generation follows, however often it is computed.
pub proof fn lemma_next_generation_deterministic(first: Board, second: Board)
    requires
        board_wf(first),
        board_wf(second),
        forall|x: int, y: int| in_grid(x, y) ==> first[x][y] == second[x][y],
    ensures
        next_generation(first) == next_generation(second),
{
    lemma_boards_equal(first, second);
}

/// A cell with exactly three live neighbours is alive in the next
/// generation, whether it was alive or dead.
pub proof fn lemma_three_neighbors_give_life(board: Board, x: int, y: int)
    requires
        board_wf(board),
        in_grid(x, y),
        live_neighbors(board, x, y) == 3,
    ensures
        next_generation(board)[x][y] == State::Alive,
{
}

/// A board without a live cell has none in the next generation either.
pub proof fn lemma_dead_board_is_fixed()
    ensures
        next_generation(dead_board()) == dead_board(),
{
    assert forall|x: int, y: int| in_grid(x, y) implies live_neighbors(dead_board(), x, y)
        == 0 by {
        lemma_neighbors_in_grid(x, y);
    }
    assert(next_generation(dead_board()) =~~= dead_board());
}

/// A board without a live cell stays as it is, however many generations
/// pass.
pub proof fn lemma_dead_board_stays_dead(board: Board, n: nat)
    requires
        board_wf(board),
        forall|x: int, y: int| in_grid(x, y) ==> board[x][y] == State::Dead,
    ensures
        generations(board, n) == board,
    decreases n,
{
    lemma_boards_equal(board, dead_board());
    if n > 0 {
        lemma_dead_board_stays_dead(board, (n - 1) as nat);
        lemma_dead_board_is_fixed();
    }
}

/// Whether `a` and `b` are the same place or next to each other on an axis
/// of `n` cells closed into a ring.
pub open spec fn adjacent_on_ring(a: int, b: int, n: int) -> bool {
    let d = wrap_spec(a - b, n);
    d == 0 || d == 1 || d == n - 1
}

/// Whether the cells at `(x, y)` and `(cx, cy)` are two different cells that
/// touch, by an edge or by a corner, on the grid closed into a ring along
/// both axes.
pub open spec fn are_neighbors(x: int, y: int, cx: int, cy: int) -> bool {
    &&& adjacent_on_ring(x, cx, GRID_WIDTH as int)
    &&& adjacent_on_ring(y, cy, GRID_HEIGHT as int)
    &&& !(x == cx && y == cy)
}

/// What flipping a cell in `state` adds to the number of live cells.
pub open spec fn flip_weight(state: State) -> int {
    match state {
        State::Dead => 1,
        State::Alive => -1,
    }
}

/// To be a neighbour is mutual: if one cell touches another, the other
/// touches it.
pub proof fn lemma_neighbors_are_mutual(x: int, y: int, cx: int, cy: int)
    requires
        in_grid(x, y),
        in_grid(cx, cy),
    ensures
        are_neighbors(x, y, cx, cy) == are_neighbors(cx, cy, x, y),
{
}

/// The count of live neighbours of `(x, y)` counts each cell that touches it
/// once, and no other cell: flipping a neighbour changes the count by one,
/// up for a cell that comes alive and down for one that dies, and flipping
/// any other cell, `(x, y)` itself among them, leaves the count as it was.
pub proof fn lemma_count_follows_neighbors(board: Board, x: int, y: int, cx: int, cy: int)
    requires
        board_wf(board),
        in_grid(x, y),
        in_grid(cx, cy),
    ensures
        live_neighbors(toggled(board, cx, cy), x, y) == live_neighbors(board, x, y) + (
        if are_neighbors(x, y, cx, cy) {
            flip_weight(board[cx][cy])
        } else {
            0
        }),
{
    lemma_alive_at_after_toggle(board, cx, cy, x - 1, y - 1);
    lemma_alive_at_after_toggle(board, cx, cy, x - 1, y);
    lemma_alive_at_after_toggle(board, cx, cy, x - 1, y + 1);
    lemma_alive_at_after_toggle(board, cx, cy, x, y - 1);
    lemma_alive_at_after_toggle(board, cx, cy, x, y + 1);
    lemma_alive_at_after_toggle(board, cx, cy, x + 1, y - 1);
    lemma_alive_at_after_toggle(board, cx, cy, x + 1, y);
    lemma_alive_at_after_toggle(board, cx, cy, x + 1, y + 1);
    lemma_steps_on_ring(x, cx, GRID_WIDTH as int);
    lemma_steps_on_ring(y, cy, GRID_HEIGHT as int);
}

/// Flipping the cell at `(cx, cy)` changes what is found at `(i, j)` exactly
/// when `(i, j)` wraps onto `(cx, cy)`.
proof fn lemma_alive_at_after_toggle(board: Board, cx: int, cy: int, i: int, j: int)
    requires
        board_wf(board),
        in_grid(cx, cy),
    ensures
        alive_at(toggled(board, cx, cy), i, j) == alive_at(board, i, j) + (if wrap_spec(
            i,
            GRID_WIDTH as int,
        ) == cx && wrap_spec(j, GRID_HEIGHT as int) == cy {
            flip_weight(board[cx][cy])
        } else {
            0
        }),
{
    let wi = wrap_spec(i, GRID_WIDTH as int);
    let wj = wrap_spec(j, GRID_HEIGHT as int);
    assert(in_grid(wi, wj));
}

/// On a ring of at least three cells, the steps back, nowhere and forward
/// from `a` reach three different places, and `b` is one of them exactly
/// when the way from `b` to `a` is one step forward, none, or one step back.
proof fn lemma_steps_on_ring(a: int, b: int, n: int)
    requires
        3 <= n,
        0 <= a < n,
        0 <= b < n,
    ensures
        wrap_spec(a - 1, n) == b <==> wrap_spec(a - b, n) == 1,
        wrap_spec(a, n) == b <==> wrap_spec(a - b, n) == 0,
        wrap_spec(a + 1, n) == b <==> wrap_spec(a - b, n) == n - 1,
        wrap_spec(a, n) == b <==> a == b,
{
    lemma_wrap_at_edges(a, n);
    lemma_wrap_at_edges(b, n);
    if a >= 1 {
        lemma_wrap_at_edges(a - 1, n);
    }
    if a + 1 < n {
        lemma_wrap_at_edges(a + 1, n);
    }
    if a >= b {
        lemma_wrap_at_edges(a - b, n);
    } else {
        lemma_wrap_at_edges(a - b + n, n);
    }
}

/// The grid closes into a ring along both axes: the cell at `(0, 0)` and the
/// cell in the opposite corner are neighbours, so that each is counted among
/// the live neighbours of the other while it is alive.
pub proof fn lemma_opposite_corners_are_neighbors(board: Board)
    requires
        board_wf(board),
    ensures
        are_neighbors(0, 0, GRID_WIDTH - 1, GRID_HEIGHT - 1),
        are_neighbors(GRID_WIDTH - 1, GRID_HEIGHT - 1, 0, 0),
        board[GRID_WIDTH - 1][GRID_HEIGHT - 1] == State::Alive ==> live_neighbors(board, 0, 0)
            >= 1,
        board[0][0] == State::Alive ==> live_neighbors(
            board,
            GRID_WIDTH - 1,
            GRID_HEIGHT - 1,
        ) >= 1,
{
}

/// Two boards that agree on every cell of the grid are the same board.
proof fn lemma_boards_equal(first: Board, second: Board)
    requires
        board_wf(first),
        board_wf(second),
        forall|x: int, y: int| in_grid(x, y) ==> first[x][y] == second[x][y],
    ensures
        first == second,
{
    assert forall|x: int| 0 <= x < GRID_WIDTH implies first[x] == second[x] by {
        assert forall|y: int| 0 <= y < GRID_HEIGHT implies first[x][y] == second[x][y] by {
            assert(in_grid(x, y));
        }
        assert(first[x] =~= second[x]);
    }
    assert(first =~= second);
}

/// Every neighbour of a cell of the grid, once wrapped, is a cell of the
/// grid.
proof fn lemma_neighbors_in_grid(x: int, y: int)
    requires
        in_grid(x, y),
    ensures
        forall|dx: int, dy: int|
            -1 <= dx <= 1 && -1 <= dy <= 1 ==> in_grid(
                #[trigger] wrap_spec(x + dx, GRID_WIDTH as int),
                #[trigger] wrap_spec(y + dy, GRID_HEIGHT as int),
            ),
{
}

} // verus!
