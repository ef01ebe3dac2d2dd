//! The rule of the game, stated over a mathematical board.
//!
//! A board is a sequence of columns, each a sequence of states, so that
//! `board[x][y]` is the state of the cell in column `x` and row `y`. The left
//! edge of the board touches the right edge, and the top touches the bottom.

use vstd::prelude::*;
use crate::cell::State;
use crate::position::{in_grid, wrap_spec, GRID_HEIGHT, GRID_WIDTH};

verus! {

/// A board: `GRID_WIDTH` columns of `GRID_HEIGHT` states each.
pub type Board = Seq<Seq<State>>;

/// Whether `board` has the dimensions of the grid, with no cell missing.
pub open spec fn board_wf(board: Board) -> bool {
    &&& board.len() == GRID_WIDTH
    &&& forall|x: int| 0 <= x < GRID_WIDTH ==> (#[trigger] board[x]).len() == GRID_HEIGHT
}

/// The board on which every cell is dead.
pub open spec fn dead_board() -> Board {
    Seq::new(GRID_WIDTH as nat, |x: int| Seq::new(GRID_HEIGHT as nat, |y: int| State::Dead))
}

/// The state found at `(x, y)` once both coordinates are wrapped onto the
/// board, each along its own axis.
pub open spec fn state_at(board: Board, x: int, y: int) -> State {
    board[wrap_spec(x, GRID_WIDTH as int)][wrap_spec(y, GRID_HEIGHT as int)]
}

/// One if the cell found at the wrapped `(x, y)` is alive, zero if not.
pub open spec fn alive_at(board: Board, x: int, y: int) -> int {
    if state_at(board, x, y) == State::Alive {
        1
    } else {
        0
    }
}

/// The number of live cells among the eight cells that surround `(x, y)`.
pub open spec fn live_neighbors(board: Board, x: int, y: int) -> int {
    alive_at(board, x - 1, y - 1) + alive_at(board, x - 1, y) + alive_at(board, x - 1, y + 1)
        + alive_at(board, x, y - 1) + alive_at(board, x, y + 1)
        + alive_at(board, x + 1, y - 1) + alive_at(board, x + 1, y) + alive_at(board, x + 1, y + 1)
}

/// Decides a cell's next state from its state and the number of its live
/// neighbours.
pub open spec fn next_state_spec(current: State, neighbors: int) -> State {
    match current {
        State::Alive => if neighbors == 2 || neighbors == 3 {
            State::Alive
        } else {
            State::Dead
        },
        State::Dead => if neighbors == 3 {
            State::Alive
        } else {
            State::Dead
        },
    }
}

/// The generation that follows `board`: every cell is decided from `board`
/// alone, none from a cell of the new generation.
pub open spec fn next_generation(board: Board) -> Board {
    Seq::new(
        GRID_WIDTH as nat,
        |x: int|
            Seq::new(
                GRID_HEIGHT as nat,
                |y: int| next_state_spec(board[x][y], live_neighbors(board, x, y)),
            ),
    )
}

/// The board reached from `board` after `n` generations.
pub open spec fn generations(board: Board, n: nat) -> Board
    decreases n,
{
    if n == 0 {
        board
    } else {
        next_generation(generations(board, (n - 1) as nat))
    }
}

/// `board` with the state of the cell at `(x, y)` flipped, and every other
/// cell as it was.
pub open spec fn toggled(board: Board, x: int, y: int) -> Board
    recommends
        board_wf(board),
        in_grid(x, y),
{
    board.update(x, board[x].update(y, board[x][y].flipped_spec()))
}

/// Applies the rule to one cell: a live cell with two or three live
/// neighbours stays alive, a dead cell with exactly three comes alive, and
/// every other cell is dead.
pub fn next_state(current: State, neighbors: u8) -> (r: State)
    ensures
        r == next_state_spec(current, neighbors as int),
{
    if current == State::Alive && (neighbors == 2 || neighbors == 3) {
        State::Alive
    } else if current == State::Dead && neighbors == 3 {
        State::Alive
    } else {
        State::Dead
    }
}

} // verus!
