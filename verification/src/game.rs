//! The game: a grid of cells and the flag that says whether it runs.

use vstd::prelude::*;
use crate::cell::{Cell, State};
use crate::position::{
    cell_at_pixel, cell_at_pixel_spec, in_grid, wrap, GridPosition, GRID_HEIGHT, GRID_WIDTH,
};
use crate::rules::{
    alive_at, board_wf, dead_board, live_neighbors, next_generation, next_state, toggled, Board,
};

verus! {

/// How many generations pass in a second while the game runs.
pub const UPDATES_PER_SECOND: u64 = 10;

/// The time from one generation to the next, in milliseconds.
pub const MILLIS_PER_UPDATE: u64 = 100;

/// The whole state of a game: every cell of the grid, and whether the
/// generations are advancing.
pub struct GameState {
    /// The cells by column, then by row: `grid[x][y]` stands at `(x, y)`.
    grid: Vec<Vec<Cell>>,
    /// Whether the generations advance as time passes.
    running: bool,
}

impl GameState {
    /// The invariant of the type: the grid is fully populated, and every cell
    /// knows its own place.
    pub closed spec fn wf(&self) -> bool {
        &&& self.grid.len() == GRID_WIDTH
        &&& forall|x: int|
            0 <= x < GRID_WIDTH ==> (#[trigger] self.grid[x]).len() == GRID_HEIGHT
        &&& forall|x: int, y: int|
            0 <= x < GRID_WIDTH && 0 <= y < GRID_HEIGHT ==> (#[trigger] self.grid[x][y]).pos
                == (GridPosition { x: x as i16, y: y as i16 })
    }

    /// The board that the game holds: the state of every cell.
    pub closed spec fn view(&self) -> Board {
        Seq::new(
            GRID_WIDTH as nat,
            |x: int| Seq::new(GRID_HEIGHT as nat, |y: int| self.grid[x][y].state),
        )
    }

    /// Whether the generations advance as time passes.
    pub closed spec fn running(&self) -> bool {
        self.running
    }

    /// The board of a game always has the dimensions of the grid.
    pub proof fn lemma_view_wf(&self)
        ensures
            board_wf(self@),
    {
    }

    /// A new game: every cell dead, and the generations at rest.
    pub fn new() -> (r: Self)
        ensures
            r.wf(),
            r@ == dead_board(),
            !r.running(),
    {
        let mut grid: Vec<Vec<Cell>> = Vec::new();
        let mut x: usize = 0;
        while x < GRID_WIDTH
            invariant
                x <= GRID_WIDTH,
                grid.len() == x,
                forall|i: int| 0 <= i < x ==> (#[trigger] grid[i]).len() == GRID_HEIGHT,
                forall|i: int, j: int|
                    0 <= i < x && 0 <= j < GRID_HEIGHT ==> (#[trigger] grid[i][j]) == (Cell {
                        pos: GridPosition { x: i as i16, y: j as i16 },
                        state: State::Dead,
                    }),
            decreases GRID_WIDTH - x,
        {
            let mut column: Vec<Cell> = Vec::new();
            let mut y: usize = 0;
            while y < GRID_HEIGHT
                invariant
                    x < GRID_WIDTH,
                    y <= GRID_HEIGHT,
                    column.len() == y,
                    forall|j: int|
                        0 <= j < y ==> (#[trigger] column[j]) == (Cell {
                            pos: GridPosition { x: x as i16, y: j as i16 },
                            state: State::Dead,
                        }),
                decreases GRID_HEIGHT - y,
            {
                column.push(Cell::new((x as i16, y as i16).into()));
                y += 1;
            }
            grid.push(column);
            x += 1;
        }
        let r = GameState { grid: grid, running: false };
        assert(r@ =~~= dead_board());
        r
    }

    /// Says whether the generations advance as time passes.
    pub fn is_running(&self) -> (r: bool)
        ensures
            r == self.running(),
    {
        self.running
    }

    /// Starts the generations (`true`) or brings them to rest (`false`). The
    /// cells stay as they are.
    pub fn set_running(&mut self, flag: bool)
        requires
            old(self).wf(),
        ensures
            final(self).wf(),
            final(self).running() == flag,
            final(self)@ == old(self)@,
    {
        self.running = flag;
    }

    /// Starts the generations if they rest, and brings them to rest if they
    /// advance. The cells stay as they are.
    pub fn toggle_running(&mut self)
        requires
            old(self).wf(),
        ensures
            final(self).wf(),
            final(self).running() == !old(self).running(),
            final(self)@ == old(self)@,
    {
        self.running = !self.running;
    }

    /// Reads the cell at column `x` and row `y`. Coordinates outside the grid
    /// name no cell.
    pub fn cell(&self, x: usize, y: usize) -> (r: Option<Cell>)
        requires
            self.wf(),
        ensures
            in_grid(x as int, y as int) ==> r == Some(
                Cell {
                    pos: GridPosition { x: x as i16, y: y as i16 },
                    state: self@[x as int][y as int],
                },
            ),
            !in_grid(x as int, y as int) ==> r is None,
    {
        if x < GRID_WIDTH && y < GRID_HEIGHT {
            Some(self.grid[x][y])
        } else {
            None
        }
    }

    /// Flips the cell at column `x` and row `y` and returns its new state.
    /// Coordinates outside the grid are refused: nothing changes, and the
    /// result is `None`.
    pub fn toggle_cell(&mut self, x: usize, y: usize) -> (r: Option<State>)
        requires
            old(self).wf(),
        ensures
            final(self).wf(),
            final(self).running() == old(self).running(),
            in_grid(x as int, y as int) ==> final(self)@ == toggled(old(self)@, x as int, y as int)
                && r == Some(old(self)@[x as int][y as int].flipped_spec()),
            !in_grid(x as int, y as int) ==> final(self)@ == old(self)@ && r is None,
    {
        if x < GRID_WIDTH && y < GRID_HEIGHT {
            let state = self.grid[x][y].state.flipped();
            self.grid[x][y].state = state;
            assert(self@ =~~= toggled(old(self)@, x as int, y as int));
            Some(state)
        } else {
            None
        }
    }

    /// Handles a click on the pixel `(px, py)`, counted from the top-left
    /// corner of the screen: the cell under it is flipped, and its place is
    /// returned. A click outside the grid changes nothing.
    pub fn click(&mut self, px: u32, py: u32) -> (r: Option<GridPosition>)
        requires
            old(self).wf(),
        ensures
            final(self).wf(),
            final(self).running() == old(self).running(),
            r == cell_at_pixel_spec(px as int, py as int),
            match r {
                Some(pos) => final(self)@ == toggled(old(self)@, pos.x as int, pos.y as int),
                None => final(self)@ == old(self)@,
            },
    {
        match cell_at_pixel(px, py) {
            Some(pos) => {
                self.toggle_cell(pos.x as usize, pos.y as usize);
                Some(pos)
            },
            None => None,
        }
    }

    /// One if the cell found at `(x, y)`, wrapped onto the grid, is alive,
    /// zero if not.
    fn alive_at(&self, x: i16, y: i16) -> (r: u8)
        requires
            self.wf(),
        ensures
            r == alive_at(self@, x as int, y as int),
    {
        let column: usize = wrap(x, GRID_WIDTH as i16) as usize;
        let row: usize = wrap(y, GRID_HEIGHT as i16) as usize;
        if self.grid[column][row].state == State::Alive {
            1
        } else {
            0
        }
    }

    /// Counts the live cells around `(x, y)`, which lies in the grid.
    fn count_live_neighbors(&self, x: usize, y: usize) -> (r: u8)
        requires
            self.wf(),
            in_grid(x as int, y as int),
        ensures
            r == live_neighbors(self@, x as int, y as int),
    {
        let x: i16 = x as i16;
        let y: i16 = y as i16;
        let mut n: u8 = 0;
        n += self.alive_at(x - 1, y);
        n += self.alive_at(x - 1, y - 1);
        n += self.alive_at(x - 1, y + 1);
        n += self.alive_at(x + 1, y);
        n += self.alive_at(x + 1, y - 1);
        n += self.alive_at(x + 1, y + 1);
        n += self.alive_at(x, y - 1);
        n += self.alive_at(x, y + 1);
        n
    }

    /// Counts the live cells among the eight that surround the cell at column
    /// `x` and row `y`; a cell on an edge has its neighbours on the opposite
    /// edge. Coordinates outside the grid name no cell.
    pub fn live_neighbors(&self, x: usize, y: usize) -> (r: Option<u8>)
        requires
            self.wf(),
        ensures
            in_grid(x as int, y as int) ==> (r matches Some(n) && n == live_neighbors(
                self@,
                x as int,
                y as int,
            )),
            !in_grid(x as int, y as int) ==> r is None,
    {
        if x < GRID_WIDTH && y < GRID_HEIGHT {
            Some(self.count_live_neighbors(x, y))
        } else {
            None
        }
    }

    /// Replaces the grid by its next generation. Every cell is decided from
    /// the grid as it was before the call.
    pub fn advance_generation(&mut self)
        requires
            old(self).wf(),
        ensures
            final(self).wf(),
            final(self)@ == next_generation(old(self)@),
            final(self).running() == old(self).running(),
    {
        let mut new_grid: Vec<Vec<Cell>> = Vec::new();
        let mut x: usize = 0;
        while x < GRID_WIDTH
            invariant
                self.wf(),
                x <= GRID_WIDTH,
                new_grid.len() == x,
                forall|i: int| 0 <= i < x ==> (#[trigger] new_grid[i]).len() == GRID_HEIGHT,
                forall|i: int, j: int|
                    0 <= i < x && 0 <= j < GRID_HEIGHT ==> (#[trigger] new_grid[i][j]) == (Cell {
                        pos: GridPosition { x: i as i16, y: j as i16 },
                        state: next_generation(self@)[i][j],
                    }),
            decreases GRID_WIDTH - x,
        {
            let mut column: Vec<Cell> = Vec::new();
            let mut y: usize = 0;
            while y < GRID_HEIGHT
                invariant
                    self.wf(),
                    x < GRID_WIDTH,
                    y <= GRID_HEIGHT,
                    column.len() == y,
                    forall|j: int|
                        0 <= j < y ==> (#[trigger] column[j]) == (Cell {
                            pos: GridPosition { x: x as i16, y: j as i16 },
                            state: next_generation(self@)[x as int][j],
                        }),
                decreases GRID_HEIGHT - y,
            {
                let n = self.count_live_neighbors(x, y);
                let cell = self.grid[x][y];
                column.push(Cell { pos: cell.pos, state: next_state(cell.state, n) });
                y += 1;
            }
            new_grid.push(column);
            x += 1;
        }
        self.grid = new_grid;
        assert(self@ =~~= next_generation(old(self)@));
    }

    /// Lets `elapsed_millis` milliseconds count as passed since the last
    /// generation. If the game runs and a generation is due, the grid
    /// advances by one generation and the result is `true`; the caller then
    /// starts counting anew. Otherwise nothing changes.
    pub fn update(&mut self, elapsed_millis: u64) -> (advanced: bool)
        requires
            old(self).wf(),
        ensures
            final(self).wf(),
            final(self).running() == old(self).running(),
            advanced == (old(self).running() && elapsed_millis >= MILLIS_PER_UPDATE),
            advanced ==> final(self)@ == next_generation(old(self)@),
            !advanced ==> final(self)@ == old(self)@,
    {
        if elapsed_millis >= MILLIS_PER_UPDATE && self.running {
            self.advance_generation();
            true
        } else {
            false
        }
    }
}

} // verus!
