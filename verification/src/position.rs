//! Grid coordinates, their place on the screen, and wrapping at the edges.

use vstd::prelude::*;
use vstd::std_specs::convert::FromSpecImpl;

verus! {

/// Number of columns of the grid.
pub const GRID_WIDTH: usize = 20;

/// Number of rows of the grid.
pub const GRID_HEIGHT: usize = 20;

/// Width of one cell on the screen, in pixels.
pub const CELL_WIDTH: u32 = 32;

/// Height of one cell on the screen, in pixels.
pub const CELL_HEIGHT: u32 = 32;

/// Width of the whole grid on the screen, in pixels.
pub const SCREEN_WIDTH: u32 = 640;

/// Height of the whole grid on the screen, in pixels.
pub const SCREEN_HEIGHT: u32 = 640;

/// Whether `(x, y)` names a cell of the grid.
pub open spec fn in_grid(x: int, y: int) -> bool {
    0 <= x < GRID_WIDTH && 0 <= y < GRID_HEIGHT
}

/// The coordinate in `[0, n)` that `i` falls on when an axis of `n` cells is
/// closed into a ring.
pub open spec fn wrap_spec(i: int, n: int) -> int
    recommends
        n > 0,
{
    i % n
}

/// Wraps the coordinate `i` onto an axis of `n` cells: the result is `i`
/// modulo `n`, never negative.
pub fn wrap(i: i16, n: i16) -> (r: i16)
    requires
        n > 0,
    ensures
        r == wrap_spec(i as int, n as int),
        0 <= r < n,
{
    if i >= 0 {
        i % n
    } else {
        // -1 - i is the distance of i below -1, which is never negative.
        let below: i16 = -1 - i;
        let back: i16 = below % n;
        proof {
            lemma_wrap_negative(i as int, n as int);
        }
        n - 1 - back
    }
}

/// For a negative `i`, counting `(-1 - i) mod n` steps back from `n - 1`
/// lands on `i mod n`.
proof fn lemma_wrap_negative(i: int, n: int)
    requires
        i < 0,
        n > 0,
    ensures
        i % n == n - 1 - ((-1 - i) % n),
        0 <= i % n < n,
{
    let k = -1 - i;
    let q = k / n;
    let r = k % n;
    vstd::arithmetic::div_mod::lemma_fundamental_div_mod(k, n);
    assert(k == n * q + r);
    assert(0 <= r < n) by {
        vstd::arithmetic::div_mod::lemma_mod_pos_bound(k, n);
    }
    assert(i == (-(q + 1)) * n + (n - 1 - r)) by (nonlinear_arith)
        requires
            k == n * q + r,
            k == -1 - i,
    ;
    vstd::arithmetic::div_mod::lemma_fundamental_div_mod_converse(i, n, -(q + 1), n - 1 - r);
}

/// A cell's place in the grid: column `x`, row `y`.
#[derive(Clone, Copy, PartialEq, Eq, Structural, Debug)]
pub struct GridPosition {
    pub x: i16,
    pub y: i16,
}

impl GridPosition {
    /// Whether the position names a cell of the grid.
    pub open spec fn in_grid(self) -> bool {
        in_grid(self.x as int, self.y as int)
    }
}

impl From<(i16, i16)> for GridPosition {
    /// The position with column `pos.0` and row `pos.1`.
    fn from(pos: (i16, i16)) -> (r: Self) {
        GridPosition { x: pos.0, y: pos.1 }
    }
}

impl FromSpecImpl<(i16, i16)> for GridPosition {
    open spec fn obeys_from_spec() -> bool {
        true
    }

    open spec fn from_spec(pos: (i16, i16)) -> Self {
        GridPosition { x: pos.0, y: pos.1 }
    }
}

/// An axis-aligned rectangle on the screen, in whole pixels: its top-left
/// corner `(x, y)`, its width `w` and its height `h`.
#[derive(Clone, Copy, PartialEq, Eq, Structural, Debug)]
pub struct PixelRect {
    pub x: i32,
    pub y: i32,
    pub w: i32,
    pub h: i32,
}

impl From<GridPosition> for PixelRect {
    /// The square of the screen that the cell at `pos` is painted on.
    fn from(pos: GridPosition) -> (r: Self) {
        PixelRect {
            x: pos.x as i32 * CELL_WIDTH as i32,
            y: pos.y as i32 * CELL_HEIGHT as i32,
            w: CELL_WIDTH as i32,
            h: CELL_HEIGHT as i32,
        }
    }
}

impl FromSpecImpl<GridPosition> for PixelRect {
    open spec fn obeys_from_spec() -> bool {
        true
    }

    open spec fn from_spec(pos: GridPosition) -> Self {
        PixelRect {
            x: (pos.x * CELL_WIDTH) as i32,
            y: (pos.y * CELL_HEIGHT) as i32,
            w: CELL_WIDTH as i32,
            h: CELL_HEIGHT as i32,
        }
    }
}

/// The cell that the pixel `(px, py)` lies in, if it lies in the grid.
pub open spec fn cell_at_pixel_spec(px: int, py: int) -> Option<GridPosition> {
    let x = px / CELL_WIDTH as int;
    let y = py / CELL_HEIGHT as int;
    if in_grid(x, y) {
        Some(GridPosition { x: x as i16, y: y as i16 })
    } else {
        None
    }
}

/// Finds the cell under the pixel `(px, py)`, counted from the top-left
/// corner of the screen. A pixel outside the grid has no cell.
pub fn cell_at_pixel(px: u32, py: u32) -> (r: Option<GridPosition>)
    ensures
        r == cell_at_pixel_spec(px as int, py as int),
        r matches Some(pos) ==> pos.in_grid(),
{
    let x: u32 = px / CELL_WIDTH;
    let y: u32 = py / CELL_HEIGHT;
    if x < GRID_WIDTH as u32 && y < GRID_HEIGHT as u32 {
        Some(GridPosition { x: x as i16, y: y as i16 })
    } else {
        None
    }
}

} // verus!
