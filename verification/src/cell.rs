//! One cell of the grid.

use vstd::prelude::*;
use crate::position::GridPosition;

verus! {

/// Whether a cell is dead or alive.
#[derive(Clone, Copy, PartialEq, Eq, Structural, Debug)]
pub enum State {
    Dead,
    Alive,
}

impl State {
    /// The other state.
    pub open spec fn flipped_spec(self) -> State {
        match self {
            State::Dead => State::Alive,
            State::Alive => State::Dead,
        }
    }

    /// Returns the other state: `Alive` for `Dead`, `Dead` for `Alive`.
    pub fn flipped(self) -> (r: State)
        ensures
            r == self.flipped_spec(),
    {
        match self {
            State::Dead => State::Alive,
            State::Alive => State::Dead,
        }
    }

    /// The colour of a cell in this state, as red, green, blue and opacity,
    /// each from 0 to 255.
    pub open spec fn rgba_spec(self) -> (u8, u8, u8, u8) {
        match self {
            State::Dead => (0, 0, 0, 255),
            State::Alive => (255, 255, 255, 255),
        }
    }

    /// Returns the colour that a cell in this state is painted in: white for
    /// a live cell, black for a dead one, both opaque.
    pub fn rgba(self) -> (r: (u8, u8, u8, u8))
        ensures
            r == self.rgba_spec(),
    {
        match self {
            State::Dead => (0, 0, 0, 255),
            State::Alive => (255, 255, 255, 255),
        }
    }
}

/// A cell: where it stands in the grid, and its state.
#[derive(Clone, Copy, PartialEq, Eq, Structural, Debug)]
pub struct Cell {
    pub pos: GridPosition,
    pub state: State,
}

impl Cell {
    /// A dead cell at `pos`.
    pub fn new(pos: GridPosition) -> (r: Self)
        ensures
            r == (Cell { pos: pos, state: State::Dead }),
    {
        Cell { pos: pos, state: State::Dead }
    }
}

} // verus!
