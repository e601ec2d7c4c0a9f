//! The two-valued state of a single grid cell, and the `Cell` wrapper
//! that the grid stores.

use vstd::prelude::*;

verus! {

/// State of one cell: every cell is exactly `Dead` or `Alive`.
#[derive(Clone, Copy, PartialEq, Eq, Structural, Debug)]
pub enum CellState {
    Dead,
    Alive,
}

impl CellState {
    /// True exactly on the `Alive` state.
    pub fn is_alive(&self) -> (r: bool)
        ensures
            r == (*self is Alive),
    {
        matches!(self, CellState::Alive)
    }

    /// Flips the state; applying it twice restores the original state.
    pub fn toggle(&mut self)
        ensures
            *final(self) is Alive <==> !(*old(self) is Alive),
    {
        *self = match self {
            CellState::Dead => CellState::Alive,
            CellState::Alive => CellState::Dead,
        };
    }
}

impl Default for CellState {
    /// A fresh state is `Dead`.
    fn default() -> (r: Self)
        ensures
            r is Dead,
    {
        CellState::Dead
    }
}

/// A single cell of the grid: a value type around `CellState` with no
/// identity beyond its position.
#[derive(Clone, Copy, PartialEq, Eq, Structural, Debug)]
pub struct Cell {
    pub state: CellState,
}

impl Cell {
    /// Whether the cell is alive, as a spec-level view of the cell.
    pub open spec fn spec_alive(&self) -> bool {
        self.state is Alive
    }

    pub fn new(state: CellState) -> (r: Self)
        ensures
            r.state == state,
    {
        Self { state }
    }

    pub fn alive() -> (r: Self)
        ensures
            r.spec_alive(),
    {
        Self::new(CellState::Alive)
    }

    pub fn dead() -> (r: Self)
        ensures
            !r.spec_alive(),
    {
        Self::new(CellState::Dead)
    }

    /// Alive exactly when the argument is true.
    pub fn from_bool(alive: bool) -> (r: Self)
        ensures
            r.spec_alive() == alive,
    {
        if alive {
            Self::alive()
        } else {
            Self::dead()
        }
    }

    pub fn is_alive(&self) -> (r: bool)
        ensures
            r == self.spec_alive(),
    {
        self.state.is_alive()
    }

    /// Flips the cell; applying it twice restores the original cell.
    pub fn toggle(&mut self)
        ensures
            final(self).spec_alive() == !old(self).spec_alive(),
    {
        self.state.toggle();
    }

    pub fn set_alive(&mut self)
        ensures
            final(self).spec_alive(),
    {
        self.state = CellState::Alive;
    }

    pub fn set_dead(&mut self)
        ensures
            !final(self).spec_alive(),
    {
        self.state = CellState::Dead;
    }

    pub fn set_state(&mut self, state: CellState)
        ensures
            final(self).state == state,
    {
        self.state = state;
    }
}

impl Default for Cell {
    /// A fresh cell is dead.
    fn default() -> (r: Self)
        ensures
            !r.spec_alive(),
    {
        Self::dead()
    }
}

} // verus!
