//! A toroidal Game of Life engine over a packed bit grid.
//!
//! The grid is stored row-major in a `FixedBitSet`; every generation is
//! computed into a fresh buffer from the current one, so no cell ever sees an
//! already updated neighbour. Random choices (the initial seed, whether a
//! glider is injected before a generation) are made by the caller and handed in
//! as plain values, which keeps every step of the engine deterministic.
use vstd::prelude::*;

pub mod bitset;
pub mod greeting;
pub mod grid;
pub mod laws;
pub mod universe;

verus! {

/// The state of one cell.
#[derive(Clone, Copy, Debug, PartialEq, Eq, Structural)]
pub enum Cell {
    Dead,
    Alive,
}

} // verus!
