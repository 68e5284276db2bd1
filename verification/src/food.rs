//! Where new food lands: a cell of the arena chosen by two random samples.

use vstd::prelude::*;
use crate::grid::{Position, ARENA_HEIGHT, ARENA_WIDTH};

verus! {

/// The cell that a pair of samples selects: each coordinate is its sample
/// reduced modulo the arena's extent along that axis.
pub open spec fn spec_cell_from_samples(sample_x: u32, sample_y: u32) -> Position {
    Position { x: (sample_x % ARENA_WIDTH) as i32, y: (sample_y % ARENA_HEIGHT) as i32 }
}

/// The cell that a pair of samples selects. It always lies on the arena, and
/// every cell of the arena is selected by some pair of samples.
#[verifier::when_used_as_spec(spec_cell_from_samples)]
pub fn cell_from_samples(sample_x: u32, sample_y: u32) -> (cell: Position)
    ensures
        cell == spec_cell_from_samples(sample_x, sample_y),
        cell.in_arena(),
{
    Position { x: (sample_x % ARENA_WIDTH) as i32, y: (sample_y % ARENA_HEIGHT) as i32 }
}

/// Every cell of the arena is its own pair of samples, so no cell is out of
/// the spawner's reach.
pub proof fn lemma_every_cell_is_selected(cell: Position)
    requires
        cell.in_arena(),
    ensures
        cell_from_samples(cell.x as u32, cell.y as u32) == cell,
{
}

/// One sample from `rand::random`, which draws a `u32` from the generator
/// that `rand` keeps for the calling thread. Nothing is claimed of the value:
/// any `u32` may come back, and two calls may differ.
#[verifier::external_body]
pub(crate) fn random_sample() -> (sample: u32) {
    rand::random::<u32>()
}

} // verus!
