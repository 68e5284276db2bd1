//! The arena, the cells on it and the four directions of travel.

use vstd::prelude::*;

verus! {

/// Number of columns of the arena.
pub const ARENA_WIDTH: u32 = 10;

/// Number of rows of the arena.
pub const ARENA_HEIGHT: u32 = 10;

/// A direction of travel on the arena.
#[derive(Clone, Copy, PartialEq, Eq, Structural, Debug)]
pub enum Direction {
    Left,
    Up,
    Right,
    Down,
}

impl Direction {
    /// The direction that points the other way.
    pub open spec fn spec_opposite(self) -> Direction {
        match self {
            Direction::Left => Direction::Right,
            Direction::Right => Direction::Left,
            Direction::Up => Direction::Down,
            Direction::Down => Direction::Up,
        }
    }

    /// The direction that points the other way. It differs from `self`,
    /// and its own opposite is `self` again.
    #[verifier::when_used_as_spec(spec_opposite)]
    pub fn opposite(self) -> (r: Direction)
        ensures
            r == self.spec_opposite(),
            r != self,
            r.spec_opposite() == self,
    {
        match self {
            Direction::Left => Direction::Right,
            Direction::Right => Direction::Left,
            Direction::Up => Direction::Down,
            Direction::Down => Direction::Up,
        }
    }
}

/// A cell of the arena, by column `x` and row `y`.
#[derive(Clone, Copy, PartialEq, Eq, Structural, Debug)]
pub struct Position {
    pub x: i32,
    pub y: i32,
}

impl Position {
    /// Whether the cell lies on the arena.
    pub open spec fn spec_in_arena(self) -> bool {
        0 <= self.x < ARENA_WIDTH && 0 <= self.y < ARENA_HEIGHT
    }

    /// Whether the cell lies on the arena.
    #[verifier::when_used_as_spec(spec_in_arena)]
    pub fn in_arena(self) -> (r: bool)
        ensures
            r == self.spec_in_arena(),
    {
        0 <= self.x && self.x < ARENA_WIDTH as i32 && 0 <= self.y && self.y < ARENA_HEIGHT as i32
    }

    /// The cell one step away in `direction`. A step that would leave the
    /// arena arrives at the opposite edge instead.
    pub open spec fn spec_step(self, direction: Direction) -> Position {
        match direction {
            Direction::Left => Position {
                x: if self.x - 1 < 0 { (ARENA_WIDTH - 1) as i32 } else { (self.x - 1) as i32 },
                y: self.y,
            },
            Direction::Right => Position {
                x: if self.x + 1 > ARENA_WIDTH - 1 { 0 } else { (self.x + 1) as i32 },
                y: self.y,
            },
            Direction::Down => Position {
                x: self.x,
                y: if self.y - 1 < 0 { (ARENA_HEIGHT - 1) as i32 } else { (self.y - 1) as i32 },
            },
            Direction::Up => Position {
                x: self.x,
                y: if self.y + 1 > ARENA_HEIGHT - 1 { 0 } else { (self.y + 1) as i32 },
            },
        }
    }

    /// The cell one step away in `direction`, with wraparound at the edges.
    /// From a cell of the arena the step arrives on the arena.
    #[verifier::when_used_as_spec(spec_step)]
    pub fn step(self, direction: Direction) -> (r: Position)
        ensures
            r == self.spec_step(direction),
            self.in_arena() ==> r.in_arena(),
    {
        match direction {
            Direction::Left => Position {
                x: if self.x <= 0 { (ARENA_WIDTH - 1) as i32 } else { self.x - 1 },
                y: self.y,
            },
            Direction::Right => Position {
                x: if self.x >= (ARENA_WIDTH - 1) as i32 { 0 } else { self.x + 1 },
                y: self.y,
            },
            Direction::Down => Position {
                x: self.x,
                y: if self.y <= 0 { (ARENA_HEIGHT - 1) as i32 } else { self.y - 1 },
            },
            Direction::Up => Position {
                x: self.x,
                y: if self.y >= (ARENA_HEIGHT - 1) as i32 { 0 } else { self.y + 1 },
            },
        }
    }
}

impl Default for Position {
    /// The cell in the corner where both coordinates are zero.
    fn default() -> (r: Position)
        ensures
            r == (Position { x: 0, y: 0 }),
    {
        Position { x: 0, y: 0 }
    }
}

/// Whether every one of `cells` lies on the arena.
pub open spec fn all_in_arena(cells: Seq<Position>) -> bool {
    forall|i: int| 0 <= i < cells.len() ==> (#[trigger] cells[i]).in_arena()
}

/// On the arena a step is modular arithmetic: the coordinate along the
/// direction of travel moves by one modulo the arena's extent, the other
/// coordinate stays, and the step arrives on the arena.
pub proof fn lemma_step_wraps(cell: Position, direction: Direction)
    requires
        cell.in_arena(),
    ensures
        cell.step(direction).in_arena(),
        cell.step(direction) == match direction {
            Direction::Left => Position { x: ((cell.x - 1) % (ARENA_WIDTH as int)) as i32, y: cell.y },
            Direction::Right => Position { x: ((cell.x + 1) % (ARENA_WIDTH as int)) as i32, y: cell.y },
            Direction::Down => Position { x: cell.x, y: ((cell.y - 1) % (ARENA_HEIGHT as int)) as i32 },
            Direction::Up => Position { x: cell.x, y: ((cell.y + 1) % (ARENA_HEIGHT as int)) as i32 },
        },
{
}

/// A step and the step back cancel on the arena.
pub proof fn lemma_step_back(cell: Position, direction: Direction)
    requires
        cell.in_arena(),
    ensures
        cell.step(direction).step(direction.opposite()) == cell,
{
}

} // verus!
