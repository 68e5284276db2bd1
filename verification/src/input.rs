//! Steering: from the arrow keys that are held down to the direction that the
//! head will take at its next move.

use vstd::prelude::*;
use crate::grid::Direction;

verus! {

/// Which of the four arrow keys are held down.
#[derive(Clone, Copy, PartialEq, Eq, Structural, Debug)]
pub struct ArrowKeys {
    pub left: bool,
    pub down: bool,
    pub up: bool,
    pub right: bool,
}

impl ArrowKeys {
    /// The direction that the keys ask for. Where several keys are held the
    /// first of left, down, up, right decides; where none is held the keys ask
    /// for `current`.
    pub open spec fn spec_candidate(self, current: Direction) -> Direction {
        if self.left {
            Direction::Left
        } else if self.down {
            Direction::Down
        } else if self.up {
            Direction::Up
        } else if self.right {
            Direction::Right
        } else {
            current
        }
    }

    /// The direction that the keys ask for. Where several keys are held the
    /// first of left, down, up, right decides; where none is held the keys ask
    /// for `current`.
    #[verifier::when_used_as_spec(spec_candidate)]
    pub fn candidate(self, current: Direction) -> (r: Direction)
        ensures
            r == self.spec_candidate(current),
    {
        if self.left {
            Direction::Left
        } else if self.down {
            Direction::Down
        } else if self.up {
            Direction::Up
        } else if self.right {
            Direction::Right
        } else {
            current
        }
    }
}

impl Direction {
    /// The direction of travel after `candidate` was asked for: the candidate,
    /// unless it points straight back, in which case the snake keeps going as
    /// it did.
    pub open spec fn spec_adopt(self, candidate: Direction) -> Direction {
        if candidate == self.opposite() {
            self
        } else {
            candidate
        }
    }

    /// The direction of travel after `candidate` was asked for. The candidate
    /// is turned down if and only if it is the opposite of the current
    /// direction; the current direction then stays.
    #[verifier::when_used_as_spec(spec_adopt)]
    pub fn adopt(self, candidate: Direction) -> (r: Direction)
        ensures
            r == self.spec_adopt(candidate),
            r != candidate <==> candidate == self.opposite(),
            r != candidate ==> r == self,
            r != self.opposite(),
    {
        if candidate == self.opposite() {
            self
        } else {
            candidate
        }
    }
}

} // verus!
