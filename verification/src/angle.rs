//! Headings as angles in millidegrees, kept within one full turn.

use vstd::prelude::*;
use crate::{FULL_TURN, HALF_TURN, TURN_STEP};

verus! {

/// The heading of an entity, in millidegrees.
#[derive(Clone, Copy)]
pub struct Direction {
    pub angle: i64,
}

impl Direction {
    /// A heading is well formed when it lies within one full turn.
    pub open spec fn wf(self) -> bool {
        0 <= self.angle < FULL_TURN
    }

    /// The heading one counter-clockwise turn step from `a`.
    pub open spec fn spec_rotate_left(a: int) -> int {
        if a + TURN_STEP < FULL_TURN {
            a + TURN_STEP
        } else {
            a + TURN_STEP - FULL_TURN
        }
    }

    /// The heading one clockwise turn step from `a`.
    pub open spec fn spec_rotate_right(a: int) -> int {
        if a - TURN_STEP >= 0 {
            a - TURN_STEP
        } else {
            a - TURN_STEP + FULL_TURN
        }
    }

    /// The heading pointing exactly away from `a`.
    pub open spec fn spec_opposite(a: int) -> int {
        if a < HALF_TURN {
            a + HALF_TURN
        } else {
            a - HALF_TURN
        }
    }

    /// Turn one step counter-clockwise, wrapping at a full turn.
    pub fn rotate_left(&mut self)
        requires
            old(self).wf(),
        ensures
            final(self).wf(),
            final(self).angle == Self::spec_rotate_left(old(self).angle as int),
    {
        self.angle = self.angle + TURN_STEP;
        if self.angle >= FULL_TURN {
            self.angle = self.angle - FULL_TURN;
        }
    }

    /// Turn one step clockwise, wrapping at zero.
    pub fn rotate_right(&mut self)
        requires
            old(self).wf(),
        ensures
            final(self).wf(),
            final(self).angle == Self::spec_rotate_right(old(self).angle as int),
    {
        self.angle = self.angle - TURN_STEP;
        if self.angle < 0 {
            self.angle = self.angle + FULL_TURN;
        }
    }
}

/// The heading pointing exactly away from a well-formed heading.
pub fn opposite_heading(a: i64) -> (r: i64)
    requires
        0 <= a < FULL_TURN,
    ensures
        r as int == Direction::spec_opposite(a as int),
        0 <= r < FULL_TURN,
{
    if a < HALF_TURN {
        a + HALF_TURN
    } else {
        a - HALF_TURN
    }
}

/// Turning one step left and then one step right returns every well-formed
/// heading exactly to where it started.
pub proof fn lemma_rotate_left_then_right(a: int)
    requires
        0 <= a < FULL_TURN,
    ensures
        Direction::spec_rotate_right(Direction::spec_rotate_left(a)) == a,
{
}

/// Turning one step right and then one step left is also the identity.
pub proof fn lemma_rotate_right_then_left(a: int)
    requires
        0 <= a < FULL_TURN,
    ensures
        Direction::spec_rotate_left(Direction::spec_rotate_right(a)) == a,
{
}

} // verus!
