//! A span between two character offsets.

use crate::movement::movement::Direction;
use vstd::prelude::*;

verus! {

/// A span of one line. `anchor` is the end that stays, `head` the end that
/// moves; either may come first.
#[derive(Clone, Copy, Debug, PartialEq, Eq, Structural)]
pub struct Range {
    pub anchor: usize,
    pub head: usize,
}

impl Range {
    /// The smaller of the two ends.
    pub open spec fn spec_from(self) -> usize {
        if self.anchor <= self.head {
            self.anchor
        } else {
            self.head
        }
    }

    /// The larger of the two ends.
    pub open spec fn spec_to(self) -> usize {
        if self.anchor <= self.head {
            self.head
        } else {
            self.anchor
        }
    }

    /// Backward when the head lies before the anchor, forward otherwise.
    pub open spec fn spec_direction(self) -> Direction {
        if self.head < self.anchor {
            Direction::Backward
        } else {
            Direction::Forward
        }
    }

    pub fn new(anchor: usize, head: usize) -> (range: Range)
        ensures
            range == (Range { anchor, head }),
    {
        Range { anchor, head }
    }

    pub fn point(head: usize) -> (range: Range)
        ensures
            range == (Range { anchor: head, head }),
    {
        Range::new(head, head)
    }

    /// `true` when head and anchor are at the same position.
    pub fn is_empty(&self) -> (b: bool)
        ensures
            b == (self.anchor == self.head),
    {
        self.anchor == self.head
    }

    /// Start of the range.
    pub fn from(&self) -> (start: usize)
        ensures
            start == self.spec_from(),
    {
        if self.anchor <= self.head {
            self.anchor
        } else {
            self.head
        }
    }

    /// End of the range.
    pub fn to(&self) -> (end: usize)
        ensures
            end == self.spec_to(),
    {
        if self.anchor <= self.head {
            self.head
        } else {
            self.anchor
        }
    }

    /// `Direction::Backward` when head < anchor.
    /// `Direction::Forward` otherwise.
    pub fn direction(&self) -> (direction: Direction)
        ensures
            direction == self.spec_direction(),
    {
        if self.head < self.anchor {
            Direction::Backward
        } else {
            Direction::Forward
        }
    }

    /// Flips the direction of the selection
    pub fn flip(&self) -> (range: Range)
        ensures
            range == (Range { anchor: self.head, head: self.anchor }),
    {
        Range { anchor: self.head, head: self.anchor }
    }

    /// The same span, pointing in `direction`.
    pub fn with_direction(self, direction: Direction) -> (range: Range)
        ensures
            range == if self.spec_direction() == direction {
                self
            } else {
                Range { anchor: self.head, head: self.anchor }
            },
            range.spec_from() == self.spec_from(),
            range.spec_to() == self.spec_to(),
    {
        if self.direction() == direction {
            self
        } else {
            self.flip()
        }
    }

    /// Check two ranges for overlap.
    pub fn overlaps(&self, other: &Range) -> (b: bool)
        ensures
            b == (self.spec_to() > other.spec_from() && other.spec_to() > self.spec_from()),
    {
        self.to() > other.from() && other.to() > self.from()
    }

    pub fn contains_range(&self, other: &Range) -> (b: bool)
        ensures
            b == (self.spec_from() <= other.spec_from() && self.spec_to() >= other.spec_to()),
    {
        self.from() <= other.from() && self.to() >= other.to()
    }

    pub fn contains(&self, pos: usize) -> (b: bool)
        ensures
            b == (self.spec_from() <= pos < self.spec_to()),
    {
        self.from() <= pos && pos < self.to()
    }

    /// The smallest forward range that covers both.
    pub fn merge(&self, other: Range) -> (range: Range)
        ensures
            range.anchor == if self.spec_from() <= other.spec_from() {
                self.spec_from()
            } else {
                other.spec_from()
            },
            range.head == if self.spec_to() >= other.spec_to() {
                self.spec_to()
            } else {
                other.spec_to()
            },
    {
        let start = if self.from() <= other.from() {
            self.from()
        } else {
            other.from()
        };
        let end = if self.to() >= other.to() {
            self.to()
        } else {
            other.to()
        };
        Range { anchor: start, head: end }
    }
}

} // verus!
