use vstd::prelude::*;

use crate::direction::Direction;

verus! {

/// A zero-based, unsigned grid coordinate: `x` grows to the right,
/// `y` grows downward.
#[derive(Clone, Copy, Debug, PartialEq, Eq, Structural)]
pub struct Point {
    pub x: u16,
    pub y: u16,
}

impl Point {
    /// Whether shifting `times` cells along `dir` keeps both coordinates
    /// inside the representable domain (no underflow past zero, no overflow
    /// past `u16::MAX`).
    pub open spec fn can_transform(self, dir: Direction, times: int) -> bool {
        match dir {
            Direction::Up => times <= self.y,
            Direction::Down => self.y + times <= u16::MAX,
            Direction::Left => times <= self.x,
            Direction::Right => self.x + times <= u16::MAX,
        }
    }

    /// The coordinate `times` cells along `dir` from this one.
    pub open spec fn transformed(self, dir: Direction, times: int) -> Point {
        match dir {
            Direction::Up => Point { x: self.x, y: (self.y - times) as u16 },
            Direction::Down => Point { x: self.x, y: (self.y + times) as u16 },
            Direction::Left => Point { x: (self.x - times) as u16, y: self.y },
            Direction::Right => Point { x: (self.x + times) as u16, y: self.y },
        }
    }

    /// Pure shift of a coordinate by `times` cells along `dir`. The caller
    /// guarantees the result stays in the coordinate domain; a shift past
    /// zero or past `u16::MAX` is a caller error, not a recoverable one.
    pub fn transform(&self, dir: &Direction, times: u16) -> (r: Self)
        requires
            self.can_transform(*dir, times as int),
        ensures
            r == self.transformed(*dir, times as int),
    {
        match dir {
            Direction::Up => Self { x: self.x, y: self.y - times },
            Direction::Down => Self { x: self.x, y: self.y + times },
            Direction::Left => Self { x: self.x - times, y: self.y },
            Direction::Right => Self { x: self.x + times, y: self.y },
        }
    }
}

/// Shifting `i + 1` cells along a heading is the same as shifting `i` cells
/// and then one more, and the intermediate coordinate is itself in bounds.
pub proof fn lemma_transform_step(p: Point, dir: Direction, i: int)
    requires
        0 <= i,
        p.can_transform(dir, i + 1),
    ensures
        p.can_transform(dir, i),
        p.transformed(dir, i).can_transform(dir, 1),
        p.transformed(dir, i + 1) == p.transformed(dir, i).transformed(dir, 1),
{
}

} // verus!
