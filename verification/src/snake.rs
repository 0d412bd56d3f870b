use vstd::prelude::*;

use crate::direction::Direction;
use crate::point::{lemma_transform_step, Point};

verus! {

/// Whether some non-head cell of a body coincides with its head.
pub open spec fn overlapping(body: Seq<Point>) -> bool {
    exists|i: int| 1 <= i < body.len() && #[trigger] body[i] == body[0]
}

/// The snake: an ordered chain of grid cells, head first. Index 0 is the
/// head and the last index is the tail. The body is never empty, and it is
/// mutated only by the move and grow operations below.
#[derive(Debug)]
pub struct Snake {
    body: Vec<Point>,
}

impl View for Snake {
    type V = Seq<Point>;

    closed spec fn view(&self) -> Seq<Point> {
        self.body@
    }
}

impl Snake {
    /// The body invariant: a snake always has at least one cell.
    pub open spec fn wf(&self) -> bool {
        self@.len() >= 1
    }

    /// The cell the head occupies.
    pub open spec fn spec_head(&self) -> Point {
        self@[0]
    }

    /// Whether some non-head cell coincides with the head.
    pub open spec fn spec_overlapping(&self) -> bool {
        overlapping(self@)
    }

    /// Builds a snake of `length` cells (at least one, whatever `length`
    /// says), trailing away from `head` along the direction opposite to
    /// `direction`: cell `i` sits `i` steps behind the head.
    pub fn new(head: Point, length: u8, direction: Direction) -> (s: Self)
        requires
            head.can_transform(
                direction.spec_opposite(),
                if length == 0 { 0int } else { length - 1 },
            ),
        ensures
            s.wf(),
            s@.len() == if length == 0 { 1int } else { length as int },
            forall|i: int|
                0 <= i < s@.len() ==> s@[i] == head.transformed(direction.spec_opposite(), i),
            s.spec_head() == head,
            forall|i: int|
                0 <= i < s@.len() - 1 ==> s@[i + 1] == (#[trigger] s@[i]).transformed(
                    direction.spec_opposite(),
                    1,
                ),
    {
        let n: u8 = if length < 1 {
            1
        } else {
            length
        };
        let trail = direction.opposite();
        let mut body: Vec<Point> = Vec::new();
        let mut i: u8 = 0;
        while i < n
            invariant
                i <= n,
                1 <= n,
                n as int == if length == 0 { 1int } else { length as int },
                trail == direction.spec_opposite(),
                head.can_transform(trail, n - 1),
                body@.len() == i as int,
                forall|j: int| 0 <= j < i ==> body@[j] == head.transformed(trail, j),
            decreases n - i,
        {
            body.push(head.transform(&trail, i as u16));
            i = i + 1;
        }
        proof {
            assert forall|i: int| 0 <= i < body@.len() - 1 implies body@[i + 1] == (
            #[trigger] body@[i]).transformed(trail, 1) by {
                lemma_transform_step(head, trail, i);
            }
        }
        Snake { body }
    }

    /// Shared access to the head cell.
    pub fn borrow_head(&self) -> (r: &Point)
        requires
            self.wf(),
        ensures
            *r == self.spec_head(),
    {
        &self.body[0]
    }

    /// Shared access to the whole body, head first.
    pub fn borrow_body(&self) -> (r: &Vec<Point>)
        ensures
            r@ == self@,
    {
        &self.body
    }

    /// Advances the snake one cell along `direction`: the new head is one
    /// step ahead of the old one and the tail cell is dropped, so the body
    /// length is preserved.
    pub fn move_in_direction(&mut self, direction: Direction)
        requires
            old(self).wf(),
            old(self).spec_head().can_transform(direction, 1),
        ensures
            final(self).wf(),
            final(self)@.len() == old(self)@.len(),
            final(self)@ == seq![old(self).spec_head().transformed(direction, 1)]
                + old(self)@.drop_last(),
    {
        self.move_in_direction_and_maybe_grow(direction, false)
    }

    /// Advances the snake one cell along `direction` and keeps the tail, so
    /// the body length grows by exactly one.
    pub fn move_and_grow_in_direction(&mut self, direction: Direction)
        requires
            old(self).wf(),
            old(self).spec_head().can_transform(direction, 1),
        ensures
            final(self).wf(),
            final(self)@.len() == old(self)@.len() + 1,
            final(self)@ == seq![old(self).spec_head().transformed(direction, 1)] + old(self)@,
    {
        self.move_in_direction_and_maybe_grow(direction, true)
    }

    /// Whether the head occupies `point`.
    pub fn is_bumping_at_point(&self, point: &Point) -> (r: bool)
        requires
            self.wf(),
        ensures
            r == (self.spec_head() == *point),
    {
        let head = &self.body[0];
        head.x == point.x && head.y == point.y
    }

    /// Whether some non-head cell coincides with the head: true exactly when
    /// the snake has run into itself.
    pub fn is_overlapping_self(&self) -> (r: bool)
        requires
            self.wf(),
        ensures
            r == self.spec_overlapping(),
    {
        let mut i: usize = 1;
        while i < self.body.len()
            invariant
                self.wf(),
                1 <= i <= self@.len(),
                forall|j: int| 1 <= j < i ==> #[trigger] self@[j] != self@[0],
            decreases self@.len() - i,
        {
            if self.is_bumping_at_point(&self.body[i]) {
                return true;
            }
            i = i + 1;
        }
        false
    }

    fn move_in_direction_and_maybe_grow(&mut self, direction: Direction, should_grow: bool)
        requires
            old(self).wf(),
            old(self).spec_head().can_transform(direction, 1),
        ensures
            final(self).wf(),
            final(self)@ == if should_grow {
                seq![old(self).spec_head().transformed(direction, 1)] + old(self)@
            } else {
                seq![old(self).spec_head().transformed(direction, 1)] + old(self)@.drop_last()
            },
    {
        let ghost before = self.body@;
        let new_head = self.body[0].transform(&direction, 1);

        self.body.insert(0, new_head);
        proof {
            assert(self.body@ =~= seq![new_head] + before);
        }

        if !should_grow {
            self.body.pop();
            proof {
                assert(self.body@ =~= seq![new_head] + before.drop_last());
            }
        }
    }
}

} // verus!
