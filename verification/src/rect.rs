//! The rectangle of the screen that the session draws into, and its rows.

use vstd::prelude::*;
use crate::position::Position;

verus! {

/// A rectangle of cells: its top-left corner, its width and its height.
#[derive(Debug, Clone, Copy, Eq, PartialEq, Hash, Structural)]
pub struct Rect {
    pub width: u16,
    pub height: u16,
    pub origin: Position,
}

/// `a + b`, or the largest `u16` where the sum is beyond it.
pub open spec fn saturating_sum(a: u16, b: u16) -> u16 {
    if a + b > u16::MAX {
        u16::MAX
    } else {
        (a + b) as u16
    }
}

/// `a - b`, or zero where `b` is the larger.
pub open spec fn saturating_diff(a: u16, b: u16) -> u16 {
    if a < b {
        0
    } else {
        (a - b) as u16
    }
}

/// The larger of `a` and `b`.
pub open spec fn larger(a: u16, b: u16) -> u16 {
    if a >= b {
        a
    } else {
        b
    }
}

/// The smaller of `a` and `b`.
pub open spec fn smaller(a: u16, b: u16) -> u16 {
    if a <= b {
        a
    } else {
        b
    }
}

impl Rect {
    /// The rectangle with corner `origin`, `width` columns and `height` rows.
    pub fn new(origin: Position, width: u16, height: u16) -> (r: Rect)
        ensures
            r.origin == origin,
            r.width == width,
            r.height == height,
    {
        Rect { width, height, origin }
    }

    /// The rectangle at the origin with the given size, as a value.
    pub open spec fn sized(width: u16, height: u16) -> Rect {
        Rect { width, height, origin: Position::origin_spec() }
    }

    /// The first column, as a value.
    pub open spec fn left_spec(&self) -> u16 {
        self.origin.x
    }

    /// The column after the last, as a value.
    pub open spec fn right_spec(&self) -> u16 {
        saturating_sum(self.origin.x, self.width)
    }

    /// The first row, as a value.
    pub open spec fn top_spec(&self) -> u16 {
        self.origin.y
    }

    /// The row after the last, as a value.
    pub open spec fn bottom_spec(&self) -> u16 {
        saturating_sum(self.origin.y, self.height)
    }

    /// What two rectangles have in common, as a value.
    pub open spec fn intersection_spec(&self, other: Rect) -> Rect {
        let x1 = larger(self.left_spec(), other.left_spec());
        let x2 = smaller(self.right_spec(), other.right_spec());
        let y1 = larger(self.top_spec(), other.top_spec());
        let y2 = smaller(self.bottom_spec(), other.bottom_spec());
        Rect {
            origin: Position { x: x1, y: y1 },
            width: saturating_diff(x2, x1),
            height: saturating_diff(y2, y1),
        }
    }

    /// Whether the cell in column `x` and row `y` lies in the rectangle.
    pub open spec fn contains(&self, x: int, y: int) -> bool {
        self.origin.x <= x < self.origin.x + self.width && self.origin.y <= y < self.origin.y
            + self.height
    }

    /// The first column.
    #[verifier::when_used_as_spec(left_spec)]
    pub fn left(&self) -> (x: u16)
        ensures
            x == self.left_spec(),
    {
        self.origin.x
    }

    /// The column after the last; the largest `u16` where that is beyond it.
    #[verifier::when_used_as_spec(right_spec)]
    pub fn right(&self) -> (x: u16)
        ensures
            x == self.right_spec(),
    {
        self.origin.x.saturating_add(self.width)
    }

    /// The first row.
    #[verifier::when_used_as_spec(top_spec)]
    pub fn top(&self) -> (y: u16)
        ensures
            y == self.top_spec(),
    {
        self.origin.y
    }

    /// The row after the last; the largest `u16` where that is beyond it.
    #[verifier::when_used_as_spec(bottom_spec)]
    pub fn bottom(&self) -> (y: u16)
        ensures
            y == self.bottom_spec(),
    {
        self.origin.y.saturating_add(self.height)
    }

    /// The number of cells; the largest `u16` where that is beyond it.
    pub fn area(&self) -> (a: u16)
        ensures
            self.width * self.height <= u16::MAX ==> a == self.width * self.height,
            self.width * self.height > u16::MAX ==> a == u16::MAX,
    {
        match self.width.checked_mul(self.height) {
            Some(a) => a,
            None => u16::MAX,
        }
    }

    /// The rectangle that two rectangles have in common. Its width or height
    /// is zero where they have no cell in common.
    #[verifier::when_used_as_spec(intersection_spec)]
    pub fn intersection(&self, other: Rect) -> (r: Rect)
        ensures
            r == self.intersection_spec(other),
    {
        let x1 = if self.left() >= other.left() {
            self.left()
        } else {
            other.left()
        };
        let x2 = if self.right() <= other.right() {
            self.right()
        } else {
            other.right()
        };
        let y1 = if self.top() >= other.top() {
            self.top()
        } else {
            other.top()
        };
        let y2 = if self.bottom() <= other.bottom() {
            self.bottom()
        } else {
            other.bottom()
        };
        Rect {
            origin: Position { x: x1, y: y1 },
            width: x2.saturating_sub(x1),
            height: y2.saturating_sub(y1),
        }
    }
}

/// Where neither rectangle reaches beyond the largest coordinate, a cell lies
/// in the intersection exactly if it lies in both.
pub proof fn lemma_intersection_cells(a: Rect, b: Rect, x: int, y: int)
    requires
        a.origin.x + a.width <= u16::MAX,
        a.origin.y + a.height <= u16::MAX,
        b.origin.x + b.width <= u16::MAX,
        b.origin.y + b.height <= u16::MAX,
    ensures
        a.intersection_spec(b).contains(x, y) <==> a.contains(x, y) && b.contains(x, y),
{
}

/// Intersection does not depend on the order of the two rectangles.
pub proof fn lemma_intersection_commutes(a: Rect, b: Rect)
    ensures
        a.intersection_spec(b) == b.intersection_spec(a),
{
}

impl Default for Rect {
    fn default() -> (r: Rect)
        ensures
            r == Rect::sized(0, 0),
    {
        Rect { width: 0, height: 0, origin: Position { x: 0, y: 0 } }
    }
}

impl From<(u16, u16)> for Rect {
    /// The rectangle of the given width and height at the origin.
    fn from(value: (u16, u16)) -> (r: Rect) {
        Rect { width: value.0, height: value.1, origin: Position { x: 0, y: 0 } }
    }
}

impl vstd::std_specs::convert::FromSpecImpl<(u16, u16)> for Rect {
    open spec fn obeys_from_spec() -> bool {
        true
    }

    open spec fn from_spec(value: (u16, u16)) -> Rect {
        Rect::sized(value.0, value.1)
    }
}

/// Walks the rows of a rectangle from both ends: each row is a rectangle of
/// height 1.
#[derive(Debug, Clone, Copy, Eq, PartialEq, Structural)]
pub struct Lines {
    rect: Rect,
    curr_line_fwd: u16,
    curr_line_back: u16,
}

/// What a walk over rows still has to give.
pub struct LinesView {
    /// The rectangle whose rows are walked.
    pub rect: Rect,
    /// The next row from the top.
    pub front: u16,
    /// The row after the next one from the bottom.
    pub back: u16,
}

impl View for Lines {
    type V = LinesView;

    closed spec fn view(&self) -> LinesView {
        LinesView { rect: self.rect, front: self.curr_line_fwd, back: self.curr_line_back }
    }
}

impl LinesView {
    /// The row `y` of the walked rectangle.
    pub open spec fn row(self, y: u16) -> Rect {
        Rect { origin: Position { x: self.rect.origin.x, y }, width: self.rect.width, height: 1 }
    }

    /// How many rows are still to come.
    pub open spec fn remaining(self) -> nat {
        if self.front < self.back {
            (self.back - self.front) as nat
        } else {
            0
        }
    }
}

impl Lines {
    /// The walk over all rows of `rect`.
    pub fn new(rect: Rect) -> (l: Lines)
        ensures
            l@.rect == rect,
            l@.front == rect.top_spec(),
            l@.back == rect.bottom_spec(),
    {
        Lines { rect, curr_line_fwd: rect.top(), curr_line_back: rect.bottom() }
    }

    /// The next row from the top, or nothing when the two ends have met.
    pub fn next(&mut self) -> (r: Option<Rect>)
        ensures
            old(self)@.front >= old(self)@.back ==> r is None && final(self)@ == old(self)@,
            old(self)@.front < old(self)@.back ==> r == Some(old(self)@.row(old(self)@.front))
                && final(self)@ == (LinesView {
                front: (old(self)@.front + 1) as u16,
                ..old(self)@
            }),
            final(self)@.remaining() == (if r is Some {
                old(self)@.remaining() - 1
            } else {
                0int
            }),
    {
        if self.curr_line_fwd >= self.curr_line_back {
            return None;
        }
        let row = Rect::new(Position { x: self.rect.left(), y: self.curr_line_fwd }, self.rect.width, 1);
        self.curr_line_fwd = self.curr_line_fwd + 1;
        Some(row)
    }

    /// The next row from the bottom, or nothing when the two ends have met.
    pub fn next_back(&mut self) -> (r: Option<Rect>)
        ensures
            old(self)@.back <= old(self)@.front ==> r is None && final(self)@ == old(self)@,
            old(self)@.back > old(self)@.front ==> r == Some(
                old(self)@.row((old(self)@.back - 1) as u16),
            ) && final(self)@ == (LinesView { back: (old(self)@.back - 1) as u16, ..old(self)@ }),
            final(self)@.remaining() == (if r is Some {
                old(self)@.remaining() - 1
            } else {
                0int
            }),
    {
        if self.curr_line_back <= self.curr_line_fwd {
            return None;
        }
        self.curr_line_back = self.curr_line_back - 1;
        let row = Rect::new(Position { x: self.rect.left(), y: self.curr_line_back }, self.rect.width, 1);
        Some(row)
    }
}

} // verus!
