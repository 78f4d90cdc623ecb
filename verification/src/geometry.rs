//! Axis-aligned bounding boxes on the play field.

use vstd::prelude::*;
use crate::config::{FIELD_HEIGHT, FIELD_WIDTH};
use crate::fixed::{minus, negated, saturated};
use crate::vector::Vec2;

verus! {

/// A rectangle with sides parallel to the axes, given by two opposite corners.
#[derive(Clone, Copy, Debug, PartialEq, Eq, Structural)]
pub struct BoundingBox {
    pub top_left: Vec2,
    pub bottom_right: Vec2,
}

impl BoundingBox {
    /// The corners are in order on both axes.
    pub open spec fn wf(self) -> bool {
        &&& self.top_left.x <= self.bottom_right.x
        &&& self.top_left.y <= self.bottom_right.y
    }

    /// The two boxes share interior points: on each axis their open intervals
    /// meet. Boxes that only touch along an edge do not overlap.
    pub open spec fn overlaps(self, other: BoundingBox) -> bool {
        &&& self.top_left.x < other.bottom_right.x
        &&& self.bottom_right.x > other.top_left.x
        &&& self.top_left.y < other.bottom_right.y
        &&& self.bottom_right.y > other.top_left.y
    }

    /// The box with both corners displaced by `delta`.
    pub open spec fn moved_by(self, delta: Vec2) -> BoundingBox {
        BoundingBox {
            top_left: self.top_left.sum(delta),
            bottom_right: self.bottom_right.sum(delta),
        }
    }

    /// The box reaches past the left or the right edge of the field.
    pub open spec fn crosses_x(self) -> bool {
        self.top_left.x < 0 || self.bottom_right.x > FIELD_WIDTH
    }

    /// The box reaches past the top or the bottom edge of the field.
    pub open spec fn crosses_y(self) -> bool {
        self.top_left.y < 0 || self.bottom_right.y > FIELD_HEIGHT
    }

    /// `velocity` after a bounce of this box off the field edges: a component
    /// changes sign where the box has crossed an edge on that axis, and is
    /// kept where it has not.
    pub open spec fn reflected(self, velocity: Vec2) -> Vec2 {
        Vec2 {
            x: if self.crosses_x() {
                saturated(-velocity.x)
            } else {
                velocity.x
            },
            y: if self.crosses_y() {
                saturated(-velocity.y)
            } else {
                velocity.y
            },
        }
    }

    /// Horizontal extent, saturating.
    pub open spec fn span_x(self) -> i64 {
        saturated(self.bottom_right.x - self.top_left.x)
    }

    /// Vertical extent, saturating.
    pub open spec fn span_y(self) -> i64 {
        saturated(self.bottom_right.y - self.top_left.y)
    }

    pub fn new(top_left: Vec2, bottom_right: Vec2) -> (b: BoundingBox)
        ensures
            b == (BoundingBox { top_left, bottom_right }),
    {
        BoundingBox { top_left, bottom_right }
    }

    /// Whether this box and `other` overlap.
    pub fn intersects(&self, other: &BoundingBox) -> (b: bool)
        ensures
            b == self.overlaps(*other),
    {
        self.top_left.x < other.bottom_right.x && self.bottom_right.x > other.top_left.x
            && self.top_left.y < other.bottom_right.y && self.bottom_right.y
            > other.top_left.y
    }

    /// Translates the box by `delta`. The box may leave the field.
    pub fn move_by(&mut self, delta: Vec2)
        ensures
            *final(self) == old(self).moved_by(delta),
            old(self).wf() ==> final(self).wf(),
    {
        self.top_left = self.top_left.plus(delta);
        self.bottom_right = self.bottom_right.plus(delta);
    }

    /// Bounces `velocity` off the field edges that this box has crossed. Only
    /// the velocity changes: the box stays where it is.
    pub fn bounds_collision(&self, velocity: &mut Vec2)
        ensures
            *final(velocity) == self.reflected(*old(velocity)),
    {
        if self.top_left.x < 0 || self.bottom_right.x > FIELD_WIDTH {
            velocity.x = negated(velocity.x);
        }
        if self.top_left.y < 0 || self.bottom_right.y > FIELD_HEIGHT {
            velocity.y = negated(velocity.y);
        }
    }

    /// Horizontal extent of the box.
    pub fn width(&self) -> (w: i64)
        ensures
            w == self.span_x(),
            self.wf() ==> w >= 0,
    {
        minus(self.bottom_right.x, self.top_left.x)
    }

    /// Vertical extent of the box.
    pub fn height(&self) -> (h: i64)
        ensures
            h == self.span_y(),
            self.wf() ==> h >= 0,
    {
        minus(self.bottom_right.y, self.top_left.y)
    }
}

} // verus!
