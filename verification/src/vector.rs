//! Two-dimensional vectors of fixed-point scalars.

use vstd::prelude::*;
use crate::fixed::{plus, product, saturated, times};

verus! {

/// A point or a displacement in the plane. `x` grows to the right and `y`
/// grows downward.
#[derive(Clone, Copy, Debug, PartialEq, Eq, Structural)]
pub struct Vec2 {
    pub x: i64,
    pub y: i64,
}

impl Vec2 {
    /// The saturating sum of two vectors, component by component.
    pub open spec fn sum(self, other: Vec2) -> Vec2 {
        Vec2 {
            x: saturated(self.x + other.x),
            y: saturated(self.y + other.y),
        }
    }

    /// The vector stretched by a whole factor, each component saturating.
    pub open spec fn scaled(self, factor: int) -> Vec2 {
        Vec2 {
            x: saturated(self.x * factor),
            y: saturated(self.y * factor),
        }
    }

    /// The exact dot product.
    pub open spec fn dot(self, other: Vec2) -> int {
        self.x * other.x + self.y * other.y
    }

    pub fn new(x: i64, y: i64) -> (v: Vec2)
        ensures
            v == (Vec2 { x, y }),
    {
        Vec2 { x, y }
    }

    /// Adds `other` to this vector.
    pub fn plus(self, other: Vec2) -> (v: Vec2)
        ensures
            v == self.sum(other),
    {
        Vec2 { x: plus(self.x, other.x), y: plus(self.y, other.y) }
    }

    /// Stretches this vector by `factor`.
    pub fn times(self, factor: i64) -> (v: Vec2)
        ensures
            v == self.scaled(factor as int),
    {
        Vec2 { x: times(self.x, factor), y: times(self.y, factor) }
    }

    /// Whether this vector points against `normal`: whether their dot product
    /// is negative.
    pub fn opposes(self, normal: Vec2) -> (b: bool)
        ensures
            b == (self.dot(normal) < 0),
    {
        let along: i128 = product(self.x, normal.x);
        let across: i128 = product(self.y, normal.y);
        along < -across
    }
}

} // verus!
