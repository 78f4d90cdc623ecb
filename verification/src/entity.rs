//! The things that move on the field: one ball and the paddles.

use vstd::prelude::*;
use crate::config::{
    PADDLE_ACCELERATION, PADDLE_BONUS, PADDLE_DECAY, PADDLE_FRICTION, SLOW_QUARTERS,
};
use crate::fixed::{half, middle, midpoint, minus, plus, quotient, saturated};
use crate::geometry::BoundingBox;
use crate::vector::Vec2;

verus! {

/// The colour that an entity, or the background, is painted in.
#[derive(Clone, Copy, Debug, PartialEq, Eq, Structural)]
pub enum Color {
    Black,
    Gray,
    Yellow,
    Green,
    Blue,
}

/// The ball. Its radius and colour never change after construction.
#[derive(Clone, Copy, Debug, PartialEq, Eq, Structural)]
pub struct Ball {
    pub bounding_box: BoundingBox,
    pub velocity: Vec2,
    pub color: Color,
    pub radius: i64,
}

/// A paddle. Its `normal` points into the field, and its velocity has a
/// vertical component only.
#[derive(Clone, Copy, Debug, PartialEq, Eq, Structural)]
pub struct Paddle {
    pub bounding_box: BoundingBox,
    pub velocity: Vec2,
    pub normal: Vec2,
    pub color: Color,
}

/// A speed after one tick of friction: `PADDLE_FRICTION` closer to zero, and
/// zero where it was no further than that from zero.
pub open spec fn eased(speed: i64) -> i64 {
    if speed > PADDLE_FRICTION {
        (speed - PADDLE_FRICTION) as i64
    } else if speed < -PADDLE_FRICTION {
        (speed + PADDLE_FRICTION) as i64
    } else {
        0
    }
}

/// Applies one tick of friction to `speed`.
pub fn ease(speed: i64) -> (r: i64)
    ensures
        r == eased(speed),
{
    if speed > PADDLE_FRICTION {
        speed - PADDLE_FRICTION
    } else if speed < -PADDLE_FRICTION {
        speed + PADDLE_FRICTION
    } else {
        0
    }
}

impl Ball {
    /// The ball's box is in order.
    pub open spec fn wf(self) -> bool {
        self.bounding_box.wf()
    }

    /// The point that the ball is drawn around: its top left corner moved by
    /// the radius on both axes.
    pub open spec fn center_point(self) -> Vec2 {
        self.bounding_box.top_left.sum(Vec2 { x: self.radius, y: self.radius })
    }

    /// The ball after one tick of free flight.
    pub open spec fn advanced(self) -> Ball {
        Ball { bounding_box: self.bounding_box.moved_by(self.velocity), ..self }
    }

    /// The ball after a bounce off the field edges.
    pub open spec fn bounced(self) -> Ball {
        Ball { velocity: self.bounding_box.reflected(self.velocity), ..self }
    }

    /// The ball after a paddle has blocked it: the horizontal component of
    /// its velocity changes sign, the vertical one is kept.
    pub open spec fn deflected(self) -> Ball {
        Ball {
            velocity: Vec2 { x: saturated(-self.velocity.x), y: self.velocity.y },
            ..self
        }
    }

    /// The centre of the ball.
    pub fn center(&self) -> (c: Vec2)
        ensures
            c == self.center_point(),
    {
        self.bounding_box.top_left.plus(Vec2 { x: self.radius, y: self.radius })
    }
}

impl Paddle {
    /// The paddle's box is in order, and the paddle has no horizontal speed.
    pub open spec fn wf(self) -> bool {
        &&& self.bounding_box.wf()
        &&& self.velocity.x == 0
    }

    /// Vertical extent of the paddle.
    pub open spec fn span(self) -> i64 {
        self.bounding_box.span_y()
    }

    /// The paddle displaced by `delta`.
    pub open spec fn moved_by(self, delta: Vec2) -> Paddle {
        Paddle { bounding_box: self.bounding_box.moved_by(delta), ..self }
    }

    /// The paddle grown by `delta` about its vertical centre, or shrunk where
    /// `delta` is negative: the top edge rises and the bottom edge sinks by
    /// half of `delta`, rounded toward zero. The length has a floor of zero: a
    /// shrink that would carry the edges past each other leaves both at the
    /// height of the centre.
    pub open spec fn expanded_by(self, delta: int) -> Paddle {
        let top = saturated(self.bounding_box.top_left.y - quotient(delta, 2));
        let bottom = saturated(self.bounding_box.bottom_right.y + quotient(delta, 2));
        let center = midpoint(
            self.bounding_box.top_left.y as int,
            self.bounding_box.bottom_right.y as int,
        );
        Paddle {
            bounding_box: BoundingBox {
                top_left: Vec2 {
                    x: self.bounding_box.top_left.x,
                    y: if top > bottom {
                        center as i64
                    } else {
                        top
                    },
                },
                bottom_right: Vec2 {
                    x: self.bounding_box.bottom_right.x,
                    y: if top > bottom {
                        center as i64
                    } else {
                        bottom
                    },
                },
            },
            ..self
        }
    }

    /// The paddle with one tick of friction applied to its vertical speed.
    pub open spec fn braked(self) -> Paddle {
        Paddle {
            velocity: Vec2 { x: self.velocity.x, y: eased(self.velocity.y) },
            ..self
        }
    }

    /// The paddle after one tick on its own: moved by its velocity, then
    /// slowed by friction, then shortened by the decay.
    pub open spec fn advanced(self) -> Paddle {
        self.moved_by(self.velocity).braked().expanded_by(-PADDLE_DECAY)
    }

    /// The paddle after a bounce off the field edges.
    pub open spec fn bounced(self) -> Paddle {
        Paddle { velocity: self.bounding_box.reflected(self.velocity), ..self }
    }

    /// The paddle stands in the way of `ball`: their boxes overlap and the
    /// ball moves against the paddle's normal.
    pub open spec fn blocks(self, ball: Ball) -> bool {
        ball.bounding_box.overlaps(self.bounding_box) && ball.velocity.dot(self.normal) < 0
    }

    /// The paddle after it has blocked the ball.
    pub open spec fn rewarded(self) -> Paddle {
        self.expanded_by(PADDLE_BONUS as int)
    }

    /// The paddle after an accelerate command of the given strength.
    pub open spec fn accelerated(self, signum: int) -> Paddle {
        Paddle {
            velocity: Vec2 {
                x: self.velocity.x,
                y: saturated(self.velocity.y + PADDLE_ACCELERATION * signum),
            },
            ..self
        }
    }

    /// The paddle after a slow command: three quarters of its vertical speed
    /// are left, rounded toward zero.
    pub open spec fn slowed(self) -> Paddle {
        Paddle {
            velocity: Vec2 {
                x: self.velocity.x,
                y: quotient(SLOW_QUARTERS * self.velocity.y, 4) as i64,
            },
            ..self
        }
    }

    /// Translates the paddle by `delta`.
    pub fn move_by(&mut self, delta: Vec2)
        ensures
            *final(self) == old(self).moved_by(delta),
            old(self).wf() ==> final(self).wf(),
    {
        self.bounding_box.move_by(delta);
    }

    /// Grows the paddle by `delta` about its vertical centre, or shrinks it
    /// where `delta` is negative, never below a length of zero.
    pub fn expand_by(&mut self, delta: i64)
        ensures
            *final(self) == old(self).expanded_by(delta as int),
            final(self).bounding_box.top_left.y <= final(self).bounding_box.bottom_right.y,
            old(self).wf() ==> final(self).wf(),
    {
        let change: i64 = half(delta);
        let top: i64 = minus(self.bounding_box.top_left.y, change);
        let bottom: i64 = plus(self.bounding_box.bottom_right.y, change);
        if top > bottom {
            let center: i64 = middle(
                self.bounding_box.top_left.y,
                self.bounding_box.bottom_right.y,
            );
            self.bounding_box.top_left.y = center;
            self.bounding_box.bottom_right.y = center;
        } else {
            self.bounding_box.top_left.y = top;
            self.bounding_box.bottom_right.y = bottom;
        }
    }

    /// The length of the paddle: the distance from its top to its bottom edge.
    pub fn length(&self) -> (l: i64)
        ensures
            l == self.span(),
            self.wf() ==> l >= 0,
    {
        self.bounding_box.height()
    }
}

} // verus!
