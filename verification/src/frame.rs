//! What one frame shows: the match in whole pixels, ready to be painted.

use vstd::prelude::*;
use crate::command::State;
use crate::config::NUM_PLAYERS;
use crate::entity::{Ball, Color, Paddle};
use crate::fixed::{clamped, quotient, whole_pixels, UNIT};
use crate::game::{Game, GameView};

verus! {

/// A filled circle, in pixels.
#[derive(Clone, Copy, Debug, PartialEq, Eq, Structural)]
pub struct Circle {
    pub x: i16,
    pub y: i16,
    pub radius: i16,
    pub color: Color,
}

/// A filled rectangle, in pixels.
#[derive(Clone, Copy, Debug, PartialEq, Eq, Structural)]
pub struct Rect {
    pub x: i32,
    pub y: i32,
    pub width: u32,
    pub height: u32,
    pub color: Color,
}

/// One frame: the background, the ball and the paddles.
#[derive(Clone, Copy, Debug, PartialEq, Eq)]
pub struct Frame {
    pub background: Color,
    pub ball: Circle,
    pub paddles: [Rect; NUM_PLAYERS],
}

/// The pixel that holds `v`: the scalar in whole pixels, rounded toward zero,
/// and forced into the range from `low` to `high`.
pub open spec fn pixel(v: int, low: int, high: int) -> int {
    clamped(quotient(v, UNIT as int), low, high)
}

impl Paddle {
    /// The rectangle that shows the paddle.
    pub open spec fn outline(self) -> Rect {
        Rect {
            x: pixel(self.bounding_box.top_left.x as int, i32::MIN as int, i32::MAX as int) as i32,
            y: pixel(self.bounding_box.top_left.y as int, i32::MIN as int, i32::MAX as int) as i32,
            width: pixel(self.bounding_box.span_x() as int, 0, u32::MAX as int) as u32,
            height: pixel(self.bounding_box.span_y() as int, 0, u32::MAX as int) as u32,
            color: self.color,
        }
    }
}

impl Ball {
    /// The circle that shows the ball in the given colour.
    pub open spec fn outline(self, color: Color) -> Circle {
        Circle {
            x: pixel(self.center_point().x as int, i16::MIN as int, i16::MAX as int) as i16,
            y: pixel(self.center_point().y as int, i16::MIN as int, i16::MAX as int) as i16,
            radius: pixel(self.radius as int, i16::MIN as int, i16::MAX as int) as i16,
            color,
        }
    }
}

impl GameView {
    /// The colour that the ball is shown in: gray while the match is paused,
    /// the winner's colour once it is won, and its own otherwise. A winner
    /// that is no player of the match leaves the ball its own colour.
    pub open spec fn ball_color(self) -> Color {
        match self.state {
            State::Paused => Color::Gray,
            State::Playing => self.ball.color,
            State::Victory(winner) => if winner < self.paddles.len() {
                self.paddles[winner as int].color
            } else {
                self.ball.color
            },
        }
    }
}

/// The pixel that holds `v`, within the range from `low` to `high`.
fn pixel_within(v: i64, low: i64, high: i64) -> (r: i64)
    requires
        low <= high,
    ensures
        r == pixel(v as int, low as int, high as int),
{
    let whole: i64 = whole_pixels(v);
    if whole < low {
        low
    } else if whole > high {
        high
    } else {
        whole
    }
}

impl Paddle {
    /// The rectangle to paint for the paddle.
    pub fn rect(&self) -> (r: Rect)
        ensures
            r == self.outline(),
    {
        Rect {
            x: pixel_within(self.bounding_box.top_left.x, i32::MIN as i64, i32::MAX as i64) as i32,
            y: pixel_within(self.bounding_box.top_left.y, i32::MIN as i64, i32::MAX as i64) as i32,
            width: pixel_within(self.bounding_box.width(), 0, u32::MAX as i64) as u32,
            height: pixel_within(self.bounding_box.height(), 0, u32::MAX as i64) as u32,
            color: self.color,
        }
    }
}

impl Game {
    /// The colour to paint the ball in.
    pub fn ball_color(&self) -> (color: Color)
        ensures
            color == self@.ball_color(),
    {
        match self.state {
            State::Paused => Color::Gray,
            State::Playing => self.ball.color,
            State::Victory(winner) => if winner < NUM_PLAYERS {
                self.paddles[winner].color
            } else {
                self.ball.color
            },
        }
    }

    /// Lays out one frame of the match: a black background, the ball as a
    /// circle about its centre, and each paddle as the rectangle of its box.
    pub fn draw(&self) -> (frame: Frame)
        ensures
            frame.background == Color::Black,
            frame.ball == self.ball.outline(self@.ball_color()),
            forall|i: int|
                0 <= i < NUM_PLAYERS ==> frame.paddles@[i] == (#[trigger] self.paddles@[i]).outline(),
    {
        let center = self.ball.center();
        Frame {
            background: Color::Black,
            ball: Circle {
                x: pixel_within(center.x, i16::MIN as i64, i16::MAX as i64) as i16,
                y: pixel_within(center.y, i16::MIN as i64, i16::MAX as i64) as i16,
                radius: pixel_within(self.ball.radius, i16::MIN as i64, i16::MAX as i64) as i16,
                color: self.ball_color(),
            },
            paddles: [self.paddles[0].rect(), self.paddles[1].rect()],
        }
    }
}

} // verus!
