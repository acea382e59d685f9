//! The ball entity and its per-tick motion-and-reflection step.

use vstd::prelude::*;
use crate::color::Color;
use crate::num::{sat64, sat_add_mul, sat_neg, sat_neg_i64, SUBPIXEL, UNIT};
use crate::vec2d::Vec2d;

verus! {

/// One bouncing entity.
///
/// `position` is in `SUBPIXEL`s; `direction`, `speed` and `size` are in
/// `UNIT`s. Each tick the ball moves by `direction * speed` subpixels per
/// axis. If `is_inverse` is false the ball drifts forever, unreflected; if it
/// is true, an axis whose new position leaves `[0, extent]` has this tick's
/// displacement undone by `direction` alone (not `direction * speed`) on that
/// axis, and that direction component negated.
#[derive(Clone, Copy, Debug, PartialEq, Eq, Structural)]
pub struct Ball {
    pub position: Vec2d,
    pub direction: Vec2d,
    pub speed: i64,
    pub size: i64,
    pub is_inverse: bool,
    pub color: Color,
}

/// The raw numbers one ball is built from, each drawn uniformly from the
/// range the factory asks for.
#[derive(Clone, Copy, Debug, PartialEq, Eq, Structural)]
pub struct BallSamples {
    /// Position on each axis, in `SUBPIXEL`s, from `[0, extent)`.
    pub pos_x: i64,
    pub pos_y: i64,
    /// Direction on each axis, in `UNIT`s, from `[-UNIT/2, UNIT/2)`.
    pub dir_x: i64,
    pub dir_y: i64,
    /// Speed in `UNIT`s, from `[5 * UNIT, 10 * UNIT)`.
    pub speed: i64,
    /// Radius in `UNIT`s, from `[50 * UNIT, 100 * UNIT)`.
    pub size: i64,
    /// A coin from `[-UNIT, UNIT)`; the ball reflects when it is positive.
    pub coin: i64,
    /// Color channels from `[8, 248)`.
    pub red: i64,
    pub green: i64,
    pub blue: i64,
    /// Alpha in `UNIT`s, from `[UNIT/2, UNIT)`.
    pub alpha: i64,
}

/// The ball a sample record determines: samples are taken as they are, and
/// the ball reflects exactly when the coin is strictly positive.
pub open spec fn ball_of(s: BallSamples) -> Ball {
    Ball {
        position: Vec2d { x: s.pos_x, y: s.pos_y },
        direction: Vec2d { x: s.dir_x, y: s.dir_y },
        speed: s.speed,
        size: s.size,
        is_inverse: s.coin > 0,
        color: Color { red: s.red, green: s.green, blue: s.blue, alpha: s.alpha },
    }
}

/// Builds a ball from its sample record. The result depends on the record
/// alone: equal records always give equal balls.
pub fn ball_from_samples(s: BallSamples) -> (b: Ball)
    ensures
        b == ball_of(s),
{
    Ball {
        position: Vec2d { x: s.pos_x, y: s.pos_y },
        direction: Vec2d { x: s.dir_x, y: s.dir_y },
        speed: s.speed,
        size: s.size,
        is_inverse: s.coin > 0,
        color: Color { red: s.red, green: s.green, blue: s.blue, alpha: s.alpha },
    }
}

/// Law: building a ball from samples is deterministic — for one sample
/// record there is one ball, so with a fixed random sequence the factory
/// reproduces its balls exactly.
pub proof fn lemma_ball_of_deterministic(s1: BallSamples, s2: BallSamples)
    requires
        s1 == s2,
    ensures
        ball_of(s1) == ball_of(s2),
{
}

/// The ranges every freshly generated ball lies in, for a surface of
/// `window_x` by `window_y` pixels.
pub open spec fn ball_ranges_ok(b: Ball, window_x: u32, window_y: u32) -> bool {
    &&& 0 <= b.position.x < window_x * SUBPIXEL
    &&& 0 <= b.position.y < window_y * SUBPIXEL
    &&& -(UNIT as int) / 2 <= b.direction.x < UNIT as int / 2
    &&& -(UNIT as int) / 2 <= b.direction.y < UNIT as int / 2
    &&& 5 * UNIT as int <= b.speed < 10 * UNIT as int
    &&& 50 * UNIT as int <= b.size < 100 * UNIT as int
    &&& 8 <= b.color.red < 248
    &&& 8 <= b.color.green < 248
    &&& 8 <= b.color.blue < 248
    &&& UNIT as int / 2 <= b.color.alpha < UNIT as int
}

/// Where an axis ends up after this tick's drift: the old position plus
/// `dir * speed` subpixels, saturating at the range of `i64`.
pub open spec fn drift_axis(pos: int, dir: int, speed: int) -> int {
    sat64(pos + dir * speed)
}

/// A drifted axis position is out of bounds when it is strictly below zero or
/// strictly above the surface extent on that axis.
pub open spec fn axis_out_of_bounds(pos: int, extent: int) -> bool {
    pos < 0 || pos > extent
}

/// The undo applied on reflection: the drifted position minus the direction
/// component alone, in subpixels — not minus `direction * speed`, so the ball
/// is not clamped back to the boundary.
pub open spec fn reflect_pos(pos: int, dir: int) -> int {
    sat64(pos - dir * UNIT as int)
}

/// One axis of a ball's position after a tick.
pub open spec fn step_axis_pos(pos: int, dir: int, speed: int, extent: int, inverse: bool) -> int {
    let moved = drift_axis(pos, dir, speed);
    if inverse && axis_out_of_bounds(moved, extent) {
        reflect_pos(moved, dir)
    } else {
        moved
    }
}

/// One axis of a ball's direction after a tick.
pub open spec fn step_axis_dir(pos: int, dir: int, speed: int, extent: int, inverse: bool) -> int {
    let moved = drift_axis(pos, dir, speed);
    if inverse && axis_out_of_bounds(moved, extent) {
        sat_neg(dir)
    } else {
        dir
    }
}

/// The surface extent of an axis in subpixels.
pub open spec fn extent_of(pixels: u32) -> int {
    pixels * SUBPIXEL as int
}

/// A whole ball after one tick on a `window_x` by `window_y` surface: both
/// axes step independently; speed, size, reflection policy and color never
/// change.
pub open spec fn stepped(b: Ball, window_x: u32, window_y: u32) -> Ball {
    Ball {
        position: Vec2d {
            x: step_axis_pos(
                b.position.x as int,
                b.direction.x as int,
                b.speed as int,
                extent_of(window_x),
                b.is_inverse,
            ) as i64,
            y: step_axis_pos(
                b.position.y as int,
                b.direction.y as int,
                b.speed as int,
                extent_of(window_y),
                b.is_inverse,
            ) as i64,
        },
        direction: Vec2d {
            x: step_axis_dir(
                b.position.x as int,
                b.direction.x as int,
                b.speed as int,
                extent_of(window_x),
                b.is_inverse,
            ) as i64,
            y: step_axis_dir(
                b.position.y as int,
                b.direction.y as int,
                b.speed as int,
                extent_of(window_y),
                b.is_inverse,
            ) as i64,
        },
        ..b
    }
}

/// Law: a ball that does not reflect is never touched by the boundary — one
/// tick only drifts it by `direction * speed` per axis, with no clamping and
/// no change of direction, whatever the surface bounds; it may leave the
/// surface for good.
pub proof fn lemma_non_inverse_only_drifts(b: Ball, window_x: u32, window_y: u32)
    requires
        !b.is_inverse,
    ensures
        stepped(b, window_x, window_y).position.x == drift_axis(
            b.position.x as int,
            b.direction.x as int,
            b.speed as int,
        ) as i64,
        stepped(b, window_x, window_y).position.y == drift_axis(
            b.position.y as int,
            b.direction.y as int,
            b.speed as int,
        ) as i64,
        stepped(b, window_x, window_y).direction == b.direction,
        stepped(b, window_x, window_y).speed == b.speed,
{
}

impl Ball {
    /// Advances this ball by one tick: drift by `direction * speed`, then,
    /// for a reflecting ball only, undo the drift by `direction` and negate
    /// the direction on each axis that left the surface.
    pub fn step(&mut self, window_x: u32, window_y: u32)
        ensures
            *final(self) == stepped(*old(self), window_x, window_y),
    {
        let extent_x: i64 = (window_x as i64) * SUBPIXEL;
        let extent_y: i64 = (window_y as i64) * SUBPIXEL;
        self.position.x = sat_add_mul(self.position.x, self.direction.x, self.speed);
        self.position.y = sat_add_mul(self.position.y, self.direction.y, self.speed);

        if self.is_inverse {
            if self.position.x < 0 || self.position.x > extent_x {
                self.position.x = sat_add_mul(self.position.x, self.direction.x, -UNIT);
                self.direction.x = sat_neg_i64(self.direction.x);
            }
            if self.position.y < 0 || self.position.y > extent_y {
                self.position.y = sat_add_mul(self.position.y, self.direction.y, -UNIT);
                self.direction.y = sat_neg_i64(self.direction.y);
            }
        }
    }
}

} // verus!
