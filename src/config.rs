use vstd::prelude::*;

verus! {

/// Micro-units in one arena unit.
pub const UNIT: i64 = 1_000_000;

/// Width of the arena, in micro-units.
pub const SCREEN_WIDTH: i64 = 800 * UNIT;

/// Height of the arena, in micro-units.
pub const SCREEN_HEIGHT: i64 = 600 * UNIT;

/// Radius of the ball, in micro-units.
pub const BALL_RADIUS: i64 = 10 * UNIT;

/// Width of a paddle, in micro-units.
pub const PADDLE_WIDTH: i64 = 10 * UNIT;

/// Height of a paddle, in micro-units.
pub const PADDLE_HEIGHT: i64 = 100 * UNIT;

/// Distance from a side wall to the centre of the paddle on that side.
pub const PADDLE_OFFSET: i64 = 50 * UNIT;

/// Paddle speed, in arena units per second.
pub const PADDLE_SPEED: i64 = 500;

/// Ball speed along each axis, in arena units per second.
pub const BALL_SPEED: i64 = 300;

/// A point or a velocity in the plane.
#[derive(Clone, Copy, Debug, PartialEq, Eq, Structural)]
pub struct Vec2 {
    pub x: i64,
    pub y: i64,
}

} // verus!
