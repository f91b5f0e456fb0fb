use vstd::prelude::*;

use crate::config::{Vec2, BALL_RADIUS, BALL_SPEED, SCREEN_HEIGHT, SCREEN_WIDTH};

verus! {

/// Whether `v` is a value of type `i64`.
pub open spec fn fits_i64(v: int) -> bool {
    i64::MIN <= v <= i64::MAX
}

/// Whether a ball whose centre is at height `y` touches the top or the bottom wall.
pub open spec fn touches_wall(y: int) -> bool {
    y <= BALL_RADIUS || y >= SCREEN_HEIGHT - BALL_RADIUS
}

/// Whether a ball whose centre is at height `y` lies between the top and the bottom wall.
pub open spec fn in_band(y: int) -> bool {
    BALL_RADIUS <= y <= SCREEN_HEIGHT - BALL_RADIUS
}

/// `v * dt`, computed without overflow.
fn displacement(v: i64, dt: u32) -> (d: i128)
    ensures
        d == v * dt,
        -0x8000_0000_0000_0000 * 0x1_0000_0000 <= d <= 0x8000_0000_0000_0000 * 0x1_0000_0000,
{
    let vv = v as i128;
    let tt = dt as i128;
    proof {
        assert(-0x8000_0000_0000_0000 * 0x1_0000_0000 <= vv * tt <= 0x8000_0000_0000_0000
            * 0x1_0000_0000) by (nonlinear_arith)
            requires
                -0x8000_0000_0000_0000 <= vv <= 0x8000_0000_0000_0000,
                0 <= tt <= 0x1_0000_0000,
        ;
    }
    vv * tt
}

/// The ball: its centre and its velocity.
#[derive(Clone, Copy, Debug, PartialEq, Eq, Structural)]
pub struct Ball {
    pub pos: Vec2,
    pub vel: Vec2,
}

impl Ball {
    /// The ball at the centre of the arena, moving right and down at the ball speed.
    pub open spec fn initial() -> Ball {
        Ball {
            pos: Vec2 { x: (SCREEN_WIDTH / 2) as i64, y: (SCREEN_HEIGHT / 2) as i64 },
            vel: Vec2 { x: BALL_SPEED, y: BALL_SPEED },
        }
    }

    /// Each component of the velocity is the ball speed or its negation.
    pub open spec fn has_game_speed(self) -> bool {
        &&& (self.vel.x == BALL_SPEED || self.vel.x == -BALL_SPEED)
        &&& (self.vel.y == BALL_SPEED || self.vel.y == -BALL_SPEED)
    }

    /// Advancing the ball by `dt` microseconds stays within the range of `i64`.
    pub open spec fn advance_fits(self, dt: int) -> bool {
        &&& fits_i64(self.pos.x + self.vel.x * dt)
        &&& fits_i64(self.pos.y + self.vel.y * dt)
        &&& self.vel.y != i64::MIN
    }

    /// The ball after `dt` microseconds: it moves by its velocity, and its
    /// vertical velocity flips where it then touches the top or the bottom wall.
    pub open spec fn advanced(self, dt: int) -> Ball {
        let y = self.pos.y + self.vel.y * dt;
        Ball {
            pos: Vec2 { x: (self.pos.x + self.vel.x * dt) as i64, y: y as i64 },
            vel: Vec2 {
                x: self.vel.x,
                y: if touches_wall(y) {
                    (-self.vel.y) as i64
                } else {
                    self.vel.y
                },
            },
        }
    }

    /// A ball at the centre of the arena, moving right and down.
    pub fn new() -> (b: Ball)
        ensures
            b == Ball::initial(),
    {
        Ball {
            pos: Vec2 { x: SCREEN_WIDTH / 2, y: SCREEN_HEIGHT / 2 },
            vel: Vec2 { x: BALL_SPEED, y: BALL_SPEED },
        }
    }

    /// Whether `update(dt)` may be called on this ball.
    pub fn can_advance(&self, dt: u32) -> (r: bool)
        ensures
            r == self.advance_fits(dt as int),
    {
        let x = self.pos.x as i128 + displacement(self.vel.x, dt);
        let y = self.pos.y as i128 + displacement(self.vel.y, dt);
        i64::MIN as i128 <= x && x <= i64::MAX as i128 && i64::MIN as i128 <= y && y
            <= i64::MAX as i128 && self.vel.y != i64::MIN
    }

    /// Moves the ball by its velocity over `dt` microseconds, then reverses its
    /// vertical velocity if it touches the top or the bottom wall.
    pub fn update(&mut self, dt: u32)
        requires
            old(self).advance_fits(dt as int),
        ensures
            *final(self) == old(self).advanced(dt as int),
    {
        self.pos.x = (self.pos.x as i128 + displacement(self.vel.x, dt)) as i64;
        self.pos.y = (self.pos.y as i128 + displacement(self.vel.y, dt)) as i64;
        if self.pos.y <= BALL_RADIUS || self.pos.y >= SCREEN_HEIGHT - BALL_RADIUS {
            self.vel.y = -self.vel.y;
        }
    }
}

/// A ball moving at the ball speed along each axis keeps doing so after it
/// advances: only the signs of its velocity change, never their size.
pub proof fn lemma_advance_keeps_speed(ball: Ball, dt: u32)
    requires
        ball.has_game_speed(),
    ensures
        ball.advanced(dt as int).has_game_speed(),
{
}

/// After the ball advances, its centre lies between the top and the bottom
/// wall, at least a radius from each, provided the move itself lands there:
/// the ball is reflected, not held back, so a move that ends beyond a wall
/// stays beyond it for that frame.
pub proof fn lemma_advance_stays_in_band(ball: Ball, dt: u32)
    requires
        ball.advance_fits(dt as int),
        in_band(ball.pos.y + ball.vel.y * dt),
    ensures
        in_band(ball.advanced(dt as int).pos.y as int),
{
}

} // verus!
