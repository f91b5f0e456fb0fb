use vstd::prelude::*;

use crate::ball::Ball;
use crate::config::{Vec2, PADDLE_HEIGHT, PADDLE_SPEED, PADDLE_WIDTH, SCREEN_HEIGHT};

verus! {

/// Lowest height of a paddle's centre: its top edge on the top wall.
pub open spec fn paddle_top_limit() -> int {
    PADDLE_HEIGHT / 2
}

/// Greatest height of a paddle's centre: its bottom edge on the bottom wall.
pub open spec fn paddle_bottom_limit() -> int {
    SCREEN_HEIGHT - PADDLE_HEIGHT / 2
}

/// How far a paddle moves in `dt` microseconds.
fn paddle_step(dt: u32) -> (s: i128)
    ensures
        s == PADDLE_SPEED * dt,
        0 <= s <= PADDLE_SPEED * 0xFFFF_FFFF,
{
    let t = dt as i128;
    proof {
        assert(0 <= 500 * t <= 500 * 0xFFFF_FFFF) by (nonlinear_arith)
            requires
                0 <= t <= 0xFFFF_FFFF,
        ;
    }
    PADDLE_SPEED as i128 * t
}

/// An axis-aligned rectangle: its top-left corner and its size.
#[derive(Clone, Copy, Debug, PartialEq, Eq, Structural)]
pub struct Rect {
    pub left: i64,
    pub top: i64,
    pub width: i64,
    pub height: i64,
}

/// A paddle: the centre of a vertical bar that moves up and down.
#[derive(Clone, Copy, Debug, PartialEq, Eq, Structural)]
pub struct Paddle {
    pub pos: Vec2,
}

impl Paddle {
    /// The whole paddle lies between the top and the bottom wall.
    pub open spec fn contained(self) -> bool {
        paddle_top_limit() <= self.pos.y <= paddle_bottom_limit()
    }

    /// A paddle at horizontal position `x`, centred vertically.
    pub open spec fn at(x: i64) -> Paddle {
        Paddle { pos: Vec2 { x, y: (SCREEN_HEIGHT / 2) as i64 } }
    }

    /// The paddle after moving up for `dt` microseconds, stopped at the top wall.
    pub open spec fn moved_up(self, dt: int) -> Paddle {
        let y = self.pos.y - PADDLE_SPEED * dt;
        Paddle {
            pos: Vec2 {
                x: self.pos.x,
                y: if y < paddle_top_limit() {
                    paddle_top_limit()
                } else {
                    y
                } as i64,
            },
        }
    }

    /// The paddle after moving down for `dt` microseconds, stopped at the bottom wall.
    pub open spec fn moved_down(self, dt: int) -> Paddle {
        let y = self.pos.y + PADDLE_SPEED * dt;
        Paddle {
            pos: Vec2 {
                x: self.pos.x,
                y: if y > paddle_bottom_limit() {
                    paddle_bottom_limit()
                } else {
                    y
                } as i64,
            },
        }
    }

    /// The paddle after one step of tracking `ball`: down when the paddle's
    /// centre is above the ball's, up otherwise (also when level with it).
    pub open spec fn followed(self, ball: Ball, dt: int) -> Paddle {
        if self.pos.y < ball.pos.y {
            self.moved_down(dt)
        } else {
            self.moved_up(dt)
        }
    }

    /// A paddle at horizontal position `x`, centred vertically.
    pub fn new(x: i64) -> (p: Paddle)
        ensures
            p == Paddle::at(x),
            p.contained(),
    {
        Paddle { pos: Vec2 { x, y: SCREEN_HEIGHT / 2 } }
    }

    /// Moves the paddle up for `dt` microseconds, no further than the top wall.
    pub fn move_up(&mut self, dt: u32)
        ensures
            *final(self) == old(self).moved_up(dt as int),
            old(self).pos.y <= paddle_bottom_limit() ==> final(self).contained(),
    {
        let step = paddle_step(dt);
        let y = self.pos.y as i128 - step;
        if y < (PADDLE_HEIGHT / 2) as i128 {
            self.pos.y = PADDLE_HEIGHT / 2;
        } else {
            self.pos.y = y as i64;
        }
    }

    /// Moves the paddle down for `dt` microseconds, no further than the bottom wall.
    pub fn move_down(&mut self, dt: u32)
        ensures
            *final(self) == old(self).moved_down(dt as int),
            old(self).pos.y >= paddle_top_limit() ==> final(self).contained(),
    {
        let step = paddle_step(dt);
        let y = self.pos.y as i128 + step;
        if y > (SCREEN_HEIGHT - PADDLE_HEIGHT / 2) as i128 {
            self.pos.y = SCREEN_HEIGHT - PADDLE_HEIGHT / 2;
        } else {
            self.pos.y = y as i64;
        }
    }

    /// Moves the paddle one step towards `ball`: down when its centre is above
    /// the ball's, up otherwise. It never holds still.
    pub fn follow_ball(&mut self, ball: &Ball, dt: u32)
        ensures
            *final(self) == old(self).followed(*ball, dt as int),
            old(self).contained() ==> final(self).contained(),
    {
        if self.pos.y < ball.pos.y {
            self.move_down(dt);
        } else {
            self.move_up(dt);
        }
    }

    /// The rectangle the paddle covers.
    pub fn rect(&self) -> (r: Rect)
        requires
            self.pos.x >= i64::MIN + PADDLE_WIDTH / 2,
            self.pos.y >= i64::MIN + PADDLE_HEIGHT / 2,
        ensures
            r.left == self.pos.x - PADDLE_WIDTH / 2,
            r.top == self.pos.y - PADDLE_HEIGHT / 2,
            r.width == PADDLE_WIDTH,
            r.height == PADDLE_HEIGHT,
    {
        Rect {
            left: self.pos.x - PADDLE_WIDTH / 2,
            top: self.pos.y - PADDLE_HEIGHT / 2,
            width: PADDLE_WIDTH,
            height: PADDLE_HEIGHT,
        }
    }
}

} // verus!
