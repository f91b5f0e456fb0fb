use vstd::prelude::*;

use crate::ball::Ball;
use crate::config::{
    Vec2, BALL_RADIUS, BALL_SPEED, PADDLE_HEIGHT, PADDLE_OFFSET, PADDLE_WIDTH, SCREEN_HEIGHT,
    SCREEN_WIDTH,
};
use crate::paddle::Paddle;

verus! {

/// The paddle's vertical extent, edges included, holds the ball's centre.
pub open spec fn level_with(ball: Ball, paddle: Paddle) -> bool {
    paddle.pos.y - PADDLE_HEIGHT / 2 <= ball.pos.y <= paddle.pos.y + PADDLE_HEIGHT / 2
}

/// The ball's left edge has reached the right edge of the left paddle, and
/// the ball is level with it.
pub open spec fn hits_left_paddle(ball: Ball, paddle: Paddle) -> bool {
    ball.pos.x - BALL_RADIUS <= paddle.pos.x + PADDLE_WIDTH / 2 && level_with(ball, paddle)
}

/// The ball's right edge has reached the left edge of the right paddle, and
/// the ball is level with it.
pub open spec fn hits_right_paddle(ball: Ball, paddle: Paddle) -> bool {
    ball.pos.x + BALL_RADIUS >= paddle.pos.x - PADDLE_WIDTH / 2 && level_with(ball, paddle)
}

/// The ball with its horizontal velocity set to `vx`.
pub open spec fn with_vx(ball: Ball, vx: i64) -> Ball {
    Ball { pos: ball.pos, vel: Vec2 { x: vx, y: ball.vel.y } }
}

/// The ball after the paddle contacts of a frame: sent right where it touches
/// the left paddle, then sent left where it touches the right paddle.
pub open spec fn after_contacts(ball: Ball, left: Paddle, right: Paddle) -> Ball {
    let b = if hits_left_paddle(ball, left) {
        with_vx(ball, BALL_SPEED)
    } else {
        ball
    };
    if hits_right_paddle(b, right) {
        with_vx(b, (-BALL_SPEED) as i64)
    } else {
        b
    }
}

/// The player's paddle after the input of a frame: up if `up` is held, then
/// down if `down` is held.
pub open spec fn steered(paddle: Paddle, dt: int, up: bool, down: bool) -> Paddle {
    let p = if up {
        paddle.moved_up(dt)
    } else {
        paddle
    };
    if down {
        p.moved_down(dt)
    } else {
        p
    }
}

/// Whether the ball's centre has passed the left wall.
pub open spec fn out_left(ball: Ball) -> bool {
    ball.pos.x < 0
}

/// Whether the ball's centre has passed the right wall.
pub open spec fn out_right(ball: Ball) -> bool {
    ball.pos.x > SCREEN_WIDTH
}

/// Whether the ball touches the left paddle.
pub fn hits_left(ball: &Ball, paddle: &Paddle) -> (r: bool)
    ensures
        r == hits_left_paddle(*ball, *paddle),
{
    let bx = ball.pos.x as i128;
    let px = paddle.pos.x as i128;
    bx - BALL_RADIUS as i128 <= px + (PADDLE_WIDTH / 2) as i128 && is_level(ball, paddle)
}

/// Whether the ball touches the right paddle.
pub fn hits_right(ball: &Ball, paddle: &Paddle) -> (r: bool)
    ensures
        r == hits_right_paddle(*ball, *paddle),
{
    let bx = ball.pos.x as i128;
    let px = paddle.pos.x as i128;
    bx + BALL_RADIUS as i128 >= px - (PADDLE_WIDTH / 2) as i128 && is_level(ball, paddle)
}

fn is_level(ball: &Ball, paddle: &Paddle) -> (r: bool)
    ensures
        r == level_with(*ball, *paddle),
{
    let by = ball.pos.y as i128;
    let py = paddle.pos.y as i128;
    let half = (PADDLE_HEIGHT / 2) as i128;
    py - half <= by && by <= py + half
}

/// The state of a match: the ball, the player's paddle on the left, the
/// scripted paddle on the right, and the two scores.
#[derive(Clone, Copy, Debug, PartialEq, Eq, Structural)]
pub struct PongGame {
    pub ball: Ball,
    pub left_paddle: Paddle,
    pub right_paddle: Paddle,
    pub score_left: u32,
    pub score_right: u32,
}

impl PongGame {
    /// A new match: the ball at the centre, both paddles centred vertically,
    /// no points.
    pub open spec fn initial() -> PongGame {
        PongGame {
            ball: Ball::initial(),
            left_paddle: Paddle::at(PADDLE_OFFSET),
            right_paddle: Paddle::at((SCREEN_WIDTH - PADDLE_OFFSET) as i64),
            score_left: 0,
            score_right: 0,
        }
    }

    /// What holds of every state of a match: the ball moves at the ball speed
    /// along each axis and its centre lies between the side walls; each paddle
    /// stays on its side and between the top and the bottom wall.
    pub open spec fn wf(self) -> bool {
        &&& self.ball.has_game_speed()
        &&& 0 <= self.ball.pos.x <= SCREEN_WIDTH
        &&& self.left_paddle.pos.x == PADDLE_OFFSET
        &&& self.right_paddle.pos.x == SCREEN_WIDTH - PADDLE_OFFSET
        &&& self.left_paddle.contained()
        &&& self.right_paddle.contained()
    }

    /// A frame of `dt` microseconds stays within the ranges of the fields' types.
    pub open spec fn can_step(self, dt: int) -> bool {
        &&& self.ball.advance_fits(dt)
        &&& self.score_left < u32::MAX
        &&& self.score_right < u32::MAX
    }

    /// The ball of a frame after it has moved and met the paddles, before
    /// a point is scored.
    pub open spec fn ball_before_scoring(self, dt: int, up: bool, down: bool) -> Ball {
        let left = steered(self.left_paddle, dt, up, down);
        let moved = self.ball.advanced(dt);
        let right = self.right_paddle.followed(moved, dt);
        after_contacts(moved, left, right)
    }

    /// The match after a frame of `dt` microseconds with the given input.
    pub open spec fn next(self, dt: int, up: bool, down: bool) -> PongGame {
        let left = steered(self.left_paddle, dt, up, down);
        let right = self.right_paddle.followed(self.ball.advanced(dt), dt);
        let b = self.ball_before_scoring(dt, up, down);
        let b1 = if out_left(b) {
            Ball::initial()
        } else {
            b
        };
        PongGame {
            ball: if out_right(b1) {
                Ball::initial()
            } else {
                b1
            },
            left_paddle: left,
            right_paddle: right,
            score_left: if out_right(b1) {
                (self.score_left + 1) as u32
            } else {
                self.score_left
            },
            score_right: if out_left(b) {
                (self.score_right + 1) as u32
            } else {
                self.score_right
            },
        }
    }

    /// A new match: the ball at the centre, both paddles centred vertically,
    /// no points.
    pub fn new() -> (g: PongGame)
        ensures
            g == PongGame::initial(),
            g.wf(),
    {
        PongGame {
            ball: Ball::new(),
            left_paddle: Paddle::new(PADDLE_OFFSET),
            right_paddle: Paddle::new(SCREEN_WIDTH - PADDLE_OFFSET),
            score_left: 0,
            score_right: 0,
        }
    }

    /// Puts a new ball at the centre of the arena.
    pub fn reset_ball(&mut self)
        ensures
            *final(self) == (PongGame { ball: Ball::initial(), ..*old(self) }),
    {
        self.ball = Ball::new();
    }

    /// Whether `update(dt, ..)` may be called on this match.
    pub fn can_update(&self, dt: u32) -> (r: bool)
        ensures
            r == self.can_step(dt as int),
    {
        self.ball.can_advance(dt) && self.score_left < u32::MAX && self.score_right < u32::MAX
    }

    /// Runs one frame of `dt` microseconds. The player's paddle moves up if
    /// `up` is held, then down if `down` is held; the ball moves; the right
    /// paddle tracks the ball; a ball touching a paddle is sent away from it;
    /// a ball past the left wall scores a point for the right player, one past
    /// the right wall a point for the left player, and is replaced by a new one.
    pub fn update(&mut self, dt: u32, up: bool, down: bool)
        requires
            old(self).can_step(dt as int),
        ensures
            *final(self) == old(self).next(dt as int, up, down),
            old(self).wf() ==> final(self).wf(),
    {
        if up {
            self.left_paddle.move_up(dt);
        }
        if down {
            self.left_paddle.move_down(dt);
        }
        self.ball.update(dt);
        self.right_paddle.follow_ball(&self.ball, dt);
        if hits_left(&self.ball, &self.left_paddle) {
            self.ball.vel.x = BALL_SPEED;
        }
        if hits_right(&self.ball, &self.right_paddle) {
            self.ball.vel.x = -BALL_SPEED;
        }
        if self.ball.pos.x < 0 {
            self.score_right = self.score_right + 1;
            self.reset_ball();
        }
        if self.ball.pos.x > SCREEN_WIDTH {
            self.score_left = self.score_left + 1;
            self.reset_ball();
        }
    }
}

/// The ball keeps the ball speed along each axis through every frame of a match.
pub proof fn lemma_frame_keeps_ball_speed(g: PongGame, dt: u32, up: bool, down: bool)
    requires
        g.wf(),
        g.can_step(dt as int),
    ensures
        g.next(dt as int, up, down).ball.has_game_speed(),
{
}

/// Both paddles stay between the top and the bottom wall through every frame,
/// whatever the input and wherever the ball.
pub proof fn lemma_frame_keeps_paddles_contained(g: PongGame, dt: u32, up: bool, down: bool)
    requires
        g.left_paddle.contained(),
        g.right_paddle.contained(),
    ensures
        g.next(dt as int, up, down).left_paddle.contained(),
        g.next(dt as int, up, down).right_paddle.contained(),
{
}

/// A frame in which the ball leaves the arena past a side wall gives exactly
/// one point, to exactly one player, and puts a new ball at the centre; any
/// other frame leaves both scores as they were.
pub proof fn lemma_one_point_per_miss(g: PongGame, dt: u32, up: bool, down: bool)
    requires
        g.can_step(dt as int),
    ensures
        ({
            let b = g.ball_before_scoring(dt as int, up, down);
            let n = g.next(dt as int, up, down);
            &&& out_left(b) ==> n.score_right == g.score_right + 1 && n.score_left == g.score_left
            &&& out_right(b) ==> n.score_left == g.score_left + 1 && n.score_right == g.score_right
            &&& (out_left(b) || out_right(b)) ==> n.ball == Ball::initial()
            &&& !out_left(b) && !out_right(b) ==> n.score_left == g.score_left && n.score_right
                == g.score_right
        }),
{
}

/// After any frame in which a point is scored, the ball is at the centre of
/// the arena, moving right and down at the ball speed.
pub proof fn lemma_point_resets_ball(g: PongGame, dt: u32, up: bool, down: bool)
    requires
        g.can_step(dt as int),
    ensures
        ({
            let n = g.next(dt as int, up, down);
            (n.score_left != g.score_left || n.score_right != g.score_right) ==> n.ball
                == Ball::initial()
        }),
        Ball::initial().pos == (Vec2 { x: (SCREEN_WIDTH / 2) as i64, y: (SCREEN_HEIGHT / 2) as i64 }),
        Ball::initial().vel == (Vec2 { x: BALL_SPEED, y: BALL_SPEED }),
{
}

} // verus!
