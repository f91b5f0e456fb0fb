use pong::ball::Ball;
use pong::config::{
    Vec2, BALL_RADIUS, BALL_SPEED, PADDLE_HEIGHT, PADDLE_OFFSET, PADDLE_WIDTH, SCREEN_HEIGHT,
    SCREEN_WIDTH, UNIT,
};
use pong::game::{hits_left, hits_right, PongGame};
use pong::paddle::{Paddle, Rect};

const SECOND: u32 = 1_000_000;

fn ball_at(x: i64, y: i64, vx: i64, vy: i64) -> Ball {
    Ball { pos: Vec2 { x, y }, vel: Vec2 { x: vx, y: vy } }
}

#[test]
fn ball_moves_and_bounces_off_bottom_wall() {
    let mut b = ball_at(400 * UNIT, 300 * UNIT, 300, 300);
    b.update(SECOND);
    assert_eq!(b.pos, Vec2 { x: 700 * UNIT, y: 600 * UNIT });
    assert_eq!(b.vel, Vec2 { x: 300, y: -300 });
}

#[test]
fn ball_bounces_off_top_wall() {
    let mut b = ball_at(400 * UNIT, 25 * UNIT, -300, -300);
    b.update(SECOND / 20);
    assert_eq!(b.pos, Vec2 { x: 385 * UNIT, y: 10 * UNIT });
    assert_eq!(b.vel, Vec2 { x: -300, y: 300 });
}

#[test]
fn ball_in_open_space_keeps_velocity() {
    let mut b = Ball::new();
    b.update(SECOND / 10);
    assert_eq!(b.pos, Vec2 { x: 430 * UNIT, y: 330 * UNIT });
    assert_eq!(b.vel, Vec2 { x: BALL_SPEED, y: BALL_SPEED });
}

#[test]
fn new_ball_is_centred() {
    let b = Ball::new();
    assert_eq!(b.pos, Vec2 { x: SCREEN_WIDTH / 2, y: SCREEN_HEIGHT / 2 });
    assert_eq!(b.vel, Vec2 { x: 300, y: 300 });
}

#[test]
fn left_paddle_contact_sends_ball_right() {
    let mut g = PongGame::new();
    assert_eq!(g.left_paddle.pos, Vec2 { x: 50 * UNIT, y: 300 * UNIT });
    g.ball = ball_at(65 * UNIT, 300 * UNIT, -300, 300);
    assert!(hits_left(&g.ball, &g.left_paddle));
    g.update(0, false, false);
    assert_eq!(g.ball.vel.x, 300);
    assert_eq!(g.score_left, 0);
    assert_eq!(g.score_right, 0);
}

#[test]
fn paddle_contact_edges_are_inclusive() {
    let p = Paddle::new(PADDLE_OFFSET);
    assert!(hits_left(&ball_at(65 * UNIT, 350 * UNIT, -300, 300), &p));
    assert!(hits_left(&ball_at(65 * UNIT, 250 * UNIT, -300, 300), &p));
    assert!(!hits_left(&ball_at(65 * UNIT, 350 * UNIT + 1, -300, 300), &p));
    assert!(!hits_left(&ball_at(65 * UNIT + 1, 300 * UNIT, -300, 300), &p));
    let r = Paddle::new(SCREEN_WIDTH - PADDLE_OFFSET);
    assert!(hits_right(&ball_at(735 * UNIT, 300 * UNIT, 300, 300), &r));
    assert!(!hits_right(&ball_at(735 * UNIT - 1, 300 * UNIT, 300, 300), &r));
}

#[test]
fn right_paddle_contact_sends_ball_left() {
    let mut g = PongGame::new();
    g.ball = ball_at(735 * UNIT, 300 * UNIT, 300, -300);
    g.update(0, false, false);
    assert_eq!(g.ball.vel.x, -300);
}

#[test]
fn contact_keeps_a_ball_already_moving_away() {
    let mut g = PongGame::new();
    g.ball = ball_at(60 * UNIT, 300 * UNIT, 300, 300);
    g.update(0, false, false);
    assert_eq!(g.ball.vel.x, 300);
}

#[test]
fn ball_past_left_wall_scores_for_right() {
    let mut g = PongGame::new();
    g.ball = ball_at(-UNIT, 100 * UNIT, -300, 300);
    g.update(0, false, false);
    assert_eq!(g.score_right, 1);
    assert_eq!(g.score_left, 0);
    assert_eq!(g.ball, Ball::new());
}

#[test]
fn ball_past_right_wall_scores_for_left() {
    let mut g = PongGame::new();
    g.ball = ball_at(SCREEN_WIDTH + 1, 100 * UNIT, 300, 300);
    g.update(0, false, false);
    assert_eq!(g.score_left, 1);
    assert_eq!(g.score_right, 0);
    assert_eq!(g.ball, Ball::new());
}

#[test]
fn right_paddle_above_ball_level_moves_up() {
    let mut p = Paddle::new(SCREEN_WIDTH - PADDLE_OFFSET);
    let b = ball_at(400 * UNIT, 200 * UNIT, 300, 300);
    p.follow_ball(&b, SECOND / 10);
    assert_eq!(p.pos, Vec2 { x: 750 * UNIT, y: 250 * UNIT });
}

#[test]
fn paddle_above_ball_moves_down() {
    let mut p = Paddle::new(SCREEN_WIDTH - PADDLE_OFFSET);
    let b = ball_at(400 * UNIT, 400 * UNIT, 300, 300);
    p.follow_ball(&b, SECOND / 10);
    assert_eq!(p.pos.y, 350 * UNIT);
}

#[test]
fn paddle_level_with_ball_moves_up() {
    let mut p = Paddle::new(SCREEN_WIDTH - PADDLE_OFFSET);
    let b = ball_at(400 * UNIT, 300 * UNIT, 300, 300);
    p.follow_ball(&b, SECOND / 100);
    assert_eq!(p.pos.y, 295 * UNIT);
}

#[test]
fn paddle_stops_at_top_wall() {
    let mut p = Paddle::new(PADDLE_OFFSET);
    p.move_up(SECOND);
    assert_eq!(p.pos.y, PADDLE_HEIGHT / 2);
    p.move_up(u32::MAX);
    assert_eq!(p.pos.y, PADDLE_HEIGHT / 2);
}

#[test]
fn paddle_stops_at_bottom_wall() {
    let mut p = Paddle::new(PADDLE_OFFSET);
    p.move_down(SECOND);
    assert_eq!(p.pos.y, SCREEN_HEIGHT - PADDLE_HEIGHT / 2);
    p.move_down(u32::MAX);
    assert_eq!(p.pos.y, 550 * UNIT);
}

#[test]
fn both_keys_move_up_then_down() {
    let mut g = PongGame::new();
    g.update(SECOND / 10, true, true);
    assert_eq!(g.left_paddle.pos.y, 300 * UNIT);
    g.left_paddle.pos.y = 60 * UNIT;
    g.update(SECOND / 10, true, true);
    assert_eq!(g.left_paddle.pos.y, 100 * UNIT);
}

#[test]
fn up_key_moves_player_paddle() {
    let mut g = PongGame::new();
    g.update(SECOND / 10, true, false);
    assert_eq!(g.left_paddle.pos, Vec2 { x: 50 * UNIT, y: 250 * UNIT });
    g.update(SECOND / 10, false, true);
    assert_eq!(g.left_paddle.pos.y, 300 * UNIT);
}

#[test]
fn paddle_rect_is_centred_on_paddle() {
    let p = Paddle::new(PADDLE_OFFSET);
    assert_eq!(
        p.rect(),
        Rect { left: 45 * UNIT, top: 250 * UNIT, width: PADDLE_WIDTH, height: PADDLE_HEIGHT }
    );
}

#[test]
fn new_match_is_centred_and_scoreless() {
    let g = PongGame::new();
    assert_eq!(g.ball, Ball::new());
    assert_eq!(g.left_paddle.pos, Vec2 { x: 50 * UNIT, y: 300 * UNIT });
    assert_eq!(g.right_paddle.pos, Vec2 { x: 750 * UNIT, y: 300 * UNIT });
    assert_eq!((g.score_left, g.score_right), (0, 0));
}

#[test]
fn long_match_keeps_speeds_and_paddles_in_bounds() {
    let mut g = PongGame::new();
    let mut points: u32 = 0;
    for i in 0..20_000u32 {
        let dt = 5_000 + (i % 7) * 3_000;
        let before = g.score_left + g.score_right;
        assert!(g.can_update(dt));
        g.update(dt, i % 3 == 0, i % 5 == 0);
        assert_eq!(g.ball.vel.x.abs(), BALL_SPEED);
        assert_eq!(g.ball.vel.y.abs(), BALL_SPEED);
        for p in [g.left_paddle, g.right_paddle] {
            assert!(PADDLE_HEIGHT / 2 <= p.pos.y && p.pos.y <= SCREEN_HEIGHT - PADDLE_HEIGHT / 2);
        }
        assert!(0 <= g.ball.pos.x && g.ball.pos.x <= SCREEN_WIDTH);
        let after = g.score_left + g.score_right;
        assert!(after == before || after == before + 1);
        if after == before + 1 {
            points += 1;
            assert_eq!(g.ball, Ball::new());
        }
    }
    assert_eq!(points, g.score_left + g.score_right);
}

#[test]
fn ball_inside_band_stays_inside_after_small_step() {
    let mut b = ball_at(400 * UNIT, 580 * UNIT, 300, 300);
    b.update(SECOND / 100);
    assert_eq!(b.pos.y, 583 * UNIT);
    assert!(BALL_RADIUS <= b.pos.y && b.pos.y <= SCREEN_HEIGHT - BALL_RADIUS);
    assert_eq!(b.vel.y, 300);
}

#[test]
fn score_text_shows_both_scores() {
    let mut g = PongGame::new();
    assert_eq!(g.score_text(), b"0 - 0".to_vec());
    g.score_left = 12;
    g.score_right = 3;
    assert_eq!(g.score_text(), b"12 - 3".to_vec());
    g.score_left = u32::MAX;
    g.score_right = 100;
    assert_eq!(g.score_text(), b"4294967295 - 100".to_vec());
}

#[test]
fn update_is_refused_at_largest_score() {
    let mut g = PongGame::new();
    assert!(g.can_update(SECOND));
    g.score_right = u32::MAX;
    assert!(!g.can_update(SECOND));
}

#[test]
fn far_ball_cannot_advance() {
    let b = ball_at(0, i64::MAX - 10, 300, 300);
    assert!(!b.can_advance(1));
    assert!(b.can_advance(0));
}
