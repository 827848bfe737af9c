//! Scenario tests for the per-frame physics: paddle limits, ball
//! movement, bounces with spin, wall reflection and the scoring rule.

use pong::config::{SCORE_LIMIT, WINDOW_HEIGHT, WINDOW_WIDTH};
use pong::entities::{Ball, Paddle};
use pong::game::{GameKey, GameState, KeysHeld, PlayerSide};
use pong::geom::{Rect, Vec2};

fn no_keys() -> KeysHeld {
    KeysHeld { p1_up: false, p1_down: false, p2_up: false, p2_down: false }
}

fn playing(paddle_height: i64) -> GameState {
    let mut s = GameState::new(1600, paddle_height, 1600, paddle_height, 1600, 1600);
    s.event_with(GameKey::StartNormal, false);
    s
}

#[test]
fn rectangles_that_merely_touch_do_not_intersect() {
    let a = Rect { x: 0, y: 0, w: 100, h: 100 };
    let b = Rect { x: 100, y: 0, w: 100, h: 100 };
    let c = Rect { x: 99, y: 99, w: 100, h: 100 };
    assert!(!a.intersects(&b));
    assert!(a.intersects(&c));
    assert!(c.intersects(&a));
    assert!(a.intersects(&a));
}

#[test]
fn centre_is_the_middle_of_the_sprite_rounded_down() {
    let p = Paddle::new(Vec2 { x: 1600, y: 19000 }, 800, 1600, 10000);
    let c = p.centre();
    assert_eq!(c.x, 2400);
    assert_eq!(c.y, 24000);
    assert_eq!(p.bounds(), Rect { x: 1600, y: 19000, w: 1600, h: 10000 });

    let b = Ball::new(Vec2 { x: 0, y: 0 }, Vec2 { x: 5, y: 5 }, 1601, 99);
    let c = b.centre();
    assert_eq!(c.x, 800);
    assert_eq!(c.y, 49);
    assert_eq!(b.bounds(), Rect { x: 0, y: 0, w: 1601, h: 99 });
}

#[test]
fn ball_advances_by_its_velocity() {
    let mut s = playing(10000);
    s.update_with(no_keys(), false);
    assert_eq!(s.ball.pos.x, 31200 + 500);
    assert_eq!(s.ball.pos.y, 23200);
}

#[test]
fn aligned_paddle_stops_exactly_at_both_limits() {
    // (48000 - 10800) / 2 = 18600, and 18600 - 1000 is a multiple of 800,
    // so this paddle reaches the limits exactly.
    let mut s = playing(10800);
    assert_eq!(s.player_1.pos.y, 18600);
    let up = KeysHeld { p1_up: true, p1_down: false, p2_up: false, p2_down: false };
    for _ in 0..30 {
        s.update_with(up, false);
    }
    assert_eq!(s.player_1.pos.y, 1000);
    let down = KeysHeld { p1_up: false, p1_down: true, p2_up: false, p2_down: false };
    for _ in 0..60 {
        s.update_with(down, false);
    }
    assert_eq!(s.player_1.pos.y, WINDOW_HEIGHT - 10800 - 1000);
}

#[test]
fn unaligned_paddle_overshoots_by_less_than_one_step() {
    // (48000 - 10000) / 2 = 19000, and 19000 - 1000 is not a multiple of
    // 800: the last step from 1400 overshoots the limit, to 600.
    let mut s = playing(10000);
    let up = KeysHeld { p1_up: true, p1_down: false, p2_up: false, p2_down: false };
    for _ in 0..40 {
        s.update_with(up, false);
        assert!(s.player_1.pos.y > 1000 - 800);
    }
    assert_eq!(s.player_1.pos.y, 600);
}

#[test]
fn second_player_paddle_follows_its_own_keys() {
    let mut s = playing(10000);
    let keys = KeysHeld { p1_up: false, p1_down: false, p2_up: false, p2_down: true };
    s.update_with(keys, false);
    assert_eq!(s.player_1.pos.y, 19000);
    assert_eq!(s.player_2.pos.y, 19800);
}

#[test]
fn bounce_flips_grows_and_spins() {
    let mut s = playing(10000);
    s.ball.pos.x = 2500;
    s.ball.pos.y = 20000;
    s.ball.vel.x = -500;
    s.ball.vel.y = 0;
    s.update_with(no_keys(), false);
    // After the move the ball overlaps paddle 1; the horizontal speed
    // gains 5 and flips, and the impact offset of -3200 out of a 10000
    // paddle puts spin 400 * 3200 / 10000 = 128 downward-negative.
    assert_eq!(s.ball.pos.x, 2000);
    assert_eq!(s.ball.vel.x, 505);
    assert_eq!(s.ball.vel.y, -128);
}

#[test]
fn ball_speed_magnitude_never_shrinks_across_hits() {
    let mut s = playing(10000);
    s.ball.pos.x = 2500;
    s.ball.pos.y = 20000;
    s.ball.vel.x = -500;
    s.ball.vel.y = 0;
    s.update_with(no_keys(), false);
    assert_eq!(s.ball.vel.x, 505);
    // Send it at the paddle once more with the grown magnitude.
    s.ball.pos.x = 2500;
    s.ball.pos.y = 20000;
    s.ball.vel.x = -505;
    s.update_with(no_keys(), false);
    assert_eq!(s.ball.vel.x, 510);
}

#[test]
fn ball_reflects_at_the_top_edge() {
    let mut s = playing(10000);
    s.ball.pos.y = 250;
    s.ball.vel.x = 500;
    s.ball.vel.y = -300;
    s.update_with(no_keys(), false);
    assert_eq!(s.ball.pos.y, -50);
    assert_eq!(s.ball.vel.y, 300);
}

#[test]
fn ball_reflects_at_the_bottom_edge() {
    let mut s = playing(10000);
    s.ball.pos.y = WINDOW_HEIGHT - 1600 - 100;
    s.ball.vel.x = 500;
    s.ball.vel.y = 200;
    s.update_with(no_keys(), false);
    assert_eq!(s.ball.vel.y, -200);
}

#[test]
fn goal_past_the_right_margin_scores_for_player_1() {
    let mut s = playing(10000);
    s.score_player_1 = 3;
    s.ball.pos.x = WINDOW_WIDTH + 10001;
    s.ball.pos.y = 20000;
    s.ball.vel.x = 505;
    s.ball.vel.y = -128;
    s.score_checker_with(false);
    assert_eq!(s.score_player_1, 4);
    assert_eq!(s.score_player_2, 0);
    assert_eq!(s.ball.pos.x, 31200);
    assert_eq!(s.ball.pos.y, 23200);
    // The magnitude is kept, and the vertical speed persists through
    // scoring.
    assert_eq!(s.ball.vel.x, 505);
    assert_eq!(s.ball.vel.y, -128);
    assert!(!s.is_to_end);
}

#[test]
fn goal_sent_left_flips_only_the_horizontal_sign() {
    let mut s = playing(10000);
    s.ball.pos.x = WINDOW_WIDTH + 10001;
    s.ball.vel.x = 505;
    s.ball.vel.y = 40;
    s.score_checker_with(true);
    assert_eq!(s.ball.vel.x, -505);
    assert_eq!(s.ball.vel.y, 40);
}

#[test]
fn goal_past_the_left_margin_scores_for_player_2() {
    let mut s = playing(10000);
    s.ball.pos.x = -10001;
    s.ball.vel.x = -500;
    s.score_checker_with(false);
    assert_eq!(s.score_player_2, 1);
    assert_eq!(s.score_player_1, 0);
    assert_eq!(s.ball.pos.x, 31200);
    assert_eq!(s.ball.pos.y, 23200);
}

#[test]
fn ball_exactly_on_the_margin_does_not_score() {
    let mut s = playing(10000);
    s.ball.pos.x = WINDOW_WIDTH + 10000;
    s.score_checker_with(false);
    assert_eq!(s.score_player_1, 0);
    let mut t = playing(10000);
    t.ball.pos.x = -10000;
    t.score_checker_with(false);
    assert_eq!(t.score_player_2, 0);
}

#[test]
fn round_ends_at_fifteen_but_not_at_fourteen() {
    let mut s = playing(10000);
    s.score_player_1 = 13;
    s.ball.pos.x = WINDOW_WIDTH + 10001;
    s.score_checker_with(false);
    assert_eq!(s.score_player_1, 14);
    assert!(!s.is_to_end);
    s.ball.pos.x = WINDOW_WIDTH + 10001;
    s.score_checker_with(false);
    assert_eq!(s.score_player_1, SCORE_LIMIT);
    assert!(s.is_to_end);
}

#[test]
fn round_ends_when_player_2_reaches_the_limit() {
    let mut s = playing(10000);
    s.score_player_2 = 14;
    s.ball.pos.x = -10001;
    s.score_checker_with(false);
    assert_eq!(s.score_player_2, SCORE_LIMIT);
    assert!(s.is_to_end);
}

#[test]
fn fifteen_goals_end_the_round_for_player_1() {
    let mut s = playing(10000);
    for goal in 0..15 {
        assert!(!s.is_to_end);
        assert_eq!(s.score_player_1, goal);
        s.ball.pos.x = WINDOW_WIDTH + 10001;
        s.score_checker_with(false);
    }
    assert_eq!(s.score_player_1, SCORE_LIMIT);
    assert!(s.is_to_end);
    assert_eq!(s.winner(), Some(PlayerSide::Left));
}

#[test]
fn scoring_with_a_random_side_keeps_the_magnitude() {
    let mut s = playing(10000);
    s.ball.pos.x = WINDOW_WIDTH + 10001;
    s.ball.vel.x = 505;
    s.score_checker();
    assert_eq!(s.score_player_1, 1);
    assert!(s.ball.vel.x == 505 || s.ball.vel.x == -505);
}

#[test]
fn update_with_a_random_side_still_moves_the_ball() {
    let mut s = playing(10000);
    s.update(no_keys());
    assert_eq!(s.ball.pos.x, 31200 + 500);
}
