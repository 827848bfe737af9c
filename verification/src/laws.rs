//! The library's general laws, proved once over the spec step functions
//! that the executable entry points are specified by.

use vstd::prelude::*;
use vstd::math::abs;
use vstd::arithmetic::div_mod::{
    lemma_mod_add_multiples_vanish, lemma_mod_is_zero, lemma_mod_sub_multiples_vanish,
    lemma_small_mod, lemma_sub_mod_noop,
};
use crate::config::{BALL_ACC, COORD_BOUND};
use crate::entities::{
    ball_wf, paddle_lower_limit, paddle_upper_limit, paddle_wf, spec_bounce, spec_move_paddle,
    Ball, Paddle,
};
use crate::game::{spec_event, spec_new, wf, GameKey, GameState};

verus! {

/// A paddle that stands between the two field limits, a whole number of
/// steps away from the upper one, with the gap between the limits itself
/// a whole number of steps, still stands between them after one frame of
/// movement, whatever keys are held — and stays a whole number of steps
/// from the upper limit.
pub proof fn lemma_paddle_keeps_field_limits(p: Paddle, up: bool, down: bool)
    requires
        paddle_wf(p),
        paddle_upper_limit() <= p.pos.y <= paddle_lower_limit(p),
        (p.pos.y - paddle_upper_limit()) % (p.speed as int) == 0,
        (paddle_lower_limit(p) - paddle_upper_limit()) % (p.speed as int) == 0,
    ensures
        paddle_upper_limit() <= spec_move_paddle(p, up, down).pos.y,
        spec_move_paddle(p, up, down).pos.y <= paddle_lower_limit(p),
        (spec_move_paddle(p, up, down).pos.y - paddle_upper_limit()) % (p.speed as int) == 0,
{
    let u: int = paddle_upper_limit();
    let l: int = paddle_lower_limit(p);
    let sp: int = p.speed as int;
    let y: int = p.pos.y as int;
    let y1: int = if up && y > u { y - sp } else { y };
    if up && y > u {
        lemma_mod_is_zero((y - u) as nat, sp as nat);
        lemma_mod_sub_multiples_vanish(y - u, sp);
    }
    assert(u <= y1 <= l);
    assert((y1 - u) % sp == 0);
    let y2: int = if down && y1 < l { y1 + sp } else { y1 };
    if down && y1 < l {
        lemma_small_mod(0, sp as nat);
        lemma_sub_mod_noop(l - u, y1 - u, sp);
        assert((l - y1) % sp == 0);
        lemma_mod_is_zero((l - y1) as nat, sp as nat);
        lemma_mod_add_multiples_vanish(y1 - u, sp);
    }
    assert(u <= y2 <= l);
    assert((y2 - u) % sp == 0);
    assert(spec_move_paddle(p, up, down).pos.y == y2);
}

/// A paddle driven through a whole sequence of frames, each frame moved
/// by whichever keys were held during it.
pub open spec fn spec_move_paddle_seq(p: Paddle, held: Seq<(bool, bool)>) -> Paddle
    decreases held.len(),
{
    if held.len() == 0 {
        p
    } else {
        spec_move_paddle_seq(
            spec_move_paddle(p, held[0].0, held[0].1),
            held.subrange(1, held.len() as int),
        )
    }
}

/// For all frame counts: a paddle that starts between the field limits,
/// aligned as in `lemma_paddle_keeps_field_limits`, still stands between
/// them after any finite sequence of frames, whatever keys were held.
pub proof fn lemma_paddle_keeps_field_limits_forever(p: Paddle, held: Seq<(bool, bool)>)
    requires
        paddle_wf(p),
        paddle_upper_limit() <= p.pos.y <= paddle_lower_limit(p),
        (p.pos.y - paddle_upper_limit()) % (p.speed as int) == 0,
        (paddle_lower_limit(p) - paddle_upper_limit()) % (p.speed as int) == 0,
    ensures
        paddle_upper_limit() <= spec_move_paddle_seq(p, held).pos.y,
        spec_move_paddle_seq(p, held).pos.y <= paddle_lower_limit(p),
    decreases held.len(),
{
    if held.len() > 0 {
        let moved = spec_move_paddle(p, held[0].0, held[0].1);
        lemma_paddle_keeps_field_limits(p, held[0].0, held[0].1);
        lemma_paddle_keeps_field_limits_forever(moved, held.subrange(1, held.len() as int));
    }
}

/// Each paddle hit adds exactly `BALL_ACC` to the magnitude of the
/// ball's horizontal speed; across successive collisions the magnitude
/// therefore strictly grows, and never decreases.
pub proof fn lemma_bounce_gains_speed(b: Ball, p: Paddle)
    requires
        paddle_wf(p),
        ball_wf(b),
        -4 * COORD_BOUND <= b.vel.x <= 4 * COORD_BOUND,
    ensures
        abs(spec_bounce(b, p).vel.x as int) == abs(b.vel.x as int) + BALL_ACC,
{
}

/// Returning to the menu restores the construction-time placements:
/// the scores are cleared, and the paddles and the ball stand exactly
/// where a fresh game over the same sprite extents puts them, with the
/// ball at rest and the menu showing.
pub proof fn lemma_return_to_menu_restores_start(s: GameState, flip: bool)
    requires
        wf(s),
        !s.is_main_menu_showing,
    ensures
        ({
            let after = spec_event(s, GameKey::ReturnToMenu, flip);
            let fresh = spec_new(
                s.player_1.width,
                s.player_1.height,
                s.player_2.width,
                s.player_2.height,
                s.ball.width,
                s.ball.height,
            );
            &&& after.score_player_1 == fresh.score_player_1
            &&& after.score_player_2 == fresh.score_player_2
            &&& after.player_1.pos == fresh.player_1.pos
            &&& after.player_2.pos == fresh.player_2.pos
            &&& after.ball.pos == fresh.ball.pos
            &&& after.ball.vel == fresh.ball.vel
            &&& after.is_main_menu_showing == fresh.is_main_menu_showing
        }),
{
}

} // verus!
