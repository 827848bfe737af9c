//! The game state and its three entry points: per-frame `update`, the
//! discrete key-press `event` handler, and the scene selector that the
//! renderer follows. A round is played until one score reaches
//! `SCORE_LIMIT`; the menu, pause and round-over flags form the mode
//! state machine.

use vstd::prelude::*;
use vstd::math::abs;
use crate::config::{
    BALL_SPEED_HARD, BALL_SPEED_NORMAL, COORD_BOUND, FIELD_INSET, PADDLE_INSET,
    PADDLE_SPEED_HIGH, PADDLE_SPEED_NORMAL, SCORE_LIMIT, SCORE_MARGIN, WINDOW_HEIGHT,
    WINDOW_WIDTH,
};
use crate::entities::{
    ball_bounded, ball_wf, paddle_lower_limit, paddle_upper_limit, paddle_wf, spec_advance,
    spec_ball_rect, spec_bounce, spec_move_paddle, spec_paddle_rect, spec_reflect_walls, Ball,
    Paddle,
};
use crate::geom::{half, spec_rects_intersect, Vec2};

verus! {

/// A discrete key press that the state machine reacts to.
#[derive(Clone, Copy, Debug, PartialEq, Eq, Structural)]
pub enum GameKey {
    /// Toggle the pause flag (key P).
    Pause,
    /// Start a round at normal speed (key N).
    StartNormal,
    /// Start a round at hard speed (key H).
    StartHard,
    /// Go back to the main menu (key Backspace).
    ReturnToMenu,
}

/// Which movement keys are held down during one frame.
#[derive(Clone, Copy, Debug, PartialEq, Eq, Structural)]
pub struct KeysHeld {
    /// Player 1 moves up (key W).
    pub p1_up: bool,
    /// Player 1 moves down (key S).
    pub p1_down: bool,
    /// Player 2 moves up (arrow up).
    pub p2_up: bool,
    /// Player 2 moves down (arrow down).
    pub p2_down: bool,
}

/// What the renderer should show for the current mode flags.
#[derive(Clone, Copy, Debug, PartialEq, Eq, Structural)]
pub enum Scene {
    /// The menu header and usage text.
    MainMenu,
    /// Scores, centre line and the winner message.
    RoundOver,
    /// The full play field.
    Playing,
}

/// The side a player defends.
#[derive(Clone, Copy, Debug, PartialEq, Eq, Structural)]
pub enum PlayerSide {
    /// Player 1.
    Left,
    /// Player 2.
    Right,
}

/// Everything the game owns: both paddles, the ball, both score counters
/// and the mode flags.
#[derive(Clone, Copy, Debug, PartialEq, Eq, Structural)]
pub struct GameState {
    /// The left paddle.
    pub player_1: Paddle,
    /// The right paddle.
    pub player_2: Paddle,
    /// The ball.
    pub ball: Ball,
    /// Goals scored by player 1.
    pub score_player_1: u8,
    /// Goals scored by player 2.
    pub score_player_2: u8,
    /// The simulation is frozen while this is set.
    pub is_paused: bool,
    /// The main menu is shown and no round runs.
    pub is_main_menu_showing: bool,
    /// A player has reached the score limit.
    pub is_to_end: bool,
}

/// Scores never pass the limit, a score at the limit always comes with
/// the round-over flag, and the menu only ever shows with cleared scores.
pub open spec fn scores_wf(s: GameState) -> bool {
    &&& s.score_player_1 <= SCORE_LIMIT
    &&& s.score_player_2 <= SCORE_LIMIT
    &&& (s.score_player_1 == SCORE_LIMIT || s.score_player_2 == SCORE_LIMIT) ==> s.is_to_end
    &&& s.is_main_menu_showing ==> (s.score_player_1 == 0 && s.score_player_2 == 0)
}

/// While the menu shows, both paddles stand strictly between the field
/// limits; construction and the return-to-menu reset put them there, and
/// nothing moves them while the menu is up.
pub open spec fn menu_paddles_wf(s: GameState) -> bool {
    s.is_main_menu_showing ==> {
        &&& paddle_upper_limit() <= s.player_1.pos.y <= paddle_lower_limit(s.player_1)
        &&& paddle_upper_limit() <= s.player_2.pos.y <= paddle_lower_limit(s.player_2)
    }
}

/// Well-formed game state: both paddles and the ball are well formed and
/// the scores respect the limit.
pub open spec fn wf(s: GameState) -> bool {
    &&& paddle_wf(s.player_1)
    &&& paddle_wf(s.player_2)
    &&& ball_wf(s.ball)
    &&& scores_wf(s)
    &&& menu_paddles_wf(s)
}

/// Where the ball rests when a round starts or a goal was scored: sprite
/// centred in the field.
pub open spec fn spec_centered_ball_pos(b: Ball) -> Vec2 {
    Vec2 {
        x: ((WINDOW_WIDTH - b.width) / 2) as i64,
        y: ((WINDOW_HEIGHT - b.height) / 2) as i64,
    }
}

/// The state a fresh game starts in, given the sprite extents the host
/// loaded: paddles centred at their side insets, ball centred and at
/// rest, scores zero, and the main menu showing.
pub open spec fn spec_new(
    p1_width: i64,
    p1_height: i64,
    p2_width: i64,
    p2_height: i64,
    ball_width: i64,
    ball_height: i64,
) -> GameState {
    GameState {
        player_1: Paddle {
            pos: Vec2 { x: PADDLE_INSET, y: ((WINDOW_HEIGHT - p1_height) / 2) as i64 },
            speed: PADDLE_SPEED_NORMAL,
            width: p1_width,
            height: p1_height,
        },
        player_2: Paddle {
            pos: Vec2 {
                x: (WINDOW_WIDTH - p2_width - PADDLE_INSET) as i64,
                y: ((WINDOW_HEIGHT - p2_height) / 2) as i64,
            },
            speed: PADDLE_SPEED_NORMAL,
            width: p2_width,
            height: p2_height,
        },
        ball: Ball {
            pos: Vec2 {
                x: ((WINDOW_WIDTH - ball_width) / 2) as i64,
                y: ((WINDOW_HEIGHT - ball_height) / 2) as i64,
            },
            vel: Vec2 { x: 0, y: 0 },
            width: ball_width,
            height: ball_height,
        },
        score_player_1: 0,
        score_player_2: 0,
        is_paused: false,
        is_main_menu_showing: true,
        is_to_end: false,
    }
}

/// The sprite extents the game accepts: paddles and ball no wider than
/// the field, and paddles short enough to move between the field insets.
pub open spec fn dims_ok(
    p1_width: i64,
    p1_height: i64,
    p2_width: i64,
    p2_height: i64,
    ball_width: i64,
    ball_height: i64,
) -> bool {
    &&& 0 < p1_width <= WINDOW_WIDTH
    &&& 0 < p1_height
    &&& p1_height + 2 * FIELD_INSET <= WINDOW_HEIGHT
    &&& 0 < p2_width <= WINDOW_WIDTH
    &&& 0 < p2_height
    &&& p2_height + 2 * FIELD_INSET <= WINDOW_HEIGHT
    &&& 0 < ball_width <= WINDOW_WIDTH
    &&& 0 < ball_height <= WINDOW_HEIGHT
}

/// Starting a round from the menu: both paddles take the given speed, the
/// ball gets the given horizontal speed (sent left when `flip` is set),
/// and the menu and round-over flags clear.
pub open spec fn spec_start(s: GameState, paddle_speed: i64, ball_speed: i64, flip: bool) -> GameState {
    GameState {
        player_1: Paddle { speed: paddle_speed, ..s.player_1 },
        player_2: Paddle { speed: paddle_speed, ..s.player_2 },
        ball: Ball {
            vel: Vec2 { x: if flip { (-ball_speed) as i64 } else { ball_speed }, y: 0 },
            ..s.ball
        },
        is_main_menu_showing: false,
        is_to_end: false,
        ..s
    }
}

/// Going back to the menu: scores clear, both paddles return to their
/// construction-time centred positions, and the ball returns to the
/// centre at rest.
pub open spec fn spec_reset(s: GameState) -> GameState {
    GameState {
        player_1: Paddle {
            pos: Vec2 { x: PADDLE_INSET, y: ((WINDOW_HEIGHT - s.player_1.height) / 2) as i64 },
            ..s.player_1
        },
        player_2: Paddle {
            pos: Vec2 {
                x: (WINDOW_WIDTH - s.player_2.width - PADDLE_INSET) as i64,
                y: ((WINDOW_HEIGHT - s.player_2.height) / 2) as i64,
            },
            ..s.player_2
        },
        ball: Ball { pos: spec_centered_ball_pos(s.ball), vel: Vec2 { x: 0, y: 0 }, ..s.ball },
        score_player_1: 0,
        score_player_2: 0,
        is_main_menu_showing: true,
        ..s
    }
}

/// The state machine's reaction to one key press. Pause only acts outside
/// the menu; the two start keys only act on the menu; return-to-menu only
/// acts outside the menu.
pub open spec fn spec_event(s: GameState, key: GameKey, flip: bool) -> GameState {
    match key {
        GameKey::Pause => {
            if !s.is_main_menu_showing {
                GameState { is_paused: !s.is_paused, ..s }
            } else {
                s
            }
        },
        GameKey::StartNormal => {
            if s.is_main_menu_showing {
                spec_start(s, PADDLE_SPEED_NORMAL, BALL_SPEED_NORMAL, flip)
            } else {
                s
            }
        },
        GameKey::StartHard => {
            if s.is_main_menu_showing {
                spec_start(s, PADDLE_SPEED_HIGH, BALL_SPEED_HARD, flip)
            } else {
                s
            }
        },
        GameKey::ReturnToMenu => {
            if !s.is_main_menu_showing {
                spec_reset(s)
            } else {
                s
            }
        },
    }
}

/// The scoring rule. A goal past the right grace margin counts for
/// player 1, one past the left margin for player 2; the scorer's counter
/// steps by one, the ball recentres, and its horizontal speed keeps its
/// magnitude but is sent left when `flip` is set. The vertical speed
/// persists through scoring. A score at the limit ends the round.
pub open spec fn spec_score_step(s: GameState, flip: bool) -> GameState {
    let scored = if s.ball.pos.x > WINDOW_WIDTH + SCORE_MARGIN {
        GameState {
            score_player_1: (s.score_player_1 + 1) as u8,
            ball: Ball {
                pos: spec_centered_ball_pos(s.ball),
                vel: Vec2 {
                    x: if flip { (-s.ball.vel.x) as i64 } else { s.ball.vel.x },
                    y: s.ball.vel.y,
                },
                ..s.ball
            },
            ..s
        }
    } else if s.ball.pos.x < -SCORE_MARGIN {
        GameState {
            score_player_2: (s.score_player_2 + 1) as u8,
            ball: Ball {
                pos: spec_centered_ball_pos(s.ball),
                vel: Vec2 {
                    x: if flip { (-s.ball.vel.x) as i64 } else { s.ball.vel.x },
                    y: s.ball.vel.y,
                },
                ..s.ball
            },
            ..s
        }
    } else {
        s
    };
    if scored.score_player_1 == SCORE_LIMIT || scored.score_player_2 == SCORE_LIMIT {
        GameState { is_to_end: true, ..scored }
    } else {
        scored
    }
}

/// One frame of simulation, which runs only during play: paddles move by
/// their held keys, the ball advances, bounces off the first paddle it
/// overlaps, reflects at the top and bottom edges, and the scoring rule
/// runs last.
pub open spec fn spec_update(s: GameState, keys: KeysHeld, flip: bool) -> GameState {
    if s.is_main_menu_showing || s.is_to_end {
        s
    } else {
        let p1 = spec_move_paddle(s.player_1, keys.p1_up, keys.p1_down);
        let p2 = spec_move_paddle(s.player_2, keys.p2_up, keys.p2_down);
        let moved = spec_advance(s.ball);
        let hit = if spec_rects_intersect(spec_ball_rect(moved), spec_paddle_rect(p1)) {
            spec_bounce(moved, p1)
        } else if spec_rects_intersect(spec_ball_rect(moved), spec_paddle_rect(p2)) {
            spec_bounce(moved, p2)
        } else {
            moved
        };
        let reflected = spec_reflect_walls(hit);
        spec_score_step(
            GameState { player_1: p1, player_2: p2, ball: reflected, ..s },
            flip,
        )
    }
}

/// The scene the mode flags call for: the menu wins over everything,
/// then the round-over screen, then play.
pub open spec fn spec_scene(s: GameState) -> Scene {
    if s.is_main_menu_showing {
        Scene::MainMenu
    } else if s.is_to_end {
        Scene::RoundOver
    } else {
        Scene::Playing
    }
}

/// Who the winner message belongs to: the player whose score stands at
/// the limit, player 1 checked first.
pub open spec fn spec_winner(s: GameState) -> Option<PlayerSide> {
    if s.score_player_1 == SCORE_LIMIT {
        Some(PlayerSide::Left)
    } else if s.score_player_2 == SCORE_LIMIT {
        Some(PlayerSide::Right)
    } else {
        None
    }
}

/// The centred vertical position of a sprite of height `h` lies between
/// the two field limits whenever the sprite fits between them.
proof fn lemma_centered_y_within_limits(h: int)
    requires
        0 < h,
        h + 2 * FIELD_INSET <= WINDOW_HEIGHT,
    ensures
        FIELD_INSET <= (WINDOW_HEIGHT - h) / 2,
        (WINDOW_HEIGHT - h) / 2 <= WINDOW_HEIGHT - h - FIELD_INSET,
{
    let z: int = WINDOW_HEIGHT - h;
    vstd::arithmetic::div_mod::lemma_fundamental_div_mod(z, 2);
    vstd::arithmetic::div_mod::lemma_mod_bound(z, 2);
}

impl GameState {
    /// A fresh game over sprites of the given extents: menu showing,
    /// scores zero, paddles centred at their insets, ball centred at rest.
    pub fn new(
        p1_width: i64,
        p1_height: i64,
        p2_width: i64,
        p2_height: i64,
        ball_width: i64,
        ball_height: i64,
    ) -> (s: GameState)
        requires
            dims_ok(p1_width, p1_height, p2_width, p2_height, ball_width, ball_height),
        ensures
            s == spec_new(p1_width, p1_height, p2_width, p2_height, ball_width, ball_height),
            wf(s),
            ball_bounded(s.ball),
    {
        proof {
            lemma_centered_y_within_limits(p1_height as int);
            lemma_centered_y_within_limits(p2_height as int);
        }
        GameState {
            player_1: Paddle::new(
                Vec2 { x: PADDLE_INSET, y: half(WINDOW_HEIGHT - p1_height) },
                PADDLE_SPEED_NORMAL,
                p1_width,
                p1_height,
            ),
            player_2: Paddle::new(
                Vec2 {
                    x: WINDOW_WIDTH - p2_width - PADDLE_INSET,
                    y: half(WINDOW_HEIGHT - p2_height),
                },
                PADDLE_SPEED_NORMAL,
                p2_width,
                p2_height,
            ),
            ball: Ball::new(
                Vec2 { x: half(WINDOW_WIDTH - ball_width), y: half(WINDOW_HEIGHT - ball_height) },
                Vec2 { x: 0, y: 0 },
                ball_width,
                ball_height,
            ),
            score_player_1: 0,
            score_player_2: 0,
            is_paused: false,
            is_main_menu_showing: true,
            is_to_end: false,
        }
    }

    /// The scoring rule with the direction choice handed in: checks the
    /// grace margins, credits the scorer, recentres the ball, and ends
    /// the round at the score limit.
    pub fn score_checker_with(&mut self, flip: bool)
        requires
            wf(*old(self)),
            !old(self).is_main_menu_showing,
            !old(self).is_to_end,
            -4 * COORD_BOUND <= old(self).ball.pos.x <= 4 * COORD_BOUND,
            -4 * COORD_BOUND <= old(self).ball.vel.x <= 4 * COORD_BOUND,
        ensures
            *final(self) == spec_score_step(*old(self), flip),
            wf(*final(self)),
            old(self).ball.pos.x > WINDOW_WIDTH + SCORE_MARGIN ==> {
                &&& final(self).score_player_1 == old(self).score_player_1 + 1
                &&& final(self).score_player_2 == old(self).score_player_2
                &&& final(self).ball.pos.x == (WINDOW_WIDTH - old(self).ball.width) / 2
                &&& final(self).ball.pos.y == (WINDOW_HEIGHT - old(self).ball.height) / 2
            },
            old(self).ball.pos.x < -SCORE_MARGIN ==> {
                &&& final(self).score_player_2 == old(self).score_player_2 + 1
                &&& final(self).score_player_1 == old(self).score_player_1
            },
            final(self).is_to_end == (final(self).score_player_1 == SCORE_LIMIT
                || final(self).score_player_2 == SCORE_LIMIT),
            abs(final(self).ball.vel.x as int) == abs(old(self).ball.vel.x as int),
    {
        if self.ball.pos.x > WINDOW_WIDTH + SCORE_MARGIN {
            self.score_player_1 = self.score_player_1 + 1;
            self.ball.pos = Vec2 {
                x: half(WINDOW_WIDTH - self.ball.width),
                y: half(WINDOW_HEIGHT - self.ball.height),
            };
            if flip {
                self.ball.vel.x = -self.ball.vel.x;
            }
        } else if self.ball.pos.x < -SCORE_MARGIN {
            self.score_player_2 = self.score_player_2 + 1;
            self.ball.pos = Vec2 {
                x: half(WINDOW_WIDTH - self.ball.width),
                y: half(WINDOW_HEIGHT - self.ball.height),
            };
            if flip {
                self.ball.vel.x = -self.ball.vel.x;
            }
        }
        if self.score_player_1 == SCORE_LIMIT || self.score_player_2 == SCORE_LIMIT {
            self.is_to_end = true;
        }
    }

    /// One frame of simulation with the direction choice handed in; does
    /// nothing while the menu shows or the round is over. The magnitude
    /// of the ball's horizontal speed never shrinks.
    pub fn update_with(&mut self, keys: KeysHeld, flip: bool)
        requires
            wf(*old(self)),
            ball_bounded(old(self).ball),
        ensures
            *final(self) == spec_update(*old(self), keys, flip),
            wf(*final(self)),
            abs(final(self).ball.vel.x as int) >= abs(old(self).ball.vel.x as int),
    {
        if !self.is_main_menu_showing && !self.is_to_end {
            self.player_1.step(keys.p1_up, keys.p1_down);
            self.player_2.step(keys.p2_up, keys.p2_down);
            self.ball.advance();
            let p1_bounds = self.player_1.bounds();
            let p2_bounds = self.player_2.bounds();
            let ball_bounds = self.ball.bounds();
            if ball_bounds.intersects(&p1_bounds) {
                let paddle = self.player_1;
                self.ball.bounce_off(&paddle);
            } else if ball_bounds.intersects(&p2_bounds) {
                let paddle = self.player_2;
                self.ball.bounce_off(&paddle);
            }
            self.ball.reflect_walls();
            self.score_checker_with(flip);
        }
    }

    /// The state machine's reaction to one key press, with the direction
    /// choice handed in. Starting a round gives the ball exactly the
    /// configured speed; returning to the menu restores the
    /// construction-time paddle and ball placements and clears the scores.
    pub fn event_with(&mut self, key: GameKey, flip: bool)
        requires
            wf(*old(self)),
        ensures
            *final(self) == spec_event(*old(self), key, flip),
            wf(*final(self)),
            old(self).is_main_menu_showing && key == GameKey::StartNormal ==> {
                &&& abs(final(self).ball.vel.x as int) == BALL_SPEED_NORMAL
                &&& final(self).ball.vel.y == 0
            },
            old(self).is_main_menu_showing && key == GameKey::StartHard ==> {
                &&& abs(final(self).ball.vel.x as int) == BALL_SPEED_HARD
                &&& final(self).ball.vel.y == 0
            },
            !old(self).is_main_menu_showing && key == GameKey::ReturnToMenu ==> {
                &&& final(self).score_player_1 == 0
                &&& final(self).score_player_2 == 0
                &&& final(self).player_1.pos.y == (WINDOW_HEIGHT - old(self).player_1.height) / 2
                &&& final(self).player_2.pos.y == (WINDOW_HEIGHT - old(self).player_2.height) / 2
                &&& final(self).ball.vel == (Vec2 { x: 0, y: 0 })
                &&& final(self).is_main_menu_showing
            },
    {
        match key {
            GameKey::Pause => {
                if !self.is_main_menu_showing {
                    self.is_paused = !self.is_paused;
                }
            },
            GameKey::StartNormal => {
                if self.is_main_menu_showing {
                    self.player_1.speed = PADDLE_SPEED_NORMAL;
                    self.player_2.speed = PADDLE_SPEED_NORMAL;
                    self.ball.vel = if flip {
                        Vec2 { x: -BALL_SPEED_NORMAL, y: 0 }
                    } else {
                        Vec2 { x: BALL_SPEED_NORMAL, y: 0 }
                    };
                    self.is_main_menu_showing = false;
                    self.is_to_end = false;
                }
            },
            GameKey::StartHard => {
                if self.is_main_menu_showing {
                    self.player_1.speed = PADDLE_SPEED_HIGH;
                    self.player_2.speed = PADDLE_SPEED_HIGH;
                    self.ball.vel = if flip {
                        Vec2 { x: -BALL_SPEED_HARD, y: 0 }
                    } else {
                        Vec2 { x: BALL_SPEED_HARD, y: 0 }
                    };
                    self.is_main_menu_showing = false;
                    self.is_to_end = false;
                }
            },
            GameKey::ReturnToMenu => {
                if !self.is_main_menu_showing {
                    proof {
                        lemma_centered_y_within_limits(old(self).player_1.height as int);
                        lemma_centered_y_within_limits(old(self).player_2.height as int);
                    }
                    self.is_main_menu_showing = true;
                    self.score_player_1 = 0;
                    self.score_player_2 = 0;
                    self.player_1.pos = Vec2 {
                        x: PADDLE_INSET,
                        y: half(WINDOW_HEIGHT - self.player_1.height),
                    };
                    self.player_2.pos = Vec2 {
                        x: WINDOW_WIDTH - self.player_2.width - PADDLE_INSET,
                        y: half(WINDOW_HEIGHT - self.player_2.height),
                    };
                    self.ball.pos = Vec2 {
                        x: half(WINDOW_WIDTH - self.ball.width),
                        y: half(WINDOW_HEIGHT - self.ball.height),
                    };
                    self.ball.vel = Vec2 { x: 0, y: 0 };
                }
            },
        }
    }

    /// The scoring rule as the frame step runs it: which side a scored-on
    /// ball is sent to is drawn from the thread-local generator, so the
    /// outcome is one of the two deterministic steps.
    pub fn score_checker(&mut self)
        requires
            wf(*old(self)),
            !old(self).is_main_menu_showing,
            !old(self).is_to_end,
            -4 * COORD_BOUND <= old(self).ball.pos.x <= 4 * COORD_BOUND,
            -4 * COORD_BOUND <= old(self).ball.vel.x <= 4 * COORD_BOUND,
        ensures
            *final(self) == spec_score_step(*old(self), true)
                || *final(self) == spec_score_step(*old(self), false),
            wf(*final(self)),
            old(self).ball.pos.x > WINDOW_WIDTH + SCORE_MARGIN ==> {
                &&& final(self).score_player_1 == old(self).score_player_1 + 1
                &&& final(self).ball.pos.x == (WINDOW_WIDTH - old(self).ball.width) / 2
                &&& final(self).ball.pos.y == (WINDOW_HEIGHT - old(self).ball.height) / 2
            },
            final(self).is_to_end == (final(self).score_player_1 == SCORE_LIMIT
                || final(self).score_player_2 == SCORE_LIMIT),
            abs(final(self).ball.vel.x as int) == abs(old(self).ball.vel.x as int),
    {
        let flip: bool = rand::random();
        self.score_checker_with(flip);
    }

    /// One frame of simulation; the side a scored-on ball is sent to is
    /// drawn from the thread-local generator, so the outcome is one of
    /// the two deterministic steps.
    pub fn update(&mut self, keys: KeysHeld)
        requires
            wf(*old(self)),
            ball_bounded(old(self).ball),
        ensures
            *final(self) == spec_update(*old(self), keys, true)
                || *final(self) == spec_update(*old(self), keys, false),
            wf(*final(self)),
            abs(final(self).ball.vel.x as int) >= abs(old(self).ball.vel.x as int),
    {
        let flip: bool = rand::random();
        self.update_with(keys, flip);
    }

    /// The state machine's reaction to one key press; the side the ball
    /// starts toward is drawn from the thread-local generator, so the
    /// outcome is one of the two deterministic steps. Whichever side was
    /// drawn, a started ball has exactly the configured speed.
    pub fn event(&mut self, key: GameKey)
        requires
            wf(*old(self)),
        ensures
            *final(self) == spec_event(*old(self), key, true)
                || *final(self) == spec_event(*old(self), key, false),
            wf(*final(self)),
            old(self).is_main_menu_showing && key == GameKey::StartNormal ==> {
                &&& abs(final(self).ball.vel.x as int) == BALL_SPEED_NORMAL
                &&& final(self).ball.vel.y == 0
            },
            old(self).is_main_menu_showing && key == GameKey::StartHard ==> {
                &&& abs(final(self).ball.vel.x as int) == BALL_SPEED_HARD
                &&& final(self).ball.vel.y == 0
            },
            !old(self).is_main_menu_showing && key == GameKey::ReturnToMenu ==> {
                &&& final(self).score_player_1 == 0
                &&& final(self).score_player_2 == 0
                &&& final(self).player_1.pos.y == (WINDOW_HEIGHT - old(self).player_1.height) / 2
                &&& final(self).player_2.pos.y == (WINDOW_HEIGHT - old(self).player_2.height) / 2
                &&& final(self).is_main_menu_showing
            },
    {
        let flip: bool = rand::random();
        self.event_with(key, flip);
    }

    /// What the renderer should show right now.
    pub fn scene(&self) -> (r: Scene)
        ensures
            r == spec_scene(*self),
    {
        if self.is_main_menu_showing {
            Scene::MainMenu
        } else if self.is_to_end {
            Scene::RoundOver
        } else {
            Scene::Playing
        }
    }

    /// The player whose score stands at the limit, if any.
    pub fn winner(&self) -> (r: Option<PlayerSide>)
        ensures
            r == spec_winner(*self),
    {
        if self.score_player_1 == SCORE_LIMIT {
            Some(PlayerSide::Left)
        } else if self.score_player_2 == SCORE_LIMIT {
            Some(PlayerSide::Right)
        } else {
            None
        }
    }
}

} // verus!
