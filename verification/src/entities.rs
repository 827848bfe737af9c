//! The moving entities of the game: the two paddles and the ball, with
//! the physics rules that move them one frame at a time.

use vstd::prelude::*;
use vstd::math::abs;
use crate::config::{
    BALL_ACC, COORD_BOUND, FIELD_INSET, PADDLE_SPEED_HIGH, PADDLE_SPEED_NORMAL, PADDLE_SPIN,
    WINDOW_HEIGHT, WINDOW_WIDTH,
};
use crate::geom::{half, Rect, Vec2};

verus! {

/// A player-controlled paddle: a sprite of fixed extent that only ever
/// moves vertically, by `speed` centipixels per frame while a key is held.
#[derive(Clone, Copy, Debug, PartialEq, Eq, Structural)]
pub struct Paddle {
    /// Top-left corner of the sprite.
    pub pos: Vec2,
    /// Vertical distance covered per frame of held key.
    pub speed: i64,
    /// Sprite width.
    pub width: i64,
    /// Sprite height.
    pub height: i64,
}

/// The ball: a sprite of fixed extent that moves freely with a velocity.
#[derive(Clone, Copy, Debug, PartialEq, Eq, Structural)]
pub struct Ball {
    /// Top-left corner of the sprite.
    pub pos: Vec2,
    /// Displacement applied to `pos` each frame.
    pub vel: Vec2,
    /// Sprite width.
    pub width: i64,
    /// Sprite height.
    pub height: i64,
}

/// The paddle's top may not rise above this line.
pub open spec fn paddle_upper_limit() -> int {
    FIELD_INSET as int
}

/// The paddle's top may not sink below this line, which keeps the whole
/// sprite at least the field inset away from the bottom edge.
pub open spec fn paddle_lower_limit(p: Paddle) -> int {
    WINDOW_HEIGHT - p.height - FIELD_INSET
}

/// Well-formed paddle: sane sprite extent, one of the two configured
/// speeds, and a vertical position that never strays further than one
/// step beyond the movement limits.
pub open spec fn paddle_wf(p: Paddle) -> bool {
    &&& 0 < p.width <= WINDOW_WIDTH
    &&& 0 < p.height
    &&& p.height + 2 * FIELD_INSET <= WINDOW_HEIGHT
    &&& (p.speed == PADDLE_SPEED_NORMAL || p.speed == PADDLE_SPEED_HIGH)
    &&& paddle_upper_limit() - p.speed < p.pos.y
    &&& p.pos.y < paddle_lower_limit(p) + p.speed
    &&& -COORD_BOUND <= p.pos.x <= COORD_BOUND
}

/// Well-formed ball: a sane sprite extent, no larger than the field.
pub open spec fn ball_wf(b: Ball) -> bool {
    &&& 0 < b.width <= WINDOW_WIDTH
    &&& 0 < b.height <= WINDOW_HEIGHT
}

/// The ball's coordinates and velocity are small enough that one frame of
/// arithmetic stays far from the edges of `i64`.
pub open spec fn ball_bounded(b: Ball) -> bool {
    &&& -COORD_BOUND <= b.pos.x <= COORD_BOUND
    &&& -COORD_BOUND <= b.pos.y <= COORD_BOUND
    &&& -COORD_BOUND <= b.vel.x <= COORD_BOUND
    &&& -COORD_BOUND <= b.vel.y <= COORD_BOUND
}

/// One frame of paddle movement: step up while the up key is held and the
/// top is strictly above the upper limit, then step down while the down
/// key is held and the top is strictly above the lower limit.
pub open spec fn spec_move_paddle(p: Paddle, up: bool, down: bool) -> Paddle {
    let y1: int = if up && p.pos.y > paddle_upper_limit() {
        p.pos.y - p.speed
    } else {
        p.pos.y as int
    };
    let y2: int = if down && y1 < paddle_lower_limit(p) {
        y1 + p.speed
    } else {
        y1
    };
    Paddle { pos: Vec2 { x: p.pos.x, y: y2 as i64 }, speed: p.speed, width: p.width, height: p.height }
}

/// The ball advanced one frame by simple Euler integration.
pub open spec fn spec_advance(b: Ball) -> Ball {
    Ball {
        pos: Vec2 { x: (b.pos.x + b.vel.x) as i64, y: (b.pos.y + b.vel.y) as i64 },
        vel: b.vel,
        width: b.width,
        height: b.height,
    }
}

/// The sign the bounce rule attributes to a horizontal speed; zero counts
/// as positive, matching the host's floating-point `signum` on `+0`.
pub open spec fn spec_sign(x: int) -> int {
    if x >= 0 { 1int } else { -1int }
}

/// Spin imparted by a hit: proportional to how far the ball's centre is
/// from the paddle's centre, as a fraction of the paddle height, scaled by
/// `PADDLE_SPIN`. Fractions are cut off toward zero.
pub open spec fn spec_spin(p: Paddle, b: Ball) -> int {
    let paddle_centre: int = p.pos.y + p.height / 2;
    let ball_centre: int = b.pos.y + b.height / 2;
    let dy: int = ball_centre - paddle_centre;
    if dy >= 0 {
        (PADDLE_SPIN * dy) / (p.height as int)
    } else {
        -((PADDLE_SPIN * (-dy)) / (p.height as int))
    }
}

/// A paddle hit: the horizontal speed grows by `BALL_ACC` away from zero
/// and flips direction, and the spin term is added to the vertical speed.
pub open spec fn spec_bounce(b: Ball, p: Paddle) -> Ball {
    Ball {
        pos: b.pos,
        vel: Vec2 {
            x: (-(b.vel.x + BALL_ACC * spec_sign(b.vel.x as int))) as i64,
            y: (b.vel.y + spec_spin(p, b)) as i64,
        },
        width: b.width,
        height: b.height,
    }
}

/// Wall reflection: when the ball touches or passes the top or bottom edge
/// of the field, its vertical speed changes sign.
pub open spec fn spec_reflect_walls(b: Ball) -> Ball {
    if b.pos.y <= 0 || b.pos.y + b.height >= WINDOW_HEIGHT {
        Ball {
            pos: b.pos,
            vel: Vec2 { x: b.vel.x, y: (-b.vel.y) as i64 },
            width: b.width,
            height: b.height,
        }
    } else {
        b
    }
}

/// The axis-aligned footprint of a paddle.
pub open spec fn spec_paddle_rect(p: Paddle) -> Rect {
    Rect { x: p.pos.x, y: p.pos.y, w: p.width, h: p.height }
}

/// The axis-aligned footprint of the ball.
pub open spec fn spec_ball_rect(b: Ball) -> Rect {
    Rect { x: b.pos.x, y: b.pos.y, w: b.width, h: b.height }
}

impl Paddle {
    /// A paddle with the given placement, per-frame speed and extent.
    pub fn new(pos: Vec2, speed: i64, width: i64, height: i64) -> (p: Paddle)
        ensures
            p == (Paddle { pos, speed, width, height }),
    {
        Paddle { pos, speed, width, height }
    }

    /// The paddle's footprint, used for collision tests.
    pub fn bounds(&self) -> (r: Rect)
        ensures
            r == spec_paddle_rect(*self),
    {
        Rect { x: self.pos.x, y: self.pos.y, w: self.width, h: self.height }
    }

    /// The centre point of the paddle's sprite.
    pub fn centre(&self) -> (c: Vec2)
        requires
            0 <= self.width,
            0 <= self.height,
            -COORD_BOUND <= self.pos.x <= COORD_BOUND,
            -COORD_BOUND <= self.pos.y <= COORD_BOUND,
        ensures
            c.x == self.pos.x + self.width / 2,
            c.y == self.pos.y + self.height / 2,
    {
        Vec2 { x: self.pos.x + half(self.width), y: self.pos.y + half(self.height) }
    }

    /// One frame of key-held movement, confined by the field limits.
    pub fn step(&mut self, up: bool, down: bool)
        requires
            paddle_wf(*old(self)),
        ensures
            *final(self) == spec_move_paddle(*old(self), up, down),
            paddle_wf(*final(self)),
    {
        let lower_limit: i64 = WINDOW_HEIGHT - self.height - FIELD_INSET;
        if up && self.pos.y > FIELD_INSET {
            self.pos.y = self.pos.y - self.speed;
        }
        if down && self.pos.y < lower_limit {
            self.pos.y = self.pos.y + self.speed;
        }
    }
}

impl Ball {
    /// A ball with the given placement, velocity and extent.
    pub fn new(pos: Vec2, vel: Vec2, width: i64, height: i64) -> (b: Ball)
        ensures
            b == (Ball { pos, vel, width, height }),
    {
        Ball { pos, vel, width, height }
    }

    /// The ball's footprint, used for collision tests.
    pub fn bounds(&self) -> (r: Rect)
        ensures
            r == spec_ball_rect(*self),
    {
        Rect { x: self.pos.x, y: self.pos.y, w: self.width, h: self.height }
    }

    /// The centre point of the ball's sprite.
    pub fn centre(&self) -> (c: Vec2)
        requires
            0 <= self.width,
            0 <= self.height,
            -4 * COORD_BOUND <= self.pos.x <= 4 * COORD_BOUND,
            -4 * COORD_BOUND <= self.pos.y <= 4 * COORD_BOUND,
        ensures
            c.x == self.pos.x + self.width / 2,
            c.y == self.pos.y + self.height / 2,
    {
        Vec2 { x: self.pos.x + half(self.width), y: self.pos.y + half(self.height) }
    }

    /// Move one frame along the current velocity.
    pub fn advance(&mut self)
        requires
            -4 * COORD_BOUND <= old(self).pos.x <= 4 * COORD_BOUND,
            -4 * COORD_BOUND <= old(self).pos.y <= 4 * COORD_BOUND,
            -4 * COORD_BOUND <= old(self).vel.x <= 4 * COORD_BOUND,
            -4 * COORD_BOUND <= old(self).vel.y <= 4 * COORD_BOUND,
        ensures
            *final(self) == spec_advance(*old(self)),
    {
        self.pos.x = self.pos.x + self.vel.x;
        self.pos.y = self.pos.y + self.vel.y;
    }

    /// Bounce off the given paddle: gain `BALL_ACC` of horizontal speed,
    /// flip direction, and take on spin from the impact offset.
    pub fn bounce_off(&mut self, paddle: &Paddle)
        requires
            paddle_wf(*paddle),
            ball_wf(*old(self)),
            -4 * COORD_BOUND <= old(self).pos.y <= 4 * COORD_BOUND,
            -4 * COORD_BOUND <= old(self).vel.x <= 4 * COORD_BOUND,
            -4 * COORD_BOUND <= old(self).vel.y <= 4 * COORD_BOUND,
        ensures
            *final(self) == spec_bounce(*old(self), *paddle),
            abs(final(self).vel.x as int) == abs(old(self).vel.x as int) + BALL_ACC,
    {
        let sign: i64 = if self.vel.x >= 0 { 1 } else { -1 };
        self.vel.x = -(self.vel.x + BALL_ACC * sign);
        let paddle_centre_y: i64 = paddle.pos.y + half(paddle.height);
        let ball_centre_y: i64 = self.pos.y + half(self.height);
        let dy: i64 = ball_centre_y - paddle_centre_y;
        let spin: i64 = if dy >= 0 {
            (PADDLE_SPIN * dy) / paddle.height
        } else {
            -((PADDLE_SPIN * (-dy)) / paddle.height)
        };
        self.vel.y = self.vel.y + spin;
    }

    /// Reflect the vertical speed at the top and bottom field edges.
    pub fn reflect_walls(&mut self)
        requires
            -4 * COORD_BOUND <= old(self).pos.y <= 4 * COORD_BOUND,
            0 <= old(self).height <= WINDOW_HEIGHT,
            -2000 * COORD_BOUND <= old(self).vel.y <= 2000 * COORD_BOUND,
        ensures
            *final(self) == spec_reflect_walls(*old(self)),
    {
        if self.pos.y <= 0 || self.pos.y + self.height >= WINDOW_HEIGHT {
            self.vel.y = -self.vel.y;
        }
    }
}

} // verus!
