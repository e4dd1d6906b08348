//! The ball systems: Euler integration, the wall and paddle bounces, and
//! the out-of-bounds reset.

use vstd::prelude::*;

use crate::state::iabs;
use crate::state::Ball;
use crate::state::Paddle;
use crate::state::Vec2;
use crate::state::AMP_LIMIT;
use crate::state::BALL_HALF_DIAMETER;
use crate::state::DT_MAX;
use crate::state::FIELD_HALF_WIDTH;
use crate::state::LEFT_PADDLE_X;
use crate::state::PADDLE_HALF_HEIGHT;
use crate::state::PADDLE_HALF_WIDTH;
use crate::state::POS_EXTENT;
use crate::state::POS_LIMIT;
use crate::state::RIGHT_PADDLE_X;
use crate::state::SERVE_SPEED;
use crate::state::VEL_LIMIT;
use crate::state::WALL_BOUNCE_Y;

verus! {

/// The ball touches or crosses a wall: its half-extent reaches past the
/// bounce threshold on either side of the centre line.
pub open spec fn spec_wall_hit(by: int) -> bool {
    iabs(by) + BALL_HALF_DIAMETER > WALL_BOUNCE_Y
}

/// The axis-aligned bounding-box overlap test between the ball's square,
/// centred at `(bx, by)`, and a paddle's rectangle, centred at `(px, py)`.
pub open spec fn spec_overlap(bx: int, by: int, px: int, py: int) -> bool {
    &&& bx - BALL_HALF_DIAMETER < px + PADDLE_HALF_WIDTH
    &&& by - BALL_HALF_DIAMETER < py + PADDLE_HALF_HEIGHT
    &&& bx + BALL_HALF_DIAMETER > px - PADDLE_HALF_WIDTH
    &&& by + BALL_HALF_DIAMETER > py - PADDLE_HALF_HEIGHT
}

/// The horizontal velocity after a paddle hit: reversed, and amplified by
/// one tenth (rounded toward zero) when the incoming magnitude is below
/// `AMP_LIMIT`; merely reversed otherwise.
pub open spec fn spec_amp_vx(vx: int) -> int {
    if iabs(vx) < AMP_LIMIT {
        if vx >= 0 {
            -(vx * 11 / 10)
        } else {
            (-vx) * 11 / 10
        }
    } else {
        -vx
    }
}

/// The ball's velocity after the collision resolver runs once, as the pair
/// `(vx, vy)`. The wall check runs first, then the left paddle, then the
/// right; a paddle hit replaces the vertical velocity with `vy_rand`.
pub open spec fn spec_collide_vel(
    bx: int,
    by: int,
    vx: int,
    vy: int,
    left_y: int,
    right_y: int,
    vy_rand: int,
) -> (int, int) {
    let vy_wall = if spec_wall_hit(by) {
        -vy
    } else {
        vy
    };
    let hit_left = spec_overlap(bx, by, LEFT_PADDLE_X as int, left_y);
    let vx_l = if hit_left {
        spec_amp_vx(vx)
    } else {
        vx
    };
    let vy_l = if hit_left {
        vy_rand
    } else {
        vy_wall
    };
    let hit_right = spec_overlap(bx, by, RIGHT_PADDLE_X as int, right_y);
    let vx_r = if hit_right {
        spec_amp_vx(vx_l)
    } else {
        vx_l
    };
    let vy_r = if hit_right {
        vy_rand
    } else {
        vy_l
    };
    (vx_r, vy_r)
}

/// The ball's state after the out-of-bounds check, as the quadruple
/// `(pos x, pos y, vx, vy)`: past the left edge it is re-served rightward,
/// past the right edge leftward, and otherwise left alone. The vertical
/// velocity is never touched.
pub open spec fn spec_oob(bx: int, by: int, vx: int, vy: int) -> (int, int, int, int) {
    if bx < -FIELD_HALF_WIDTH {
        (0, 0, SERVE_SPEED as int, vy)
    } else if bx > FIELD_HALF_WIDTH {
        (0, 0, -SERVE_SPEED as int, vy)
    } else {
        (bx, by, vx, vy)
    }
}

impl Ball {
    /// Euler integration: advance the position by exactly `velocity * dt`.
    pub fn integrate(&mut self, dt: i64)
        requires
            old(self).vel_wf(),
            old(self).pos_within(POS_LIMIT as int),
            0 <= dt <= DT_MAX,
        ensures
            final(self).pos.x == old(self).pos.x + old(self).vel.x * dt,
            final(self).pos.y == old(self).pos.y + old(self).vel.y * dt,
            final(self).vel == old(self).vel,
            final(self).vel_wf(),
            final(self).pos_within(POS_EXTENT as int),
    {
        proof {
            let vx: int = self.vel.x as int;
            let vy: int = self.vel.y as int;
            let t: int = dt as int;
            assert(-(VEL_LIMIT * DT_MAX) <= vx * t <= VEL_LIMIT * DT_MAX) by (nonlinear_arith)
                requires
                    -VEL_LIMIT <= vx <= VEL_LIMIT,
                    0 <= t <= DT_MAX,
            ;
            assert(-(VEL_LIMIT * DT_MAX) <= vy * t <= VEL_LIMIT * DT_MAX) by (nonlinear_arith)
                requires
                    -VEL_LIMIT <= vy <= VEL_LIMIT,
                    0 <= t <= DT_MAX,
            ;
        }
        self.pos.x = self.pos.x + self.vel.x * dt;
        self.pos.y = self.pos.y + self.vel.y * dt;
    }

    /// The collision resolver. Flips the vertical velocity when the ball
    /// reaches a wall; on overlap with either paddle, reverses (and below
    /// `AMP_LIMIT`, amplifies) the horizontal velocity and replaces the
    /// vertical velocity with `vy_rand`, the random bounce drawn for this
    /// tick. Returns whether a paddle was hit. The position is untouched,
    /// and on a tick that only reaches a wall the vertical velocity flips
    /// exactly once.
    pub fn collide(&mut self, left: &Paddle, right: &Paddle, vy_rand: i64) -> (hit: bool)
        requires
            old(self).vel_wf(),
            old(self).pos_within(POS_EXTENT as int),
            left.wf(),
            right.wf(),
            -VEL_LIMIT <= vy_rand <= VEL_LIMIT,
        ensures
            final(self).pos == old(self).pos,
            (final(self).vel.x as int, final(self).vel.y as int) == spec_collide_vel(
                old(self).pos.x as int,
                old(self).pos.y as int,
                old(self).vel.x as int,
                old(self).vel.y as int,
                left.y as int,
                right.y as int,
                vy_rand as int,
            ),
            hit == (spec_overlap(
                old(self).pos.x as int,
                old(self).pos.y as int,
                LEFT_PADDLE_X as int,
                left.y as int,
            ) || spec_overlap(
                old(self).pos.x as int,
                old(self).pos.y as int,
                RIGHT_PADDLE_X as int,
                right.y as int,
            )),
            spec_wall_hit(old(self).pos.y as int) && !hit ==> final(self).vel.y == -old(
                self,
            ).vel.y,
            final(self).vel_wf(),
    {
        let abs_y: i64 = if self.pos.y < 0 {
            -self.pos.y
        } else {
            self.pos.y
        };
        if abs_y + BALL_HALF_DIAMETER > WALL_BOUNCE_Y {
            self.vel.y = -self.vel.y;
        }
        let hit_left = overlap(self.pos.x, self.pos.y, LEFT_PADDLE_X, left.y);
        if hit_left {
            self.vel.x = amp_vx(self.vel.x);
            self.vel.y = vy_rand;
        }
        let hit_right = overlap(self.pos.x, self.pos.y, RIGHT_PADDLE_X, right.y);
        if hit_right {
            self.vel.x = amp_vx(self.vel.x);
            self.vel.y = vy_rand;
        }
        hit_left || hit_right
    }

    /// The boundary reset: once the ball is strictly past a horizontal
    /// field edge, re-serve it from the origin toward that edge's paddle's
    /// opponent; inside the field nothing changes.
    pub fn out_of_bounds(&mut self)
        ensures
            (
                final(self).pos.x as int,
                final(self).pos.y as int,
                final(self).vel.x as int,
                final(self).vel.y as int,
            ) == spec_oob(
                old(self).pos.x as int,
                old(self).pos.y as int,
                old(self).vel.x as int,
                old(self).vel.y as int,
            ),
            old(self).pos.x < -FIELD_HALF_WIDTH ==> final(self).pos == (Vec2 { x: 0, y: 0 })
                && final(self).vel.x == SERVE_SPEED && final(self).vel.y == old(self).vel.y,
            old(self).pos.x > FIELD_HALF_WIDTH ==> final(self).pos == (Vec2 { x: 0, y: 0 })
                && final(self).vel.x == -SERVE_SPEED && final(self).vel.y == old(self).vel.y,
            -FIELD_HALF_WIDTH <= old(self).pos.x <= FIELD_HALF_WIDTH ==> *final(self) == *old(
                self,
            ),
            iabs(final(self).pos.x as int) <= FIELD_HALF_WIDTH,
    {
        if self.pos.x < -FIELD_HALF_WIDTH {
            self.pos = Vec2 { x: 0, y: 0 };
            self.vel.x = SERVE_SPEED;
        } else if self.pos.x > FIELD_HALF_WIDTH {
            self.pos = Vec2 { x: 0, y: 0 };
            self.vel.x = -SERVE_SPEED;
        }
    }
}

/// The executable AABB overlap test.
fn overlap(bx: i64, by: i64, px: i64, py: i64) -> (r: bool)
    requires
        iabs(bx as int) <= POS_EXTENT,
        iabs(by as int) <= POS_EXTENT,
        iabs(px as int) <= POS_EXTENT,
        iabs(py as int) <= POS_EXTENT,
    ensures
        r == spec_overlap(bx as int, by as int, px as int, py as int),
{
    bx - BALL_HALF_DIAMETER < px + PADDLE_HALF_WIDTH && by - BALL_HALF_DIAMETER < py
        + PADDLE_HALF_HEIGHT && bx + BALL_HALF_DIAMETER > px - PADDLE_HALF_WIDTH && by
        + BALL_HALF_DIAMETER > py - PADDLE_HALF_HEIGHT
}

/// The executable paddle-hit response on the horizontal velocity.
fn amp_vx(vx: i64) -> (r: i64)
    requires
        iabs(vx as int) <= VEL_LIMIT,
    ensures
        r == spec_amp_vx(vx as int),
        iabs(r as int) <= VEL_LIMIT,
{
    let mag: i64 = if vx < 0 {
        -vx
    } else {
        vx
    };
    if mag < AMP_LIMIT {
        let amped: i64 = mag * 11 / 10;
        if vx >= 0 {
            -amped
        } else {
            amped
        }
    } else {
        -vx
    }
}

} // verus!
