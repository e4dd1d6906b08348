//! One simulation tick: paddle movement, ball integration, collision
//! resolution, and the boundary reset, in that fixed order.

use vstd::prelude::*;

use crate::ball::spec_collide_vel;
use crate::ball::spec_oob;
use crate::ball::spec_overlap;
use crate::paddle::spec_paddle_step;
use crate::random::random_bounce_vy;
use crate::state::iabs;
use crate::state::Ball;
use crate::state::Inputs;
use crate::state::World;
use crate::state::DT_MAX;
use crate::state::FIELD_HALF_WIDTH;
use crate::state::LEFT_PADDLE_X;
use crate::state::RIGHT_PADDLE_X;
use crate::state::VEL_LIMIT;

verus! {

/// The ball's state after one tick, as the quadruple `(pos x, pos y, vx,
/// vy)`: integration by `dt`, then the collision resolver against paddles
/// at `left_y` and `right_y`, then the boundary reset.
pub open spec fn spec_tick_ball(
    b: Ball,
    left_y: int,
    right_y: int,
    dt: int,
    vy_rand: int,
) -> (int, int, int, int) {
    let px = b.pos.x + b.vel.x * dt;
    let py = b.pos.y + b.vel.y * dt;
    let (vx2, vy2) = spec_collide_vel(
        px,
        py,
        b.vel.x as int,
        b.vel.y as int,
        left_y,
        right_y,
        vy_rand,
    );
    spec_oob(px, py, vx2, vy2)
}

impl World {
    /// One simulation tick of `dt` milliseconds, with `vy_rand` standing in
    /// for this tick's random bounce velocity: move both paddles by the
    /// held keys, integrate the ball, resolve collisions, then reset the
    /// ball if it left the field. Returns whether the ball hit a paddle.
    pub fn tick(&mut self, inputs: &Inputs, dt: i64, vy_rand: i64) -> (hit: bool)
        requires
            old(self).wf(),
            0 <= dt <= DT_MAX,
            -VEL_LIMIT <= vy_rand <= VEL_LIMIT,
        ensures
            final(self).left.y == spec_paddle_step(
                old(self).left.y as int,
                inputs.left.up,
                inputs.left.down,
                dt as int,
            ),
            final(self).right.y == spec_paddle_step(
                old(self).right.y as int,
                inputs.right.up,
                inputs.right.down,
                dt as int,
            ),
            (
                final(self).ball.pos.x as int,
                final(self).ball.pos.y as int,
                final(self).ball.vel.x as int,
                final(self).ball.vel.y as int,
            ) == spec_tick_ball(
                old(self).ball,
                final(self).left.y as int,
                final(self).right.y as int,
                dt as int,
                vy_rand as int,
            ),
            hit == (spec_overlap(
                old(self).ball.pos.x + old(self).ball.vel.x * dt,
                old(self).ball.pos.y + old(self).ball.vel.y * dt,
                LEFT_PADDLE_X as int,
                final(self).left.y as int,
            ) || spec_overlap(
                old(self).ball.pos.x + old(self).ball.vel.x * dt,
                old(self).ball.pos.y + old(self).ball.vel.y * dt,
                RIGHT_PADDLE_X as int,
                final(self).right.y as int,
            )),
            final(self).left.wf(),
            final(self).right.wf(),
            final(self).ball.vel_wf(),
            iabs(final(self).ball.pos.x as int) <= FIELD_HALF_WIDTH,
    {
        self.left.step(inputs.left.up, inputs.left.down, dt);
        self.right.step(inputs.right.up, inputs.right.down, dt);
        self.ball.integrate(dt);
        let hit = self.ball.collide(&self.left, &self.right, vy_rand);
        self.ball.out_of_bounds();
        hit
    }

    /// One simulation tick with the bounce velocity drawn at random. The
    /// draw is unpredictable, so the contract promises only that the tick
    /// was taken with some bounce velocity of magnitude below 128.
    pub fn tick_random(&mut self, inputs: &Inputs, dt: i64) -> (hit: bool)
        requires
            old(self).wf(),
            0 <= dt <= DT_MAX,
        ensures
            final(self).left.y == spec_paddle_step(
                old(self).left.y as int,
                inputs.left.up,
                inputs.left.down,
                dt as int,
            ),
            final(self).right.y == spec_paddle_step(
                old(self).right.y as int,
                inputs.right.up,
                inputs.right.down,
                dt as int,
            ),
            exists|vy: int|
                -128 <= vy <= 127 && (
                    final(self).ball.pos.x as int,
                    final(self).ball.pos.y as int,
                    final(self).ball.vel.x as int,
                    final(self).ball.vel.y as int,
                ) == spec_tick_ball(
                    old(self).ball,
                    final(self).left.y as int,
                    final(self).right.y as int,
                    dt as int,
                    vy,
                ),
            hit == (spec_overlap(
                old(self).ball.pos.x + old(self).ball.vel.x * dt,
                old(self).ball.pos.y + old(self).ball.vel.y * dt,
                LEFT_PADDLE_X as int,
                final(self).left.y as int,
            ) || spec_overlap(
                old(self).ball.pos.x + old(self).ball.vel.x * dt,
                old(self).ball.pos.y + old(self).ball.vel.y * dt,
                RIGHT_PADDLE_X as int,
                final(self).right.y as int,
            )),
            final(self).left.wf(),
            final(self).right.wf(),
            final(self).ball.vel_wf(),
            iabs(final(self).ball.pos.x as int) <= FIELD_HALF_WIDTH,
    {
        let vy_rand = random_bounce_vy();
        let hit = self.tick(inputs, dt, vy_rand);
        proof {
            let vy: int = vy_rand as int;
            assert(-128 <= vy <= 127 && (
                self.ball.pos.x as int,
                self.ball.pos.y as int,
                self.ball.vel.x as int,
                self.ball.vel.y as int,
            ) == spec_tick_ball(
                old(self).ball,
                self.left.y as int,
                self.right.y as int,
                dt as int,
                vy,
            ));
        }
        hit
    }
}

} // verus!
