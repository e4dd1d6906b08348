//! The paddle controller: moves a paddle by the keys held this tick,
//! clamped to the play field.

use vstd::prelude::*;

use crate::state::Paddle;
use crate::state::DT_MAX;
use crate::state::PADDLE_MAX_Y;
use crate::state::PADDLE_MIN_Y;
use crate::state::PADDLE_SPEED;

verus! {

/// A vertical coordinate clamped to the paddle range.
pub open spec fn spec_clamp_y(y: int) -> int {
    if y < PADDLE_MIN_Y {
        PADDLE_MIN_Y as int
    } else if y > PADDLE_MAX_Y {
        PADDLE_MAX_Y as int
    } else {
        y
    }
}

/// One tick of paddle movement: the "up" key first, then the "down" key,
/// each step clamped as soon as it is applied.
pub open spec fn spec_paddle_step(y: int, up: bool, down: bool, dt: int) -> int {
    let y1 = if up {
        spec_clamp_y(y + PADDLE_SPEED * dt)
    } else {
        y
    };
    if down {
        spec_clamp_y(y1 - PADDLE_SPEED * dt)
    } else {
        y1
    }
}

/// An `i64` clamped to the paddle range.
fn clamp_y(y: i64) -> (r: i64)
    ensures
        r == spec_clamp_y(y as int),
{
    if y < PADDLE_MIN_Y {
        PADDLE_MIN_Y
    } else if y > PADDLE_MAX_Y {
        PADDLE_MAX_Y
    } else {
        y
    }
}

/// A paddle's vertical coordinate after a whole run of ticks, each tick
/// given as `(up held, down held, elapsed milliseconds)`.
pub open spec fn spec_paddle_run(y: int, ticks: Seq<(bool, bool, int)>) -> int
    decreases ticks.len(),
{
    if ticks.len() == 0 {
        y
    } else {
        spec_paddle_run(
            spec_paddle_step(y, ticks[0].0, ticks[0].1, ticks[0].2),
            ticks.drop_first(),
        )
    }
}

/// Law: a paddle that starts inside [`PADDLE_MIN_Y`, `PADDLE_MAX_Y`] stays
/// inside it over every run of ticks, regardless of which keys are held
/// and for how long.
pub proof fn lemma_paddle_stays_in_range(y: int, ticks: Seq<(bool, bool, int)>)
    requires
        PADDLE_MIN_Y <= y <= PADDLE_MAX_Y,
    ensures
        PADDLE_MIN_Y <= spec_paddle_run(y, ticks) <= PADDLE_MAX_Y,
    decreases ticks.len(),
{
    if ticks.len() > 0 {
        lemma_paddle_stays_in_range(
            spec_paddle_step(y, ticks[0].0, ticks[0].1, ticks[0].2),
            ticks.drop_first(),
        );
    }
}

/// Law: over a run of ticks in which no key is ever held, a paddle's
/// position is unchanged.
pub proof fn lemma_paddle_unmoved_without_keys(y: int, ticks: Seq<(bool, bool, int)>)
    requires
        forall|i: int| 0 <= i < ticks.len() ==> !ticks[i].0 && !ticks[i].1,
    ensures
        spec_paddle_run(y, ticks) == y,
    decreases ticks.len(),
{
    if ticks.len() > 0 {
        assert(!ticks[0].0 && !ticks[0].1);
        lemma_paddle_unmoved_without_keys(y, ticks.drop_first());
    }
}

impl Paddle {
    /// Move this paddle by the keys held for `dt` milliseconds: up and down
    /// each shift the centre by `PADDLE_SPEED * dt`, clamped to
    /// [`PADDLE_MIN_Y`, `PADDLE_MAX_Y`] after every shift. The position
    /// never leaves that range, and is untouched when no key is held.
    pub fn step(&mut self, up: bool, down: bool, dt: i64)
        requires
            old(self).wf(),
            0 <= dt <= DT_MAX,
        ensures
            final(self).y == spec_paddle_step(old(self).y as int, up, down, dt as int),
            final(self).wf(),
            !up && !down ==> final(self).y == old(self).y,
    {
        let shift: i64 = PADDLE_SPEED * dt;
        if up {
            self.y = clamp_y(self.y + shift);
        }
        if down {
            self.y = clamp_y(self.y - shift);
        }
    }
}

} // verus!
