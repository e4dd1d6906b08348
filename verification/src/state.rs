//! The simulation state: paddles, ball, and the fixed play-field geometry.
//!
//! Positions are in milli-units (thousandths of a game unit), velocities in
//! milli-units per millisecond (equivalently, game units per second), and
//! elapsed time in milliseconds.

use vstd::prelude::*;

verus! {

/// Lowest vertical centre a paddle may reach, in milli-units.
pub const PADDLE_MIN_Y: i64 = -175_000;
/// Highest vertical centre a paddle may reach, in milli-units.
pub const PADDLE_MAX_Y: i64 = 175_000;
/// Speed of a held paddle, in milli-units per millisecond.
pub const PADDLE_SPEED: i64 = 300;
/// Half the paddle's width, in milli-units.
pub const PADDLE_HALF_WIDTH: i64 = 5_000;
/// Half the paddle's height, in milli-units.
pub const PADDLE_HALF_HEIGHT: i64 = 75_000;
/// Horizontal centre of the left paddle, in milli-units.
pub const LEFT_PADDLE_X: i64 = -300_000;
/// Horizontal centre of the right paddle, in milli-units.
pub const RIGHT_PADDLE_X: i64 = 300_000;
/// Half the ball's diameter, in milli-units.
pub const BALL_HALF_DIAMETER: i64 = 12_500;
/// The wall-bounce threshold: the ball bounces when its half-extent crosses
/// this distance from the horizontal centre line, in milli-units.
pub const WALL_BOUNCE_Y: i64 = 250_000;
/// Horizontal out-of-bounds threshold, in milli-units.
pub const FIELD_HALF_WIDTH: i64 = 325_000;
/// Horizontal speed given to the ball when it is re-served from the origin,
/// in milli-units per millisecond.
pub const SERVE_SPEED: i64 = 100;
/// A paddle hit amplifies the horizontal speed only below this magnitude,
/// in milli-units per millisecond.
pub const AMP_LIMIT: i64 = 2_000;

/// Machine limit: the longest tick the arithmetic is proved safe for, in
/// milliseconds (about 17 minutes; real ticks are a few milliseconds).
pub const DT_MAX: i64 = 1_000_000;
/// Machine limit on a velocity component's magnitude, so products with a
/// tick length fit in 64 bits.
pub const VEL_LIMIT: i64 = 1_000_000_000;
/// Machine limit on a ball coordinate's magnitude at the start of a tick.
pub const POS_LIMIT: i64 = 4_000_000_000_000_000;
/// Largest coordinate magnitude one tick of travel can reach from within
/// `POS_LIMIT`.
pub const POS_EXTENT: i64 = POS_LIMIT + VEL_LIMIT * DT_MAX;

/// Magnitude of an integer.
pub open spec fn iabs(v: int) -> int {
    if v < 0 {
        -v
    } else {
        v
    }
}

/// A two-dimensional integer vector, in milli-units.
#[derive(Clone, Copy, Debug, PartialEq, Eq, Structural)]
pub struct Vec2 {
    pub x: i64,
    pub y: i64,
}

/// A paddle. Only the vertical coordinate moves; the horizontal position of
/// each paddle is fixed by the play field.
#[derive(Clone, Copy, Debug, PartialEq, Eq, Structural)]
pub struct Paddle {
    /// Vertical centre of the paddle, in milli-units.
    pub y: i64,
}

impl Paddle {
    /// A paddle is well formed when its centre lies inside the clamp range.
    pub open spec fn wf(self) -> bool {
        PADDLE_MIN_Y <= self.y <= PADDLE_MAX_Y
    }

    /// A paddle starts at the vertical centre of the field.
    pub fn new() -> (p: Paddle)
        ensures
            p.y == 0,
            p.wf(),
    {
        Paddle { y: 0 }
    }
}

/// The ball: a position and a velocity.
#[derive(Clone, Copy, Debug, PartialEq, Eq, Structural)]
pub struct Ball {
    /// Centre of the ball, in milli-units.
    pub pos: Vec2,
    /// Velocity, in milli-units per millisecond.
    pub vel: Vec2,
}

impl Ball {
    /// Both velocity components are within the machine limit.
    pub open spec fn vel_wf(self) -> bool {
        &&& iabs(self.vel.x as int) <= VEL_LIMIT
        &&& iabs(self.vel.y as int) <= VEL_LIMIT
    }

    /// Both coordinates are within the given magnitude.
    pub open spec fn pos_within(self, lim: int) -> bool {
        &&& iabs(self.pos.x as int) <= lim
        &&& iabs(self.pos.y as int) <= lim
    }

    /// The ball is served from the origin, moving left toward the left
    /// paddle at the serve speed.
    pub fn new() -> (b: Ball)
        ensures
            b.pos.x == 0,
            b.pos.y == 0,
            b.vel.x == -SERVE_SPEED,
            b.vel.y == 0,
            b.vel_wf(),
            b.pos_within(POS_LIMIT as int),
    {
        Ball { pos: Vec2 { x: 0, y: 0 }, vel: Vec2 { x: -SERVE_SPEED, y: 0 } }
    }
}

/// One paddle's held keys for the current tick.
#[derive(Clone, Copy, Debug, PartialEq, Eq, Structural)]
pub struct PaddleInput {
    pub up: bool,
    pub down: bool,
}

/// The held keys of both paddles for the current tick.
#[derive(Clone, Copy, Debug, PartialEq, Eq, Structural)]
pub struct Inputs {
    pub left: PaddleInput,
    pub right: PaddleInput,
}

impl Inputs {
    /// No key held.
    pub fn none() -> (i: Inputs)
        ensures
            !i.left.up && !i.left.down && !i.right.up && !i.right.down,
    {
        Inputs {
            left: PaddleInput { up: false, down: false },
            right: PaddleInput { up: false, down: false },
        }
    }
}

/// The whole simulation state: two paddles and the ball.
#[derive(Clone, Copy, Debug, PartialEq, Eq, Structural)]
pub struct World {
    pub left: Paddle,
    pub right: Paddle,
    pub ball: Ball,
}

impl World {
    /// The state is well formed when both paddles are inside the clamp range
    /// and the ball is within the machine limits.
    pub open spec fn wf(self) -> bool {
        &&& self.left.wf()
        &&& self.right.wf()
        &&& self.ball.vel_wf()
        &&& self.ball.pos_within(POS_LIMIT as int)
    }

    /// The initial state: both paddles centred, the ball at the origin
    /// moving left at the serve speed.
    pub fn new() -> (w: World)
        ensures
            w.left.y == 0,
            w.right.y == 0,
            w.ball.pos.x == 0,
            w.ball.pos.y == 0,
            w.ball.vel.x == -SERVE_SPEED,
            w.ball.vel.y == 0,
            w.wf(),
    {
        World { left: Paddle::new(), right: Paddle::new(), ball: Ball::new() }
    }
}

} // verus!
