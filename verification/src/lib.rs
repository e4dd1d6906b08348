//! A small two-paddle ball-bouncing game, modelled in exact fixed-point
//! arithmetic so that every step of the simulation can be verified.
//!
//! Units: positions are in thousandths of a game unit ("milli-units"),
//! velocities in milli-units per millisecond (equivalently, game units per
//! second), and elapsed time in milliseconds. With these units Euler
//! integration is exact: a tick of `dt` milliseconds advances a coordinate
//! by exactly `v * dt` milli-units.

mod ball;
mod paddle;
mod random;
mod state;
mod tick;

pub use ball::spec_amp_vx;
pub use ball::spec_collide_vel;
pub use ball::spec_oob;
pub use ball::spec_overlap;
pub use ball::spec_wall_hit;
pub use paddle::lemma_paddle_stays_in_range;
pub use paddle::lemma_paddle_unmoved_without_keys;
pub use paddle::spec_clamp_y;
pub use paddle::spec_paddle_run;
pub use paddle::spec_paddle_step;
pub use random::bounce_vy;
pub use random::random_bounce_vy;
pub use random::spec_bounce_vy;
pub use tick::spec_tick_ball;
pub use state::Ball;
pub use state::Inputs;
pub use state::Paddle;
pub use state::PaddleInput;
pub use state::Vec2;
pub use state::World;
pub use state::AMP_LIMIT;
pub use state::BALL_HALF_DIAMETER;
pub use state::DT_MAX;
pub use state::FIELD_HALF_WIDTH;
pub use state::LEFT_PADDLE_X;
pub use state::PADDLE_HALF_HEIGHT;
pub use state::PADDLE_HALF_WIDTH;
pub use state::PADDLE_MAX_Y;
pub use state::PADDLE_MIN_Y;
pub use state::PADDLE_SPEED;
pub use state::POS_EXTENT;
pub use state::POS_LIMIT;
pub use state::RIGHT_PADDLE_X;
pub use state::SERVE_SPEED;
pub use state::VEL_LIMIT;
pub use state::iabs;
pub use state::WALL_BOUNCE_Y;
