use pong::Ball;
use pong::Inputs;
use pong::Paddle;
use pong::PaddleInput;
use pong::Vec2;
use pong::World;

#[test]
fn paddle_clamps_at_top() {
    let mut p = Paddle::new();
    // 300 milli-units per ms for 1000 ms would reach 300_000; the clamp
    // holds the paddle at 175_000.
    p.step(true, false, 1000);
    assert_eq!(p.y, 175_000);
    for _ in 0..10 {
        p.step(true, false, 1000);
        assert_eq!(p.y, 175_000);
    }
}

#[test]
fn paddle_clamps_at_bottom() {
    let mut p = Paddle::new();
    p.step(false, true, 1000);
    assert_eq!(p.y, -175_000);
    for _ in 0..10 {
        p.step(false, true, 1000);
        assert_eq!(p.y, -175_000);
    }
}

#[test]
fn paddle_unmoved_without_keys() {
    let mut p = Paddle { y: 40_000 };
    p.step(false, false, 16);
    assert_eq!(p.y, 40_000);
}

#[test]
fn paddle_moves_up_by_speed_times_dt() {
    let mut p = Paddle::new();
    p.step(true, false, 16);
    assert_eq!(p.y, 4_800);
}

#[test]
fn paddle_both_keys_cancel_inside_range() {
    let mut p = Paddle::new();
    p.step(true, true, 100);
    assert_eq!(p.y, 0);
}

#[test]
fn ball_integration_is_exact() {
    let mut b = Ball {
        pos: Vec2 { x: 1_000, y: 2_000 },
        vel: Vec2 { x: -100, y: 50 },
    };
    b.integrate(16);
    assert_eq!(b.pos, Vec2 { x: -600, y: 2_800 });
    assert_eq!(b.vel, Vec2 { x: -100, y: 50 });
}

#[test]
fn wall_bounce_flips_vertical_velocity() {
    let left = Paddle::new();
    let right = Paddle::new();
    let mut b = Ball {
        pos: Vec2 { x: 0, y: 240_000 },
        vel: Vec2 { x: 60, y: 80 },
    };
    let hit = b.collide(&left, &right, 42);
    assert!(!hit);
    assert_eq!(b.vel, Vec2 { x: 60, y: -80 });
    // A second qualifying tick flips it back: one flip per tick.
    let hit2 = b.collide(&left, &right, 42);
    assert!(!hit2);
    assert_eq!(b.vel, Vec2 { x: 60, y: 80 });
}

#[test]
fn wall_bounce_at_lower_wall() {
    let left = Paddle::new();
    let right = Paddle::new();
    let mut b = Ball {
        pos: Vec2 { x: 0, y: -240_000 },
        vel: Vec2 { x: 60, y: -80 },
    };
    b.collide(&left, &right, 42);
    assert_eq!(b.vel, Vec2 { x: 60, y: 80 });
}

#[test]
fn wall_bounce_threshold_is_strict() {
    let left = Paddle::new();
    let right = Paddle::new();
    // |y| + 12_500 == 250_000 exactly: not past the threshold, no flip.
    let mut b = Ball {
        pos: Vec2 { x: 0, y: 237_500 },
        vel: Vec2 { x: 60, y: 80 },
    };
    let hit = b.collide(&left, &right, 42);
    assert!(!hit);
    assert_eq!(b.vel, Vec2 { x: 60, y: 80 });
}

#[test]
fn paddle_bounce_amplifies_below_limit() {
    let left = Paddle::new();
    let right = Paddle::new();
    // Ball centred on the left paddle: a qualifying overlap.
    let mut b = Ball {
        pos: Vec2 { x: -300_000, y: 0 },
        vel: Vec2 { x: 500, y: 0 },
    };
    let hit = b.collide(&left, &right, 42);
    assert!(hit);
    assert_eq!(b.vel.x, -550);
    assert_eq!(b.vel.y, 42);
    assert_eq!(b.pos, Vec2 { x: -300_000, y: 0 });
}

#[test]
fn paddle_bounce_only_reverses_at_or_above_limit() {
    let left = Paddle::new();
    let right = Paddle::new();
    let mut b = Ball {
        pos: Vec2 { x: 300_000, y: 0 },
        vel: Vec2 { x: 2_500, y: 0 },
    };
    let hit = b.collide(&left, &right, -7);
    assert!(hit);
    assert_eq!(b.vel.x, -2_500);
    assert_eq!(b.vel.y, -7);
}

#[test]
fn paddle_miss_leaves_velocity_alone() {
    // The paddle sits at the top of its range; the ball passes underneath.
    let left = Paddle { y: 175_000 };
    let right = Paddle::new();
    let mut b = Ball {
        pos: Vec2 { x: -300_000, y: 0 },
        vel: Vec2 { x: -100, y: 0 },
    };
    let hit = b.collide(&left, &right, 42);
    assert!(!hit);
    assert_eq!(b.vel, Vec2 { x: -100, y: 0 });
}

#[test]
fn boundary_reset_left_serves_rightward() {
    let mut b = Ball {
        pos: Vec2 { x: -330_000, y: 5_000 },
        vel: Vec2 { x: -100, y: 7 },
    };
    b.out_of_bounds();
    assert_eq!(b.pos, Vec2 { x: 0, y: 0 });
    assert_eq!(b.vel, Vec2 { x: 100, y: 7 });
}

#[test]
fn boundary_reset_right_serves_leftward() {
    let mut b = Ball {
        pos: Vec2 { x: 330_000, y: -9_000 },
        vel: Vec2 { x: 2_000, y: -3 },
    };
    b.out_of_bounds();
    assert_eq!(b.pos, Vec2 { x: 0, y: 0 });
    assert_eq!(b.vel, Vec2 { x: -100, y: -3 });
}

#[test]
fn boundary_reset_threshold_is_strict() {
    let mut b = Ball {
        pos: Vec2 { x: -325_000, y: 4 },
        vel: Vec2 { x: -100, y: 5 },
    };
    b.out_of_bounds();
    assert_eq!(b.pos, Vec2 { x: -325_000, y: 4 });
    assert_eq!(b.vel, Vec2 { x: -100, y: 5 });

    let mut c = Ball {
        pos: Vec2 { x: 12, y: 0 },
        vel: Vec2 { x: 100, y: 0 },
    };
    c.out_of_bounds();
    assert_eq!(c.pos, Vec2 { x: 12, y: 0 });
}

#[test]
fn world_initial_state() {
    let w = World::new();
    assert_eq!(w.left.y, 0);
    assert_eq!(w.right.y, 0);
    assert_eq!(w.ball.pos, Vec2 { x: 0, y: 0 });
    assert_eq!(w.ball.vel, Vec2 { x: -100, y: 0 });
}

#[test]
fn tick_runs_the_systems_in_order() {
    let mut w = World::new();
    let inputs = Inputs {
        left: PaddleInput { up: true, down: false },
        right: PaddleInput { up: false, down: true },
    };
    let hit = w.tick(&inputs, 16, 0);
    assert!(!hit);
    assert_eq!(w.left.y, 4_800);
    assert_eq!(w.right.y, -4_800);
    assert_eq!(w.ball.pos, Vec2 { x: -1_600, y: 0 });
    assert_eq!(w.ball.vel, Vec2 { x: -100, y: 0 });
}

#[test]
fn serve_oscillates_absent_collisions() {
    let mut w = World::new();
    // Park both paddles at the top so the ball passes under them.
    let park = Inputs {
        left: PaddleInput { up: true, down: false },
        right: PaddleInput { up: true, down: false },
    };
    w.tick(&park, 1000, 0);
    assert_eq!(w.left.y, 175_000);
    assert_eq!(w.right.y, 175_000);
    assert_eq!(w.ball.pos.x, -100_000);

    let idle = Inputs::none();
    for _ in 0..2 {
        // Leftward leg: two more seconds to -300_000, then past -325_000,
        // where the ball is re-served rightward from the origin.
        w.tick(&idle, 1000, 0);
        w.tick(&idle, 1000, 0);
        assert_eq!(w.ball.pos.x, -300_000);
        let hit = w.tick(&idle, 1000, 0);
        assert!(!hit);
        assert_eq!(w.ball.pos, Vec2 { x: 0, y: 0 });
        assert_eq!(w.ball.vel, Vec2 { x: 100, y: 0 });

        // Rightward leg: to 300_000, then past 325_000, re-served leftward.
        w.tick(&idle, 1000, 0);
        w.tick(&idle, 1000, 0);
        w.tick(&idle, 1000, 0);
        assert_eq!(w.ball.pos.x, 300_000);
        let hit2 = w.tick(&idle, 1000, 0);
        assert!(!hit2);
        assert_eq!(w.ball.pos, Vec2 { x: 0, y: 0 });
        assert_eq!(w.ball.vel, Vec2 { x: -100, y: 0 });

        // Back onto the leftward leg for the next cycle.
        w.tick(&idle, 1000, 0);
        assert_eq!(w.ball.pos.x, -100_000);
    }
}
