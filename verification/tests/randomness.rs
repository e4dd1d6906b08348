use pong::bounce_vy;
use pong::random_bounce_vy;
use pong::Ball;
use pong::Inputs;
use pong::PaddleInput;
use pong::Vec2;
use pong::World;

#[test]
fn bounce_vy_scales_byte_by_fraction() {
    // 100 * 65535 / 65536 rounds toward zero to 99.
    assert_eq!(bounce_vy(100, 65535), 99);
    // -128 * 65535 / 65536 rounds toward zero to -127.
    assert_eq!(bounce_vy(-128, 65535), -127);
    assert_eq!(bounce_vy(-128, 0), 0);
    assert_eq!(bounce_vy(127, 0), 0);
    // Half of 64 is 32.
    assert_eq!(bounce_vy(64, 32768), 32);
    assert_eq!(bounce_vy(-64, 32768), -32);
}

#[test]
fn random_bounce_stays_in_range() {
    for _ in 0..1000 {
        let vy = random_bounce_vy();
        assert!((-128..=127).contains(&vy));
    }
}

#[test]
fn random_tick_redirects_on_paddle_hit() {
    // The ball sits on the right paddle with zero velocity; a zero-length
    // tick still resolves the overlap, so the horizontal velocity reverses
    // and the vertical velocity is redrawn within (-128, 128).
    let mut w = World::new();
    w.ball = Ball {
        pos: Vec2 { x: 300_000, y: 0 },
        vel: Vec2 { x: 500, y: 3 },
    };
    let idle = Inputs {
        left: PaddleInput { up: false, down: false },
        right: PaddleInput { up: false, down: false },
    };
    let hit = w.tick_random(&idle, 0);
    assert!(hit);
    assert_eq!(w.ball.vel.x, -550);
    assert!((-128..=127).contains(&w.ball.vel.y));
    assert_eq!(w.ball.pos, Vec2 { x: 300_000, y: 0 });
}
