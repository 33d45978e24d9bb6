use dodge_ball::collision::{
    bounce_bullets, count_kills, distance_sq, in_bounce, in_touch, square,
};
use dodge_ball::entities::{BounceParticle, Bullet};
use dodge_ball::random::RandomSource;
use dodge_ball::vector::Vec2;
use dodge_ball::wave::sample_boundary;

const ONE: i64 = 1_000_000;
const REACH: i64 = 19_200_000;

fn bullet(x: i64, y: i64, vx: i64, vy: i64) -> Bullet {
    Bullet { position: Vec2::new(x, y), velocity: Vec2::new(vx, vy), trail_timer: 3 }
}

#[test]
fn distances_are_compared_by_their_squares() {
    assert_eq!(distance_sq(Vec2::new(0, 0), Vec2::new(3, 4)), 25);
    assert_eq!(distance_sq(Vec2::new(-3, 4), Vec2::new(0, 0)), 25);
    assert_eq!(distance_sq(Vec2::new(1 << 60, 1 << 60), Vec2::new(-(1 << 60), -(1 << 60))), 1u128 << 123);
    assert_eq!(square(-7), 49);
    assert_eq!(square(i64::MIN), 1u128 << 126);
    assert!(in_touch(Vec2::new(0, 0), Vec2::new(REACH - 1, 0), REACH));
    assert!(!in_touch(Vec2::new(0, 0), Vec2::new(REACH, 0), REACH));
    assert!(in_touch(Vec2::new(0, 0), Vec2::new(0, 0), REACH));
}

#[test]
fn a_bounce_needs_a_pixel_of_distance() {
    let origin = Vec2::new(0, 0);
    assert!(!in_bounce(origin, Vec2::new(0, 0), REACH));
    assert!(!in_bounce(origin, Vec2::new(ONE - 1, 0), REACH));
    assert!(in_bounce(origin, Vec2::new(ONE, 0), REACH));
    assert!(in_bounce(origin, Vec2::new(0, -(REACH - 1)), REACH));
    assert!(!in_bounce(origin, Vec2::new(0, REACH), REACH));
    assert!(!in_bounce(origin, Vec2::new(ONE, 0), ONE));
}

#[test]
fn every_projectile_near_the_player_counts() {
    let bullets = vec![
        bullet(5 * ONE, 0, ONE, 0),
        bullet(REACH, 0, ONE, 0),
        bullet(0, 0, ONE, 0),
        bullet(-10 * ONE, 10 * ONE, ONE, 0),
    ];
    assert_eq!(count_kills(&bullets, Vec2::new(0, 0), REACH), 3);
    assert_eq!(count_kills(&bullets, Vec2::new(100 * ONE, 0), REACH), 0);
    assert_eq!(count_kills(&vec![], Vec2::new(0, 0), REACH), 0);
}

#[test]
fn two_projectiles_that_meet_fly_apart() {
    let mut bullets = vec![bullet(0, 0, ONE, 0), bullet(10 * ONE, 0, -ONE, 0)];
    let mut random = RandomSource::new(2137);
    let mut particles: Vec<BounceParticle> = Vec::new();
    assert_eq!(bounce_bullets(&mut bullets, REACH, &mut random, &mut particles), 1);
    assert_eq!(bullets[0], bullet(0, 0, -ONE, 0));
    assert_eq!(bullets[1], bullet(10 * ONE, 0, ONE, 0));
    assert_eq!(bullets[0].velocity, bullets[1].velocity.neg());
    assert!(bullets[0].velocity.unit() && bullets[1].velocity.unit());
    assert_eq!(particles.len(), 32);
    let mut reference = RandomSource::new(2137);
    for p in &particles {
        assert_eq!(p.position, Vec2::new(5 * ONE, 0));
        assert_eq!(p.lifetime, 500_000);
        assert_eq!(p.velocity, sample_boundary(reference.next_u32()));
    }
    assert_eq!(random.next_u32(), reference.next_u32());
}

#[test]
fn opposite_and_unit_for_any_pair_in_reach() {
    let pairs = [
        ((0, 0), (3 * ONE, 4 * ONE)),
        ((-7_123_456, 2_000_001), (1_000_003, -5_555_555)),
        ((100 * ONE, 100 * ONE), (101 * ONE, 100 * ONE)),
        ((0, 0), (13_000_000, 14_000_000)),
    ];
    for ((ax, ay), (bx, by)) in pairs {
        let mut bullets = vec![bullet(ax, ay, ONE, 0), bullet(bx, by, 0, ONE)];
        let mut random = RandomSource::new(1);
        let mut particles: Vec<BounceParticle> = Vec::new();
        assert_eq!(bounce_bullets(&mut bullets, REACH, &mut random, &mut particles), 1);
        assert_eq!(bullets[0].velocity, bullets[1].velocity.neg());
        assert!(bullets[0].velocity.unit());
        assert!(bullets[1].velocity.unit());
        assert_eq!(bullets[0].position, Vec2::new(ax, ay));
        assert_eq!(bullets[1].position, Vec2::new(bx, by));
        assert_eq!(particles.len(), 32);
    }
}

#[test]
fn pairs_too_close_or_too_far_are_left_alone() {
    let mut bullets = vec![
        bullet(0, 0, ONE, 0),
        bullet(ONE - 1, 0, 0, ONE),
        bullet(REACH + ONE - 1, 0, -ONE, 0),
        bullet(500 * ONE, 500 * ONE, 0, -ONE),
    ];
    let before = bullets.clone();
    let mut random = RandomSource::new(5);
    let held = vec![BounceParticle {
        position: Vec2::new(1, 1),
        lifetime: 9,
        velocity: Vec2::new(ONE, 0),
    }];
    let mut particles = held.clone();
    assert_eq!(bounce_bullets(&mut bullets, REACH, &mut random, &mut particles), 0);
    assert_eq!(bullets, before);
    assert_eq!(particles, held);
    assert_eq!(random.next_u32(), RandomSource::new(5).next_u32());
    let mut none: Vec<Bullet> = Vec::new();
    assert_eq!(bounce_bullets(&mut none, REACH, &mut random, &mut particles), 0);
    let mut one = vec![bullet(0, 0, ONE, 0)];
    assert_eq!(bounce_bullets(&mut one, REACH, &mut random, &mut particles), 0);
    assert_eq!(one[0], bullet(0, 0, ONE, 0));
}

#[test]
fn each_projectile_leaves_away_from_its_last_partner() {
    let mut bullets = vec![
        bullet(0, 0, ONE, 0),
        bullet(10 * ONE, 0, ONE, 0),
        bullet(0, 10 * ONE, ONE, 0),
        bullet(300 * ONE, 0, 600_000, 800_000),
    ];
    let mut random = RandomSource::new(2137);
    let mut particles: Vec<BounceParticle> = Vec::new();
    assert_eq!(bounce_bullets(&mut bullets, REACH, &mut random, &mut particles), 3);
    assert_eq!(bullets[0].velocity, Vec2::new(0, -ONE));
    assert_eq!(bullets[1].velocity, Vec2::new(707_106, -707_106));
    assert_eq!(bullets[2].velocity, Vec2::new(-707_106, 707_106));
    assert_eq!(bullets[3].velocity, Vec2::new(600_000, 800_000));
    assert_eq!(particles.len(), 96);
    let origins = [Vec2::new(5 * ONE, 0), Vec2::new(0, 5 * ONE), Vec2::new(5 * ONE, 5 * ONE)];
    let mut reference = RandomSource::new(2137);
    for (k, p) in particles.iter().enumerate() {
        assert_eq!(p.position, origins[k / 32]);
        assert_eq!(p.lifetime, 500_000);
        assert_eq!(p.velocity, sample_boundary(reference.next_u32()));
    }
    for b in &bullets {
        assert_eq!(b.trail_timer, 3);
    }
}
