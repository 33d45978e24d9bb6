use dodge_ball::bullets::{move_bouncers, next_shot_interval, spawn_bullet};
use dodge_ball::display::DisplayProperties;
use dodge_ball::entities::{BounceParticle, Bullet, Player, TrailParticle};
use dodge_ball::motion::{advance, step_length};
use dodge_ball::particles::{
    bounce_particle_ease, bounce_particle_scale, handle_bounce_particles, handle_trail_particles,
    spawn_bullet_trail, trail_particle_scale,
};
use dodge_ball::player::{
    clamp_player, clamp_player_aim, move_player, move_player_aim, read_stick, spawn_player,
    spawn_player_aim, MoveInput,
};
use dodge_ball::state::ControlDevice;
use dodge_ball::vector::Vec2;

const ONE: i64 = 1_000_000;
const STEP: u32 = 15_625;

fn display() -> DisplayProperties {
    DisplayProperties::from_pixels(640, 480)
}

fn no_keys() -> MoveInput {
    MoveInput { up: false, down: false, left: false, right: false }
}

fn bullet(x: i64, y: i64, vx: i64, vy: i64) -> Bullet {
    Bullet { position: Vec2::new(x, y), velocity: Vec2::new(vx, vy), trail_timer: 0 }
}

#[test]
fn step_lengths_of_the_three_speeds() {
    let d = display();
    assert_eq!(step_length(400_000, &d, STEP), 3_000_000);
    assert_eq!(step_length(500_000, &d, STEP), 3_750_000);
    assert_eq!(step_length(300_000, &d, STEP), 2_250_000);
    assert_eq!(step_length(400_000, &d, 0), 0);
    let huge = DisplayProperties::from_pixels(u32::MAX, u32::MAX);
    assert_eq!(step_length(ONE, &huge, u32::MAX), 1 << 60);
    assert_eq!(
        advance(Vec2::new(0, 0), Vec2::new(600_000, 800_000), 3_000_000),
        Vec2::new(1_800_000, 2_400_000)
    );
}

#[test]
fn the_player_starts_in_the_middle() {
    assert_eq!(spawn_player(), Player { position: Vec2::new(0, 0), bullet_timer: 2_000_000 });
    assert_eq!(spawn_player_aim(), Vec2::new(20_000, 20_000));
}

#[test]
fn keys_move_the_player() {
    let d = display();
    let mut player = spawn_player();
    let mut device = ControlDevice::Mouse;
    let right = MoveInput { up: false, down: false, left: false, right: true };
    move_player(&mut player, right, &vec![], &mut device, &d, STEP);
    assert_eq!(player.position, Vec2::new(3_750_000, 0));
    assert_eq!(player.bullet_timer, 2_000_000);
    assert_eq!(device, ControlDevice::Keyboard);
    let both = MoveInput { up: true, down: true, left: true, right: true };
    move_player(&mut player, both, &vec![], &mut device, &d, STEP);
    assert_eq!(player.position, Vec2::new(3_750_000, 0));
}

#[test]
fn a_diagonal_is_no_faster_than_a_side() {
    let d = display();
    let mut player = spawn_player();
    let mut device = ControlDevice::Mouse;
    let diagonal = MoveInput { up: true, down: false, left: false, right: true };
    move_player(&mut player, diagonal, &vec![], &mut device, &d, STEP);
    assert_eq!(player.position, Vec2::new(2_651_647, 2_651_647));
}

#[test]
fn sticks_move_the_player_beyond_their_dead_zone() {
    let d = display();
    let mut device = ControlDevice::Mouse;
    let mut player = spawn_player();
    move_player(&mut player, no_keys(), &vec![Vec2::new(100_000, -100_000)], &mut device, &d, STEP);
    assert_eq!(player.position, Vec2::new(0, 0));
    assert_eq!(device, ControlDevice::Mouse);
    move_player(&mut player, no_keys(), &vec![Vec2::new(500_000, 50_000)], &mut device, &d, STEP);
    assert_eq!(player.position, Vec2::new(1_875_000, 0));
    assert_eq!(device, ControlDevice::Gamepad);
    let mut other = spawn_player();
    let up = MoveInput { up: true, down: false, left: false, right: false };
    move_player(&mut other, up, &vec![Vec2::new(0, -300_000)], &mut device, &d, STEP);
    assert_eq!(other.position, Vec2::new(0, 2_625_000));
    assert_eq!(device, ControlDevice::Gamepad);
    let mut third = spawn_player();
    let sticks = vec![Vec2::new(0, 0), Vec2::new(i64::MAX, i64::MIN), Vec2::new(ONE, -ONE)];
    move_player(&mut third, no_keys(), &sticks, &mut device, &d, STEP);
    assert_eq!(third.position, Vec2::new(2_651_647, -2_651_647));
    assert_eq!(read_stick(Vec2::new(i64::MAX, i64::MIN)), Vec2::new(ONE, -ONE));
}

#[test]
fn the_player_stays_a_radius_inside_the_viewport() {
    let d = display();
    let corners = [
        (i64::MAX, i64::MAX),
        (i64::MIN, i64::MIN),
        (400_000_000, -300_000_000),
        (0, 0),
        (310_400_001, 230_400_001),
    ];
    for (x, y) in corners {
        let mut player = Player { position: Vec2::saturated(x, y), bullet_timer: 7 };
        clamp_player(&mut player, &d);
        assert!(player.position.x.abs() <= d.half_w - d.player_radius());
        assert!(player.position.y.abs() <= d.half_h - d.player_radius());
        assert_eq!(player.bullet_timer, 7);
    }
    let mut far = Player { position: Vec2::new(400_000_000, -300_000_000), bullet_timer: 0 };
    clamp_player(&mut far, &d);
    assert_eq!(far.position, Vec2::new(310_400_000, -230_400_000));
    let mut inside = Player { position: Vec2::new(5, -6), bullet_timer: 0 };
    clamp_player(&mut inside, &d);
    assert_eq!(inside.position, Vec2::new(5, -6));
    let tiny = DisplayProperties::from_pixels(0, 0);
    let mut small = Player { position: Vec2::new(ONE, ONE), bullet_timer: 0 };
    clamp_player(&mut small, &tiny);
    assert_eq!(small.position, Vec2::new(480_000, 480_000));
}

#[test]
fn the_pointer_shifts_the_aim() {
    let d = display();
    let mut aim = spawn_player_aim();
    let aimed = move_player_aim(&mut aim, Vec2::new(0, 0), Vec2::new(5 * ONE, 3 * ONE), &vec![], &d, STEP);
    assert!(!aimed);
    assert_eq!(aim, Vec2::new(5_020_000, -2_980_000));
    let mut far = Vec2::new(0, 0);
    move_player_aim(&mut far, Vec2::new(0, 0), Vec2::new(i64::MAX, i64::MIN), &vec![], &d, STEP);
    assert_eq!(far, Vec2::new(1 << 60, 1 << 60));
}

#[test]
fn an_aim_stick_pulls_the_aim_toward_its_target() {
    let d = display();
    let player = Vec2::new(0, 0);
    let mut aim = spawn_player_aim();
    let weak = vec![Vec2::new(300_000, 300_000)];
    assert!(!move_player_aim(&mut aim, player, Vec2::new(0, 0), &weak, &d, STEP));
    assert_eq!(aim, Vec2::new(20_000, 20_000));
    let full = vec![Vec2::new(ONE, 0)];
    assert!(move_player_aim(&mut aim, player, Vec2::new(0, 0), &full, &d, STEP));
    assert_eq!(aim, Vec2::new(7_516_875, 16_875));
    let mut snapped = spawn_player_aim();
    assert!(move_player_aim(&mut snapped, player, Vec2::new(0, 0), &full, &d, 100_000));
    assert_eq!(snapped, Vec2::new(48_000_000, 0));
    let mut edge = spawn_player_aim();
    let on_the_edge = vec![Vec2::new(500_000, 0)];
    assert!(move_player_aim(&mut edge, player, Vec2::new(0, 0), &on_the_edge, &d, u32::MAX));
    assert_eq!(edge, Vec2::new(24_000_000, 0));
}

#[test]
fn the_aim_stays_inside_the_viewport() {
    let d = display();
    let mut aim = Vec2::new(i64::MAX, i64::MIN);
    clamp_player_aim(&mut aim, &d);
    assert_eq!(aim, Vec2::new(320_000_000, -240_000_000));
    let mut inside = Vec2::new(319_999_999, 1);
    clamp_player_aim(&mut inside, &d);
    assert_eq!(inside, Vec2::new(319_999_999, 1));
}

#[test]
fn the_interval_after_a_shot_grows_with_the_score() {
    assert_eq!(next_shot_interval(0), 50_000);
    assert_eq!(next_shot_interval(1_000_000), 69_500);
    assert_eq!(next_shot_interval(5_000_000), 537_500);
    assert_eq!(next_shot_interval(10_000_000), 2_000_000);
    assert_eq!(next_shot_interval(20_000_000), 2_000_000);
    assert_eq!(next_shot_interval(u64::MAX), 2_000_000);
    let mut previous: i64 = 0;
    let mut score: u64 = 0;
    while score <= 11_000_000 {
        let t = next_shot_interval(score);
        assert!(t >= previous && (50_000..=2_000_000).contains(&t));
        previous = t;
        score += 12_345;
    }
}

#[test]
fn no_shot_while_the_cooldown_runs() {
    let d = display();
    let mut player = spawn_player();
    let mut bullets: Vec<Bullet> = Vec::new();
    assert!(!spawn_bullet(&mut player, spawn_player_aim(), &d, 0, STEP, &mut bullets));
    assert_eq!(player.bullet_timer, 1_984_375);
    assert!(bullets.is_empty());
}

#[test]
fn a_shot_is_fired_when_the_cooldown_has_run_out() {
    let d = display();
    let mut player = Player { position: Vec2::new(0, 0), bullet_timer: 10_000 };
    let mut bullets: Vec<Bullet> = Vec::new();
    assert!(spawn_bullet(&mut player, Vec2::new(100 * ONE, 0), &d, 5_000_000, STEP, &mut bullets));
    assert_eq!(player.bullet_timer, 10_000 - 15_625 + 537_500);
    assert_eq!(bullets, vec![bullet(28_800_000, 0, ONE, 0)]);
    let mut second = Player { position: Vec2::new(0, 0), bullet_timer: 15_625 };
    assert!(spawn_bullet(&mut second, spawn_player_aim(), &d, 0, STEP, &mut bullets));
    assert_eq!(second.bullet_timer, 50_000);
    assert_eq!(bullets.len(), 2);
    assert_eq!(bullets[1], bullet(20_364_652, 20_364_652, 707_106, 707_106));
    assert!(bullets[1].velocity.unit());
}

#[test]
fn nothing_is_fired_with_the_aim_on_the_player() {
    let d = display();
    let mut player = Player { position: Vec2::new(7, 7), bullet_timer: 0 };
    let mut bullets: Vec<Bullet> = Vec::new();
    assert!(!spawn_bullet(&mut player, Vec2::new(7, 7), &d, 0, STEP, &mut bullets));
    assert!(bullets.is_empty());
    assert_eq!(player.bullet_timer, -15_625);
    assert!(spawn_bullet(&mut player, Vec2::new(7, 8), &d, 0, STEP, &mut bullets));
    assert_eq!(bullets[0].velocity, Vec2::new(0, ONE));
    assert_eq!(player.bullet_timer, -31_250 + 50_000);
    let mut drained = Player { position: Vec2::new(0, 0), bullet_timer: -(1 << 60) };
    assert!(!spawn_bullet(&mut drained, Vec2::new(0, 0), &d, 0, u32::MAX, &mut bullets));
    assert_eq!(drained.bullet_timer, -(1 << 60));
}

#[test]
fn projectiles_fly_along_their_direction() {
    let d = display();
    let mut bullets = vec![bullet(0, 0, 600_000, 800_000), bullet(5, 5, -ONE, 0)];
    move_bouncers(&mut bullets, &d, STEP);
    assert_eq!(bullets[0], bullet(1_800_000, 2_400_000, 600_000, 800_000));
    assert_eq!(bullets[1], bullet(-2_999_995, 5, -ONE, 0));
    move_bouncers(&mut bullets, &d, 0);
    assert_eq!(bullets[0], bullet(1_800_000, 2_400_000, 600_000, 800_000));
}

#[test]
fn projectiles_turn_back_at_the_edges() {
    let d = display();
    let mut bullets = vec![
        bullet(309_400_000, 0, ONE, 0),
        bullet(-309_400_000, 0, -ONE, 0),
        bullet(0, 229_400_000, 0, ONE),
        bullet(0, -229_400_000, 0, -ONE),
        bullet(315_000_000, 235_000_000, -600_000, -800_000),
        bullet(309_400_000, 229_400_000, 600_000, 800_000),
        bullet(307_400_000, 0, ONE, 0),
    ];
    let before: Vec<i128> = bullets.iter().map(|b| b.velocity.len_sq() as i128).collect();
    move_bouncers(&mut bullets, &d, STEP);
    assert_eq!(bullets[0], bullet(312_400_000, 0, -ONE, 0));
    assert_eq!(bullets[1], bullet(-312_400_000, 0, ONE, 0));
    assert_eq!(bullets[2], bullet(0, 232_400_000, 0, -ONE));
    assert_eq!(bullets[3], bullet(0, -232_400_000, 0, ONE));
    assert_eq!(bullets[4], bullet(313_200_000, 232_600_000, -600_000, -800_000));
    assert_eq!(bullets[5], bullet(311_200_000, 231_800_000, -600_000, -800_000));
    assert_eq!(bullets[6], bullet(310_400_000, 0, ONE, 0));
    let after: Vec<i128> = bullets.iter().map(|b| b.velocity.len_sq() as i128).collect();
    assert_eq!(before, after);
    for b in &bullets {
        assert!(b.velocity.unit());
    }
}

#[test]
fn trail_particles_are_left_at_fixed_intervals() {
    let mut bullets = vec![
        Bullet { position: Vec2::new(1, 2), velocity: Vec2::new(ONE, 0), trail_timer: 90_000 },
        Bullet { position: Vec2::new(3, 4), velocity: Vec2::new(ONE, 0), trail_timer: 0 },
        Bullet { position: Vec2::new(5, 6), velocity: Vec2::new(ONE, 0), trail_timer: 84_375 },
    ];
    let mut trail = vec![TrailParticle { position: Vec2::new(9, 9), lifetime: 1 }];
    spawn_bullet_trail(&mut bullets, &mut trail, STEP);
    assert_eq!(bullets[0].trail_timer, 5_625);
    assert_eq!(bullets[1].trail_timer, 15_625);
    assert_eq!(bullets[2].trail_timer, 0);
    assert_eq!(
        trail,
        vec![
            TrailParticle { position: Vec2::new(9, 9), lifetime: 1 },
            TrailParticle { position: Vec2::new(1, 2), lifetime: 700_000 },
            TrailParticle { position: Vec2::new(5, 6), lifetime: 700_000 },
        ]
    );
    spawn_bullet_trail(&mut bullets, &mut trail, 0);
    assert_eq!(trail.len(), 3);
    spawn_bullet_trail(&mut bullets, &mut trail, u32::MAX);
    assert_eq!(trail.len(), 6);
    assert_eq!(bullets[0].trail_timer, ((5_625u64 + u32::MAX as u64) % 100_000) as u32);
}

#[test]
fn trail_particles_age_and_go() {
    let mut trail = vec![
        TrailParticle { position: Vec2::new(1, 1), lifetime: 700_000 },
        TrailParticle { position: Vec2::new(2, 2), lifetime: 15_624 },
        TrailParticle { position: Vec2::new(3, 3), lifetime: 15_625 },
        TrailParticle { position: Vec2::new(4, 4), lifetime: 0 },
    ];
    handle_trail_particles(&mut trail, STEP);
    assert_eq!(
        trail,
        vec![
            TrailParticle { position: Vec2::new(1, 1), lifetime: 684_375 },
            TrailParticle { position: Vec2::new(3, 3), lifetime: 0 },
        ]
    );
    handle_trail_particles(&mut trail, 0);
    assert_eq!(trail.len(), 2);
    handle_trail_particles(&mut trail, u32::MAX);
    assert!(trail.is_empty());
    assert_eq!(trail_particle_scale(700_000), 500_000);
    assert_eq!(trail_particle_scale(350_000), 250_000);
    assert_eq!(trail_particle_scale(684_375), 488_839);
    assert_eq!(trail_particle_scale(0), 0);
}

#[test]
fn burst_particles_slow_down_as_they_age() {
    assert_eq!(bounce_particle_ease(500_000), 899_998);
    assert_eq!(bounce_particle_ease(484_375), 884_140);
    assert_eq!(bounce_particle_ease(250_000), 531_790);
    assert_eq!(bounce_particle_ease(0), 0);
    assert_eq!(bounce_particle_scale(500_000), 449_999);
    assert_eq!(bounce_particle_scale(250_000), 265_895);
    assert_eq!(bounce_particle_scale(0), 0);
    let exact = (std::f64::consts::FRAC_PI_2 * (1.0 - 0.5 / 0.7)).cos();
    assert!((bounce_particle_ease(500_000) as f64 / 1e6 - exact).abs() < 0.002);
}

#[test]
fn burst_particles_fly_outward_and_go() {
    let d = display();
    let mut particles = vec![
        BounceParticle { position: Vec2::new(0, 0), lifetime: 500_000, velocity: Vec2::new(ONE, 0) },
        BounceParticle { position: Vec2::new(0, 0), lifetime: 15_624, velocity: Vec2::new(ONE, 0) },
        BounceParticle { position: Vec2::new(7, 7), lifetime: 15_625, velocity: Vec2::new(0, -ONE) },
        BounceParticle {
            position: Vec2::new(0, 0),
            lifetime: 265_625,
            velocity: Vec2::new(600_000, -800_000),
        },
    ];
    handle_bounce_particles(&mut particles, &d, STEP);
    assert_eq!(
        particles,
        vec![
            BounceParticle {
                position: Vec2::new(1_989_315, 0),
                lifetime: 484_375,
                velocity: Vec2::new(ONE, 0)
            },
            BounceParticle { position: Vec2::new(7, 7), lifetime: 0, velocity: Vec2::new(0, -ONE) },
            BounceParticle {
                position: Vec2::new(717_916, -957_221),
                lifetime: 250_000,
                velocity: Vec2::new(600_000, -800_000)
            },
        ]
    );
    handle_bounce_particles(&mut particles, &d, u32::MAX);
    assert!(particles.is_empty());
}
