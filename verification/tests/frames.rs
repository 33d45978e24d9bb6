use dodge_ball::entities::{BounceParticle, Bullet, TrailParticle};
use dodge_ball::feedback::SoundCue;
use dodge_ball::phases::{FixedInput, FrameInput};
use dodge_ball::player::MoveInput;
use dodge_ball::simulation::{PauseInput, Simulation};
use dodge_ball::state::{AppState, ControlDevice, MenuButtonAction};
use dodge_ball::vector::Vec2;

const ONE: i64 = 1_000_000;
const STEP: u32 = 15_625;

fn still() -> FixedInput {
    FixedInput {
        keys: MoveInput { up: false, down: false, left: false, right: false },
        move_sticks: vec![],
    }
}

fn idle() -> FrameInput {
    FrameInput { pointer: Vec2::new(0, 0), aim_sticks: vec![] }
}

fn in_game(seed: u64) -> Simulation {
    let mut sim = Simulation::new(seed);
    sim.app_init();
    sim.menu_action(MenuButtonAction::Play);
    sim
}

fn bullet(x: i64, y: i64, vx: i64, vy: i64) -> Bullet {
    Bullet { position: Vec2::new(x, y), velocity: Vec2::new(vx, vy), trail_timer: 0 }
}

#[test]
fn a_fixed_step_moves_player_aim_and_projectiles() {
    let mut sim = in_game(1);
    sim.bullets.push(bullet(100 * ONE, 0, 600_000, 800_000));
    let input = FixedInput {
        keys: MoveInput { up: false, down: false, left: true, right: false },
        move_sticks: vec![],
    };
    sim.aim = Some(Vec2::new(400 * ONE, -5));
    let cues = sim.fixed_update(&input, STEP);
    assert!(cues.is_empty());
    assert_eq!(sim.player.unwrap().position, Vec2::new(-3_750_000, 0));
    assert_eq!(sim.aim.unwrap(), Vec2::new(320 * ONE, -5));
    assert_eq!(sim.bullets, vec![bullet(101_800_000, 2_400_000, 600_000, 800_000)]);
    assert_eq!(sim.primary_device, ControlDevice::Keyboard);
    assert_eq!(sim.state, AppState::InGame);
}

#[test]
fn the_pointer_moves_the_aim_in_every_frame() {
    let mut sim = in_game(1);
    let frame = FrameInput { pointer: Vec2::new(2 * ONE, ONE), aim_sticks: vec![] };
    let (cues, _) = sim.update(&frame, STEP, 0);
    assert!(cues.is_empty());
    assert_eq!(sim.aim.unwrap(), Vec2::new(2_020_000, -980_000));
    assert_eq!(sim.primary_device, ControlDevice::Mouse);
    let far = FrameInput { pointer: Vec2::new(i64::MAX, 0), aim_sticks: vec![] };
    sim.update(&far, STEP, 0);
    assert_eq!(sim.aim.unwrap(), Vec2::new(1 << 60, -980_000));
    sim.fixed_update(&still(), STEP);
    assert_eq!(sim.aim.unwrap(), Vec2::new(320 * ONE, -980_000));
}

#[test]
fn an_aim_stick_makes_the_gamepad_primary() {
    let mut sim = in_game(1);
    let input = FixedInput {
        keys: MoveInput { up: true, down: false, left: false, right: false },
        move_sticks: vec![Vec2::new(0, 0)],
    };
    sim.fixed_update(&input, 100_000);
    assert_eq!(sim.primary_device, ControlDevice::Keyboard);
    assert_eq!(sim.player.unwrap().position, Vec2::new(0, 24_000_000));
    let frame = FrameInput { pointer: Vec2::new(0, 0), aim_sticks: vec![Vec2::new(0, -ONE)] };
    sim.update(&frame, 100_000, 0);
    assert_eq!(sim.primary_device, ControlDevice::Gamepad);
    assert_eq!(sim.aim.unwrap(), Vec2::new(0, -24_000_000));
}

#[test]
fn the_player_cannot_leave_the_viewport() {
    let mut sim = in_game(1);
    let input = FixedInput {
        keys: MoveInput { up: true, down: false, left: false, right: true },
        move_sticks: vec![],
    };
    let frame = FrameInput { pointer: Vec2::new(i64::MAX, i64::MIN), aim_sticks: vec![] };
    for _ in 0..50 {
        sim.update(&frame, 0, 0);
        sim.fixed_update(&input, u32::MAX);
        let p = sim.player.unwrap().position;
        assert!(p.x.abs() <= sim.display.half_w - sim.display.player_radius());
        assert!(p.y.abs() <= sim.display.half_h - sim.display.player_radius());
        let a = sim.aim.unwrap();
        assert!(a.x.abs() <= sim.display.half_w && a.y.abs() <= sim.display.half_h);
    }
    assert_eq!(sim.player.unwrap().position, Vec2::new(310_400_000, 230_400_000));
    assert_eq!(sim.aim.unwrap(), Vec2::new(320_000_000, 240_000_000));
}

#[test]
fn a_fixed_step_resolves_contacts_after_the_flight() {
    let mut sim = in_game(2137);
    sim.bullets.push(bullet(100 * ONE, 100 * ONE, ONE, 0));
    sim.bullets.push(bullet(126 * ONE, 100 * ONE, -ONE, 0));
    let cues = sim.fixed_update(&still(), STEP);
    assert!(cues.is_empty());
    assert!(sim.bounce_particles.is_empty());
    let cues = sim.fixed_update(&still(), STEP);
    assert_eq!(cues, vec![SoundCue::Bounce]);
    assert_eq!(sim.bullets[0], bullet(106 * ONE, 100 * ONE, -ONE, 0));
    assert_eq!(sim.bullets[1], bullet(120 * ONE, 100 * ONE, ONE, 0));
    assert_eq!(sim.screenshake, 3_000);
    assert_eq!(sim.bounce_particles.len(), 32);
    for p in &sim.bounce_particles {
        assert_eq!(p.lifetime, 500_000 - 15_625);
        assert!(p.velocity.unit());
    }
    assert_eq!(sim.state, AppState::InGame);
}

#[test]
fn a_projectile_that_reaches_the_player_ends_the_round() {
    let mut sim = in_game(1);
    sim.bullets.push(bullet(25 * ONE, 0, -ONE, 0));
    sim.bullets.push(bullet(0, 25 * ONE, 0, -ONE));
    assert!(sim.fixed_update(&still(), STEP).is_empty());
    let cues = sim.fixed_update(&still(), STEP);
    assert_eq!(cues, vec![SoundCue::Death, SoundCue::Death]);
    assert_eq!(sim.state, AppState::GameOver);
    assert!(sim.time_paused);
    assert_eq!(sim.screenshake, 20_000);
    let held = sim.bullets.clone();
    assert!(sim.fixed_update(&still(), STEP).is_empty());
    assert_eq!(sim.bullets, held);
}

#[test]
fn nothing_moves_while_the_game_is_paused() {
    let mut sim = in_game(1);
    sim.bullets.push(bullet(100 * ONE, 0, ONE, 0));
    sim.bounce_particles.push(BounceParticle {
        position: Vec2::new(0, 0),
        lifetime: 100_000,
        velocity: Vec2::new(ONE, 0),
    });
    sim.trail_particles.push(TrailParticle { position: Vec2::new(0, 0), lifetime: 100_000 });
    sim.handle_game_pausing(PauseInput { key: true, pad: false });
    let input = FixedInput {
        keys: MoveInput { up: true, down: false, left: false, right: false },
        move_sticks: vec![],
    };
    let frame = FrameInput { pointer: Vec2::new(ONE, ONE), aim_sticks: vec![Vec2::new(ONE, 0)] };
    assert!(sim.fixed_update(&input, STEP).is_empty());
    let (cues, _) = sim.update(&frame, STEP, 0);
    assert!(cues.is_empty());
    assert_eq!(sim.bullets, vec![bullet(100 * ONE, 0, ONE, 0)]);
    assert_eq!(sim.player.unwrap().position, Vec2::new(0, 0));
    assert_eq!(sim.aim.unwrap(), Vec2::new(20_000, 20_000));
    assert_eq!(sim.primary_device, ControlDevice::Keyboard);
    assert_eq!(sim.player.unwrap().bullet_timer, 2_000_000);
    assert_eq!(sim.bounce_particles[0].lifetime, 100_000);
    assert_eq!(sim.trail_particles[0].lifetime, 100_000);
    assert_eq!(sim.score, 0);
}

#[test]
fn particles_live_on_in_the_menu() {
    let mut sim = Simulation::new(1);
    sim.app_init();
    sim.bounce_particles.push(BounceParticle {
        position: Vec2::new(0, 0),
        lifetime: 100_000,
        velocity: Vec2::new(ONE, 0),
    });
    sim.trail_particles.push(TrailParticle { position: Vec2::new(0, 0), lifetime: 100_000 });
    let input = FixedInput {
        keys: MoveInput { up: true, down: false, left: false, right: false },
        move_sticks: vec![],
    };
    let frame = FrameInput { pointer: Vec2::new(ONE, ONE), aim_sticks: vec![Vec2::new(ONE, 0)] };
    assert!(sim.fixed_update(&input, STEP).is_empty());
    sim.update(&frame, STEP, 0);
    assert_eq!(sim.bounce_particles[0].lifetime, 84_375);
    assert_eq!(sim.trail_particles[0].lifetime, 84_375);
    assert!(sim.player.is_none());
    assert_eq!(sim.score, 0);
    assert_eq!(sim.primary_device, ControlDevice::Mouse);
}

#[test]
fn a_frame_counts_the_score_and_fires_when_due() {
    let mut sim = in_game(1);
    let (cues, offset) = sim.update(&idle(), 1_000_000, 1_000_000);
    assert!(cues.is_empty());
    assert_eq!(offset, Vec2::new(0, 0));
    assert_eq!(sim.score, 1_000_000);
    assert_eq!(sim.player.unwrap().bullet_timer, 1_000_000);
    let (cues, _) = sim.update(&idle(), 1_000_000, 2_000_000);
    assert_eq!(cues, vec![SoundCue::Shoot]);
    assert_eq!(sim.score, 2_000_000);
    assert_eq!(sim.player.unwrap().bullet_timer, 69_500);
    assert_eq!(sim.bullets.len(), 1);
    assert_eq!(sim.bullets[0].velocity, Vec2::new(707_106, 707_106));
    assert_eq!(sim.bullets[0].position, Vec2::new(20_364_652, 20_364_652));
    assert_eq!(sim.bullets[0].trail_timer, 0);
    assert_eq!(sim.trail_particles.len(), 1);
    assert_eq!(sim.trail_particles[0].lifetime, 700_000);
    assert_eq!(sim.screenshake, 0);
    let (cues, _) = sim.update(&idle(), 50_000, 2_050_000);
    assert!(cues.is_empty());
    assert_eq!(sim.screenshake, 0);
    assert_eq!(sim.bullets[0].trail_timer, 50_000);
    assert_eq!(sim.trail_particles[0].lifetime, 650_000);
}

#[test]
fn a_shot_shakes_the_camera() {
    let mut sim = in_game(1);
    sim.update(&idle(), 1_990_000, 0);
    let (cues, offset) = sim.update(&idle(), 10_000, 0);
    assert_eq!(cues, vec![SoundCue::Shoot]);
    assert_eq!(sim.screenshake, 4_500);
    assert_eq!(offset, Vec2::new(2_160_000, 0));
}

#[test]
fn a_resize_and_the_pointer_reach_the_simulation() {
    let mut sim = in_game(1);
    sim.resize_screen_bounds(0, 1000, 500);
    assert_eq!(sim.display.shorter_dimension, 480_000_000);
    sim.resize_screen_bounds(1, 1000, 500);
    assert_eq!(sim.display.shorter_dimension, 500_000_000);
    assert_eq!(sim.display.half_w, 500_000_000);
    sim.primary_device = ControlDevice::Keyboard;
    sim.check_for_mouse_input(&vec![Vec2::new(1, 1)], STEP);
    assert_eq!(sim.primary_device, ControlDevice::Keyboard);
    sim.check_for_mouse_input(&vec![Vec2::new(ONE, 0)], STEP);
    assert_eq!(sim.primary_device, ControlDevice::Mouse);
}

#[test]
fn two_simulations_with_one_seed_agree() {
    let mut runs: Vec<(Vec<Bullet>, Vec<BounceParticle>)> = Vec::new();
    for _ in 0..2 {
        let mut sim = in_game(424_242);
        sim.bullets.push(bullet(100 * ONE, 100 * ONE, ONE, 0));
        sim.bullets.push(bullet(110 * ONE, 100 * ONE, -ONE, 0));
        sim.bullets.push(bullet(-100 * ONE, 50 * ONE, 0, ONE));
        sim.bullets.push(bullet(-100 * ONE, 60 * ONE, 0, -ONE));
        for _ in 0..20 {
            sim.fixed_update(&still(), STEP);
        }
        assert!(sim.bounce_particles.len() >= 64);
        runs.push((sim.bullets.clone(), sim.bounce_particles.clone()));
    }
    assert_eq!(runs[0], runs[1]);
    let mut other = in_game(7);
    other.bullets.push(bullet(100 * ONE, 100 * ONE, ONE, 0));
    other.bullets.push(bullet(110 * ONE, 100 * ONE, -ONE, 0));
    other.fixed_update(&still(), STEP);
    let mut same = in_game(424_242);
    same.bullets.push(bullet(100 * ONE, 100 * ONE, ONE, 0));
    same.bullets.push(bullet(110 * ONE, 100 * ONE, -ONE, 0));
    same.fixed_update(&still(), STEP);
    assert_eq!(other.bullets, same.bullets);
    assert_ne!(other.bounce_particles, same.bounce_particles);
}
