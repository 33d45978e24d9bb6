use dodge_ball::bullets::next_shot_interval;
use dodge_ball::display::DisplayProperties;
use dodge_ball::fixed::lerp;
use dodge_ball::motion::step_length;
use dodge_ball::particles::{bounce_particle_ease, trail_particle_scale};
use dodge_ball::score::convert_time_to_text;
use dodge_ball::screenshake::handle_screenshake;
use dodge_ball::vector::Vec2;
use dodge_ball::wave::{direction, sample_boundary};

fn units(v: i64) -> f64 {
    v as f64 / 1e6
}

#[test]
fn normalize_agrees_with_the_real_quotient() {
    let vectors: [(i64, i64); 6] = [
        (3, -4),
        (123_456_789, 987_654_321),
        (-1, 1_000_000_000_000),
        (7_000_000, 7_000_001),
        (-4_294_967_296, 4_294_967_295),
        (1 << 59, -(1 << 58)),
    ];
    for (x, y) in vectors {
        let n = Vec2::new(x, y).normalize();
        let len = ((x as f64).powi(2) + (y as f64).powi(2)).sqrt();
        assert!((units(n.x) - x as f64 / len).abs() < 2e-6, "{:?}", (x, y));
        assert!((units(n.y) - y as f64 / len).abs() < 2e-6, "{:?}", (x, y));
    }
}

#[test]
fn lerp_agrees_with_the_real_formula() {
    for (a, b, t) in [(0i64, 500_000i64, 123_456i64), (-7_000_000, 3_000_000, 999_999), (10, -10, 1)] {
        let exact = units(a) + (units(b) - units(a)) * units(t);
        assert!((units(lerp(a, b, t)) - exact).abs() < 2e-6);
    }
}

#[test]
fn the_shot_interval_agrees_with_the_real_formula() {
    let mut score: u64 = 0;
    while score < 12_000_000 {
        let seconds = score as f64 / 1e6;
        let exact = 0.05 + (2.0 - 0.05) * (seconds / 10.0).powi(2).min(1.0);
        assert!((units(next_shot_interval(score)) - exact).abs() < 1e-5, "score {}", score);
        score += 33_333;
    }
}

#[test]
fn step_lengths_agree_with_the_real_product() {
    for (w, h, dt) in [(640u32, 480u32, 15_625u32), (1920, 1080, 16_667), (3, 5, 1_000_000)] {
        let d = DisplayProperties::from_pixels(w, h);
        let shorter = w.min(h) as f64;
        for speed in [300_000i64, 400_000, 500_000] {
            let exact = units(speed) * shorter * (dt as f64 / 1e6);
            assert!((units(step_length(speed, &d, dt)) - exact).abs() < 2e-6);
        }
    }
}

#[test]
fn particle_scales_agree_with_the_real_formulas() {
    let mut lifetime: i64 = 0;
    while lifetime <= 700_000 {
        let exact = 0.5 * (lifetime as f64 / 700_000.0);
        assert!((units(trail_particle_scale(lifetime)) - exact).abs() < 2e-6);
        lifetime += 7_001;
    }
    let mut lifetime: i64 = 0;
    while lifetime <= 500_000 {
        let angle = std::f64::consts::FRAC_PI_2 * (1.0 - lifetime as f64 / 700_000.0);
        assert!((units(bounce_particle_ease(lifetime)) - angle.cos()).abs() < 0.002);
        lifetime += 5_003;
    }
}

#[test]
fn directions_agree_with_sine_and_cosine() {
    let mut t: i64 = 0;
    while t < 1_000_000 {
        let angle = std::f64::consts::TAU * units(t);
        let d = direction(t);
        assert!((units(d.x) - angle.cos()).abs() < 0.002, "t = {}", t);
        assert!((units(d.y) - angle.sin()).abs() < 0.002, "t = {}", t);
        t += 1_009;
    }
    for word in [0u32, 1 << 9, 123_456_789, 0x8000_0000, u32::MAX] {
        let angle = std::f64::consts::TAU * ((word >> 9) as f64 / (1u32 << 23) as f64);
        let d = sample_boundary(word);
        assert!((units(d.x) - angle.cos()).abs() < 0.002);
        assert!((units(d.y) - angle.sin()).abs() < 0.002);
    }
}

#[test]
fn the_camera_offset_agrees_with_the_real_rotation() {
    let d = DisplayProperties::from_pixels(640, 480);
    for elapsed in [0u64, 1_000, 7_350, 500_000, 1_000_000, 3_333_333] {
        let mut shake: i64 = 10_000;
        let offset = handle_screenshake(&mut shake, 0, elapsed, &d);
        let angle = 213.7 * (elapsed as f64 / 1e6);
        assert!((units(offset.x) - angle.cos() * 4.8).abs() < 0.02, "elapsed {}", elapsed);
        assert!((units(offset.y) - angle.sin() * 4.8).abs() < 0.02, "elapsed {}", elapsed);
    }
}

#[test]
fn the_clock_agrees_with_the_division_of_seconds() {
    for (seconds, text) in [(0.0f64, "00:00:00"), (65.33, "01:05:33"), (9.99, "00:09:99"), (3599.5, "59:59:50")] {
        assert_eq!(convert_time_to_text((seconds * 1e6).round() as u64), text);
    }
}
