use dodge_ball::collision::spawn_burst;
use dodge_ball::entities::BounceParticle;
use dodge_ball::random::RandomSource;
use dodge_ball::vector::Vec2;
use dodge_ball::wave::sample_boundary;
use rand::{RngCore, SeedableRng};
use rand_chacha::ChaCha8Rng;

#[test]
fn the_source_hands_out_the_chacha_stream_of_its_seed() {
    let mut source = RandomSource::new(2137);
    let mut reference = ChaCha8Rng::seed_from_u64(2137);
    for _ in 0..200 {
        assert_eq!(source.next_u32(), reference.next_u32());
    }
}

#[test]
fn the_same_seed_gives_the_same_words() {
    let mut first = RandomSource::new(99);
    let mut second = RandomSource::new(99);
    for _ in 0..64 {
        assert_eq!(first.next_u32(), second.next_u32());
    }
}

#[test]
fn the_words_depend_on_the_seed_and_move_on() {
    let mut first = RandomSource::new(1);
    let mut second = RandomSource::new(2);
    let a: Vec<u32> = (0..8).map(|_| first.next_u32()).collect();
    let b: Vec<u32> = (0..8).map(|_| second.next_u32()).collect();
    assert_ne!(a, b);
    assert_ne!(a[0], a[1]);
    assert_ne!(a[0], 1);
}

#[test]
fn known_words_of_the_default_seed() {
    let mut source = RandomSource::new(2137);
    let words: Vec<u32> = (0..4).map(|_| source.next_u32()).collect();
    assert_eq!(words, vec![2230880387, 1933127272, 3806913862, 1521904893]);
}

#[test]
fn a_burst_draws_its_directions_in_order() {
    let mut source = RandomSource::new(2137);
    let mut reference = ChaCha8Rng::seed_from_u64(2137);
    let mut particles: Vec<BounceParticle> = Vec::new();
    let origin = Vec2::new(5, -7);
    spawn_burst(&mut particles, origin, &mut source);
    assert_eq!(particles.len(), 32);
    for p in &particles {
        assert_eq!(p.position, origin);
        assert_eq!(p.lifetime, 500_000);
        assert_eq!(p.velocity, sample_boundary(reference.next_u32()));
        assert!(p.velocity.unit());
    }
    assert_eq!(source.next_u32(), reference.next_u32());
}

#[test]
fn two_runs_with_one_seed_throw_out_the_same_bursts() {
    let mut runs: Vec<Vec<BounceParticle>> = Vec::new();
    for _ in 0..2 {
        let mut source = RandomSource::new(77);
        let mut particles: Vec<BounceParticle> = Vec::new();
        spawn_burst(&mut particles, Vec2::new(0, 0), &mut source);
        spawn_burst(&mut particles, Vec2::new(10, 10), &mut source);
        runs.push(particles);
    }
    assert_eq!(runs[0].len(), 64);
    assert_eq!(runs[0], runs[1]);
    assert_ne!(runs[0][0].velocity, runs[0][32].velocity);
}
