//! The records that the simulation keeps of each kind of entity.

use vstd::prelude::*;
use crate::fixed::LIMIT;
use crate::vector::Vec2;

verus! {

/// Time between two trail particles of one projectile, in microseconds.
pub const BULLET_PARTICLE_INTERVAL: u32 = 100_000;

/// Lifetime of a trail particle at its start, in microseconds.
pub const TRAIL_PARTICLE_LIFETIME: i64 = 700_000;

/// Lifetime of a burst particle at its start, in microseconds.
pub const COLLISION_PARTICLE_LIFETIME: i64 = 500_000;

/// Number of particles in one burst.
pub const COLLISION_PARTICLE_COUNT: usize = 32;

/// The player's avatar: where it is, and the time left until its next shot,
/// in microseconds.
#[derive(Clone, Copy, Debug, PartialEq, Eq, Structural)]
pub struct Player {
    pub position: Vec2,
    pub bullet_timer: i64,
}

/// A projectile: where it is, the direction in which it flies, and the time
/// since its last trail particle.
#[derive(Clone, Copy, Debug, PartialEq, Eq, Structural)]
pub struct Bullet {
    pub position: Vec2,
    pub velocity: Vec2,
    pub trail_timer: u32,
}

/// A particle left behind by a projectile.
#[derive(Clone, Copy, Debug, PartialEq, Eq, Structural)]
pub struct TrailParticle {
    pub position: Vec2,
    pub lifetime: i64,
}

/// A particle thrown out where two projectiles met.
#[derive(Clone, Copy, Debug, PartialEq, Eq, Structural)]
pub struct BounceParticle {
    pub position: Vec2,
    pub lifetime: i64,
    pub velocity: Vec2,
}

impl Player {
    /// The player is in the world and its timer within the saturation
    /// limit.
    pub open spec fn wf(self) -> bool {
        &&& self.position.in_world()
        &&& -LIMIT <= self.bullet_timer <= LIMIT
    }
}

impl Bullet {
    /// The projectile is in the world, flies in a unit direction, and its
    /// trail timer is within one interval.
    pub open spec fn wf(self) -> bool {
        &&& self.position.in_world()
        &&& self.velocity.is_unit()
        &&& self.trail_timer < BULLET_PARTICLE_INTERVAL
    }
}

impl TrailParticle {
    /// The particle is in the world and its lifetime between nothing and
    /// that of a fresh particle.
    pub open spec fn wf(self) -> bool {
        &&& self.position.in_world()
        &&& 0 <= self.lifetime <= TRAIL_PARTICLE_LIFETIME
    }
}

impl BounceParticle {
    /// The particle is in the world, flies in a unit direction, and its
    /// lifetime is between nothing and that of a fresh particle.
    pub open spec fn wf(self) -> bool {
        &&& self.position.in_world()
        &&& self.velocity.is_unit()
        &&& 0 <= self.lifetime <= COLLISION_PARTICLE_LIFETIME
    }
}

/// Every projectile of the sequence is well formed.
pub open spec fn bullets_wf(bullets: Seq<Bullet>) -> bool {
    forall|k: int| 0 <= k < bullets.len() ==> (#[trigger] bullets[k]).wf()
}

/// Every trail particle of the sequence is well formed.
pub open spec fn trail_wf(particles: Seq<TrailParticle>) -> bool {
    forall|k: int| 0 <= k < particles.len() ==> (#[trigger] particles[k]).wf()
}

/// Every burst particle of the sequence is well formed.
pub open spec fn bounce_wf(particles: Seq<BounceParticle>) -> bool {
    forall|k: int| 0 <= k < particles.len() ==> (#[trigger] particles[k]).wf()
}

} // verus!
