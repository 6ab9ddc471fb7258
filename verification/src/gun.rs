//! Guns and the bullets they fire.

use vstd::prelude::*;
use crate::configs::{
    BULLET_DAMAGE, BULLET_SPEED, BULLET_SPREAD_MILLI, BULLET_TIME_MS, FIRING_INTERVAL_MS,
    NUM_BULLETS_PER_SHOT,
};

verus! {

/// How a gun fires.
#[derive(Clone, Copy, PartialEq, Eq, Debug, Structural)]
pub enum GunType {
    /// Several bullets towards the aim, spread around it.
    SingleDirectionSpread,
    /// Bullets in every direction, evenly apart.
    OmniSpread,
    /// One bullet that steers towards the nearest enemy.
    FocusedAim,
}

/// What every bullet of a gun carries.
#[derive(Clone, Copy, PartialEq, Eq, Debug, Structural)]
pub struct BulletStats {
    pub speed: u32,
    pub damage: u32,
    /// Life of the bullet, in milliseconds.
    pub lifespan: u32,
}

/// How a gun shoots.
#[derive(Clone, Copy, PartialEq, Eq, Debug, Structural)]
pub struct GunStats {
    pub bullets_per_shot: usize,
    /// Time between two shots, in milliseconds.
    pub firing_interval: u32,
    /// Spread of the bullets around the aim, in thousandths.
    pub bullet_spread: u32,
}

/// The bullets of a gun that comes with no stats of its own.
pub fn default_bullet_stats() -> (r: BulletStats)
    ensures
        r == (BulletStats { speed: BULLET_SPEED, damage: BULLET_DAMAGE, lifespan: BULLET_TIME_MS }),
{
    BulletStats { speed: BULLET_SPEED, damage: BULLET_DAMAGE, lifespan: BULLET_TIME_MS }
}

/// The shooting of a gun that comes with no stats of its own.
pub fn default_gun_stats() -> (r: GunStats)
    ensures
        r == (GunStats {
            bullets_per_shot: NUM_BULLETS_PER_SHOT,
            firing_interval: FIRING_INTERVAL_MS,
            bullet_spread: BULLET_SPREAD_MILLI,
        }),
{
    GunStats {
        bullets_per_shot: NUM_BULLETS_PER_SHOT,
        firing_interval: FIRING_INTERVAL_MS,
        bullet_spread: BULLET_SPREAD_MILLI,
    }
}

/// One volley of a gun: how many bullets, how far they spread, and the
/// range of sprite indices they are drawn from.
#[derive(Clone, Copy, PartialEq, Eq, Debug, Structural)]
pub struct Volley {
    pub bullets: usize,
    /// Spread around the aim, in thousandths; 0 for guns that do not spread.
    pub spread: u32,
    /// Whether the bullets leave evenly around the whole circle.
    pub all_around: bool,
    pub first_sprite: usize,
    pub last_sprite: usize,
}

/// The volley of a gun of type `gun_type` with `stats`, when its timer allows
/// a shot.
pub open spec fn volley_spec(gun_type: GunType, stats: GunStats) -> Volley {
    match gun_type {
        GunType::SingleDirectionSpread => Volley {
            bullets: stats.bullets_per_shot,
            spread: stats.bullet_spread,
            all_around: false,
            first_sprite: 80,
            last_sprite: 83,
        },
        GunType::OmniSpread => Volley {
            bullets: stats.bullets_per_shot,
            spread: 0,
            all_around: true,
            first_sprite: 84,
            last_sprite: 87,
        },
        GunType::FocusedAim => Volley {
            bullets: 1,
            spread: 0,
            all_around: false,
            first_sprite: 84,
            last_sprite: 87,
        },
    }
}

/// The volley that a gun fires.
pub fn volley(gun_type: GunType, stats: &GunStats) -> (r: Volley)
    ensures
        r == volley_spec(gun_type, *stats),
{
    match gun_type {
        GunType::SingleDirectionSpread => Volley {
            bullets: stats.bullets_per_shot,
            spread: stats.bullet_spread,
            all_around: false,
            first_sprite: 80,
            last_sprite: 83,
        },
        GunType::OmniSpread => Volley {
            bullets: stats.bullets_per_shot,
            spread: 0,
            all_around: true,
            first_sprite: 84,
            last_sprite: 87,
        },
        GunType::FocusedAim => Volley {
            bullets: 1,
            spread: 0,
            all_around: false,
            first_sprite: 84,
            last_sprite: 87,
        },
    }
}

/// Whether a gun whose timer reads `elapsed_ms` may fire again.
pub fn ready_to_fire(elapsed_ms: u32, stats: &GunStats) -> (r: bool)
    ensures
        r == (elapsed_ms >= stats.firing_interval),
{
    elapsed_ms >= stats.firing_interval
}

} // verus!
