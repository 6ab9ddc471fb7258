//! What a fresh run starts with.

use vstd::prelude::*;
use crate::armor::ArmorStats;
use crate::configs::{PLAYER_HEALTH, PLAYER_MAX_HEALTH, PLAYER_SPEED};
use crate::gun::{BulletStats, GunStats, GunType};
use crate::player::{Defense, Gold, Health, PlayerInventory, Speed};
use crate::potion::{PotionStats, PotionType};

verus! {

/// The player's stats at the start of a run.
#[derive(Clone, Copy, PartialEq, Eq, Debug, Structural)]
pub struct StartingStats {
    pub health: Health,
    pub speed: Speed,
    pub defense: Defense,
    pub gold: Gold,
}

/// 50 of 200 health, speed 10, defense 1, no gold.
pub fn starting_stats() -> (r: StartingStats)
    ensures
        r == (StartingStats {
            health: Health(PLAYER_HEALTH, PLAYER_MAX_HEALTH),
            speed: Speed(PLAYER_SPEED),
            defense: Defense(1),
            gold: Gold(0),
        }),
{
    StartingStats {
        health: Health(PLAYER_HEALTH, PLAYER_MAX_HEALTH),
        speed: Speed(PLAYER_SPEED),
        defense: Defense(1),
        gold: Gold(0),
    }
}

/// A gun of the starting kit. A gun without stats of its own uses the
/// default gun and bullet stats.
#[derive(Clone, Copy, Debug)]
pub struct StartingGun {
    pub gun_type: GunType,
    pub stats: Option<(GunStats, BulletStats)>,
    pub sprite_index: usize,
}

/// The three guns of the starting kit: the default gun (sprite 65), an
/// omni-spread gun of 40 bullets every 0.5 s (speed 20, damage 20, 0.6 s),
/// and a focused-aim gun of one bullet a second (speed 45, damage 200,
/// 0.7 s).
pub open spec fn starting_guns_spec() -> Seq<StartingGun> {
    seq![
        StartingGun { gun_type: GunType::SingleDirectionSpread, stats: None, sprite_index: 65 },
        StartingGun {
            gun_type: GunType::OmniSpread,
            stats: Some(
                (
                    GunStats { bullets_per_shot: 40, firing_interval: 500, bullet_spread: 300 },
                    BulletStats { speed: 20, damage: 20, lifespan: 600 },
                ),
            ),
            sprite_index: 66,
        },
        StartingGun {
            gun_type: GunType::FocusedAim,
            stats: Some(
                (
                    GunStats { bullets_per_shot: 1, firing_interval: 1000, bullet_spread: 0 },
                    BulletStats { speed: 45, damage: 200, lifespan: 700 },
                ),
            ),
            sprite_index: 67,
        },
    ]
}

/// The three guns of the starting kit, the active one first.
pub fn starting_guns() -> (r: Vec<StartingGun>)
    ensures
        r@ == starting_guns_spec(),
{
    let mut guns: Vec<StartingGun> = Vec::new();
    guns.push(StartingGun { gun_type: GunType::SingleDirectionSpread, stats: None, sprite_index: 65 });
    guns.push(
        StartingGun {
            gun_type: GunType::OmniSpread,
            stats: Some(
                (
                    GunStats { bullets_per_shot: 40, firing_interval: 500, bullet_spread: 300 },
                    BulletStats { speed: 20, damage: 20, lifespan: 600 },
                ),
            ),
            sprite_index: 66,
        },
    );
    guns.push(
        StartingGun {
            gun_type: GunType::FocusedAim,
            stats: Some(
                (
                    GunStats { bullets_per_shot: 1, firing_interval: 1000, bullet_spread: 0 },
                    BulletStats { speed: 45, damage: 200, lifespan: 700 },
                ),
            ),
            sprite_index: 67,
        },
    );
    assert(guns@ =~= starting_guns_spec());
    guns
}

/// The potions of the starting kit: a health potion of 10 (sprite 96) and
/// a speed potion of 10 for one second (sprite 97).
pub fn starting_potions() -> (r: ((PotionType, PotionStats), (PotionType, PotionStats)))
    ensures
        r == (
            (PotionType::Health, PotionStats { effect_duration: 0, effect_amount: 10 }),
            (PotionType::Speed, PotionStats { effect_duration: 1000, effect_amount: 10 }),
        ),
{
    (
        (PotionType::Health, PotionStats { effect_duration: 0, effect_amount: 10 }),
        (PotionType::Speed, PotionStats { effect_duration: 1000, effect_amount: 10 }),
    )
}

/// The armors of the starting kit: a basic one (defense 2, durability 20,
/// sprite 98) and an advanced one (defense 3, durability 30, sprite 99).
pub fn starting_armors() -> (r: (ArmorStats, ArmorStats))
    ensures
        r == (ArmorStats { defense: 2, durability: 20 }, ArmorStats { defense: 3, durability: 30 }),
{
    (ArmorStats { defense: 2, durability: 20 }, ArmorStats { defense: 3, durability: 30 })
}

/// The inventory of a fresh run, from the entities of the starting kit:
/// the three guns with the first active, one potion of each kind, and the
/// two armors with the first active.
pub fn starting_inventory(
    guns: (u64, u64, u64),
    health_potion: u64,
    speed_potion: u64,
    armors: (u64, u64),
) -> (r: PlayerInventory)
    ensures
        r.guns@ == seq![guns.0, guns.1, guns.2],
        r.health_potions@ == seq![health_potion],
        r.speed_potions@ == seq![speed_potion],
        r.armors@ == seq![armors.0, armors.1],
        r.active_gun_index == 0,
        r.active_armor_index == 0,
        r.within_capacity(),
{
    let mut gun_row: Vec<u64> = Vec::new();
    gun_row.push(guns.0);
    gun_row.push(guns.1);
    gun_row.push(guns.2);
    let mut health_row: Vec<u64> = Vec::new();
    health_row.push(health_potion);
    let mut speed_row: Vec<u64> = Vec::new();
    speed_row.push(speed_potion);
    let mut armor_row: Vec<u64> = Vec::new();
    armor_row.push(armors.0);
    armor_row.push(armors.1);
    assert(gun_row@ =~= seq![guns.0, guns.1, guns.2]);
    assert(health_row@ =~= seq![health_potion]);
    assert(speed_row@ =~= seq![speed_potion]);
    assert(armor_row@ =~= seq![armors.0, armors.1]);
    PlayerInventory {
        guns: gun_row,
        health_potions: health_row,
        speed_potions: speed_row,
        armors: armor_row,
        active_gun_index: 0,
        active_armor_index: 0,
    }
}

} // verus!
