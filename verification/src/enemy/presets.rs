//! The kinds of enemy the game knows, each with its stats, sprite, abilities
//! and loot table.

use vstd::prelude::*;
use crate::enemy::builder::{Ability, EnemyBuilder};
use crate::loot::{
    LootDefinition, boss_enemy_loot_items, boss_enemy_loots, medium_enemies_loot_items,
    medium_enemies_loots, strong_enemies_loot_items, strong_enemies_loots, weak_enemies_loot_items,
    weak_enemies_loots,
};

verus! {

/// The kinds of enemy.
#[derive(Clone, Copy, PartialEq, Eq, Debug, Structural)]
pub enum EnemyKind {
    Basic,
    Charging,
    Trail,
    Splitting,
    Shooter,
    Bomber,
    Gurgle,
    MidgameBoss,
}

/// Health, speed, damage and XP of each kind.
pub open spec fn preset_stats(kind: EnemyKind) -> (u32, u32, u32, u32) {
    match kind {
        EnemyKind::Basic => (100, 6, 8, 10),
        EnemyKind::Charging => (150, 6, 10, 20),
        EnemyKind::Trail => (50, 8, 3, 15),
        EnemyKind::Splitting => (120, 3, 4, 5),
        EnemyKind::Shooter => (100, 4, 0, 25),
        EnemyKind::Bomber => (30, 9, 30, 25),
        EnemyKind::Gurgle => (60, 4, 0, 35),
        EnemyKind::MidgameBoss => (30000, 9, 20, 200),
    }
}

/// Sprite index and sprite size of each kind.
pub open spec fn preset_sprite(kind: EnemyKind) -> (usize, (u32, u32)) {
    match kind {
        EnemyKind::Basic => (16, (16, 16)),
        EnemyKind::Charging => (36, (16, 16)),
        EnemyKind::Trail => (20, (16, 16)),
        EnemyKind::Splitting => (56, (16, 16)),
        EnemyKind::Shooter => (52, (16, 16)),
        EnemyKind::Bomber => (48, (16, 16)),
        EnemyKind::Gurgle => (32, (16, 16)),
        EnemyKind::MidgameBoss => (56, (32, 32)),
    }
}

/// The abilities of each kind, in the order they are given.
pub open spec fn preset_abilities(kind: EnemyKind) -> Seq<Ability> {
    match kind {
        EnemyKind::Basic => seq![],
        EnemyKind::Charging => seq![
            Ability::Charge { distance: 400, speed: 25, prepare_time: 1500, cooldown: 5000 },
        ],
        EnemyKind::Trail => seq![
            Ability::Trail { damage: 8, interval: 50, radius: 10000, duration: 4000 },
        ],
        EnemyKind::Splitting => seq![Ability::Splitting { splits: 3 }],
        EnemyKind::Shooter => seq![
            Ability::Shooting {
                bullets: 3,
                shoot_interval: 2000,
                range: 705000,
                bullet_speed: 700,
                bullet_damage: 10,
            },
            Ability::RangedBehavior { preferred_distance: 600000, tolerance: 50000 },
        ],
        EnemyKind::Bomber => seq![Ability::Explosion { radius: 140000, damage: 14 }],
        EnemyKind::Gurgle => seq![
            Ability::Shooting {
                bullets: 1,
                shoot_interval: 1500,
                range: 1205000,
                bullet_speed: 600,
                bullet_damage: 14,
            },
            Ability::RangedBehavior { preferred_distance: 1150000, tolerance: 50000 },
            Ability::GurgleMarker,
        ],
        EnemyKind::MidgameBoss => seq![
            Ability::Shooting {
                bullets: 5,
                shoot_interval: 1000,
                range: 1200000,
                bullet_speed: 400,
                bullet_damage: 15,
            },
            Ability::Charge { distance: 600, speed: 50, prepare_time: 400, cooldown: 3000 },
            Ability::Summoning { min_minions: 8, max_minions: 14, interval: 9000 },
        ],
    }
}

/// The loot table of each kind.
pub open spec fn preset_loot(kind: EnemyKind) -> Seq<LootDefinition> {
    match kind {
        EnemyKind::Shooter => medium_enemies_loot_items(),
        EnemyKind::Bomber | EnemyKind::Gurgle => strong_enemies_loot_items(),
        EnemyKind::MidgameBoss => boss_enemy_loot_items(),
        _ => weak_enemies_loot_items(),
    }
}

/// The enemies of the game: health, speed, contact damage and XP; sprite;
/// and loot table (weak for the basic, charging, trail and splitting
/// enemies, medium for the shooter, strong for the bomber and the gurgle,
/// the boss table for the boss). Only the shooter and the gurgle keep their
/// distance, only the bomber explodes, and only the boss summons.
pub proof fn lemma_enemy_presets()
    ensures
        preset_stats(EnemyKind::Basic) == (100u32, 6u32, 8u32, 10u32) && preset_sprite(EnemyKind::Basic) == (16usize, (16u32, 16u32)) && preset_loot(EnemyKind::Basic) == weak_enemies_loot_items(),
        preset_stats(EnemyKind::Charging) == (150u32, 6u32, 10u32, 20u32) && preset_sprite(EnemyKind::Charging) == (36usize, (16u32, 16u32)) && preset_loot(EnemyKind::Charging) == weak_enemies_loot_items(),
        preset_stats(EnemyKind::Trail) == (50u32, 8u32, 3u32, 15u32) && preset_sprite(EnemyKind::Trail) == (20usize, (16u32, 16u32)) && preset_loot(EnemyKind::Trail) == weak_enemies_loot_items(),
        preset_stats(EnemyKind::Splitting) == (120u32, 3u32, 4u32, 5u32) && preset_sprite(EnemyKind::Splitting) == (56usize, (16u32, 16u32)) && preset_loot(EnemyKind::Splitting) == weak_enemies_loot_items(),
        preset_stats(EnemyKind::Shooter) == (100u32, 4u32, 0u32, 25u32) && preset_sprite(EnemyKind::Shooter) == (52usize, (16u32, 16u32)) && preset_loot(EnemyKind::Shooter) == medium_enemies_loot_items(),
        preset_stats(EnemyKind::Bomber) == (30u32, 9u32, 30u32, 25u32) && preset_sprite(EnemyKind::Bomber) == (48usize, (16u32, 16u32)) && preset_loot(EnemyKind::Bomber) == strong_enemies_loot_items(),
        preset_stats(EnemyKind::Gurgle) == (60u32, 4u32, 0u32, 35u32) && preset_sprite(EnemyKind::Gurgle) == (32usize, (16u32, 16u32)) && preset_loot(EnemyKind::Gurgle) == strong_enemies_loot_items(),
        preset_stats(EnemyKind::MidgameBoss) == (30000u32, 9u32, 20u32, 200u32) && preset_sprite(EnemyKind::MidgameBoss) == (56usize, (32u32, 32u32)) && preset_loot(EnemyKind::MidgameBoss) == boss_enemy_loot_items(),
        forall|k: EnemyKind| #![trigger preset_abilities(k)]
            (exists|i: int|
                0 <= i < preset_abilities(k).len() && #[trigger] preset_abilities(k)[i]
                    is RangedBehavior) <==> (k == EnemyKind::Shooter || k == EnemyKind::Gurgle),
        forall|k: EnemyKind| #![trigger preset_abilities(k)]
            (exists|i: int|
                0 <= i < preset_abilities(k).len() && #[trigger] preset_abilities(k)[i]
                    is Explosion) <==> k == EnemyKind::Bomber,
        forall|k: EnemyKind| #![trigger preset_abilities(k)]
            (exists|i: int|
                0 <= i < preset_abilities(k).len() && #[trigger] preset_abilities(k)[i]
                    is Summoning) <==> k == EnemyKind::MidgameBoss,
{
    assert forall|k: EnemyKind| #![trigger preset_abilities(k)]
        (exists|i: int|
            0 <= i < preset_abilities(k).len() && #[trigger] preset_abilities(k)[i]
                is RangedBehavior) <==> (k == EnemyKind::Shooter || k == EnemyKind::Gurgle) by {
        if k == EnemyKind::Shooter || k == EnemyKind::Gurgle {
            assert(preset_abilities(k)[1] is RangedBehavior);
        }
    }
    assert forall|k: EnemyKind| #![trigger preset_abilities(k)]
        (exists|i: int|
            0 <= i < preset_abilities(k).len() && #[trigger] preset_abilities(k)[i]
                is Explosion) <==> k == EnemyKind::Bomber by {
        if k == EnemyKind::Bomber {
            assert(preset_abilities(k)[0] is Explosion);
        }
    }
    assert forall|k: EnemyKind| #![trigger preset_abilities(k)]
        (exists|i: int|
            0 <= i < preset_abilities(k).len() && #[trigger] preset_abilities(k)[i]
                is Summoning) <==> k == EnemyKind::MidgameBoss by {
        if k == EnemyKind::MidgameBoss {
            assert(preset_abilities(k)[2] is Summoning);
        }
    }
}

/// `b` is an enemy of kind `kind`, with the stats `stats`.
pub open spec fn is_kind_with_stats(b: EnemyBuilder, kind: EnemyKind, stats: (u32, u32, u32, u32)) -> bool {
    &&& (b.health, b.speed, b.damage, b.xp) == stats
    &&& (b.sprite_index, b.sprite_size) == preset_sprite(kind)
    &&& b.abilities@ == preset_abilities(kind)
    &&& b.loot_pool matches Some(p) && p.items@ == preset_loot(kind)
}

/// `b` is an enemy of kind `kind` as the presets make it.
pub open spec fn is_preset(b: EnemyBuilder, kind: EnemyKind) -> bool {
    is_kind_with_stats(b, kind, preset_stats(kind))
}

/// A basic enemy.
pub fn create_basic_enemy() -> (r: EnemyBuilder)
    ensures
        is_preset(r, EnemyKind::Basic),
{
    let r = EnemyBuilder::new().with_stats(100, 6, 8, 10).with_sprite(16, (16, 16)).with_loot_pool(
        weak_enemies_loots(),
    );
    assert(r.abilities@ =~= preset_abilities(EnemyKind::Basic));
    r
}

/// An enemy that charges at the player.
pub fn create_charging_enemy() -> (r: EnemyBuilder)
    ensures
        is_preset(r, EnemyKind::Charging),
{
    let r = EnemyBuilder::new().with_stats(150, 6, 10, 20).with_sprite(36, (16, 16)).with_charge(
        400,
        25,
        1500,
        5000,
    ).with_loot_pool(weak_enemies_loots());
    assert(r.abilities@ =~= preset_abilities(EnemyKind::Charging));
    r
}

/// An enemy that leaves a damaging trail.
pub fn create_trail_enemy() -> (r: EnemyBuilder)
    ensures
        is_preset(r, EnemyKind::Trail),
{
    let r = EnemyBuilder::new().with_stats(50, 8, 3, 15).with_sprite(20, (16, 16)).with_trail(
        8,
        50,
        10000,
        4000,
    ).with_loot_pool(weak_enemies_loots());
    assert(r.abilities@ =~= preset_abilities(EnemyKind::Trail));
    r
}

/// An enemy that splits when it dies.
pub fn create_splitting_enemy() -> (r: EnemyBuilder)
    ensures
        is_preset(r, EnemyKind::Splitting),
{
    let r = EnemyBuilder::new().with_stats(120, 3, 4, 5).with_sprite(56, (16, 16)).with_splitting(
        3,
    ).with_loot_pool(weak_enemies_loots());
    assert(r.abilities@ =~= preset_abilities(EnemyKind::Splitting));
    r
}

/// An enemy that shoots from a distance.
pub fn create_shooter_enemy() -> (r: EnemyBuilder)
    ensures
        is_preset(r, EnemyKind::Shooter),
{
    let r = EnemyBuilder::new().with_stats(100, 4, 0, 25).with_sprite(52, (16, 16)).with_shooting(
        3,
        2000,
        705000,
        700,
        10,
    ).with_loot_pool(medium_enemies_loots()).with_ranged_behavior(600000, 50000);
    assert(r.abilities@ =~= preset_abilities(EnemyKind::Shooter));
    r
}

/// An enemy that explodes.
pub fn create_bomber_enemy() -> (r: EnemyBuilder)
    ensures
        is_preset(r, EnemyKind::Bomber),
{
    let r = EnemyBuilder::new().with_stats(30, 9, 30, 25).with_sprite(48, (16, 16)).with_explosion(
        140000,
        14,
    ).with_loot_pool(strong_enemies_loots());
    assert(r.abilities@ =~= preset_abilities(EnemyKind::Bomber));
    r
}

/// An enemy that fires exploding bullets from far away.
pub fn create_gurgle_enemy() -> (r: EnemyBuilder)
    ensures
        is_preset(r, EnemyKind::Gurgle),
{
    let r = EnemyBuilder::new().with_stats(60, 4, 0, 35).with_sprite(32, (16, 16)).with_shooting(
        1,
        1500,
        1205000,
        600,
        14,
    ).with_ranged_behavior(1150000, 50000).with_gurgle_marker().with_loot_pool(
        strong_enemies_loots(),
    );
    assert(r.abilities@ =~= preset_abilities(EnemyKind::Gurgle));
    r
}

/// The boss of the boss waves.
pub fn create_midgame_boss_enemy() -> (r: EnemyBuilder)
    ensures
        is_preset(r, EnemyKind::MidgameBoss),
{
    let r = EnemyBuilder::new().with_stats(30000, 9, 20, 200).with_sprite(56, (32, 32)).with_shooting(
        5,
        1000,
        1200000,
        400,
        15,
    ).with_charge(600, 50, 400, 3000).with_summoning(8, 14, 9000).with_loot_pool(
        boss_enemy_loots(),
    );
    assert(r.abilities@ =~= preset_abilities(EnemyKind::MidgameBoss));
    r
}

/// An enemy of the given kind.
pub fn create_enemy(kind: EnemyKind) -> (r: EnemyBuilder)
    ensures
        is_preset(r, kind),
{
    match kind {
        EnemyKind::Basic => create_basic_enemy(),
        EnemyKind::Charging => create_charging_enemy(),
        EnemyKind::Trail => create_trail_enemy(),
        EnemyKind::Splitting => create_splitting_enemy(),
        EnemyKind::Shooter => create_shooter_enemy(),
        EnemyKind::Bomber => create_bomber_enemy(),
        EnemyKind::Gurgle => create_gurgle_enemy(),
        EnemyKind::MidgameBoss => create_midgame_boss_enemy(),
    }
}

} // verus!
