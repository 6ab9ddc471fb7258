//! Loot: what enemies drop, with which chance, and the stats of what drops.
//!
//! Chances are out of 10 000, durations in milliseconds and spreads in
//! thousandths.

use vstd::prelude::*;
use crate::armor::ArmorStats;
use crate::gun::{BulletStats, GunStats, GunType};
use crate::potion::{PotionStats, PotionType};
use crate::rng::gen_range_inclusive;

verus! {

/// Chances of a drop are counted out of this many.
pub const DROP_CHANCE_SCALE: u64 = 10000;

/// The selling price of an item.
#[derive(Clone, Copy, PartialEq, Eq, Debug, Structural)]
pub struct Value(pub u32);

/// The three kinds of loot.
#[derive(Clone, Copy, PartialEq, Eq, Debug, Structural)]
pub enum LootType {
    Gun,
    Armor,
    Potion,
}

/// Inclusive ranges from which the stats of a dropped gun are drawn.
#[derive(Clone, Copy, Debug)]
pub struct GunStatRange {
    pub bullets_per_shot: (usize, usize),
    /// In milliseconds.
    pub firing_interval: (u32, u32),
    /// In thousandths.
    pub bullet_spread: (u32, u32),
    pub bullet_speed: (u32, u32),
    /// In milliseconds.
    pub bullet_lifespan: (u32, u32),
    pub bullet_damage: (u32, u32),
}

/// Inclusive ranges from which the stats of a dropped armor are drawn.
#[derive(Clone, Copy, Debug)]
pub struct ArmorStatRange {
    pub defense: (u32, u32),
    pub durability: (u32, u32),
}

/// Inclusive ranges from which the stats of a dropped potion are drawn.
#[derive(Clone, Copy, Debug)]
pub struct PotionStatRange {
    /// In milliseconds.
    pub effect_duration: (u32, u32),
    pub effect_amount: (u32, u32),
}

/// The stat ranges of one kind of loot.
#[derive(Clone, Copy, Debug)]
pub enum LootStatRange {
    Gun(GunStatRange),
    Armor(ArmorStatRange),
    Potion(PotionStatRange),
    NoStats,
}

/// One entry of a loot table.
#[derive(Clone, Copy, Debug)]
pub struct LootDefinition {
    pub loot_type: LootType,
    /// Chance to drop, out of `DROP_CHANCE_SCALE`.
    pub drop_chance: u32,
    pub value: u32,
    pub stat_range: LootStatRange,
}

/// The loot table of an enemy.
pub struct LootPool {
    pub items: Vec<LootDefinition>,
}

impl Default for LootPool {
    /// A table with no entries.
    fn default() -> (r: Self)
        ensures
            r.items@ == Seq::<LootDefinition>::empty(),
    {
        LootPool { items: Vec::new() }
    }
}

/// The entries whose roll falls under their chance, among the first `n`,
/// in table order.
pub open spec fn drops_upto(items: Seq<LootDefinition>, rolls: Seq<u64>, n: nat) -> Seq<LootDefinition>
    decreases n,
{
    if n == 0 {
        Seq::empty()
    } else {
        let rest = drops_upto(items, rolls, (n - 1) as nat);
        if rolls[n - 1] < items[n - 1].drop_chance as u64 {
            rest.push(items[n - 1])
        } else {
            rest
        }
    }
}

/// The entries of a table that drop, given one roll per entry.
pub open spec fn drops(items: Seq<LootDefinition>, rolls: Seq<u64>) -> Seq<LootDefinition> {
    drops_upto(items, rolls, items.len())
}

impl LootPool {
    /// The entries that drop when entry `i` rolled `rolls[i]`: those whose
    /// roll is under their chance, in table order.
    pub fn loots_for_rolls(&self, rolls: &Vec<u64>) -> (r: Vec<LootDefinition>)
        requires
            rolls.len() == self.items.len(),
        ensures
            r@ == drops(self.items@, rolls@),
    {
        let mut successful_loots: Vec<LootDefinition> = Vec::new();
        let mut i: usize = 0;
        while i < self.items.len()
            invariant
                rolls.len() == self.items.len(),
                i <= self.items.len(),
                successful_loots@ == drops_upto(self.items@, rolls@, i as nat),
            decreases self.items.len() - i,
        {
            let item = self.items[i];
            if rolls[i] < item.drop_chance as u64 {
                successful_loots.push(item);
            }
            i = i + 1;
        }
        successful_loots
    }

    /// Rolls every entry once, uniformly out of `DROP_CHANCE_SCALE`, and
    /// returns the entries that drop.
    pub fn get_random_loots(&self) -> (r: Vec<LootDefinition>)
        ensures
            exists|rolls: Seq<u64>|
                {
                    &&& rolls.len() == self.items.len()
                    &&& forall|i: int| 0 <= i < rolls.len() ==> rolls[i] < DROP_CHANCE_SCALE
                    &&& r@ == drops(self.items@, rolls)
                },
    {
        let mut rolls: Vec<u64> = Vec::new();
        let mut i: usize = 0;
        while i < self.items.len()
            invariant
                i <= self.items.len(),
                rolls.len() == i,
                forall|j: int| 0 <= j < rolls.len() ==> rolls[j] < DROP_CHANCE_SCALE,
            decreases self.items.len() - i,
        {
            let roll = gen_range_inclusive(0, DROP_CHANCE_SCALE - 1);
            rolls.push(roll);
            i = i + 1;
        }
        let r = self.loots_for_rolls(&rolls);
        assert(rolls@.len() == self.items.len());
        r
    }
}

/// The potion entry of the weak loot table.
pub open spec fn weak_potion_loot() -> LootDefinition {
    LootDefinition {
        loot_type: LootType::Potion,
        drop_chance: 800,
        value: 10,
        stat_range: LootStatRange::Potion(
            PotionStatRange { effect_duration: (3000, 5000), effect_amount: (5, 10) },
        ),
    }
}

/// The gun entry of the weak loot table.
pub open spec fn weak_gun_loot() -> LootDefinition {
    LootDefinition {
        loot_type: LootType::Gun,
        drop_chance: 100,
        value: 20,
        stat_range: LootStatRange::Gun(
            GunStatRange {
                bullets_per_shot: (10, 20),
                firing_interval: (300, 500),
                bullet_spread: (150, 200),
                bullet_speed: (10, 20),
                bullet_lifespan: (1000, 2000),
                bullet_damage: (30, 40),
            },
        ),
    }
}

/// The loot table of weak enemies.
pub open spec fn weak_enemies_loot_items() -> Seq<LootDefinition> {
    seq![weak_potion_loot(), weak_gun_loot()]
}

/// The potion entry of the medium loot table.
pub open spec fn medium_potion_loot() -> LootDefinition {
    LootDefinition {
        loot_type: LootType::Potion,
        drop_chance: 1000,
        value: 12,
        stat_range: LootStatRange::Potion(
            PotionStatRange { effect_duration: (4000, 7000), effect_amount: (7, 12) },
        ),
    }
}

/// The armor entry of the medium loot table.
pub open spec fn medium_armor_loot() -> LootDefinition {
    LootDefinition {
        loot_type: LootType::Armor,
        drop_chance: 300,
        value: 25,
        stat_range: LootStatRange::Armor(ArmorStatRange { defense: (1, 3), durability: (15, 30) }),
    }
}

/// The gun entry of the medium loot table.
pub open spec fn medium_gun_loot() -> LootDefinition {
    LootDefinition {
        loot_type: LootType::Gun,
        drop_chance: 400,
        value: 30,
        stat_range: LootStatRange::Gun(
            GunStatRange {
                bullets_per_shot: (15, 30),
                firing_interval: (200, 400),
                bullet_spread: (100, 150),
                bullet_speed: (20, 30),
                bullet_lifespan: (1500, 3000),
                bullet_damage: (50, 100),
            },
        ),
    }
}

/// The loot table of medium enemies.
pub open spec fn medium_enemies_loot_items() -> Seq<LootDefinition> {
    seq![medium_potion_loot(), medium_armor_loot(), medium_gun_loot()]
}

/// The potion entry of the strong loot table.
pub open spec fn strong_potion_loot() -> LootDefinition {
    LootDefinition {
        loot_type: LootType::Potion,
        drop_chance: 3000,
        value: 15,
        stat_range: LootStatRange::Potion(
            PotionStatRange { effect_duration: (6000, 10000), effect_amount: (8, 15) },
        ),
    }
}

/// The gun entry of the strong loot table.
pub open spec fn strong_gun_loot() -> LootDefinition {
    LootDefinition {
        loot_type: LootType::Gun,
        drop_chance: 1000,
        value: 40,
        stat_range: LootStatRange::Gun(
            GunStatRange {
                bullets_per_shot: (40, 60),
                firing_interval: (100, 300),
                bullet_spread: (50, 150),
                bullet_speed: (30, 50),
                bullet_lifespan: (2000, 4000),
                bullet_damage: (70, 120),
            },
        ),
    }
}

/// The armor entry of the strong loot table.
pub open spec fn strong_armor_loot() -> LootDefinition {
    LootDefinition {
        loot_type: LootType::Armor,
        drop_chance: 1000,
        value: 40,
        stat_range: LootStatRange::Armor(ArmorStatRange { defense: (2, 5), durability: (20, 40) }),
    }
}

/// The loot table of strong enemies.
pub open spec fn strong_enemies_loot_items() -> Seq<LootDefinition> {
    seq![strong_potion_loot(), strong_gun_loot(), strong_armor_loot()]
}

/// The potion entry of the boss loot table.
pub open spec fn boss_potion_loot() -> LootDefinition {
    LootDefinition {
        loot_type: LootType::Potion,
        drop_chance: 5000,
        value: 20,
        stat_range: LootStatRange::Potion(
            PotionStatRange { effect_duration: (10000, 20000), effect_amount: (10, 20) },
        ),
    }
}

/// The gun entry of the boss loot table.
pub open spec fn boss_gun_loot() -> LootDefinition {
    LootDefinition {
        loot_type: LootType::Gun,
        drop_chance: 2000,
        value: 50,
        stat_range: LootStatRange::Gun(
            GunStatRange {
                bullets_per_shot: (60, 80),
                firing_interval: (100, 200),
                bullet_spread: (50, 100),
                bullet_speed: (50, 80),
                bullet_lifespan: (3000, 5000),
                bullet_damage: (140, 200),
            },
        ),
    }
}

/// The armor entry of the boss loot table.
pub open spec fn boss_armor_loot() -> LootDefinition {
    LootDefinition {
        loot_type: LootType::Armor,
        drop_chance: 2000,
        value: 50,
        stat_range: LootStatRange::Armor(ArmorStatRange { defense: (3, 7), durability: (30, 60) }),
    }
}

/// The loot table of bosses.
pub open spec fn boss_enemy_loot_items() -> Seq<LootDefinition> {
    seq![boss_potion_loot(), boss_gun_loot(), boss_armor_loot()]
}

/// The loot table of weak enemies.
pub fn weak_enemies_loots() -> (r: LootPool)
    ensures
        r.items@ == weak_enemies_loot_items(),
{
    let mut items: Vec<LootDefinition> = Vec::new();
    items.push(
        LootDefinition {
            loot_type: LootType::Potion,
            drop_chance: 800,
            value: 10,
            stat_range: LootStatRange::Potion(
                PotionStatRange { effect_duration: (3000, 5000), effect_amount: (5, 10) },
            ),
        },
    );
    items.push(
        LootDefinition {
            loot_type: LootType::Gun,
            drop_chance: 100,
            value: 20,
            stat_range: LootStatRange::Gun(
                GunStatRange {
                    bullets_per_shot: (10, 20),
                    firing_interval: (300, 500),
                    bullet_spread: (150, 200),
                    bullet_speed: (10, 20),
                    bullet_lifespan: (1000, 2000),
                    bullet_damage: (30, 40),
                },
            ),
        },
    );
    assert(items@ =~= weak_enemies_loot_items());
    LootPool { items }
}

/// The loot table of medium enemies.
pub fn medium_enemies_loots() -> (r: LootPool)
    ensures
        r.items@ == medium_enemies_loot_items(),
{
    let mut items: Vec<LootDefinition> = Vec::new();
    items.push(
        LootDefinition {
            loot_type: LootType::Potion,
            drop_chance: 1000,
            value: 12,
            stat_range: LootStatRange::Potion(
                PotionStatRange { effect_duration: (4000, 7000), effect_amount: (7, 12) },
            ),
        },
    );
    items.push(
        LootDefinition {
            loot_type: LootType::Armor,
            drop_chance: 300,
            value: 25,
            stat_range: LootStatRange::Armor(
                ArmorStatRange { defense: (1, 3), durability: (15, 30) },
            ),
        },
    );
    items.push(
        LootDefinition {
            loot_type: LootType::Gun,
            drop_chance: 400,
            value: 30,
            stat_range: LootStatRange::Gun(
                GunStatRange {
                    bullets_per_shot: (15, 30),
                    firing_interval: (200, 400),
                    bullet_spread: (100, 150),
                    bullet_speed: (20, 30),
                    bullet_lifespan: (1500, 3000),
                    bullet_damage: (50, 100),
                },
            ),
        },
    );
    assert(items@ =~= medium_enemies_loot_items());
    LootPool { items }
}

/// The loot table of strong enemies.
pub fn strong_enemies_loots() -> (r: LootPool)
    ensures
        r.items@ == strong_enemies_loot_items(),
{
    let mut items: Vec<LootDefinition> = Vec::new();
    items.push(
        LootDefinition {
            loot_type: LootType::Potion,
            drop_chance: 3000,
            value: 15,
            stat_range: LootStatRange::Potion(
                PotionStatRange { effect_duration: (6000, 10000), effect_amount: (8, 15) },
            ),
        },
    );
    items.push(
        LootDefinition {
            loot_type: LootType::Gun,
            drop_chance: 1000,
            value: 40,
            stat_range: LootStatRange::Gun(
                GunStatRange {
                    bullets_per_shot: (40, 60),
                    firing_interval: (100, 300),
                    bullet_spread: (50, 150),
                    bullet_speed: (30, 50),
                    bullet_lifespan: (2000, 4000),
                    bullet_damage: (70, 120),
                },
            ),
        },
    );
    items.push(
        LootDefinition {
            loot_type: LootType::Armor,
            drop_chance: 1000,
            value: 40,
            stat_range: LootStatRange::Armor(
                ArmorStatRange { defense: (2, 5), durability: (20, 40) },
            ),
        },
    );
    assert(items@ =~= strong_enemies_loot_items());
    LootPool { items }
}

/// The loot table of bosses.
pub fn boss_enemy_loots() -> (r: LootPool)
    ensures
        r.items@ == boss_enemy_loot_items(),
{
    let mut items: Vec<LootDefinition> = Vec::new();
    items.push(
        LootDefinition {
            loot_type: LootType::Potion,
            drop_chance: 5000,
            value: 20,
            stat_range: LootStatRange::Potion(
                PotionStatRange { effect_duration: (10000, 20000), effect_amount: (10, 20) },
            ),
        },
    );
    items.push(
        LootDefinition {
            loot_type: LootType::Gun,
            drop_chance: 2000,
            value: 50,
            stat_range: LootStatRange::Gun(
                GunStatRange {
                    bullets_per_shot: (60, 80),
                    firing_interval: (100, 200),
                    bullet_spread: (50, 100),
                    bullet_speed: (50, 80),
                    bullet_lifespan: (3000, 5000),
                    bullet_damage: (140, 200),
                },
            ),
        },
    );
    items.push(
        LootDefinition {
            loot_type: LootType::Armor,
            drop_chance: 2000,
            value: 50,
            stat_range: LootStatRange::Armor(
                ArmorStatRange { defense: (3, 7), durability: (30, 60) },
            ),
        },
    );
    assert(items@ =~= boss_enemy_loot_items());
    LootPool { items }
}

/// Whether `x` lies in the inclusive range `r`.
pub open spec fn within(x: u64, r: (u32, u32)) -> bool {
    r.0 <= x <= r.1
}

impl GunStatRange {
    /// Every range is non-empty.
    pub open spec fn wf(self) -> bool {
        &&& self.bullets_per_shot.0 <= self.bullets_per_shot.1
        &&& self.firing_interval.0 <= self.firing_interval.1
        &&& self.bullet_spread.0 <= self.bullet_spread.1
        &&& self.bullet_speed.0 <= self.bullet_speed.1
        &&& self.bullet_lifespan.0 <= self.bullet_lifespan.1
        &&& self.bullet_damage.0 <= self.bullet_damage.1
    }
}

impl ArmorStatRange {
    /// Every range is non-empty.
    pub open spec fn wf(self) -> bool {
        &&& self.defense.0 <= self.defense.1
        &&& self.durability.0 <= self.durability.1
    }
}

impl PotionStatRange {
    /// Every range is non-empty.
    pub open spec fn wf(self) -> bool {
        &&& self.effect_duration.0 <= self.effect_duration.1
        &&& self.effect_amount.0 <= self.effect_amount.1
    }
}

/// The draws that decide a dropped gun.
#[derive(Clone, Copy, Debug)]
pub struct GunRolls {
    pub speed: u64,
    pub lifespan: u64,
    pub damage: u64,
    /// 0: focused aim, 1: omni spread, 2: single-direction spread.
    pub kind: u64,
    pub bullets: u64,
    pub interval: u64,
    pub spread: u64,
    pub sprite: u64,
}

/// A gun made from a stat range.
#[derive(Clone, Copy, Debug)]
pub struct RolledGun {
    pub gun_type: GunType,
    pub gun_stats: GunStats,
    pub bullet_stats: BulletStats,
    pub sprite_index: usize,
}

/// The draws lie inside the ranges they are drawn from.
pub open spec fn gun_rolls_fit(range: GunStatRange, rolls: GunRolls) -> bool {
    &&& within(rolls.speed, range.bullet_speed)
    &&& within(rolls.lifespan, range.bullet_lifespan)
    &&& within(rolls.damage, range.bullet_damage)
    &&& rolls.kind < 3
    &&& range.bullets_per_shot.0 <= rolls.bullets <= range.bullets_per_shot.1
    &&& within(rolls.interval, range.firing_interval)
    &&& within(rolls.spread, range.bullet_spread)
    &&& 64 <= rolls.sprite <= 66
}

/// An omni-spread gun fires one and a half times the bullets drawn, rounded
/// down and capped at the largest `usize`.
pub open spec fn omni_bullets(n: usize) -> usize {
    if n + n / 2 > usize::MAX {
        usize::MAX
    } else {
        (n + n / 2) as usize
    }
}

/// The gun that the draws make: a focused-aim gun fires one bullet without
/// spread at half the drawn interval, an omni-spread gun one and a half times
/// the drawn bullets at four fifths of the drawn interval, and a
/// single-direction gun exactly what was drawn.
pub open spec fn gun_from_rolls_spec(rolls: GunRolls) -> RolledGun {
    let bullet_stats = BulletStats {
        speed: rolls.speed as u32,
        damage: rolls.damage as u32,
        lifespan: rolls.lifespan as u32,
    };
    let (gun_type, gun_stats) = if rolls.kind == 0 {
        (
            GunType::FocusedAim,
            GunStats { bullets_per_shot: 1, firing_interval: (rolls.interval / 2) as u32, bullet_spread: 0 },
        )
    } else if rolls.kind == 1 {
        (
            GunType::OmniSpread,
            GunStats {
                bullets_per_shot: omni_bullets(rolls.bullets as usize),
                firing_interval: (rolls.interval * 4 / 5) as u32,
                bullet_spread: rolls.spread as u32,
            },
        )
    } else {
        (
            GunType::SingleDirectionSpread,
            GunStats {
                bullets_per_shot: rolls.bullets as usize,
                firing_interval: rolls.interval as u32,
                bullet_spread: rolls.spread as u32,
            },
        )
    };
    RolledGun { gun_type, gun_stats, bullet_stats, sprite_index: rolls.sprite as usize }
}

/// The gun that the draws make.
pub fn gun_from_rolls(range: &GunStatRange, rolls: &GunRolls) -> (r: RolledGun)
    requires
        gun_rolls_fit(*range, *rolls),
    ensures
        r == gun_from_rolls_spec(*rolls),
{
    let bullet_stats = BulletStats {
        speed: rolls.speed as u32,
        damage: rolls.damage as u32,
        lifespan: rolls.lifespan as u32,
    };
    let (gun_type, gun_stats) = if rolls.kind == 0 {
        (
            GunType::FocusedAim,
            GunStats { bullets_per_shot: 1, firing_interval: (rolls.interval / 2) as u32, bullet_spread: 0 },
        )
    } else if rolls.kind == 1 {
        let n = rolls.bullets as usize;
        let half = n / 2;
        let bullets = if n > usize::MAX - half {
            usize::MAX
        } else {
            n + half
        };
        (
            GunType::OmniSpread,
            GunStats {
                bullets_per_shot: bullets,
                firing_interval: (rolls.interval * 4 / 5) as u32,
                bullet_spread: rolls.spread as u32,
            },
        )
    } else {
        (
            GunType::SingleDirectionSpread,
            GunStats {
                bullets_per_shot: rolls.bullets as usize,
                firing_interval: rolls.interval as u32,
                bullet_spread: rolls.spread as u32,
            },
        )
    };
    RolledGun { gun_type, gun_stats, bullet_stats, sprite_index: rolls.sprite as usize }
}

/// Draws a gun from a stat range: bullet speed, life and damage, then the
/// kind of gun, then what that kind needs, then its sprite.
pub fn roll_gun(range: &GunStatRange) -> (r: RolledGun)
    requires
        range.wf(),
    ensures
        exists|rolls: GunRolls| gun_rolls_fit(*range, rolls) && r == gun_from_rolls_spec(rolls),
{
    let speed = gen_range_inclusive(range.bullet_speed.0 as u64, range.bullet_speed.1 as u64);
    let lifespan = gen_range_inclusive(
        range.bullet_lifespan.0 as u64,
        range.bullet_lifespan.1 as u64,
    );
    let damage = gen_range_inclusive(range.bullet_damage.0 as u64, range.bullet_damage.1 as u64);
    let kind = gen_range_inclusive(0, 2);
    let mut bullets: u64 = range.bullets_per_shot.0 as u64;
    let mut spread: u64 = range.bullet_spread.0 as u64;
    if kind != 0 {
        bullets = gen_range_inclusive(
            range.bullets_per_shot.0 as u64,
            range.bullets_per_shot.1 as u64,
        );
    }
    let interval = gen_range_inclusive(
        range.firing_interval.0 as u64,
        range.firing_interval.1 as u64,
    );
    if kind != 0 {
        spread = gen_range_inclusive(range.bullet_spread.0 as u64, range.bullet_spread.1 as u64);
    }
    let sprite = gen_range_inclusive(64, 66);
    let rolls = GunRolls { speed, lifespan, damage, kind, bullets, interval, spread, sprite };
    gun_from_rolls(range, &rolls)
}

/// The draws that decide a dropped armor.
#[derive(Clone, Copy, Debug)]
pub struct ArmorRolls {
    pub defense: u64,
    pub durability: u64,
}

/// The sprite of every dropped armor.
pub const ARMOR_SPRITE_INDEX: usize = 98;

/// The armor that the draws make.
pub open spec fn armor_from_rolls_spec(rolls: ArmorRolls) -> ArmorStats {
    ArmorStats { defense: rolls.defense as u32, durability: rolls.durability as u32 }
}

/// The draws lie inside the ranges they are drawn from.
pub open spec fn armor_rolls_fit(range: ArmorStatRange, rolls: ArmorRolls) -> bool {
    within(rolls.defense, range.defense) && within(rolls.durability, range.durability)
}

/// Draws an armor from a stat range: its defense, then its durability.
pub fn roll_armor(range: &ArmorStatRange) -> (r: ArmorStats)
    requires
        range.wf(),
    ensures
        exists|rolls: ArmorRolls| armor_rolls_fit(*range, rolls) && r == armor_from_rolls_spec(rolls),
{
    let defense = gen_range_inclusive(range.defense.0 as u64, range.defense.1 as u64);
    let durability = gen_range_inclusive(range.durability.0 as u64, range.durability.1 as u64);
    let r = ArmorStats { defense: defense as u32, durability: durability as u32 };
    let ghost w = ArmorRolls { defense, durability };
    assert(armor_rolls_fit(*range, w) && r == armor_from_rolls_spec(w));
    r
}

/// A potion made from a stat range.
#[derive(Clone, Copy, Debug)]
pub struct RolledPotion {
    pub potion_type: PotionType,
    pub stats: PotionStats,
    pub sprite_index: usize,
}

/// The draws that decide a dropped potion.
#[derive(Clone, Copy, Debug)]
pub struct PotionRolls {
    pub duration: u64,
    pub amount: u64,
    /// 0: speed, 1: health.
    pub kind: u64,
}

/// The draws lie inside the ranges they are drawn from.
pub open spec fn potion_rolls_fit(range: PotionStatRange, rolls: PotionRolls) -> bool {
    &&& within(rolls.duration, range.effect_duration)
    &&& within(rolls.amount, range.effect_amount)
    &&& rolls.kind < 2
}

/// The potion that the draws make: a speed potion (sprite 97) or a health
/// potion (sprite 96).
pub open spec fn potion_from_rolls_spec(rolls: PotionRolls) -> RolledPotion {
    RolledPotion {
        potion_type: if rolls.kind == 0 {
            PotionType::Speed
        } else {
            PotionType::Health
        },
        stats: PotionStats {
            effect_duration: rolls.duration as u32,
            effect_amount: rolls.amount as u32,
        },
        sprite_index: if rolls.kind == 0 {
            97
        } else {
            96
        },
    }
}

/// Draws a potion from a stat range: its duration, its amount, then its kind.
pub fn roll_potion(range: &PotionStatRange) -> (r: RolledPotion)
    requires
        range.wf(),
    ensures
        exists|rolls: PotionRolls| potion_rolls_fit(*range, rolls) && r == potion_from_rolls_spec(rolls),
{
    let duration = gen_range_inclusive(
        range.effect_duration.0 as u64,
        range.effect_duration.1 as u64,
    );
    let amount = gen_range_inclusive(range.effect_amount.0 as u64, range.effect_amount.1 as u64);
    let kind = gen_range_inclusive(0, 1);
    let stats = PotionStats { effect_duration: duration as u32, effect_amount: amount as u32 };
    let r = if kind == 0 {
        RolledPotion { potion_type: PotionType::Speed, stats, sprite_index: 97 }
    } else {
        RolledPotion { potion_type: PotionType::Health, stats, sprite_index: 96 }
    };
    let ghost w = PotionRolls { duration, amount, kind };
    assert(potion_rolls_fit(*range, w) && r == potion_from_rolls_spec(w));
    r
}

/// A table entry that can be dropped as it stands: its chance is at most
/// certain and every stat range it draws from is non-empty.
pub open spec fn entry_droppable(def: LootDefinition) -> bool {
    &&& def.drop_chance <= DROP_CHANCE_SCALE
    &&& match def.stat_range {
        LootStatRange::Gun(r) => r.wf(),
        LootStatRange::Armor(r) => r.wf(),
        LootStatRange::Potion(r) => r.wf(),
        LootStatRange::NoStats => true,
    }
}

/// Whether a table entry can be dropped as it stands.
pub fn droppable(def: &LootDefinition) -> (r: bool)
    ensures
        r == entry_droppable(*def),
{
    if def.drop_chance as u64 > DROP_CHANCE_SCALE {
        return false;
    }
    match def.stat_range {
        LootStatRange::Gun(r) => {
            r.bullets_per_shot.0 <= r.bullets_per_shot.1 && r.firing_interval.0
                <= r.firing_interval.1 && r.bullet_spread.0 <= r.bullet_spread.1
                && r.bullet_speed.0 <= r.bullet_speed.1 && r.bullet_lifespan.0
                <= r.bullet_lifespan.1 && r.bullet_damage.0 <= r.bullet_damage.1
        },
        LootStatRange::Armor(r) => r.defense.0 <= r.defense.1 && r.durability.0 <= r.durability.1,
        LootStatRange::Potion(r) => r.effect_duration.0 <= r.effect_duration.1
            && r.effect_amount.0 <= r.effect_amount.1,
        LootStatRange::NoStats => true,
    }
}

/// An item that has dropped, its stats drawn.
#[derive(Clone, Copy, Debug)]
pub enum DroppedItem {
    Gun(RolledGun),
    Armor(ArmorStats),
    Potion(RolledPotion),
}

/// `item` is what an entry with stat ranges `range` can drop: an item of
/// the same kind, with draws inside the ranges.
pub open spec fn drawn_from(range: LootStatRange, item: DroppedItem) -> bool {
    match (range, item) {
        (LootStatRange::Gun(r), DroppedItem::Gun(g)) => exists|rolls: GunRolls|
            gun_rolls_fit(r, rolls) && g == gun_from_rolls_spec(rolls),
        (LootStatRange::Armor(r), DroppedItem::Armor(a)) => exists|rolls: ArmorRolls|
            armor_rolls_fit(r, rolls) && a == armor_from_rolls_spec(rolls),
        (LootStatRange::Potion(r), DroppedItem::Potion(p)) => exists|rolls: PotionRolls|
            potion_rolls_fit(r, rolls) && p == potion_from_rolls_spec(rolls),
        _ => false,
    }
}

/// Draws the stats of an entry that dropped: a gun, an armor or a potion
/// from its stat ranges; nothing for an entry without stats.
pub fn roll_dropped(def: &LootDefinition) -> (r: Option<DroppedItem>)
    requires
        entry_droppable(*def),
    ensures
        (def.stat_range is NoStats) <==> (r is None),
        r matches Some(item) ==> drawn_from(def.stat_range, item),
{
    match def.stat_range {
        LootStatRange::Gun(range) => Some(DroppedItem::Gun(roll_gun(&range))),
        LootStatRange::Armor(range) => Some(DroppedItem::Armor(roll_armor(&range))),
        LootStatRange::Potion(range) => Some(DroppedItem::Potion(roll_potion(&range))),
        LootStatRange::NoStats => None,
    }
}

/// Every entry of every loot table of the game can be dropped as it stands,
/// so the stats of whatever drops can always be drawn.
pub proof fn lemma_loot_tables_droppable()
    ensures
        forall|i: int|
            0 <= i < weak_enemies_loot_items().len() ==> entry_droppable(
                #[trigger] weak_enemies_loot_items()[i],
            ),
        forall|i: int|
            0 <= i < medium_enemies_loot_items().len() ==> entry_droppable(
                #[trigger] medium_enemies_loot_items()[i],
            ),
        forall|i: int|
            0 <= i < strong_enemies_loot_items().len() ==> entry_droppable(
                #[trigger] strong_enemies_loot_items()[i],
            ),
        forall|i: int|
            0 <= i < boss_enemy_loot_items().len() ==> entry_droppable(
                #[trigger] boss_enemy_loot_items()[i],
            ),
{
}

/// The loot tables of the game, chances out of 10000 and times in
/// milliseconds: weak enemies drop a potion 8% and a gun 1% of the time;
/// medium ones a potion 10%, an armor 3% and a gun 4%; strong ones a potion
/// 30%, a gun 10% and an armor 10%; bosses a potion 50%, a gun 20% and an
/// armor 20%; each with its selling value and stat ranges.
pub proof fn lemma_loot_tables()
    ensures
        weak_enemies_loot_items().len() == 2,
        weak_enemies_loot_items()[0].loot_type == LootType::Potion && weak_enemies_loot_items()[0].drop_chance == 800 && weak_enemies_loot_items()[0].value == 10,
        weak_enemies_loot_items()[0].stat_range == LootStatRange::Potion(PotionStatRange { effect_duration: (3000, 5000), effect_amount: (5, 10) }),
        weak_enemies_loot_items()[1].loot_type == LootType::Gun && weak_enemies_loot_items()[1].drop_chance == 100 && weak_enemies_loot_items()[1].value == 20,
        weak_enemies_loot_items()[1].stat_range == LootStatRange::Gun(GunStatRange { bullets_per_shot: (10, 20), firing_interval: (300, 500), bullet_spread: (150, 200), bullet_speed: (10, 20), bullet_lifespan: (1000, 2000), bullet_damage: (30, 40) }),
        medium_enemies_loot_items().len() == 3,
        medium_enemies_loot_items()[0].loot_type == LootType::Potion && medium_enemies_loot_items()[0].drop_chance == 1000 && medium_enemies_loot_items()[0].value == 12,
        medium_enemies_loot_items()[0].stat_range == LootStatRange::Potion(PotionStatRange { effect_duration: (4000, 7000), effect_amount: (7, 12) }),
        medium_enemies_loot_items()[1].loot_type == LootType::Armor && medium_enemies_loot_items()[1].drop_chance == 300 && medium_enemies_loot_items()[1].value == 25,
        medium_enemies_loot_items()[1].stat_range == LootStatRange::Armor(ArmorStatRange { defense: (1, 3), durability: (15, 30) }),
        medium_enemies_loot_items()[2].loot_type == LootType::Gun && medium_enemies_loot_items()[2].drop_chance == 400 && medium_enemies_loot_items()[2].value == 30,
        medium_enemies_loot_items()[2].stat_range == LootStatRange::Gun(GunStatRange { bullets_per_shot: (15, 30), firing_interval: (200, 400), bullet_spread: (100, 150), bullet_speed: (20, 30), bullet_lifespan: (1500, 3000), bullet_damage: (50, 100) }),
        strong_enemies_loot_items().len() == 3,
        strong_enemies_loot_items()[0].loot_type == LootType::Potion && strong_enemies_loot_items()[0].drop_chance == 3000 && strong_enemies_loot_items()[0].value == 15,
        strong_enemies_loot_items()[0].stat_range == LootStatRange::Potion(PotionStatRange { effect_duration: (6000, 10000), effect_amount: (8, 15) }),
        strong_enemies_loot_items()[1].loot_type == LootType::Gun && strong_enemies_loot_items()[1].drop_chance == 1000 && strong_enemies_loot_items()[1].value == 40,
        strong_enemies_loot_items()[1].stat_range == LootStatRange::Gun(GunStatRange { bullets_per_shot: (40, 60), firing_interval: (100, 300), bullet_spread: (50, 150), bullet_speed: (30, 50), bullet_lifespan: (2000, 4000), bullet_damage: (70, 120) }),
        strong_enemies_loot_items()[2].loot_type == LootType::Armor && strong_enemies_loot_items()[2].drop_chance == 1000 && strong_enemies_loot_items()[2].value == 40,
        strong_enemies_loot_items()[2].stat_range == LootStatRange::Armor(ArmorStatRange { defense: (2, 5), durability: (20, 40) }),
        boss_enemy_loot_items().len() == 3,
        boss_enemy_loot_items()[0].loot_type == LootType::Potion && boss_enemy_loot_items()[0].drop_chance == 5000 && boss_enemy_loot_items()[0].value == 20,
        boss_enemy_loot_items()[0].stat_range == LootStatRange::Potion(PotionStatRange { effect_duration: (10000, 20000), effect_amount: (10, 20) }),
        boss_enemy_loot_items()[1].loot_type == LootType::Gun && boss_enemy_loot_items()[1].drop_chance == 2000 && boss_enemy_loot_items()[1].value == 50,
        boss_enemy_loot_items()[1].stat_range == LootStatRange::Gun(GunStatRange { bullets_per_shot: (60, 80), firing_interval: (100, 200), bullet_spread: (50, 100), bullet_speed: (50, 80), bullet_lifespan: (3000, 5000), bullet_damage: (140, 200) }),
        boss_enemy_loot_items()[2].loot_type == LootType::Armor && boss_enemy_loot_items()[2].drop_chance == 2000 && boss_enemy_loot_items()[2].value == 50,
        boss_enemy_loot_items()[2].stat_range == LootStatRange::Armor(ArmorStatRange { defense: (3, 7), durability: (30, 60) }),
{
}

} // verus!
