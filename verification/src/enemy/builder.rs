//! A description of an enemy before it enters the world.

use vstd::prelude::*;
use crate::loot::LootPool;

verus! {

/// A special skill that an enemy is given when it is built. Durations are in
/// milliseconds, distances and forces in thousandths.
#[derive(Clone, Copy, PartialEq, Eq, Debug, Structural)]
pub enum Ability {
    /// Leaves a damaging trail behind it.
    Trail { damage: u32, interval: u32, radius: u32, duration: u32 },
    /// Explodes when it dies or touches the player.
    Explosion { radius: u32, damage: u32 },
    /// Shoots at the player when in range.
    Shooting { bullets: usize, shoot_interval: u32, range: u32, bullet_speed: u32, bullet_damage: u32 },
    /// Charges at the player when close enough.
    Charge { distance: u32, speed: u32, prepare_time: u32, cooldown: u32 },
    /// Splits into smaller enemies when it dies.
    Splitting { splits: u8 },
    /// Calls in other enemies from time to time.
    Summoning { min_minions: u32, max_minions: u32, interval: u32 },
    /// Keeps at a preferred distance from the player.
    RangedBehavior { preferred_distance: u32, tolerance: u32 },
    /// Fires exploding bullets.
    GurgleMarker,
    /// Keeps apart from other enemies.
    Separation { radius: u32, force: u32 },
}

/// An enemy to be placed in the world.
pub struct EnemyBuilder {
    pub health: u32,
    pub speed: u32,
    pub damage: u32,
    pub xp: u32,
    pub sprite_index: usize,
    pub sprite_size: (u32, u32),
    pub abilities: Vec<Ability>,
    pub loot_pool: Option<LootPool>,
}

/// `b` is `a` with the abilities `abilities` in place of its own.
pub open spec fn same_but_abilities(a: EnemyBuilder, b: EnemyBuilder, abilities: Seq<Ability>) -> bool {
    &&& b.health == a.health
    &&& b.speed == a.speed
    &&& b.damage == a.damage
    &&& b.xp == a.xp
    &&& b.sprite_index == a.sprite_index
    &&& b.sprite_size == a.sprite_size
    &&& b.abilities@ == abilities
    &&& b.loot_pool == a.loot_pool
}

impl Default for EnemyBuilder {
    /// A plain enemy: 100 health, speed 6, damage 6, 4 XP, small sprite 16,
    /// no abilities and no loot.
    fn default() -> (r: Self)
        ensures
            r.health == 100,
            r.speed == 6,
            r.damage == 6,
            r.xp == 4,
            r.sprite_index == 16,
            r.sprite_size == (16u32, 16u32),
            r.abilities@ == Seq::<Ability>::empty(),
            r.loot_pool is None,
    {
        EnemyBuilder {
            health: 100,
            speed: 6,
            damage: 6,
            xp: 4,
            sprite_index: 16,
            sprite_size: (16, 16),
            abilities: Vec::new(),
            loot_pool: None,
        }
    }
}

impl EnemyBuilder {
    /// A plain enemy, as `default` makes it.
    pub fn new() -> (r: Self)
        ensures
            r.health == 100,
            r.speed == 6,
            r.damage == 6,
            r.xp == 4,
            r.sprite_index == 16,
            r.sprite_size == (16u32, 16u32),
            r.abilities@ == Seq::<Ability>::empty(),
            r.loot_pool is None,
    {
        Self::default()
    }

    /// Sets the four stats.
    pub fn with_stats(self, health: u32, speed: u32, damage: u32, xp: u32) -> (r: Self)
        ensures
            r.health == health,
            r.speed == speed,
            r.damage == damage,
            r.xp == xp,
            r.sprite_index == self.sprite_index,
            r.sprite_size == self.sprite_size,
            r.abilities@ == self.abilities@,
            r.loot_pool == self.loot_pool,
    {
        let mut b = self;
        b.health = health;
        b.speed = speed;
        b.damage = damage;
        b.xp = xp;
        b
    }

    /// Sets the sprite.
    pub fn with_sprite(self, sprite_index: usize, sprite_size: (u32, u32)) -> (r: Self)
        ensures
            r.health == self.health,
            r.speed == self.speed,
            r.damage == self.damage,
            r.xp == self.xp,
            r.sprite_index == sprite_index,
            r.sprite_size == sprite_size,
            r.abilities@ == self.abilities@,
            r.loot_pool == self.loot_pool,
    {
        let mut b = self;
        b.sprite_index = sprite_index;
        b.sprite_size = sprite_size;
        b
    }

    /// Sets the loot table.
    pub fn with_loot_pool(self, loot_pool: LootPool) -> (r: Self)
        ensures
            r.health == self.health,
            r.speed == self.speed,
            r.damage == self.damage,
            r.xp == self.xp,
            r.sprite_index == self.sprite_index,
            r.sprite_size == self.sprite_size,
            r.abilities@ == self.abilities@,
            r.loot_pool == Some(loot_pool),
    {
        let mut b = self;
        b.loot_pool = Some(loot_pool);
        b
    }

    /// Adds an ability after those already given.
    fn with_ability(self, ability: Ability) -> (r: Self)
        ensures
            same_but_abilities(self, r, self.abilities@.push(ability)),
    {
        let mut b = self;
        b.abilities.push(ability);
        b
    }

    /// Adds a damaging trail (interval and duration in milliseconds, radius
    /// in thousandths).
    pub fn with_trail(self, damage: u32, interval: u32, radius: u32, duration: u32) -> (r: Self)
        ensures
            same_but_abilities(
                self,
                r,
                self.abilities@.push(Ability::Trail { damage, interval, radius, duration }),
            ),
    {
        self.with_ability(Ability::Trail { damage, interval, radius, duration })
    }

    /// Adds an explosion (radius in thousandths).
    pub fn with_explosion(self, radius: u32, damage: u32) -> (r: Self)
        ensures
            same_but_abilities(self, r, self.abilities@.push(Ability::Explosion { radius, damage })),
    {
        self.with_ability(Ability::Explosion { radius, damage })
    }

    /// Adds shooting (interval in milliseconds, range in thousandths).
    pub fn with_shooting(
        self,
        bullets: usize,
        shoot_interval: u32,
        range: u32,
        bullet_speed: u32,
        bullet_damage: u32,
    ) -> (r: Self)
        ensures
            same_but_abilities(
                self,
                r,
                self.abilities@.push(
                    Ability::Shooting { bullets, shoot_interval, range, bullet_speed, bullet_damage },
                ),
            ),
    {
        self.with_ability(
            Ability::Shooting { bullets, shoot_interval, range, bullet_speed, bullet_damage },
        )
    }

    /// Adds charging (times in milliseconds).
    pub fn with_charge(self, distance: u32, speed: u32, prepare_time: u32, cooldown: u32) -> (r: Self)
        ensures
            same_but_abilities(
                self,
                r,
                self.abilities@.push(Ability::Charge { distance, speed, prepare_time, cooldown }),
            ),
    {
        self.with_ability(Ability::Charge { distance, speed, prepare_time, cooldown })
    }

    /// Adds splitting on death.
    pub fn with_splitting(self, splits: u8) -> (r: Self)
        ensures
            same_but_abilities(self, r, self.abilities@.push(Ability::Splitting { splits })),
    {
        self.with_ability(Ability::Splitting { splits })
    }

    /// Adds summoning (interval in milliseconds).
    pub fn with_summoning(self, min_minions: u32, max_minions: u32, interval: u32) -> (r: Self)
        ensures
            same_but_abilities(
                self,
                r,
                self.abilities@.push(Ability::Summoning { min_minions, max_minions, interval }),
            ),
    {
        self.with_ability(Ability::Summoning { min_minions, max_minions, interval })
    }

    /// Adds keeping at a distance (both in thousandths).
    pub fn with_ranged_behavior(self, preferred_distance: u32, tolerance: u32) -> (r: Self)
        ensures
            same_but_abilities(
                self,
                r,
                self.abilities@.push(Ability::RangedBehavior { preferred_distance, tolerance }),
            ),
    {
        self.with_ability(Ability::RangedBehavior { preferred_distance, tolerance })
    }

    /// Marks the enemy as one that fires exploding bullets.
    pub fn with_gurgle_marker(self) -> (r: Self)
        ensures
            same_but_abilities(self, r, self.abilities@.push(Ability::GurgleMarker)),
    {
        self.with_ability(Ability::GurgleMarker)
    }

    /// Adds keeping apart from other enemies (both in thousandths).
    pub fn with_separation(self, radius: u32, force: u32) -> (r: Self)
        ensures
            same_but_abilities(self, r, self.abilities@.push(Ability::Separation { radius, force })),
    {
        self.with_ability(Ability::Separation { radius, force })
    }
}

} // verus!
