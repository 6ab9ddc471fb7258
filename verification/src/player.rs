//! The player: health, speed, defense, gold, and the inventory of guns,
//! potions and armor. Items in the inventory are named by the number of the
//! entity that stands for them in the world.

use vstd::prelude::*;
use crate::configs::INVENTORY_SLOTS;
use crate::loot::LootType;
use crate::potion::{PotionStats, PotionType};

verus! {

/// Current and maximum health.
#[derive(Clone, Copy, PartialEq, Eq, Debug, Structural)]
pub struct Health(pub u32, pub u32);

#[derive(Clone, Copy, PartialEq, Eq, Debug, Structural)]
pub struct Speed(pub u32);

#[derive(Clone, Copy, PartialEq, Eq, Debug, Structural)]
pub struct Defense(pub u32);

#[derive(Clone, Copy, PartialEq, Eq, Debug, Structural)]
pub struct Gold(pub u32);

/// Damage added to every bullet of the player.
#[derive(Clone, Copy, PartialEq, Eq, Debug, Structural)]
pub struct DamageBoost(pub u32);

/// Whether the player stands still or runs.
#[derive(Clone, Copy, PartialEq, Eq, Debug, Structural)]
pub enum PlayerState {
    Idle,
    Run,
}

impl Default for PlayerState {
    /// Standing still.
    fn default() -> (r: Self)
        ensures
            r == PlayerState::Idle,
    {
        PlayerState::Idle
    }
}

/// The player is hit for `damage` before defense.
#[derive(Clone, Copy, PartialEq, Eq, Debug, Structural)]
pub struct PlayerDamagedEvent {
    pub damage: u32,
}

/// The player has reached `new_level`.
#[derive(Clone, Copy, PartialEq, Eq, Debug, Structural)]
pub struct PlayerLevelingUpEvent {
    pub new_level: u32,
}

/// A speed boost in force: how long it lasts (milliseconds) and how much
/// speed it adds.
#[derive(Clone, Copy, PartialEq, Eq, Debug, Structural)]
pub struct AccelerationEffect {
    pub duration: u32,
    pub amount: u32,
}

/// The four rows of the inventory.
#[derive(Clone, Copy, PartialEq, Eq, Debug, Structural)]
pub enum LootSlot {
    HealthPotions,
    SpeedPotions,
    Guns,
    Armors,
}

/// What the player carries.
pub struct PlayerInventory {
    pub guns: Vec<u64>,
    pub health_potions: Vec<u64>,
    pub speed_potions: Vec<u64>,
    pub armors: Vec<u64>,
    pub active_gun_index: usize,
    pub active_armor_index: usize,
}

/// `s` without any occurrence of `e`, the rest in order.
pub open spec fn without(s: Seq<u64>, e: u64) -> Seq<u64>
    decreases s.len(),
{
    if s.len() == 0 {
        s
    } else {
        let rest = without(s.drop_last(), e);
        if s.last() == e {
            rest
        } else {
            rest.push(s.last())
        }
    }
}

/// Removing an entity never makes a row longer.
pub proof fn lemma_without_len(s: Seq<u64>, e: u64)
    ensures
        without(s, e).len() <= s.len(),
        !without(s, e).contains(e),
        forall|x: u64| x != e ==> (#[trigger] without(s, e).contains(x) <==> s.contains(x)),
    decreases s.len(),
{
    if s.len() > 0 {
        let init = s.drop_last();
        let last = s.last();
        lemma_without_len(init, e);
        let w = without(s, e);
        let wi = without(init, e);
        if last != e {
            assert(w == wi.push(last));
            if w.contains(e) {
                let k = choose|k: int| 0 <= k < w.len() && w[k] == e;
                if k < wi.len() {
                    assert(wi[k] == e);
                }
            }
        }
        assert forall|x: u64| x != e implies (#[trigger] without(s, e).contains(x) <==> s.contains(x)) by {
            if s.contains(x) {
                let k = choose|k: int| 0 <= k < s.len() && s[k] == x;
                if k < s.len() - 1 {
                    assert(init[k] == x);
                }
            }
            if init.contains(x) {
                let k = choose|k: int| 0 <= k < init.len() && init[k] == x;
                assert(s[k] == x);
            }
            if last == x {
                assert(s[s.len() - 1] == x);
            }
            if last != e {
                if w.contains(x) {
                    let k = choose|k: int| 0 <= k < w.len() && w[k] == x;
                    if k < wi.len() {
                        assert(wi[k] == x);
                    }
                }
                if wi.contains(x) {
                    let k = choose|k: int| 0 <= k < wi.len() && wi[k] == x;
                    assert(w[k] == x);
                }
                if last == x {
                    assert(w[wi.len() as int] == x);
                }
            }
        }
    }
}

/// `s` without `e` is `s` itself when `s` does not hold `e`.
proof fn lemma_without_absent(s: Seq<u64>, e: u64)
    requires
        !s.contains(e),
    ensures
        without(s, e) == s,
    decreases s.len(),
{
    if s.len() > 0 {
        let init = s.drop_last();
        assert(!init.contains(e)) by {
            if init.contains(e) {
                let k = choose|k: int| 0 <= k < init.len() && init[k] == e;
                assert(s[k] == e);
            }
        }
        lemma_without_absent(init, e);
        assert(s.last() != e) by {
            assert(s[s.len() - 1] == s.last());
        }
        assert(init.push(s.last()) =~= s);
    }
}

/// Selling an item that was just picked up puts its row back as it was:
/// a row that did not hold `e`, with `e` pushed at its end and then every
/// `e` removed, is the row it was.
pub proof fn lemma_sell_undoes_pick_up(row: Seq<u64>, e: u64)
    requires
        !row.contains(e),
    ensures
        without(row.push(e), e) == row,
{
    assert(row.push(e).drop_last() =~= row);
    lemma_without_absent(row, e);
}

/// Whether `v` holds `e`.
fn holds(v: &Vec<u64>, e: u64) -> (r: bool)
    ensures
        r == v@.contains(e),
{
    let mut i: usize = 0;
    while i < v.len()
        invariant
            i <= v.len(),
            forall|j: int| 0 <= j < i ==> v@[j] != e,
        decreases v.len() - i,
    {
        if v[i] == e {
            return true;
        }
        i = i + 1;
    }
    false
}

/// Whether `v` holds anything besides `e`.
fn holds_other_than(v: &Vec<u64>, e: u64) -> (r: bool)
    ensures
        r == (without(v@, e).len() > 0),
{
    proof {
        lemma_without_len(v@, e);
    }
    let mut i: usize = 0;
    while i < v.len()
        invariant
            i <= v.len(),
            forall|j: int| 0 <= j < i ==> v@[j] == e,
            !without(v@, e).contains(e),
            forall|x: u64| x != e ==> (#[trigger] without(v@, e).contains(x) <==> v@.contains(x)),
        decreases v.len() - i,
    {
        if v[i] != e {
            proof {
                assert(v@.contains(v@[i as int]));
                assert(without(v@, e).contains(v@[i as int]));
            }
            return true;
        }
        i = i + 1;
    }
    proof {
        if without(v@, e).len() > 0 {
            let x = without(v@, e)[0];
            assert(without(v@, e).contains(x));
            assert(v@.contains(x));
        }
    }
    false
}

/// `v` without any occurrence of `e`.
fn remove_entity(v: &mut Vec<u64>, e: u64)
    ensures
        final(v)@ == without(old(v)@, e),
{
    let mut kept: Vec<u64> = Vec::new();
    let mut i: usize = 0;
    assert(old(v)@.take(0) =~= Seq::<u64>::empty());
    while i < v.len()
        invariant
            i <= v.len(),
            v@ == old(v)@,
            kept@ == without(v@.take(i as int), e),
        decreases v.len() - i,
    {
        assert(v@.take(i + 1).drop_last() =~= v@.take(i as int));
        if v[i] != e {
            kept.push(v[i]);
        }
        i = i + 1;
    }
    assert(v@.take(v.len() as int) =~= v@);
    *v = kept;
}

/// The active index after the row it points into has changed: back to the
/// start if it no longer points inside the row.
pub open spec fn fixed_index(index: usize, len: nat) -> usize {
    if index >= len {
        0
    } else {
        index
    }
}

impl PlayerInventory {
    /// The row of the given kind.
    pub open spec fn row(&self, slot: LootSlot) -> Seq<u64> {
        match slot {
            LootSlot::HealthPotions => self.health_potions@,
            LootSlot::SpeedPotions => self.speed_potions@,
            LootSlot::Guns => self.guns@,
            LootSlot::Armors => self.armors@,
        }
    }

    /// No row holds more than the inventory has slots for.
    pub open spec fn within_capacity(&self) -> bool {
        &&& self.guns.len() <= INVENTORY_SLOTS
        &&& self.health_potions.len() <= INVENTORY_SLOTS
        &&& self.speed_potions.len() <= INVENTORY_SLOTS
        &&& self.armors.len() <= INVENTORY_SLOTS
    }

    /// `other` is `self` with only the row `slot` (possibly) changed.
    pub open spec fn same_except(&self, other: &PlayerInventory, slot: LootSlot) -> bool {
        &&& slot != LootSlot::Guns ==> other.guns@ == self.guns@
        &&& slot != LootSlot::HealthPotions ==> other.health_potions@ == self.health_potions@
        &&& slot != LootSlot::SpeedPotions ==> other.speed_potions@ == self.speed_potions@
        &&& slot != LootSlot::Armors ==> other.armors@ == self.armors@
        &&& other.active_gun_index == self.active_gun_index
        &&& other.active_armor_index == self.active_armor_index
    }

    /// Puts `entity` at the end of row `slot`.
    pub fn push_to(&mut self, slot: LootSlot, entity: u64)
        ensures
            final(self).row(slot) == old(self).row(slot).push(entity),
            old(self).same_except(&*final(self), slot),
            old(self).within_capacity() && old(self).row(slot).len() < INVENTORY_SLOTS
                ==> final(self).within_capacity(),
    {
        match slot {
            LootSlot::HealthPotions => self.health_potions.push(entity),
            LootSlot::SpeedPotions => self.speed_potions.push(entity),
            LootSlot::Guns => self.guns.push(entity),
            LootSlot::Armors => self.armors.push(entity),
        }
    }

    /// The number of items in row `slot`.
    pub fn row_len(&self, slot: LootSlot) -> (r: usize)
        ensures
            r == self.row(slot).len(),
    {
        match slot {
            LootSlot::HealthPotions => self.health_potions.len(),
            LootSlot::SpeedPotions => self.speed_potions.len(),
            LootSlot::Guns => self.guns.len(),
            LootSlot::Armors => self.armors.len(),
        }
    }

    /// Whether row `slot` holds `entity`.
    pub fn row_holds(&self, slot: LootSlot, entity: u64) -> (r: bool)
        ensures
            r == self.row(slot).contains(entity),
    {
        match slot {
            LootSlot::HealthPotions => holds(&self.health_potions, entity),
            LootSlot::SpeedPotions => holds(&self.speed_potions, entity),
            LootSlot::Guns => holds(&self.guns, entity),
            LootSlot::Armors => holds(&self.armors, entity),
        }
    }

    /// The player walks over a loot item of kind `slot` worth `value`. An
    /// item already carried is ignored; otherwise it goes into its row if
    /// the row has a free slot, and is turned into gold if not.
    pub fn pick_up(&mut self, gold: &mut Gold, slot: LootSlot, entity: u64, value: u32)
        requires
            !old(self).row(slot).contains(entity) && old(self).row(slot).len() >= INVENTORY_SLOTS
                ==> old(gold).0 + value <= u32::MAX,
        ensures
            old(self).same_except(&*final(self), slot),
            old(self).row(slot).contains(entity) ==> final(self).row(slot) == old(self).row(slot)
                && *final(gold) == *old(gold),
            !old(self).row(slot).contains(entity) && old(self).row(slot).len() < INVENTORY_SLOTS
                ==> final(self).row(slot) == old(self).row(slot).push(entity) && *final(gold)
                == *old(gold),
            !old(self).row(slot).contains(entity) && old(self).row(slot).len() >= INVENTORY_SLOTS
                ==> final(self).row(slot) == old(self).row(slot) && final(gold).0 == old(gold).0
                + value,
            old(self).within_capacity() ==> final(self).within_capacity(),
    {
        if !self.row_holds(slot, entity) {
            if self.row_len(slot) < INVENTORY_SLOTS {
                self.push_to(slot, entity);
            } else {
                gold.0 = gold.0 + value;
            }
        }
    }

    /// The player sells the item `entity` of kind `loot_type` for `value`.
    /// The item leaves every row of its kind; for a gun or an armor the
    /// active index goes back to the start if it no longer points inside the
    /// row, and the item it points at is returned, to be shown as active.
    pub fn sell(&mut self, gold: &mut Gold, loot_type: LootType, entity: u64, value: u32) -> (r:
        Option<u64>)
        requires
            old(gold).0 + value <= u32::MAX,
            loot_type == LootType::Gun ==> without(old(self).guns@, entity).len() > 0,
            loot_type == LootType::Armor ==> without(old(self).armors@, entity).len() > 0,
        ensures
            final(gold).0 == old(gold).0 + value,
            loot_type == LootType::Potion ==> !final(self).health_potions@.contains(entity)
                && !final(self).speed_potions@.contains(entity),
            loot_type == LootType::Gun ==> !final(self).guns@.contains(entity),
            loot_type == LootType::Armor ==> !final(self).armors@.contains(entity),
            loot_type == LootType::Potion ==> {
                &&& final(self).health_potions@ == without(old(self).health_potions@, entity)
                &&& final(self).speed_potions@ == without(old(self).speed_potions@, entity)
                &&& final(self).guns@ == old(self).guns@
                &&& final(self).armors@ == old(self).armors@
                &&& final(self).active_gun_index == old(self).active_gun_index
                &&& final(self).active_armor_index == old(self).active_armor_index
                &&& r is None
            },
            loot_type == LootType::Gun ==> {
                &&& final(self).health_potions@ == old(self).health_potions@
                &&& final(self).speed_potions@ == old(self).speed_potions@
                &&& final(self).armors@ == old(self).armors@
                &&& final(self).active_armor_index == old(self).active_armor_index
                &&& final(self).guns@ == without(old(self).guns@, entity)
                &&& final(self).active_gun_index == fixed_index(
                    old(self).active_gun_index,
                    final(self).guns@.len(),
                )
                &&& r == Some(final(self).guns@[final(self).active_gun_index as int])
            },
            loot_type == LootType::Armor ==> {
                &&& final(self).health_potions@ == old(self).health_potions@
                &&& final(self).speed_potions@ == old(self).speed_potions@
                &&& final(self).guns@ == old(self).guns@
                &&& final(self).active_gun_index == old(self).active_gun_index
                &&& final(self).armors@ == without(old(self).armors@, entity)
                &&& final(self).active_armor_index == fixed_index(
                    old(self).active_armor_index,
                    final(self).armors@.len(),
                )
                &&& r == Some(final(self).armors@[final(self).active_armor_index as int])
            },
            old(self).within_capacity() ==> final(self).within_capacity(),
    {
        proof {
            lemma_without_len(old(self).guns@, entity);
            lemma_without_len(old(self).armors@, entity);
            lemma_without_len(old(self).health_potions@, entity);
            lemma_without_len(old(self).speed_potions@, entity);
        }
        gold.0 = gold.0 + value;
        match loot_type {
            LootType::Potion => {
                remove_entity(&mut self.health_potions, entity);
                remove_entity(&mut self.speed_potions, entity);
                None
            },
            LootType::Gun => {
                remove_entity(&mut self.guns, entity);
                if self.active_gun_index >= self.guns.len() {
                    self.active_gun_index = 0;
                }
                Some(self.guns[self.active_gun_index])
            },
            LootType::Armor => {
                remove_entity(&mut self.armors, entity);
                if self.active_armor_index >= self.armors.len() {
                    self.active_armor_index = 0;
                }
                Some(self.armors[self.active_armor_index])
            },
        }
    }

    /// Whether `entity` of kind `loot_type` can be sold: selling a gun or an
    /// armor must leave one of its kind to make active.
    pub fn can_sell(&self, loot_type: LootType, entity: u64) -> (r: bool)
        ensures
            r == ((loot_type == LootType::Gun ==> without(self.guns@, entity).len() > 0) && (
            loot_type == LootType::Armor ==> without(self.armors@, entity).len() > 0)),
    {
        match loot_type {
            LootType::Gun => holds_other_than(&self.guns, entity),
            LootType::Armor => holds_other_than(&self.armors, entity),
            LootType::Potion => true,
        }
    }

    /// Makes the next gun active, wrapping round to the first.
    pub fn switch_gun(&mut self) -> (r: usize)
        requires
            old(self).guns.len() > 0,
            old(self).active_gun_index < usize::MAX,
        ensures
            r == (old(self).active_gun_index + 1) % (old(self).guns.len() as int),
            final(self).active_gun_index == r,
            final(self).guns@ == old(self).guns@,
            final(self).health_potions@ == old(self).health_potions@,
            final(self).speed_potions@ == old(self).speed_potions@,
            final(self).armors@ == old(self).armors@,
            final(self).active_armor_index == old(self).active_armor_index,
    {
        self.active_gun_index = (self.active_gun_index + 1) % self.guns.len();
        self.active_gun_index
    }

    /// Makes the next armor active, wrapping round to the first.
    pub fn switch_armor(&mut self) -> (r: usize)
        requires
            old(self).armors.len() > 0,
            old(self).active_armor_index < usize::MAX,
        ensures
            r == (old(self).active_armor_index + 1) % (old(self).armors.len() as int),
            final(self).active_armor_index == r,
            final(self).guns@ == old(self).guns@,
            final(self).health_potions@ == old(self).health_potions@,
            final(self).speed_potions@ == old(self).speed_potions@,
            final(self).armors@ == old(self).armors@,
            final(self).active_gun_index == old(self).active_gun_index,
    {
        self.active_armor_index = (self.active_armor_index + 1) % self.armors.len();
        self.active_armor_index
    }

    /// Drinks the first health potion, whose strength is
    /// `amount_of_first` (none if it could not be read): health goes up by
    /// that much, up to its maximum, and the potion leaves the row. Returns
    /// the potion drunk.
    pub fn drink_health_potion(&mut self, health: &mut Health, amount_of_first: Option<u32>) -> (r:
        Option<u64>)
        requires
            (old(self).health_potions.len() > 0 && (amount_of_first is Some)) ==> old(health).0
                + amount_of_first->0 <= u32::MAX,
        ensures
            old(self).same_except(&*final(self), LootSlot::HealthPotions),
            old(health).0 <= old(health).1 ==> final(health).0 <= final(health).1,
            (old(self).health_potions.len() > 0 && (amount_of_first is Some)) <==> (r is Some),
            (r is None) ==> final(self).health_potions@ == old(self).health_potions@ && *final(health)
                == *old(health),
            r matches Some(e) ==> {
                &&& e == old(self).health_potions@[0]
                &&& final(self).health_potions@ == old(self).health_potions@.remove(0)
                &&& final(health).1 == old(health).1
                &&& final(health).0 == if old(health).0 + amount_of_first->0 <= old(health).1 {
                    (old(health).0 + amount_of_first->0) as u32
                } else {
                    old(health).1
                }
            },
            old(self).within_capacity() ==> final(self).within_capacity(),
    {
        if self.health_potions.len() > 0 {
            if let Some(amount) = amount_of_first {
                let raised = health.0 + amount;
                health.0 = if raised <= health.1 {
                    raised
                } else {
                    health.1
                };
                let e = self.health_potions.remove(0);
                return Some(e);
            }
        }
        None
    }

    /// Drinks the first speed potion, whose stats are `stats_of_first`
    /// (none if they could not be read), unless a speed boost is already in
    /// force.
    pub fn drink_speed_potion(
        &mut self,
        speed: &mut Speed,
        boost_active: bool,
        stats_of_first: Option<PotionStats>,
    ) -> (r: SpeedPotionUse)
        requires
            speed_potion_drinkable(*old(self), boost_active, stats_of_first) ==> old(speed).0
                + stats_of_first->0.effect_amount <= u32::MAX,
        ensures
            old(self).same_except(&*final(self), LootSlot::SpeedPotions),
            boost_active ==> r == SpeedPotionUse::AlreadyActive,
            !boost_active && !speed_potion_drinkable(*old(self), boost_active, stats_of_first) ==> r
                == SpeedPotionUse::Nothing,
            !speed_potion_drinkable(*old(self), boost_active, stats_of_first) ==> (final(self).speed_potions@ == old(self).speed_potions@ && *final(speed) == *old(speed)),
            speed_potion_drinkable(*old(self), boost_active, stats_of_first) ==> (r
                == speed_potion_drunk(*old(self), stats_of_first->0)),
            speed_potion_drinkable(*old(self), boost_active, stats_of_first) ==> (final(self).speed_potions@ == old(self).speed_potions@.remove(0)),
            speed_potion_drinkable(*old(self), boost_active, stats_of_first) ==> (final(speed).0
                == old(speed).0 + stats_of_first->0.effect_amount),
            r matches SpeedPotionUse::Drunk { potion, effect } ==> {
                &&& potion == old(self).speed_potions@[0]
                &&& effect.duration == stats_of_first->0.effect_duration
                &&& effect.amount == stats_of_first->0.effect_amount
            },
            old(self).within_capacity() ==> final(self).within_capacity(),
    {
        if boost_active {
            return SpeedPotionUse::AlreadyActive;
        }
        if self.speed_potions.len() > 0 {
            if let Some(stats) = stats_of_first {
                speed.0 = speed.0 + stats.effect_amount;
                let e = self.speed_potions.remove(0);
                return SpeedPotionUse::Drunk {
                    potion: e,
                    effect: AccelerationEffect {
                        duration: stats.effect_duration,
                        amount: stats.effect_amount,
                    },
                };
            }
        }
        SpeedPotionUse::Nothing
    }

    /// The player is hit for `damage_after_defense`, with the active armor
    /// (if the player has one) of durability `armor_durability` (none if it
    /// could not be read). A dead player takes nothing. Worn armor loses the
    /// damage from its durability and breaks at zero, the next armor then
    /// becoming active; any damage comes off health and makes the player
    /// briefly invincible, which ends the handling of further hits.
    pub fn take_hit(
        &mut self,
        health: &mut Health,
        armor_durability: Option<u32>,
        damage_after_defense: u32,
    ) -> (r: HitOutcome)
        ensures
            final(self).guns@ == old(self).guns@,
            final(self).health_potions@ == old(self).health_potions@,
            final(self).speed_potions@ == old(self).speed_potions@,
            final(self).active_gun_index == old(self).active_gun_index,
            final(health).1 == old(health).1,
            r.invincible == (old(health).0 > 0 && damage_after_defense > 0 && (old(self).active_armor_index >= old(self).armors.len() || armor_durability is Some)),
            r.invincible ==> final(health).0 == (if old(health).0 > damage_after_defense {
                old(health).0 - damage_after_defense
            } else {
                0
            }),
            !r.invincible ==> final(health).0 == old(health).0,
            hit_on_armor(*old(self), old(health).0, armor_durability) ==> {
                let durability = armor_durability->0;
                let left = if durability > damage_after_defense {
                    durability - damage_after_defense
                } else {
                    0
                };
                let idx = old(self).active_armor_index;
                &&& r.durability_after == Some(left as u32)
                &&& left == 0 ==> {
                    let armors = old(self).armors@.remove(idx as int);
                    let new_idx = fixed_index(idx, armors.len());
                    &&& r.destroyed_armor == Some(old(self).armors@[idx as int])
                    &&& final(self).armors@ == armors
                    &&& final(self).active_armor_index == new_idx
                    &&& r.newly_active_armor == if new_idx < armors.len() {
                        Some(armors[new_idx as int])
                    } else {
                        None::<u64>
                    }
                }
                &&& left > 0 ==> r.destroyed_armor is None && r.newly_active_armor is None
                    && final(self).armors@ == old(self).armors@ && final(self).active_armor_index
                    == old(self).active_armor_index
            },
            !hit_on_armor(*old(self), old(health).0, armor_durability) ==> {
                &&& r.durability_after is None
                &&& r.destroyed_armor is None
                &&& r.newly_active_armor is None
                &&& final(self).armors@ == old(self).armors@
                &&& final(self).active_armor_index == old(self).active_armor_index
            },
            old(self).within_capacity() ==> final(self).within_capacity(),
    {
        let mut outcome = HitOutcome {
            durability_after: None,
            destroyed_armor: None,
            newly_active_armor: None,
            invincible: false,
        };
        if health.0 == 0 {
            return outcome;
        }
        if self.active_armor_index < self.armors.len() {
            if let Some(durability) = armor_durability {
                let left = durability.saturating_sub(damage_after_defense);
                outcome.durability_after = Some(left);
                if left == 0 {
                    let idx = self.active_armor_index;
                    let broken = self.armors.remove(idx);
                    outcome.destroyed_armor = Some(broken);
                    if self.active_armor_index >= self.armors.len() {
                        self.active_armor_index = 0;
                    }
                    if self.active_armor_index < self.armors.len() {
                        outcome.newly_active_armor = Some(self.armors[self.active_armor_index]);
                    }
                }
                if damage_after_defense > 0 {
                    health.0 = health.0.saturating_sub(damage_after_defense);
                    outcome.invincible = true;
                }
            }
        } else {
            health.0 = health.0.saturating_sub(damage_after_defense);
            if damage_after_defense > 0 {
                outcome.invincible = true;
            }
        }
        outcome
    }
}

/// The hit falls on worn armor: the player is alive and the active armor
/// exists and could be read.
pub open spec fn hit_on_armor(inventory: PlayerInventory, health: u32, armor_durability: Option<u32>) -> bool {
    &&& health > 0
    &&& inventory.active_armor_index < inventory.armors.len()
    &&& armor_durability is Some
}

/// A speed potion will be drunk: no boost is in force, there is a potion
/// and its stats could be read.
pub open spec fn speed_potion_drinkable(
    inventory: PlayerInventory,
    boost_active: bool,
    stats_of_first: Option<PotionStats>,
) -> bool {
    &&& !boost_active
    &&& inventory.speed_potions.len() > 0
    &&& stats_of_first is Some
}

/// The result of drinking the first speed potion, of stats `stats`.
pub open spec fn speed_potion_drunk(inventory: PlayerInventory, stats: PotionStats) -> SpeedPotionUse {
    SpeedPotionUse::Drunk {
        potion: inventory.speed_potions@[0],
        effect: AccelerationEffect { duration: stats.effect_duration, amount: stats.effect_amount },
    }
}

/// A speed boost that runs its course gives back exactly the speed it
/// added: after a speed potion is drunk, ending the effect it returned
/// brings the speed back to what it was before the potion.
pub proof fn lemma_speed_boost_round_trip(
    inventory: PlayerInventory,
    stats_of_first: Option<PotionStats>,
    speed_before: u32,
)
    requires
        speed_potion_drinkable(inventory, false, stats_of_first),
        speed_before + stats_of_first->0.effect_amount <= u32::MAX,
    ensures
        speed_potion_drunk(inventory, stats_of_first->0) matches SpeedPotionUse::Drunk { effect, .. }
            && (speed_before + stats_of_first->0.effect_amount) - effect.amount == speed_before,
{
}

/// A drunk speed potion is the first of its row, and the boost it gives
/// lasts the potion's own duration and adds the potion's own amount.
pub proof fn lemma_speed_potion_effect(inventory: PlayerInventory, stats: PotionStats)
    requires
        inventory.speed_potions.len() > 0,
    ensures
        speed_potion_drunk(inventory, stats) matches SpeedPotionUse::Drunk { potion, effect } && {
            &&& potion == inventory.speed_potions@[0]
            &&& effect.duration == stats.effect_duration
            &&& effect.amount == stats.effect_amount
        },
{
}

/// What drinking a speed potion did.
#[derive(Clone, Copy, PartialEq, Eq, Debug, Structural)]
pub enum SpeedPotionUse {
    /// A boost is already in force; nothing is drunk.
    AlreadyActive,
    /// The potion `potion` was drunk and gives `effect`.
    Drunk { potion: u64, effect: AccelerationEffect },
    /// There was no potion to drink.
    Nothing,
}

/// What a hit did besides taking health.
#[derive(Clone, Copy, PartialEq, Eq, Debug, Structural)]
pub struct HitOutcome {
    /// The durability of the worn armor after the hit, if armor took it.
    pub durability_after: Option<u32>,
    /// The armor that broke and left the inventory.
    pub destroyed_armor: Option<u64>,
    /// The armor that became active in place of a broken one.
    pub newly_active_armor: Option<u64>,
    /// The player took damage and becomes briefly invincible.
    pub invincible: bool,
}

/// Whether a speed boost has run its course after `elapsed_ms`.
pub fn acceleration_over(effect: &AccelerationEffect, elapsed_ms: u32) -> (r: bool)
    ensures
        r == (elapsed_ms >= effect.duration),
{
    elapsed_ms >= effect.duration
}

/// Ends a speed boost: the speed it added is taken back.
pub fn end_acceleration(speed: &mut Speed, effect: &AccelerationEffect)
    requires
        old(speed).0 >= effect.amount,
    ensures
        final(speed).0 == old(speed).0 - effect.amount,
{
    speed.0 = speed.0 - effect.amount;
}

/// The row that a loot item goes into, from what it is: a speed potion, a
/// health potion, a gun or an armor, in that order of precedence; none for
/// anything else.
pub fn pickup_slot(potion_type: Option<PotionType>, is_gun: bool, is_armor: bool) -> (r: Option<LootSlot>)
    ensures
        r == match potion_type {
            Some(PotionType::Speed) => Some(LootSlot::SpeedPotions),
            Some(PotionType::Health) => Some(LootSlot::HealthPotions),
            None => if is_gun {
                Some(LootSlot::Guns)
            } else if is_armor {
                Some(LootSlot::Armors)
            } else {
                None::<LootSlot>
            },
        },
{
    match potion_type {
        Some(PotionType::Speed) => Some(LootSlot::SpeedPotions),
        Some(PotionType::Health) => Some(LootSlot::HealthPotions),
        None => {
            if is_gun {
                Some(LootSlot::Guns)
            } else if is_armor {
                Some(LootSlot::Armors)
            } else {
                None
            }
        },
    }
}

} // verus!
