//! The shop: potions, guns, armor and experience for gold.

use vstd::prelude::*;
use crate::armor::ArmorStats;
use crate::configs::INVENTORY_SLOTS;
use crate::level::Level;
use crate::loot::{
    ArmorRolls, ArmorStatRange, GunRolls, GunStatRange, LootPool, LootStatRange, RolledGun,
    armor_from_rolls_spec, armor_rolls_fit, gun_from_rolls_spec, gun_rolls_fit, medium_armor_loot,
    medium_enemies_loot_items, medium_enemies_loots, medium_gun_loot, roll_armor, roll_gun,
};
use crate::player::{Gold, PlayerInventory};
use crate::potion::PotionStats;

verus! {

/// Price of a health potion.
pub const HEALTH_POTION_PRICE: u32 = 50;
/// Price of a speed potion.
pub const SPEED_POTION_PRICE: u32 = 50;
/// Price of a gun.
pub const GUN_PRICE: u32 = 200;
/// Price of an armor.
pub const ARMOR_PRICE: u32 = 100;
/// Price of a pack of experience.
pub const XP_PRICE: u32 = 400;
/// Experience in a pack.
pub const XP_PACK: u32 = 100;
/// Selling value of a bought potion.
pub const BOUGHT_POTION_VALUE: u32 = 5;
/// Selling value of a bought gun.
pub const BOUGHT_GUN_VALUE: u32 = 200;
/// Selling value of a bought armor.
pub const BOUGHT_ARMOR_VALUE: u32 = 100;

/// The buttons of the shop, top to bottom.
#[derive(Clone, Copy, PartialEq, Eq, Debug, Structural)]
pub enum ShopMenuButton {
    BuyHealthPotion,
    BuySpeedPotion,
    BuyGun,
    BuyArmor,
    BuyXP,
}

/// The shop button at position `index` (0 at the top); none past the last.
pub fn shop_button_at(index: u8) -> (r: Option<ShopMenuButton>)
    ensures
        r == if index == 0 {
            Some(ShopMenuButton::BuyHealthPotion)
        } else if index == 1 {
            Some(ShopMenuButton::BuySpeedPotion)
        } else if index == 2 {
            Some(ShopMenuButton::BuyGun)
        } else if index == 3 {
            Some(ShopMenuButton::BuyArmor)
        } else if index == 4 {
            Some(ShopMenuButton::BuyXP)
        } else {
            None::<ShopMenuButton>
        },
{
    match index {
        0 => Some(ShopMenuButton::BuyHealthPotion),
        1 => Some(ShopMenuButton::BuySpeedPotion),
        2 => Some(ShopMenuButton::BuyGun),
        3 => Some(ShopMenuButton::BuyArmor),
        4 => Some(ShopMenuButton::BuyXP),
        _ => None,
    }
}

/// How a purchase went.
#[derive(Clone, Copy, PartialEq, Eq, Debug, Structural)]
pub enum ShopOutcome {
    Bought,
    NotEnoughGold,
    InventoryFull,
}

/// The outcome of buying an item of price `price` for a row that holds
/// `row_len` items, with `gold` in hand: gold is checked first, room second.
pub open spec fn purchase_outcome(gold: u32, row_len: nat, price: u32) -> ShopOutcome {
    if gold >= price {
        if row_len < INVENTORY_SLOTS {
            ShopOutcome::Bought
        } else {
            ShopOutcome::InventoryFull
        }
    } else {
        ShopOutcome::NotEnoughGold
    }
}

/// Decides a purchase and takes the price when it goes through.
fn pay(gold: &mut Gold, row_len: usize, price: u32) -> (r: ShopOutcome)
    ensures
        r == purchase_outcome(old(gold).0, row_len as nat, price),
        r == ShopOutcome::Bought ==> final(gold).0 == old(gold).0 - price,
        r != ShopOutcome::Bought ==> final(gold).0 == old(gold).0,
{
    if gold.0 >= price {
        if row_len < INVENTORY_SLOTS {
            gold.0 = gold.0 - price;
            ShopOutcome::Bought
        } else {
            ShopOutcome::InventoryFull
        }
    } else {
        ShopOutcome::NotEnoughGold
    }
}

/// The potion sold by the shop for health: 10 health, no duration.
pub open spec fn shop_health_potion() -> PotionStats {
    PotionStats { effect_duration: 0, effect_amount: 10 }
}

/// The potion sold by the shop for speed: 10 speed for 5 seconds.
pub open spec fn shop_speed_potion() -> PotionStats {
    PotionStats { effect_duration: 5000, effect_amount: 10 }
}

/// Buys a health potion for 50 gold if the row has room. Returns the
/// outcome and, when bought, the stats of the potion to hand over.
pub fn handle_buy_health_potion(gold: &mut Gold, inventory: &PlayerInventory) -> (r: (
    ShopOutcome,
    Option<PotionStats>,
))
    ensures
        r.0 == purchase_outcome(old(gold).0, inventory.health_potions.len() as nat, HEALTH_POTION_PRICE),
        r.0 == ShopOutcome::Bought ==> final(gold).0 == old(gold).0 - HEALTH_POTION_PRICE
            && r.1 == Some(shop_health_potion()),
        r.0 != ShopOutcome::Bought ==> final(gold).0 == old(gold).0 && r.1 is None,
{
    let outcome = pay(gold, inventory.health_potions.len(), HEALTH_POTION_PRICE);
    if outcome == ShopOutcome::Bought {
        (outcome, Some(PotionStats { effect_duration: 0, effect_amount: 10 }))
    } else {
        (outcome, None)
    }
}

/// Buys a speed potion for 50 gold if the row has room. Returns the
/// outcome and, when bought, the stats of the potion to hand over.
pub fn handle_buy_speed_potion(gold: &mut Gold, inventory: &PlayerInventory) -> (r: (
    ShopOutcome,
    Option<PotionStats>,
))
    ensures
        r.0 == purchase_outcome(old(gold).0, inventory.speed_potions.len() as nat, SPEED_POTION_PRICE),
        r.0 == ShopOutcome::Bought ==> final(gold).0 == old(gold).0 - SPEED_POTION_PRICE
            && r.1 == Some(shop_speed_potion()),
        r.0 != ShopOutcome::Bought ==> final(gold).0 == old(gold).0 && r.1 is None,
{
    let outcome = pay(gold, inventory.speed_potions.len(), SPEED_POTION_PRICE);
    if outcome == ShopOutcome::Bought {
        (outcome, Some(PotionStats { effect_duration: 5000, effect_amount: 10 }))
    } else {
        (outcome, None)
    }
}

/// The gun stat range of the first gun entry of a loot table.
pub fn find_gun_range(pool: &LootPool) -> (r: Option<GunStatRange>)
    ensures
        r is None <==> forall|i: int| 0 <= i < pool.items.len() ==> !(#[trigger] pool.items@[i].stat_range is Gun),
        r matches Some(range) ==> exists|i: int|
            0 <= i < pool.items.len() && pool.items@[i].stat_range == LootStatRange::Gun(range) && forall|j: int|
                0 <= j < i ==> !(#[trigger] pool.items@[j].stat_range is Gun),
{
    let mut i: usize = 0;
    while i < pool.items.len()
        invariant
            i <= pool.items.len(),
            forall|j: int| 0 <= j < i ==> !(#[trigger] pool.items@[j].stat_range is Gun),
        decreases pool.items.len() - i,
    {
        if let LootStatRange::Gun(range) = pool.items[i].stat_range {
            return Some(range);
        }
        i = i + 1;
    }
    None
}

/// The armor stat range of the first armor entry of a loot table.
pub fn find_armor_range(pool: &LootPool) -> (r: Option<ArmorStatRange>)
    ensures
        r is None <==> forall|i: int| 0 <= i < pool.items.len() ==> !(#[trigger] pool.items@[i].stat_range is Armor),
        r matches Some(range) ==> exists|i: int|
            0 <= i < pool.items.len() && pool.items@[i].stat_range == LootStatRange::Armor(range) && forall|j: int|
                0 <= j < i ==> !(#[trigger] pool.items@[j].stat_range is Armor),
{
    let mut i: usize = 0;
    while i < pool.items.len()
        invariant
            i <= pool.items.len(),
            forall|j: int| 0 <= j < i ==> !(#[trigger] pool.items@[j].stat_range is Armor),
        decreases pool.items.len() - i,
    {
        if let LootStatRange::Armor(range) = pool.items[i].stat_range {
            return Some(range);
        }
        i = i + 1;
    }
    None
}

/// The stat range of the guns the shop sells: that of the gun of the
/// medium loot table.
pub open spec fn shop_gun_range() -> GunStatRange {
    medium_gun_loot().stat_range->Gun_0
}

/// The stat range of the armors the shop sells: that of the armor of the
/// medium loot table.
pub open spec fn shop_armor_range() -> ArmorStatRange {
    medium_armor_loot().stat_range->Armor_0
}

/// Buys a gun for 200 gold if the row has room; its stats are drawn from
/// the gun range of the medium loot table.
pub fn handle_buy_gun(gold: &mut Gold, inventory: &PlayerInventory) -> (r: (
    ShopOutcome,
    Option<RolledGun>,
))
    ensures
        r.0 == purchase_outcome(old(gold).0, inventory.guns.len() as nat, GUN_PRICE),
        r.0 == ShopOutcome::Bought ==> final(gold).0 == old(gold).0 - GUN_PRICE,
        r.0 != ShopOutcome::Bought ==> final(gold).0 == old(gold).0 && r.1 is None,
        r.0 == ShopOutcome::Bought ==> (r.1 matches Some(gun) && exists|rolls: GunRolls|
            gun_rolls_fit(shop_gun_range(), rolls) && gun == gun_from_rolls_spec(rolls)),
{
    let outcome = pay(gold, inventory.guns.len(), GUN_PRICE);
    if outcome == ShopOutcome::Bought {
        let table = medium_enemies_loots();
        let found = find_gun_range(&table);
        proof {
            assert(table.items@[2] == medium_gun_loot());
            assert(table.items@[2].stat_range is Gun);
            assert(table.items@[0].stat_range is Potion);
            assert(table.items@[1].stat_range is Armor);
        }
        let range = found.unwrap();
        proof {
            let i = choose|i: int|
                0 <= i < table.items.len() && table.items@[i].stat_range == LootStatRange::Gun(range)
                    && forall|j: int| 0 <= j < i ==> !(#[trigger] table.items@[j].stat_range is Gun);
            assert(i == 2);
            assert(range == shop_gun_range());
        }
        (outcome, Some(roll_gun(&range)))
    } else {
        (outcome, None)
    }
}

/// Buys an armor for 100 gold if the row has room; its stats are drawn
/// from the armor range of the medium loot table.
pub fn handle_buy_armor(gold: &mut Gold, inventory: &PlayerInventory) -> (r: (
    ShopOutcome,
    Option<ArmorStats>,
))
    ensures
        r.0 == purchase_outcome(old(gold).0, inventory.armors.len() as nat, ARMOR_PRICE),
        r.0 == ShopOutcome::Bought ==> final(gold).0 == old(gold).0 - ARMOR_PRICE,
        r.0 != ShopOutcome::Bought ==> final(gold).0 == old(gold).0 && r.1 is None,
        r.0 == ShopOutcome::Bought ==> (r.1 matches Some(armor) && exists|rolls: ArmorRolls|
            armor_rolls_fit(shop_armor_range(), rolls) && armor == armor_from_rolls_spec(rolls)),
{
    let outcome = pay(gold, inventory.armors.len(), ARMOR_PRICE);
    if outcome == ShopOutcome::Bought {
        let table = medium_enemies_loots();
        let found = find_armor_range(&table);
        proof {
            assert(table.items@[1] == medium_armor_loot());
            assert(table.items@[1].stat_range is Armor);
            assert(table.items@[0].stat_range is Potion);
        }
        let range = found.unwrap();
        proof {
            let i = choose|i: int|
                0 <= i < table.items.len() && table.items@[i].stat_range == LootStatRange::Armor(range)
                    && forall|j: int| 0 <= j < i ==> !(#[trigger] table.items@[j].stat_range is Armor);
            assert(i == 1);
            assert(range == shop_armor_range());
        }
        (outcome, Some(roll_armor(&range)))
    } else {
        (outcome, None)
    }
}

/// Buys 100 XP for 400 gold. Returns the outcome and, when a level was
/// gained, the new level.
pub fn handle_buy_xp(gold: &mut Gold, level: &mut Level) -> (r: (ShopOutcome, Option<u32>))
    requires
        old(level).wf(),
        old(gold).0 >= XP_PRICE ==> old(level).xp_fits(XP_PACK as nat),
    ensures
        final(level).wf(),
        old(gold).0 >= XP_PRICE ==> {
            &&& r.0 == ShopOutcome::Bought
            &&& final(gold).0 == old(gold).0 - XP_PRICE
            &&& final(level).total_xp() == old(level).total_xp() + XP_PACK
            &&& (final(level).level_spec() > old(level).level_spec()) == (r.1 is Some)
            &&& r.1 matches Some(l) ==> l == final(level).level_spec()
        },
        old(gold).0 < XP_PRICE ==> {
            &&& r.0 == ShopOutcome::NotEnoughGold
            &&& final(gold).0 == old(gold).0
            &&& *final(level) == *old(level)
            &&& r.1 is None
        },
{
    if gold.0 >= XP_PRICE {
        gold.0 = gold.0 - XP_PRICE;
        if level.add_xp(XP_PACK) {
            (ShopOutcome::Bought, Some(level.level()))
        } else {
            (ShopOutcome::Bought, None)
        }
    } else {
        (ShopOutcome::NotEnoughGold, None)
    }
}

} // verus!
