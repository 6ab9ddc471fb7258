use fishmans_adventure::loot::LootType;
use fishmans_adventure::player::{
    acceleration_over, end_acceleration, pickup_slot, AccelerationEffect, Gold, Health, LootSlot,
    PlayerInventory, Speed, SpeedPotionUse,
};
use fishmans_adventure::potion::{PotionStats, PotionType};

fn inventory(guns: Vec<u64>, health: Vec<u64>, speed: Vec<u64>, armors: Vec<u64>) -> PlayerInventory {
    PlayerInventory {
        guns,
        health_potions: health,
        speed_potions: speed,
        armors,
        active_gun_index: 0,
        active_armor_index: 0,
    }
}

#[test]
fn picked_up_loot_goes_into_its_row() {
    let mut inv = inventory(vec![1], vec![], vec![], vec![]);
    let mut gold = Gold(0);
    inv.pick_up(&mut gold, LootSlot::HealthPotions, 7, 12);
    assert_eq!(inv.health_potions, vec![7]);
    assert_eq!(gold, Gold(0));
    inv.pick_up(&mut gold, LootSlot::HealthPotions, 7, 12);
    assert_eq!(inv.health_potions, vec![7]);
    assert_eq!(gold, Gold(0));
    inv.pick_up(&mut gold, LootSlot::Guns, 8, 30);
    assert_eq!(inv.guns, vec![1, 8]);
}

#[test]
fn loot_for_a_full_row_turns_into_gold() {
    let mut inv = inventory(vec![1, 2, 3, 4], vec![], vec![], vec![]);
    let mut gold = Gold(5);
    inv.pick_up(&mut gold, LootSlot::Guns, 9, 40);
    assert_eq!(inv.guns, vec![1, 2, 3, 4]);
    assert_eq!(gold, Gold(45));
    inv.pick_up(&mut gold, LootSlot::Guns, 3, 40);
    assert_eq!(gold, Gold(45));
}

#[test]
fn loot_kind_precedence() {
    assert_eq!(pickup_slot(Some(PotionType::Speed), true, true), Some(LootSlot::SpeedPotions));
    assert_eq!(pickup_slot(Some(PotionType::Health), false, false), Some(LootSlot::HealthPotions));
    assert_eq!(pickup_slot(None, true, true), Some(LootSlot::Guns));
    assert_eq!(pickup_slot(None, false, true), Some(LootSlot::Armors));
    assert_eq!(pickup_slot(None, false, false), None);
}

#[test]
fn selling_a_potion_removes_it_everywhere() {
    let mut inv = inventory(vec![1], vec![5, 6], vec![6, 7], vec![]);
    let mut gold = Gold(10);
    assert_eq!(inv.sell(&mut gold, LootType::Potion, 6, 15), None);
    assert_eq!(inv.health_potions, vec![5]);
    assert_eq!(inv.speed_potions, vec![7]);
    assert_eq!(gold, Gold(25));
}

#[test]
fn selling_the_last_gun_moves_the_active_index_back() {
    let mut inv = inventory(vec![1, 2, 3], vec![], vec![], vec![]);
    inv.active_gun_index = 2;
    let mut gold = Gold(0);
    assert_eq!(inv.sell(&mut gold, LootType::Gun, 3, 200), Some(1));
    assert_eq!(inv.guns, vec![1, 2]);
    assert_eq!(inv.active_gun_index, 0);
    assert_eq!(gold, Gold(200));
    inv.active_gun_index = 1;
    assert_eq!(inv.sell(&mut gold, LootType::Gun, 1, 1), Some(2));
    assert_eq!(inv.guns, vec![2]);
    assert_eq!(inv.active_gun_index, 0);
}

#[test]
fn selling_an_armor_keeps_a_valid_active_armor() {
    let mut inv = inventory(vec![], vec![], vec![], vec![4, 5]);
    inv.active_armor_index = 0;
    let mut gold = Gold(0);
    assert_eq!(inv.sell(&mut gold, LootType::Armor, 5, 25), Some(4));
    assert_eq!(inv.armors, vec![4]);
    assert_eq!(inv.active_armor_index, 0);
}

#[test]
fn switching_wraps_round() {
    let mut inv = inventory(vec![1, 2, 3], vec![], vec![], vec![4, 5]);
    assert_eq!(inv.switch_gun(), 1);
    assert_eq!(inv.switch_gun(), 2);
    assert_eq!(inv.switch_gun(), 0);
    assert_eq!(inv.switch_armor(), 1);
    assert_eq!(inv.switch_armor(), 0);
    assert_eq!(inv.guns, vec![1, 2, 3]);
}

#[test]
fn health_potions_heal_up_to_the_maximum() {
    let mut inv = inventory(vec![], vec![11, 12], vec![], vec![]);
    let mut health = Health(45, 50);
    assert_eq!(inv.drink_health_potion(&mut health, Some(10)), Some(11));
    assert_eq!(health, Health(50, 50));
    assert_eq!(inv.health_potions, vec![12]);
    let mut low = Health(10, 50);
    assert_eq!(inv.drink_health_potion(&mut low, Some(10)), Some(12));
    assert_eq!(low, Health(20, 50));
    assert_eq!(inv.drink_health_potion(&mut low, Some(10)), None);
    assert_eq!(low, Health(20, 50));
    let mut unread = inventory(vec![], vec![3], vec![], vec![]);
    assert_eq!(unread.drink_health_potion(&mut low, None), None);
    assert_eq!(unread.health_potions, vec![3]);
}

#[test]
fn speed_potions_boost_once_at_a_time() {
    let mut inv = inventory(vec![], vec![], vec![21, 22], vec![]);
    let mut speed = Speed(10);
    let stats = PotionStats { effect_duration: 5000, effect_amount: 10 };
    assert_eq!(inv.drink_speed_potion(&mut speed, true, Some(stats)), SpeedPotionUse::AlreadyActive);
    assert_eq!(speed, Speed(10));
    let used = inv.drink_speed_potion(&mut speed, false, Some(stats));
    let effect = AccelerationEffect { duration: 5000, amount: 10 };
    assert_eq!(used, SpeedPotionUse::Drunk { potion: 21, effect });
    assert_eq!(speed, Speed(20));
    assert_eq!(inv.speed_potions, vec![22]);
    assert!(!acceleration_over(&effect, 4999));
    assert!(acceleration_over(&effect, 5000));
    end_acceleration(&mut speed, &effect);
    assert_eq!(speed, Speed(10));
    let mut empty = inventory(vec![], vec![], vec![], vec![]);
    assert_eq!(empty.drink_speed_potion(&mut speed, false, Some(stats)), SpeedPotionUse::Nothing);
}

#[test]
fn hits_without_armor_come_off_health() {
    let mut inv = inventory(vec![], vec![], vec![], vec![]);
    let mut health = Health(50, 200);
    let out = inv.take_hit(&mut health, None, 10);
    assert_eq!(health, Health(40, 200));
    assert!(out.invincible);
    let out = inv.take_hit(&mut health, None, 0);
    assert_eq!(health, Health(40, 200));
    assert!(!out.invincible);
    let out = inv.take_hit(&mut health, None, 90);
    assert_eq!(health, Health(0, 200));
    assert!(out.invincible);
    let out = inv.take_hit(&mut health, None, 5);
    assert_eq!(health, Health(0, 200));
    assert!(!out.invincible);
}

#[test]
fn armor_soaks_hits_and_breaks() {
    let mut inv = inventory(vec![], vec![], vec![], vec![31, 32]);
    let mut health = Health(50, 200);
    let out = inv.take_hit(&mut health, Some(20), 5);
    assert_eq!(out.durability_after, Some(15));
    assert_eq!(out.destroyed_armor, None);
    assert_eq!(health, Health(45, 200));
    assert!(out.invincible);

    let out = inv.take_hit(&mut health, Some(5), 5);
    assert_eq!(out.durability_after, Some(0));
    assert_eq!(out.destroyed_armor, Some(31));
    assert_eq!(out.newly_active_armor, Some(32));
    assert_eq!(inv.armors, vec![32]);
    assert_eq!(inv.active_armor_index, 0);
    assert_eq!(health, Health(40, 200));

    let out = inv.take_hit(&mut health, Some(0), 0);
    assert_eq!(out.destroyed_armor, Some(32));
    assert_eq!(out.newly_active_armor, None);
    assert!(!out.invincible);
    assert!(inv.armors.is_empty());
    assert_eq!(health, Health(40, 200));
}

#[test]
fn breaking_the_last_armor_in_the_row_activates_the_first() {
    let mut inv = inventory(vec![], vec![], vec![], vec![41, 42]);
    inv.active_armor_index = 1;
    let mut health = Health(30, 200);
    let out = inv.take_hit(&mut health, Some(3), 7);
    assert_eq!(out.destroyed_armor, Some(42));
    assert_eq!(out.newly_active_armor, Some(41));
    assert_eq!(inv.active_armor_index, 0);
    assert_eq!(health, Health(23, 200));
}

#[test]
fn unreadable_armor_and_dead_players_take_nothing() {
    let mut inv = inventory(vec![], vec![], vec![], vec![51]);
    let mut health = Health(30, 200);
    let out = inv.take_hit(&mut health, None, 7);
    assert_eq!(health, Health(30, 200));
    assert!(!out.invincible);
    assert_eq!(out.durability_after, None);
    let mut dead = Health(0, 200);
    let out = inv.take_hit(&mut dead, Some(3), 7);
    assert_eq!(out.durability_after, None);
    assert_eq!(inv.armors, vec![51]);
}

#[test]
fn selling_must_leave_a_gun_and_an_armor_to_make_active() {
    let inv = inventory(vec![1, 2], vec![3], vec![], vec![4]);
    assert!(inv.can_sell(LootType::Gun, 1));
    assert!(!inv.can_sell(LootType::Armor, 4));
    assert!(inv.can_sell(LootType::Armor, 9));
    assert!(inv.can_sell(LootType::Potion, 3));
    let twice = inventory(vec![5, 5], vec![], vec![], vec![]);
    assert!(!twice.can_sell(LootType::Gun, 5));
}

#[test]
fn selling_a_picked_up_item_restores_its_row() {
    let mut inv = inventory(vec![1], vec![2], vec![], vec![3]);
    let mut gold = Gold(5);
    inv.pick_up(&mut gold, LootSlot::HealthPotions, 9, 12);
    assert_eq!(inv.health_potions, vec![2, 9]);
    assert_eq!(gold, Gold(5));
    let active = inv.sell(&mut gold, LootType::Potion, 9, 12);
    assert_eq!(active, None);
    assert_eq!(inv.health_potions, vec![2]);
    assert_eq!(gold, Gold(17));
}

#[test]
fn an_ended_speed_boost_gives_back_its_speed() {
    let mut inv = inventory(vec![1], vec![], vec![6], vec![]);
    let mut speed = Speed(10);
    let stats = PotionStats { effect_duration: 5000, effect_amount: 7 };
    match inv.drink_speed_potion(&mut speed, false, Some(stats)) {
        SpeedPotionUse::Drunk { potion, effect } => {
            assert_eq!(potion, 6);
            assert_eq!(speed, Speed(17));
            end_acceleration(&mut speed, &effect);
            assert_eq!(speed, Speed(10));
        }
        other => panic!("expected the potion to be drunk, got {:?}", other),
    }
}
