use fishmans_adventure::level::Level;
use fishmans_adventure::player::{Gold, PlayerInventory};
use fishmans_adventure::potion::PotionStats;
use fishmans_adventure::shop::{
    handle_buy_armor, handle_buy_gun, handle_buy_health_potion, handle_buy_speed_potion,
    handle_buy_xp, shop_button_at, ShopMenuButton, ShopOutcome,
};

fn inventory(rows: usize) -> PlayerInventory {
    let row: Vec<u64> = (0..rows as u64).collect();
    PlayerInventory {
        guns: row.clone(),
        health_potions: row.clone(),
        speed_potions: row.clone(),
        armors: row,
        active_gun_index: 0,
        active_armor_index: 0,
    }
}

#[test]
fn potions_cost_fifty() {
    let mut gold = Gold(60);
    let (outcome, potion) = handle_buy_health_potion(&mut gold, &inventory(1));
    assert_eq!(outcome, ShopOutcome::Bought);
    assert_eq!(potion, Some(PotionStats { effect_duration: 0, effect_amount: 10 }));
    assert_eq!(gold, Gold(10));
    let (outcome, potion) = handle_buy_speed_potion(&mut gold, &inventory(1));
    assert_eq!(outcome, ShopOutcome::NotEnoughGold);
    assert_eq!(potion, None);
    assert_eq!(gold, Gold(10));
    let mut rich = Gold(50);
    let (outcome, potion) = handle_buy_speed_potion(&mut rich, &inventory(0));
    assert_eq!(outcome, ShopOutcome::Bought);
    assert_eq!(potion, Some(PotionStats { effect_duration: 5000, effect_amount: 10 }));
    assert_eq!(rich, Gold(0));
}

#[test]
fn full_rows_refuse_purchases_and_keep_the_gold() {
    let mut gold = Gold(1000);
    assert_eq!(handle_buy_health_potion(&mut gold, &inventory(4)).0, ShopOutcome::InventoryFull);
    assert_eq!(handle_buy_gun(&mut gold, &inventory(4)).0, ShopOutcome::InventoryFull);
    assert_eq!(handle_buy_armor(&mut gold, &inventory(4)).0, ShopOutcome::InventoryFull);
    assert_eq!(gold, Gold(1000));
}

#[test]
fn gold_is_checked_before_room() {
    let mut gold = Gold(10);
    assert_eq!(handle_buy_gun(&mut gold, &inventory(4)).0, ShopOutcome::NotEnoughGold);
}

#[test]
fn bought_guns_and_armor_come_from_the_medium_table() {
    for _ in 0..30 {
        let mut gold = Gold(250);
        let (outcome, gun) = handle_buy_gun(&mut gold, &inventory(2));
        assert_eq!(outcome, ShopOutcome::Bought);
        assert_eq!(gold, Gold(50));
        let gun = gun.unwrap();
        assert!((20..=30).contains(&gun.bullet_stats.speed));
        assert!((50..=100).contains(&gun.bullet_stats.damage));
        assert!((1500..=3000).contains(&gun.bullet_stats.lifespan));
        assert!((64..=66).contains(&gun.sprite_index));

        let mut gold = Gold(100);
        let (outcome, armor) = handle_buy_armor(&mut gold, &inventory(0));
        assert_eq!(outcome, ShopOutcome::Bought);
        assert_eq!(gold, Gold(0));
        let armor = armor.unwrap();
        assert!((1..=3).contains(&armor.defense));
        assert!((15..=30).contains(&armor.durability));
    }
}

#[test]
fn experience_costs_four_hundred() {
    let mut gold = Gold(450);
    let mut level = Level::default();
    assert_eq!(handle_buy_xp(&mut gold, &mut level), (ShopOutcome::Bought, Some(2)));
    assert_eq!(gold, Gold(50));
    assert_eq!(level.level(), 2);
    let mut gold = Gold(399);
    assert_eq!(handle_buy_xp(&mut gold, &mut level), (ShopOutcome::NotEnoughGold, None));
    assert_eq!(level.level(), 2);
    let mut gold = Gold(400);
    assert_eq!(handle_buy_xp(&mut gold, &mut level), (ShopOutcome::Bought, None));
    assert_eq!(level.current_xp(), 100);
}

#[test]
fn shop_buttons_in_order() {
    assert_eq!(shop_button_at(0), Some(ShopMenuButton::BuyHealthPotion));
    assert_eq!(shop_button_at(2), Some(ShopMenuButton::BuyGun));
    assert_eq!(shop_button_at(4), Some(ShopMenuButton::BuyXP));
    assert_eq!(shop_button_at(5), None);
}
