use fishmans_adventure::gun::GunType;
use fishmans_adventure::loot::{
    boss_enemy_loots, droppable, gun_from_rolls, roll_dropped, DroppedItem, LootDefinition, medium_enemies_loots, roll_armor, roll_gun, roll_potion,
    strong_enemies_loots, weak_enemies_loots, ArmorStatRange, GunRolls, GunStatRange, LootPool,
    LootStatRange, LootType, PotionStatRange,
};
use fishmans_adventure::potion::PotionType;

fn weak_gun_range() -> GunStatRange {
    match weak_enemies_loots().items[1].stat_range {
        LootStatRange::Gun(r) => r,
        _ => panic!("the weak table's second entry is a gun"),
    }
}

#[test]
fn loot_tables_hold_their_entries() {
    let weak = weak_enemies_loots();
    assert_eq!(weak.items.len(), 2);
    assert_eq!(weak.items[0].loot_type, LootType::Potion);
    assert_eq!((weak.items[0].drop_chance, weak.items[0].value), (800, 10));
    assert_eq!((weak.items[1].drop_chance, weak.items[1].value), (100, 20));
    let medium = medium_enemies_loots();
    let kinds: Vec<LootType> = medium.items.iter().map(|i| i.loot_type).collect();
    assert_eq!(kinds, vec![LootType::Potion, LootType::Armor, LootType::Gun]);
    let strong = strong_enemies_loots();
    assert_eq!(strong.items[0].drop_chance, 3000);
    let boss = boss_enemy_loots();
    let chances: Vec<u32> = boss.items.iter().map(|i| i.drop_chance).collect();
    assert_eq!(chances, vec![5000, 2000, 2000]);
    assert!(LootPool::default().items.is_empty());
}

#[test]
fn rolls_under_the_chance_drop() {
    let weak = weak_enemies_loots();
    let drops = weak.loots_for_rolls(&vec![799, 100]);
    assert_eq!(drops.len(), 1);
    assert_eq!(drops[0].loot_type, LootType::Potion);
    let drops = weak.loots_for_rolls(&vec![800, 99]);
    assert_eq!(drops.len(), 1);
    assert_eq!(drops[0].loot_type, LootType::Gun);
    assert_eq!(weak.loots_for_rolls(&vec![0, 0]).len(), 2);
    assert!(weak.loots_for_rolls(&vec![9999, 9999]).is_empty());
}

#[test]
fn random_drops_keep_table_order() {
    let boss = boss_enemy_loots();
    for _ in 0..50 {
        let drops = boss.get_random_loots();
        assert!(drops.len() <= 3);
        let mut last = None;
        for d in &drops {
            let pos = boss.items.iter().position(|i| i.loot_type == d.loot_type).unwrap();
            assert!(last.map_or(true, |l| l < pos));
            last = Some(pos);
        }
    }
}

#[test]
fn gun_kinds_from_rolls() {
    let range = weak_gun_range();
    let rolls = GunRolls { speed: 12, lifespan: 1500, damage: 33, kind: 0, bullets: 10, interval: 301, spread: 150, sprite: 65 };
    let focused = gun_from_rolls(&range, &rolls);
    assert_eq!(focused.gun_type, GunType::FocusedAim);
    assert_eq!(focused.gun_stats.bullets_per_shot, 1);
    assert_eq!(focused.gun_stats.firing_interval, 150);
    assert_eq!(focused.gun_stats.bullet_spread, 0);
    assert_eq!(focused.bullet_stats.speed, 12);
    assert_eq!(focused.bullet_stats.damage, 33);
    assert_eq!(focused.bullet_stats.lifespan, 1500);
    assert_eq!(focused.sprite_index, 65);

    let omni = gun_from_rolls(&range, &GunRolls { kind: 1, bullets: 15, interval: 400, spread: 180, ..rolls });
    assert_eq!(omni.gun_type, GunType::OmniSpread);
    assert_eq!(omni.gun_stats.bullets_per_shot, 22);
    assert_eq!(omni.gun_stats.firing_interval, 320);
    assert_eq!(omni.gun_stats.bullet_spread, 180);

    let single = gun_from_rolls(&range, &GunRolls { kind: 2, bullets: 17, interval: 333, spread: 199, ..rolls });
    assert_eq!(single.gun_type, GunType::SingleDirectionSpread);
    assert_eq!(single.gun_stats.bullets_per_shot, 17);
    assert_eq!(single.gun_stats.firing_interval, 333);
    assert_eq!(single.gun_stats.bullet_spread, 199);
}

#[test]
fn rolled_guns_stay_in_their_ranges() {
    let range = weak_gun_range();
    let mut kinds_seen = Vec::new();
    for _ in 0..200 {
        let gun = roll_gun(&range);
        assert!((10..=20).contains(&gun.bullet_stats.speed));
        assert!((30..=40).contains(&gun.bullet_stats.damage));
        assert!((1000..=2000).contains(&gun.bullet_stats.lifespan));
        match gun.gun_type {
            GunType::FocusedAim => assert!((150..=250).contains(&gun.gun_stats.firing_interval)),
            GunType::OmniSpread => assert!((15..=30).contains(&gun.gun_stats.bullets_per_shot)),
            GunType::SingleDirectionSpread => assert!((10..=20).contains(&gun.gun_stats.bullets_per_shot)),
        }
        if !kinds_seen.contains(&gun.gun_type) {
            kinds_seen.push(gun.gun_type);
        }
    }
    assert_eq!(kinds_seen.len(), 3);
}

#[test]
fn rolled_armor_and_potions_stay_in_their_ranges() {
    let armor_range = ArmorStatRange { defense: (2, 5), durability: (20, 40) };
    let potion_range = PotionStatRange { effect_duration: (3000, 5000), effect_amount: (5, 10) };
    for _ in 0..100 {
        let a = roll_armor(&armor_range);
        assert!((2..=5).contains(&a.defense));
        assert!((20..=40).contains(&a.durability));
        let p = roll_potion(&potion_range);
        assert!((3000..=5000).contains(&p.stats.effect_duration));
        assert!((5..=10).contains(&p.stats.effect_amount));
        match p.potion_type {
            PotionType::Speed => assert_eq!(p.sprite_index, 97),
            PotionType::Health => assert_eq!(p.sprite_index, 96),
        }
    }
}

#[test]
fn every_table_entry_is_droppable() {
    for pool in [weak_enemies_loots(), medium_enemies_loots(), strong_enemies_loots(), boss_enemy_loots()] {
        for def in pool.items.iter() {
            assert!(droppable(def));
        }
    }
}

#[test]
fn entries_with_empty_ranges_or_excess_chance_are_not_droppable() {
    let empty = LootDefinition {
        loot_type: LootType::Armor,
        drop_chance: 100,
        value: 1,
        stat_range: LootStatRange::Armor(ArmorStatRange { defense: (5, 2), durability: (1, 1) }),
    };
    assert!(!droppable(&empty));
    let excess = LootDefinition {
        loot_type: LootType::Gun,
        drop_chance: 10001,
        value: 1,
        stat_range: LootStatRange::NoStats,
    };
    assert!(!droppable(&excess));
    let plain = LootDefinition { drop_chance: 10000, ..excess };
    assert!(droppable(&plain));
}

#[test]
fn dropped_entries_draw_items_of_their_kind() {
    let medium = medium_enemies_loots();
    match roll_dropped(&medium.items[0]) {
        Some(DroppedItem::Potion(p)) => {
            assert!((4000..=7000).contains(&p.stats.effect_duration));
            assert!((7..=12).contains(&p.stats.effect_amount));
        }
        _ => panic!("the medium table's first entry is a potion"),
    }
    match roll_dropped(&medium.items[1]) {
        Some(DroppedItem::Armor(a)) => {
            assert!((1..=3).contains(&a.defense));
            assert!((15..=30).contains(&a.durability));
        }
        _ => panic!("the medium table's second entry is an armor"),
    }
    match roll_dropped(&medium.items[2]) {
        Some(DroppedItem::Gun(g)) => {
            assert!((50..=100).contains(&g.bullet_stats.damage));
            assert!((20..=30).contains(&g.bullet_stats.speed));
        }
        _ => panic!("the medium table's third entry is a gun"),
    }
    let none = LootDefinition {
        loot_type: LootType::Potion,
        drop_chance: 1,
        value: 1,
        stat_range: LootStatRange::NoStats,
    };
    assert!(roll_dropped(&none).is_none());
}
