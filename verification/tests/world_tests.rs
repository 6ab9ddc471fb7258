use fishmans_adventure::armor::ArmorStats;
use fishmans_adventure::configs::{SPRITE_SHEET_H, SPRITE_SHEET_W};
use fishmans_adventure::gun::GunType;
use fishmans_adventure::player::{Defense, Gold, Health, Speed};
use fishmans_adventure::potion::PotionType;
use fishmans_adventure::resources::{GameMode, Wave};
use fishmans_adventure::world::{
    starting_armors, starting_guns, starting_inventory, starting_potions, starting_stats,
};

#[test]
fn a_fresh_run() {
    let s = starting_stats();
    assert_eq!(s.health, Health(50, 200));
    assert_eq!(s.speed, Speed(10));
    assert_eq!(s.defense, Defense(1));
    assert_eq!(s.gold, Gold(0));
    let guns = starting_guns();
    assert_eq!(guns.len(), 3);
    assert_eq!(guns[0].gun_type, GunType::SingleDirectionSpread);
    assert!(guns[0].stats.is_none());
    let (omni, bullets) = guns[1].stats.unwrap();
    assert_eq!((omni.bullets_per_shot, omni.firing_interval, bullets.damage), (40, 500, 20));
    assert_eq!(guns[2].gun_type, GunType::FocusedAim);
    let (health, speed) = starting_potions();
    assert_eq!(health.0, PotionType::Health);
    assert_eq!(speed.1.effect_duration, 1000);
    assert_eq!(starting_armors(), (ArmorStats { defense: 2, durability: 20 }, ArmorStats { defense: 3, durability: 30 }));
    let inv = starting_inventory((1, 2, 3), 4, 5, (6, 7));
    assert_eq!(inv.guns, vec![1, 2, 3]);
    assert_eq!(inv.health_potions, vec![4]);
    assert_eq!(inv.speed_potions, vec![5]);
    assert_eq!(inv.armors, vec![6, 7]);
    assert_eq!((inv.active_gun_index, inv.active_armor_index), (0, 0));
    assert_eq!(Wave::default(), Wave { number: 0 });
    assert_eq!(GameMode::default(), GameMode::Normal);
    assert_eq!((SPRITE_SHEET_W, SPRITE_SHEET_H), (16, 16));
}
