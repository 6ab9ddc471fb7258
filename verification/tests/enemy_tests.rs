use fishmans_adventure::enemy::builder::{Ability, EnemyBuilder};
use fishmans_adventure::enemy::components::{
    ChargeAbility, ChargeMove, ChargeState, Enemy, SplitAbility, TargetChange,
};
use fishmans_adventure::enemy::presets::{
    create_basic_enemy, create_bomber_enemy, create_charging_enemy, create_enemy,
    create_gurgle_enemy, create_midgame_boss_enemy, create_shooter_enemy, create_splitting_enemy,
    create_trail_enemy, EnemyKind,
};
use fishmans_adventure::enemy::systems::{
    contact_outcome, enemy_movement, pick_summon_kind, ranged_movement, roll_minion_count,
    split_offspring, summon_kind_for_roll, ContactOutcome, EnemyMode, MoveKind, RangedBehavior,
};

#[test]
fn plain_builder_defaults() {
    let b = EnemyBuilder::new();
    assert_eq!((b.health, b.speed, b.damage, b.xp), (100, 6, 6, 4));
    assert_eq!(b.sprite_index, 16);
    assert_eq!(b.sprite_size, (16, 16));
    assert!(b.abilities.is_empty());
    assert!(b.loot_pool.is_none());
}

#[test]
fn builder_methods_set_what_they_name() {
    let b = EnemyBuilder::new()
        .with_stats(1, 2, 3, 4)
        .with_sprite(9, (32, 32))
        .with_explosion(5000, 7)
        .with_separation(100, 200)
        .with_splitting(2);
    assert_eq!((b.health, b.speed, b.damage, b.xp), (1, 2, 3, 4));
    assert_eq!((b.sprite_index, b.sprite_size), (9, (32, 32)));
    assert_eq!(
        b.abilities,
        vec![
            Ability::Explosion { radius: 5000, damage: 7 },
            Ability::Separation { radius: 100, force: 200 },
            Ability::Splitting { splits: 2 },
        ]
    );
}

#[test]
fn presets_have_their_stats() {
    let basic = create_basic_enemy();
    assert_eq!((basic.health, basic.speed, basic.damage, basic.xp), (100, 6, 8, 10));
    assert!(basic.abilities.is_empty());
    assert_eq!(basic.loot_pool.as_ref().unwrap().items.len(), 2);

    let charging = create_charging_enemy();
    assert_eq!((charging.health, charging.speed, charging.damage, charging.xp), (150, 6, 10, 20));
    assert_eq!(
        charging.abilities,
        vec![Ability::Charge { distance: 400, speed: 25, prepare_time: 1500, cooldown: 5000 }]
    );

    let trail = create_trail_enemy();
    assert_eq!(trail.sprite_index, 20);
    assert_eq!(
        trail.abilities,
        vec![Ability::Trail { damage: 8, interval: 50, radius: 10000, duration: 4000 }]
    );

    let splitting = create_splitting_enemy();
    assert_eq!(splitting.abilities, vec![Ability::Splitting { splits: 3 }]);

    let shooter = create_shooter_enemy();
    assert_eq!(shooter.loot_pool.as_ref().unwrap().items.len(), 3);
    assert_eq!(shooter.abilities.len(), 2);
    assert!(matches!(shooter.abilities[1], Ability::RangedBehavior { preferred_distance: 600000, .. }));

    let bomber = create_bomber_enemy();
    assert_eq!((bomber.health, bomber.damage), (30, 30));
    assert_eq!(bomber.abilities, vec![Ability::Explosion { radius: 140000, damage: 14 }]);

    let gurgle = create_gurgle_enemy();
    assert_eq!(gurgle.abilities.last(), Some(&Ability::GurgleMarker));

    let boss = create_midgame_boss_enemy();
    assert_eq!(boss.health, 30000);
    assert_eq!(boss.sprite_size, (32, 32));
    assert_eq!(
        boss.abilities[2],
        Ability::Summoning { min_minions: 8, max_minions: 14, interval: 9000 }
    );

    let again = create_enemy(EnemyKind::Gurgle);
    assert_eq!(again.abilities, gurgle.abilities);
}

#[test]
fn bullets_wear_down_health() {
    let mut e = Enemy { health: 100, speed: 5, damage: 3, xp: 9 };
    assert!(e.take_bullet(25, 5));
    assert_eq!(e.health, 70);
    assert!(!e.take_bullet(80, 0));
    assert_eq!(e.health, 0);
    assert!(e.is_dead());
    assert!(!e.take_bullet(10, 0));
    assert_eq!(e.health, 0);
    assert_eq!((e.speed, e.damage, e.xp), (5, 3, 9));
}

#[test]
fn touching_enemies() {
    let biter = Enemy { health: 10, speed: 1, damage: 6, xp: 1 };
    let harmless = Enemy { health: 10, speed: 1, damage: 0, xp: 1 };
    assert_eq!(contact_outcome(&biter, None), ContactOutcome::Strike { damage: 6 });
    assert_eq!(contact_outcome(&harmless, None), ContactOutcome::Harmless);
    assert_eq!(contact_outcome(&harmless, Some(14)), ContactOutcome::Explode { damage: 14 });
}

#[test]
fn splitters_break_into_smaller_splitters() {
    let dead = Enemy { health: 0, speed: 3, damage: 4, xp: 5 };
    let (count, child) = split_offspring(&dead, &SplitAbility { splits_remaining: 3, num_splits: 3 }).unwrap();
    assert_eq!(count, 4);
    assert_eq!((child.health, child.speed, child.damage, child.xp), (20, 3, 4, 2));
    assert_eq!(child.sprite_index, 56);
    assert_eq!(child.abilities, vec![Ability::Splitting { splits: 2 }]);
    let (two, _) = split_offspring(&dead, &SplitAbility { splits_remaining: 2, num_splits: 3 }).unwrap();
    assert_eq!(two, 2);
    let (one, last) = split_offspring(&dead, &SplitAbility { splits_remaining: 1, num_splits: 3 }).unwrap();
    assert_eq!(one, 1);
    assert_eq!(last.abilities, vec![Ability::Splitting { splits: 0 }]);
    assert!(split_offspring(&dead, &SplitAbility { splits_remaining: 0, num_splits: 3 }).is_none());
    let alive = Enemy { health: 1, speed: 3, damage: 4, xp: 5 };
    assert!(split_offspring(&alive, &SplitAbility { splits_remaining: 3, num_splits: 3 }).is_none());
}

#[test]
fn a_splitter_ends_as_twenty_enemies() {
    fn count(splits: u8) -> u32 {
        let dead = Enemy { health: 0, speed: 3, damage: 4, xp: 5 };
        match split_offspring(&dead, &SplitAbility { splits_remaining: splits, num_splits: 3 }) {
            Some((n, _)) => n * (1 + count(splits - 1)),
            None => 0,
        }
    }
    assert_eq!(count(3), 20);
}

#[test]
fn summoned_kinds_by_roll() {
    assert_eq!(summon_kind_for_roll(0), EnemyKind::Splitting);
    assert_eq!(summon_kind_for_roll(2), EnemyKind::Splitting);
    assert_eq!(summon_kind_for_roll(3), EnemyKind::Basic);
    assert_eq!(summon_kind_for_roll(19), EnemyKind::Basic);
    assert_eq!(summon_kind_for_roll(20), EnemyKind::Trail);
    assert_eq!(summon_kind_for_roll(40), EnemyKind::Charging);
    assert_eq!(summon_kind_for_roll(65), EnemyKind::Shooter);
    assert_eq!(summon_kind_for_roll(80), EnemyKind::Bomber);
    assert_eq!(summon_kind_for_roll(95), EnemyKind::Gurgle);
    assert_eq!(summon_kind_for_roll(99), EnemyKind::Gurgle);
    for _ in 0..20 {
        assert_ne!(pick_summon_kind(), EnemyKind::MidgameBoss);
    }
}

#[test]
fn minion_counts_are_drawn_within_bounds() {
    for _ in 0..50 {
        let n = roll_minion_count(8, 14);
        assert!((8..=14).contains(&n));
    }
    assert_eq!(roll_minion_count(5, 5), 5);
    let draws: Vec<u32> = (0..200).map(|_| roll_minion_count(0, 1000)).collect();
    assert!(draws.iter().any(|&d| d != 0));
}

#[test]
fn charging_enemy_goes_round_its_cycle() {
    let mut c = ChargeAbility {
        state: ChargeState::Approaching,
        charge_distance: 400,
        charge_speed: 25,
        cooldown_duration: 5000,
    };
    let s = c.step(false, true, false);
    assert_eq!((s.next, s.movement), (ChargeState::Approaching, ChargeMove::TowardPlayer));
    let s = c.step(true, false, false);
    assert_eq!((s.next, s.restart_timer, s.movement), (ChargeState::Preparing, Some(1500), ChargeMove::Still));
    let s = c.step(true, false, false);
    assert_eq!(s.next, ChargeState::Preparing);
    let s = c.step(false, true, false);
    assert_eq!((s.next, s.restart_timer, s.target), (ChargeState::Charging, Some(500), TargetChange::SetToPlayer));
    let s = c.step(false, false, true);
    assert_eq!((s.next, s.movement, s.shake), (ChargeState::Charging, ChargeMove::TowardTarget, 2000));
    let s = c.step(false, false, false);
    assert_eq!((s.next, s.movement), (ChargeState::Charging, ChargeMove::Still));
    let s = c.step(false, true, true);
    assert_eq!((s.next, s.restart_timer, s.target), (ChargeState::Cooldown, Some(5000), TargetChange::Clear));
    let s = c.step(true, false, false);
    assert_eq!((s.next, s.movement, s.shake), (ChargeState::Cooldown, ChargeMove::TowardPlayer, 1000));
    let s = c.step(false, true, false);
    assert_eq!(s.next, ChargeState::Approaching);
    assert_eq!(c.state, ChargeState::Approaching);
}

#[test]
fn ranged_enemies_keep_their_distance() {
    let r = RangedBehavior { preferred_distance: 600_000, tolerance: 50_000 };
    assert_eq!(ranged_movement(700_000, &r), (EnemyMode::Pursuing, MoveKind::TowardPlayer));
    assert_eq!(ranged_movement(500_000, &r), (EnemyMode::Retreating, MoveKind::AwayFromPlayer));
    assert_eq!(ranged_movement(630_000, &r), (EnemyMode::MaintainingDistance, MoveKind::Nudge));
    assert_eq!(ranged_movement(650_000, &r), (EnemyMode::MaintainingDistance, MoveKind::Nudge));
    assert_eq!(ranged_movement(610_000, &r), (EnemyMode::MaintainingDistance, MoveKind::Stay));
    assert_eq!(ranged_movement(575_000, &r), (EnemyMode::MaintainingDistance, MoveKind::Stay));
}

#[test]
fn ordinary_enemies_wander_until_the_player_is_near() {
    assert_eq!(enemy_movement(EnemyMode::Wandering, false, false, None, 0), (EnemyMode::Wandering, MoveKind::Roam));
    assert_eq!(enemy_movement(EnemyMode::Wandering, true, false, None, 0), (EnemyMode::Pursuing, MoveKind::Stay));
    assert_eq!(enemy_movement(EnemyMode::Wandering, true, true, None, 0), (EnemyMode::Wandering, MoveKind::Roam));
    assert_eq!(enemy_movement(EnemyMode::Pursuing, false, false, None, 0), (EnemyMode::Pursuing, MoveKind::TowardPlayer));
    assert_eq!(enemy_movement(EnemyMode::Retreating, false, false, None, 0), (EnemyMode::Retreating, MoveKind::AwayFromPlayer));
    assert_eq!(enemy_movement(EnemyMode::MaintainingDistance, false, false, None, 0), (EnemyMode::Pursuing, MoveKind::Stay));
    let r = RangedBehavior { preferred_distance: 600_000, tolerance: 50_000 };
    assert_eq!(
        enemy_movement(EnemyMode::MaintainingDistance, false, false, Some(r), 700_000),
        (EnemyMode::MaintainingDistance, MoveKind::TowardPlayer)
    );
}
