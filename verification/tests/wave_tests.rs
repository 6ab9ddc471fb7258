use fishmans_adventure::enemy::presets::EnemyKind;
use fishmans_adventure::enemy::systems::{
    begin_next_wave, calculate_difficulty_multiplier, calculate_enemies_for_wave,
    calculate_enemy_distribution, enemies_for_wave_with_roll, enemy_for_wave, is_boss_wave,
    next_wave_can_begin, wave_count_computable,
    scale_stat, select_enemy_kind_for_roll, select_enemy_type, spawn_enemy_of_kind, WaveStart,
};
use fishmans_adventure::resources::{GameMode, Wave};
use fishmans_adventure::utils;

#[test]
fn boss_waves_are_every_tenth_from_the_tenth() {
    assert!(!is_boss_wave(0));
    assert!(!is_boss_wave(5));
    assert!(is_boss_wave(10));
    assert!(!is_boss_wave(15));
    assert!(is_boss_wave(20));
    assert!(is_boss_wave(100));
}

#[test]
fn regular_wave_counts_follow_their_bands() {
    assert_eq!(enemies_for_wave_with_roll(1, 0), 18);
    assert_eq!(enemies_for_wave_with_roll(3, 14), 38);
    assert_eq!(enemies_for_wave_with_roll(4, 15), 41);
    assert_eq!(enemies_for_wave_with_roll(6, 2), 51);
    assert_eq!(enemies_for_wave_with_roll(7, 0), 80);
    assert_eq!(enemies_for_wave_with_roll(9, 0), 90);
    assert_eq!(enemies_for_wave_with_roll(11, 16), 107);
    assert_eq!(enemies_for_wave_with_roll(15, 0), 138);
    assert_eq!(enemies_for_wave_with_roll(16, 0), 152);
}

#[test]
fn boss_wave_counts_grow_every_ten_waves() {
    assert_eq!(enemies_for_wave_with_roll(10, 7), 3);
    assert_eq!(enemies_for_wave_with_roll(20, 7), 4);
    assert_eq!(enemies_for_wave_with_roll(30, 7), 5);
    assert_eq!(enemies_for_wave_with_roll(100, 7), 12);
}

#[test]
fn random_wave_count_stays_in_its_band() {
    for _ in 0..50 {
        let n = calculate_enemies_for_wave(5);
        assert!((45..=59).contains(&n));
    }
    assert_eq!(calculate_enemies_for_wave(20), 4);
}

#[test]
fn simple_wave_rule() {
    assert_eq!(utils::calculate_enemies_per_wave(7), 3);
    assert_eq!(utils::enemies_for_wave_with_roll(10, 5), 10);
    assert_eq!(utils::enemies_for_wave_with_roll(7, 23), 16);
    for _ in 0..50 {
        let n = utils::calculate_enemies_for_wave(8);
        assert!((14..=23).contains(&n));
    }
    assert_eq!(utils::safe_subtract(10, 3), 7);
    assert_eq!(utils::safe_subtract(3, 10), 0);
}

#[test]
fn difficulty_grows_with_the_wave() {
    assert_eq!(calculate_difficulty_multiplier(0), 1000);
    assert_eq!(calculate_difficulty_multiplier(10), 1100);
    assert_eq!(calculate_difficulty_multiplier(30), 1300);
    assert_eq!(calculate_difficulty_multiplier(35), 1400);
    assert_eq!(calculate_difficulty_multiplier(40), 1500);
    let mut last = 0;
    for w in 0..100 {
        let m = calculate_difficulty_multiplier(w);
        assert!(m >= last);
        last = m;
    }
}

#[test]
fn stats_scale_down_to_whole_numbers_and_cap() {
    assert_eq!(scale_stat(100, 1100), 110);
    assert_eq!(scale_stat(30000, 1450), 43500);
    assert_eq!(scale_stat(7, 1070), 7);
    assert_eq!(scale_stat(u32::MAX, 2000), u32::MAX);
}

#[test]
fn spawned_enemies_carry_scaled_stats() {
    let basic = spawn_enemy_of_kind(EnemyKind::Basic, 10, GameMode::Normal);
    assert_eq!((basic.health, basic.speed, basic.damage, basic.xp), (110, 6, 8, 11));
    let boss = spawn_enemy_of_kind(EnemyKind::MidgameBoss, 20, GameMode::Normal);
    assert_eq!((boss.health, boss.speed, boss.damage, boss.xp), (36000, 10, 24, 240));
    let forever_boss = spawn_enemy_of_kind(EnemyKind::MidgameBoss, 20, GameMode::Forever);
    assert_eq!(
        (forever_boss.health, forever_boss.speed, forever_boss.damage, forever_boss.xp),
        (54000, 16, 36, 360)
    );
    let forever_basic = spawn_enemy_of_kind(EnemyKind::Basic, 21, GameMode::Forever);
    assert_eq!(forever_basic.health, 121);
}

#[test]
fn roster_grows_with_the_waves() {
    let d1 = calculate_enemy_distribution(1);
    assert_eq!(d1, vec![(EnemyKind::Basic, 1000)]);
    let d2 = calculate_enemy_distribution(2);
    assert_eq!(d2, vec![(EnemyKind::Basic, 1000), (EnemyKind::Charging, 360)]);
    let d7 = calculate_enemy_distribution(7);
    assert_eq!(
        d7,
        vec![
            (EnemyKind::Basic, 1000),
            (EnemyKind::Charging, 1360),
            (EnemyKind::Splitting, 595),
            (EnemyKind::Trail, 1020),
            (EnemyKind::Shooter, 850),
            (EnemyKind::Bomber, 680),
            (EnemyKind::Gurgle, 510),
        ]
    );
}

#[test]
fn rolls_pick_by_running_weight() {
    let d7 = calculate_enemy_distribution(7);
    assert_eq!(select_enemy_kind_for_roll(&d7, 0), EnemyKind::Basic);
    assert_eq!(select_enemy_kind_for_roll(&d7, 999), EnemyKind::Basic);
    assert_eq!(select_enemy_kind_for_roll(&d7, 1000), EnemyKind::Charging);
    assert_eq!(select_enemy_kind_for_roll(&d7, 2359), EnemyKind::Charging);
    assert_eq!(select_enemy_kind_for_roll(&d7, 2360), EnemyKind::Splitting);
    assert_eq!(select_enemy_kind_for_roll(&d7, 6014), EnemyKind::Gurgle);
    assert_eq!(select_enemy_kind_for_roll(&d7, 6015), EnemyKind::Basic);
}

#[test]
fn first_wave_only_brings_basic_enemies_and_regular_waves_no_boss() {
    for _ in 0..50 {
        assert_eq!(select_enemy_type(1), EnemyKind::Basic);
        let k = select_enemy_type(3);
        assert!(matches!(k, EnemyKind::Basic | EnemyKind::Charging | EnemyKind::Splitting));
        assert_ne!(select_enemy_type(25), EnemyKind::MidgameBoss);
    }
}

#[test]
fn boss_wave_spawns_the_boss() {
    let e = enemy_for_wave(10, GameMode::Normal);
    assert_eq!((e.health, e.speed, e.damage, e.xp), (33000, 9, 22, 220));
    assert_eq!(e.sprite_index, 56);
    assert_eq!(e.sprite_size, (32, 32));
}

#[test]
fn normal_run_is_won_after_ten_waves() {
    let mut wave = Wave { number: 10 };
    assert_eq!(begin_next_wave(&mut wave, GameMode::Normal), WaveStart::Won);
    assert_eq!(wave.number, 11);

    let mut forever = Wave { number: 10 };
    match begin_next_wave(&mut forever, GameMode::Forever) {
        WaveStart::Spawn { indicators } => assert!((106..=120).contains(&indicators)),
        WaveStart::Won => panic!("a forever run is never won"),
    }
    assert_eq!(forever.number, 11);

    let mut ninth = Wave { number: 9 };
    assert_eq!(begin_next_wave(&mut ninth, GameMode::Normal), WaveStart::Spawn { indicators: 3 });
    let mut fresh = Wave::default();
    match begin_next_wave(&mut fresh, GameMode::Normal) {
        WaveStart::Spawn { indicators } => assert!((18..=32).contains(&indicators)),
        WaveStart::Won => panic!("the first wave is not a win"),
    }
}

#[test]
fn wave_counts_are_computable_up_to_the_u32_limit() {
    assert!(!wave_count_computable(0));
    assert!(wave_count_computable(1));
    assert!(wave_count_computable(10));
    assert!(wave_count_computable(357_913_943));
    assert!(!wave_count_computable(357_913_944));
    assert!(wave_count_computable(4_294_967_290));
    assert!(!wave_count_computable(4_294_967_291));
}

#[test]
fn the_next_wave_can_begin_unless_a_counter_overflows() {
    assert!(next_wave_can_begin(&Wave { number: 0 }, GameMode::Normal));
    assert!(next_wave_can_begin(&Wave { number: 10 }, GameMode::Normal));
    assert!(next_wave_can_begin(&Wave { number: 4_000_000_000 }, GameMode::Normal));
    assert!(!next_wave_can_begin(&Wave { number: 4_000_000_000 }, GameMode::Forever));
    assert!(!next_wave_can_begin(&Wave { number: u32::MAX }, GameMode::Normal));
    assert!(next_wave_can_begin(&Wave { number: 4_294_967_289 }, GameMode::Forever));
}
