use fishmans_adventure::level::Level;

#[test]
fn fresh_level_starts_at_one() {
    let level = Level::default();
    assert_eq!(level.level(), 1);
    assert_eq!(level.current_xp(), 0);
    assert_eq!(level.xp_threshold(), 100);
}

#[test]
fn xp_below_threshold_does_not_level_up() {
    let mut level = Level::default();
    assert!(!level.add_xp(99));
    assert_eq!(level.level(), 1);
    assert_eq!(level.current_xp(), 99);
    assert_eq!(level.xp_threshold(), 100);
}

#[test]
fn reaching_threshold_exactly_levels_up() {
    let mut level = Level::default();
    assert!(level.add_xp(100));
    assert_eq!(level.level(), 2);
    assert_eq!(level.current_xp(), 0);
    assert_eq!(level.xp_threshold(), 150);
}

#[test]
fn large_xp_gain_levels_up_several_times() {
    let mut level = Level::default();
    assert!(level.add_xp(250));
    assert_eq!(level.level(), 3);
    assert_eq!(level.current_xp(), 0);
    assert_eq!(level.xp_threshold(), 225);
    assert!(level.add_xp(300));
    assert_eq!(level.level(), 4);
    assert_eq!(level.current_xp(), 75);
    assert_eq!(level.xp_threshold(), 337);
}

#[test]
fn xp_added_in_parts_lands_where_the_sum_lands() {
    let mut parts = Level::default();
    parts.add_xp(120);
    parts.add_xp(130);
    parts.add_xp(400);
    let mut once = Level::default();
    once.add_xp(650);
    assert_eq!(parts.level(), once.level());
    assert_eq!(parts.current_xp(), once.current_xp());
    assert_eq!(parts.xp_threshold(), once.xp_threshold());
}

#[test]
fn adding_no_xp_changes_nothing() {
    let mut level = Level::default();
    level.add_xp(170);
    let (l, x, t) = (level.level(), level.current_xp(), level.xp_threshold());
    assert!(!level.add_xp(0));
    assert_eq!((level.level(), level.current_xp(), level.xp_threshold()), (l, x, t));
}

#[test]
fn can_add_xp_accepts_ordinary_gains_and_refuses_overflow() {
    let level = Level::default();
    assert!(level.can_add_xp(1000));
    assert!(level.can_add_xp(u32::MAX));
    let mut big = Level::default();
    big.add_xp(u32::MAX);
    assert_eq!(big.level(), 42);
    assert_eq!(big.current_xp(), 991709397);
    assert_eq!(big.xp_threshold(), 1651629034);
    let mut high = Level::default();
    high.add_xp(90);
    assert!(!high.can_add_xp(u32::MAX - 50));
}
