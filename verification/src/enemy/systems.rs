//! Waves, difficulty and the fate of enemies.

use vstd::prelude::*;
use crate::enemy::builder::EnemyBuilder;
use crate::enemy::components::{Enemy, SplitAbility};
use crate::enemy::presets::{
    EnemyKind, create_enemy, create_midgame_boss_enemy, is_kind_with_stats, preset_stats,
};
use crate::resources::{GameMode, Wave};
use crate::rng::{gen_range_inclusive, random_u32};

verus! {

/// Every tenth wave, from the tenth on, is a boss wave.
pub open spec fn is_boss_wave_spec(wave_number: u32) -> bool {
    wave_number % 10 == 0 && wave_number >= 10
}

/// Whether `wave_number` is a boss wave.
pub fn is_boss_wave(wave_number: u32) -> (r: bool)
    ensures
        r == is_boss_wave_spec(wave_number),
{
    wave_number % 10 == 0 && wave_number >= 10
}

/// Bosses in a boss wave: three, and one more for every ten waves after the
/// tenth.
pub open spec fn boss_count(wave_number: nat) -> nat {
    3 + if wave_number <= 10 {
        0
    } else {
        ((wave_number - 10) / 10) as nat
    }
}

/// Enemies in a regular wave before the random extra.
pub open spec fn regular_wave_base(wave_number: nat) -> int {
    if 1 <= wave_number <= 3 {
        15 + wave_number * 3 as int
    } else if 4 <= wave_number <= 6 {
        25 + wave_number * 4 as int
    } else if 7 <= wave_number <= 9 {
        45 + wave_number * 5 as int
    } else if wave_number <= 15 {
        90 + (wave_number - 9) * 8
    } else {
        140 + (wave_number - 15) * 12
    }
}

/// The enemy count of a wave can be computed without overflow: the wave
/// has been started (number at least 1) and, for a regular wave, the count
/// with its largest extra fits in a `u32`.
pub open spec fn wave_count_fits(wave_number: u32) -> bool {
    &&& wave_number >= 1
    &&& !is_boss_wave_spec(wave_number) ==> regular_wave_base(wave_number as nat) + 14 <= u32::MAX
}

/// Whether the enemy count of wave `wave_number` can be computed without
/// overflow.
pub fn wave_count_computable(wave_number: u32) -> (r: bool)
    ensures
        r == wave_count_fits(wave_number),
{
    if wave_number == 0 {
        return false;
    }
    if is_boss_wave(wave_number) {
        return true;
    }
    let n = wave_number as u64;
    let base: u64 = if n <= 3 {
        15 + n * 3
    } else if n <= 6 {
        25 + n * 4
    } else if n <= 9 {
        45 + n * 5
    } else if n <= 15 {
        90 + (n - 9) * 8
    } else {
        140 + (n - 15) * 12
    };
    base + 14 <= u32::MAX as u64
}

/// Enemies in wave `wave_number` when the random draw is `roll`: the boss
/// count in a boss wave, else the base count plus `roll % 15`.
pub open spec fn enemies_in_wave(wave_number: u32, roll: u32) -> int {
    if is_boss_wave_spec(wave_number) {
        boss_count(wave_number as nat) as int
    } else {
        regular_wave_base(wave_number as nat) + (roll % 15) as int
    }
}

/// Enemies in wave `wave_number` when the random draw is `roll`.
pub fn enemies_for_wave_with_roll(wave_number: u32, roll: u32) -> (r: u32)
    requires
        wave_count_fits(wave_number),
    ensures
        r == enemies_in_wave(wave_number, roll),
{
    if is_boss_wave(wave_number) {
        let base_boss_count: u32 = 3;
        let additional_bosses: u32 = if wave_number <= 10 {
            0
        } else {
            (wave_number - 10) / 10
        };
        base_boss_count + additional_bosses
    } else {
        let base: u32 = if 1 <= wave_number && wave_number <= 3 {
            15 + wave_number * 3
        } else if 4 <= wave_number && wave_number <= 6 {
            25 + wave_number * 4
        } else if 7 <= wave_number && wave_number <= 9 {
            45 + wave_number * 5
        } else if wave_number <= 15 {
            90 + (wave_number - 9) * 8
        } else {
            140 + (wave_number - 15) * 12
        };
        base + (roll % 15)
    }
}

/// Enemies in wave `wave_number`, with a random extra for regular waves.
pub fn calculate_enemies_for_wave(wave_number: u32) -> (r: u32)
    requires
        wave_count_fits(wave_number),
    ensures
        exists|roll: u32| r == enemies_in_wave(wave_number, roll),
{
    let roll = random_u32();
    enemies_for_wave_with_roll(wave_number, roll)
}

/// The difficulty of a wave, in thousandths: 1 plus a hundredth per wave up
/// to wave 30, then 1.3 plus a fiftieth per wave after it.
pub open spec fn difficulty_milli(wave_number: nat) -> nat {
    if wave_number <= 30 {
        1000 + 10 * wave_number
    } else {
        (1300 + 20 * (wave_number - 30)) as nat
    }
}

/// The difficulty of a wave, in thousandths.
pub fn calculate_difficulty_multiplier(wave_number: u32) -> (r: u64)
    ensures
        r == difficulty_milli(wave_number as nat),
{
    if wave_number <= 30 {
        1000 + 10 * wave_number as u64
    } else {
        1300 + 20 * (wave_number - 30) as u64
    }
}

/// Later waves are never easier than earlier ones.
pub proof fn lemma_difficulty_monotone(a: nat, b: nat)
    requires
        a <= b,
    ensures
        difficulty_milli(a) <= difficulty_milli(b),
{
}

/// The multiplier applied to an enemy spawned in a wave, in thousandths: the
/// difficulty, half as much again for the boss waves of a forever run.
pub open spec fn spawn_multiplier_milli(wave_number: u32, mode: GameMode) -> nat {
    let m = difficulty_milli(wave_number as nat);
    if mode == GameMode::Forever && is_boss_wave_spec(wave_number) {
        m * 3 / 2
    } else {
        m
    }
}

/// A stat multiplied by `multiplier` thousandths, rounded down and capped at
/// the largest `u32`.
pub open spec fn scale_stat_spec(stat: nat, multiplier: nat) -> nat {
    let v = stat * multiplier / 1000;
    if v > u32::MAX {
        u32::MAX as nat
    } else {
        v
    }
}

/// A stat multiplied by `multiplier` thousandths.
pub fn scale_stat(stat: u32, multiplier: u64) -> (r: u32)
    ensures
        r == scale_stat_spec(stat as nat, multiplier as nat),
{
    assert(stat as u128 * multiplier as u128 <= 0xffff_ffff_ffff_ffff_ffff_ffff) by (nonlinear_arith)
        requires
            stat <= u32::MAX,
            multiplier <= u64::MAX,
    ;
    let product: u128 = stat as u128 * multiplier as u128;
    assert(product == stat as nat * multiplier as nat) by (nonlinear_arith)
        requires
            product == stat as u128 * multiplier as u128,
    ;
    let v = product / 1000;
    if v > u32::MAX as u128 {
        u32::MAX
    } else {
        v as u32
    }
}

/// Each of the four stats multiplied by `multiplier` thousandths.
pub open spec fn scaled_stats(stats: (u32, u32, u32, u32), multiplier: nat) -> (u32, u32, u32, u32) {
    (
        scale_stat_spec(stats.0 as nat, multiplier) as u32,
        scale_stat_spec(stats.1 as nat, multiplier) as u32,
        scale_stat_spec(stats.2 as nat, multiplier) as u32,
        scale_stat_spec(stats.3 as nat, multiplier) as u32,
    )
}

/// An enemy of kind `kind` as it enters wave `wave_number`, its stats
/// scaled by the spawn multiplier of the wave.
pub fn spawn_enemy_of_kind(kind: EnemyKind, wave_number: u32, mode: GameMode) -> (r: EnemyBuilder)
    ensures
        is_kind_with_stats(
            r,
            kind,
            scaled_stats(preset_stats(kind), spawn_multiplier_milli(wave_number, mode)),
        ),
{
    let mut multiplier = calculate_difficulty_multiplier(wave_number);
    if mode == GameMode::Forever && is_boss_wave(wave_number) {
        multiplier = multiplier * 3 / 2;
    }
    let base = create_enemy(kind);
    let health = scale_stat(base.health, multiplier);
    let speed = scale_stat(base.speed, multiplier);
    let damage = scale_stat(base.damage, multiplier);
    let xp = scale_stat(base.xp, multiplier);
    base.with_stats(health, speed, damage, xp)
}

/// The smaller of two numbers.
pub open spec fn min_nat(a: nat, b: nat) -> nat {
    if a <= b {
        a
    } else {
        b
    }
}

/// The weights of the enemy kinds in a regular wave, all scaled by
/// `100 * (10 + wave)`: the basic enemy weighs `1 / (1 + wave / 10)`, and
/// from waves 2, 3, 4, 5, 6 and 7 on the charging, splitting, trail,
/// shooter, bomber and gurgle enemies join with `wave` times 0.15, 0.06,
/// 0.1, 0.08, 0.07 and 0.06, capped at 0.8, 0.35, 0.6, 0.5, 0.4 and 0.3.
pub open spec fn enemy_distribution(wave: u32) -> Seq<(EnemyKind, u64)> {
    let w = wave as nat;
    let d = 10 + w;
    let s0 = seq![(EnemyKind::Basic, 1000u64)];
    let s1 = if w >= 2 {
        s0.push((EnemyKind::Charging, (min_nat(15 * w, 80) * d) as u64))
    } else {
        s0
    };
    let s2 = if w >= 3 {
        s1.push((EnemyKind::Splitting, (min_nat(6 * w, 35) * d) as u64))
    } else {
        s1
    };
    let s3 = if w >= 4 {
        s2.push((EnemyKind::Trail, (min_nat(10 * w, 60) * d) as u64))
    } else {
        s2
    };
    let s4 = if w >= 5 {
        s3.push((EnemyKind::Shooter, (min_nat(8 * w, 50) * d) as u64))
    } else {
        s3
    };
    let s5 = if w >= 6 {
        s4.push((EnemyKind::Bomber, (min_nat(7 * w, 40) * d) as u64))
    } else {
        s4
    };
    if w >= 7 {
        s5.push((EnemyKind::Gurgle, (min_nat(6 * w, 30) * d) as u64))
    } else {
        s5
    }
}

/// `min(rate * wave, cap) * (10 + wave)`, the weight of a kind that has
/// joined the roster.
fn capped_weight(wave: u32, rate: u64, cap: u64) -> (r: u64)
    requires
        rate <= 15,
        cap <= 80,
    ensures
        r == (min_nat((rate * wave) as nat, cap as nat) * (10 + wave as nat)) as u64,
        r <= 80 * (10 + wave as nat),
{
    let w = wave as u64;
    assert(rate * w <= 15 * 0xffff_ffffu64) by (nonlinear_arith)
        requires
            rate <= 15,
            w <= 0xffff_ffffu64,
    ;
    assert(80 * (10 + w) <= 80 * (10 + 0xffff_ffffu64));
    let capped = if rate * w <= cap {
        rate * w
    } else {
        cap
    };
    assert(capped * (10 + w) <= 80 * (10 + w)) by (nonlinear_arith)
        requires
            capped <= 80,
    ;
    let r = capped * (10 + w);
    r
}

/// The enemy kinds of a regular wave with their weights.
pub fn calculate_enemy_distribution(wave: u32) -> (r: Vec<(EnemyKind, u64)>)
    ensures
        r@ == enemy_distribution(wave),
{
    let mut distributions: Vec<(EnemyKind, u64)> = Vec::new();
    distributions.push((EnemyKind::Basic, 1000));
    if wave >= 2 {
        distributions.push((EnemyKind::Charging, capped_weight(wave, 15, 80)));
    }
    if wave >= 3 {
        distributions.push((EnemyKind::Splitting, capped_weight(wave, 6, 35)));
    }
    if wave >= 4 {
        distributions.push((EnemyKind::Trail, capped_weight(wave, 10, 60)));
    }
    if wave >= 5 {
        distributions.push((EnemyKind::Shooter, capped_weight(wave, 8, 50)));
    }
    if wave >= 6 {
        distributions.push((EnemyKind::Bomber, capped_weight(wave, 7, 40)));
    }
    if wave >= 7 {
        distributions.push((EnemyKind::Gurgle, capped_weight(wave, 6, 30)));
    }
    assert(distributions@ =~= enemy_distribution(wave));
    distributions
}

/// The sum of the weights.
pub open spec fn total_weight(dist: Seq<(EnemyKind, u64)>) -> nat
    decreases dist.len(),
{
    if dist.len() == 0 {
        0
    } else {
        dist[0].1 as nat + total_weight(dist.drop_first())
    }
}

/// The kind chosen by `roll`: the first one whose running total of weights
/// exceeds the roll (the basic enemy if none does).
pub open spec fn pick_kind(dist: Seq<(EnemyKind, u64)>, roll: nat) -> EnemyKind
    decreases dist.len(),
{
    if dist.len() == 0 {
        EnemyKind::Basic
    } else if roll < dist[0].1 {
        dist[0].0
    } else {
        pick_kind(dist.drop_first(), (roll - dist[0].1) as nat)
    }
}

/// The kind chosen by `roll` among weighted kinds.
pub fn select_enemy_kind_for_roll(dist: &Vec<(EnemyKind, u64)>, roll: u64) -> (r: EnemyKind)
    requires
        total_weight(dist@) <= u64::MAX,
    ensures
        r == pick_kind(dist@, roll as nat),
{
    let mut cumulative: u64 = 0;
    let mut i: usize = 0;
    assert(dist@.skip(0) =~= dist@);
    while i < dist.len()
        invariant
            i <= dist.len(),
            cumulative <= roll,
            cumulative + total_weight(dist@.skip(i as int)) == total_weight(dist@),
            total_weight(dist@) <= u64::MAX,
            pick_kind(dist@, roll as nat) == pick_kind(dist@.skip(i as int), (roll - cumulative) as nat),
        decreases dist.len() - i,
    {
        let (kind, weight) = dist[i];
        assert(dist@.skip(i as int).drop_first() =~= dist@.skip(i + 1));
        if roll < cumulative + weight {
            return kind;
        }
        cumulative = cumulative + weight;
        i = i + 1;
    }
    EnemyKind::Basic
}

/// Every weight of the roster of a wave is at most `80 * (10 + wave)`, and
/// the roster holds at most seven kinds.
proof fn lemma_distribution_bounded(wave: u32)
    ensures
        enemy_distribution(wave).len() <= 7,
        enemy_distribution(wave).len() >= 1,
        enemy_distribution(wave)[0] == (EnemyKind::Basic, 1000u64),
        forall|i: int|
            0 <= i < enemy_distribution(wave).len() ==> #[trigger] enemy_distribution(wave)[i].1
                <= 80 * (10 + wave as nat) + 1000,
{
    let w = wave as nat;
    assert(min_nat(15 * w, 80) * (10 + w) <= 80 * (10 + w)) by (nonlinear_arith);
    assert(min_nat(6 * w, 35) * (10 + w) <= 80 * (10 + w)) by (nonlinear_arith);
    assert(min_nat(10 * w, 60) * (10 + w) <= 80 * (10 + w)) by (nonlinear_arith);
    assert(min_nat(8 * w, 50) * (10 + w) <= 80 * (10 + w)) by (nonlinear_arith);
    assert(min_nat(7 * w, 40) * (10 + w) <= 80 * (10 + w)) by (nonlinear_arith);
    assert(min_nat(6 * w, 30) * (10 + w) <= 80 * (10 + w)) by (nonlinear_arith);
}

/// The weights of a sequence whose weights are all at most `bound` sum to
/// at most `len * bound`, and to at least the first weight.
proof fn lemma_total_weight_bounds(dist: Seq<(EnemyKind, u64)>, bound: nat)
    requires
        forall|i: int| 0 <= i < dist.len() ==> #[trigger] dist[i].1 <= bound,
    ensures
        total_weight(dist) <= dist.len() * bound,
        dist.len() > 0 ==> total_weight(dist) >= dist[0].1,
    decreases dist.len(),
{
    if dist.len() > 0 {
        let rest = dist.drop_first();
        assert forall|i: int| 0 <= i < rest.len() implies #[trigger] rest[i].1 <= bound by {
            assert(rest[i] == dist[i + 1]);
        }
        lemma_total_weight_bounds(rest, bound);
        assert(dist.len() * bound == bound + rest.len() * bound) by (nonlinear_arith)
            requires
                dist.len() == rest.len() + 1,
        ;
    }
}

/// The total weight of the roster of a wave: at least 1000, and small
/// enough for a `u64`.
pub proof fn lemma_distribution_total(wave: u32)
    ensures
        1000 <= total_weight(enemy_distribution(wave)),
        total_weight(enemy_distribution(wave)) <= 7 * (80 * (10 + wave as nat) + 1000),
{
    lemma_distribution_bounded(wave);
    let bound = 80 * (10 + wave as nat) + 1000;
    lemma_total_weight_bounds(enemy_distribution(wave), bound);
    let len = enemy_distribution(wave).len();
    assert(len * bound <= 7 * bound) by (nonlinear_arith)
        requires
            len <= 7,
    ;
}

/// The wave from which each kind can appear in a regular wave; the boss
/// never does.
pub open spec fn unlocked(kind: EnemyKind, wave: u32) -> bool {
    match kind {
        EnemyKind::Basic => true,
        EnemyKind::Charging => wave >= 2,
        EnemyKind::Splitting => wave >= 3,
        EnemyKind::Trail => wave >= 4,
        EnemyKind::Shooter => wave >= 5,
        EnemyKind::Bomber => wave >= 6,
        EnemyKind::Gurgle => wave >= 7,
        EnemyKind::MidgameBoss => false,
    }
}

/// The weight of an unlocked kind in the roster of wave `wave`, scaled by
/// `100 * (10 + wave)`: the basic enemy `1 / (1 + wave / 10)`, the others
/// their rate times the wave, capped.
pub open spec fn kind_weight(kind: EnemyKind, wave: u32) -> nat {
    let w = wave as nat;
    match kind {
        EnemyKind::Basic => 1000,
        EnemyKind::Charging => min_nat(15 * w, 80) * (10 + w),
        EnemyKind::Splitting => min_nat(6 * w, 35) * (10 + w),
        EnemyKind::Trail => min_nat(10 * w, 60) * (10 + w),
        EnemyKind::Shooter => min_nat(8 * w, 50) * (10 + w),
        EnemyKind::Bomber => min_nat(7 * w, 40) * (10 + w),
        EnemyKind::Gurgle => min_nat(6 * w, 30) * (10 + w),
        EnemyKind::MidgameBoss => 0,
    }
}

/// The roster of a regular wave lists every kind unlocked at that wave and
/// no other, each once, with its weight.
pub proof fn lemma_roster_is_unlocked_kinds(wave: u32)
    ensures
        forall|k: EnemyKind|
            (exists|i: int|
                0 <= i < enemy_distribution(wave).len() && #[trigger] enemy_distribution(wave)[i].0
                    == k) <==> unlocked(k, wave),
        forall|i: int|
            0 <= i < enemy_distribution(wave).len() ==> #[trigger] enemy_distribution(wave)[i].1
                == kind_weight(enemy_distribution(wave)[i].0, wave),
        forall|i: int, j: int|
            0 <= i < j < enemy_distribution(wave).len() ==> enemy_distribution(wave)[i].0
                != enemy_distribution(wave)[j].0,
{
    let d = enemy_distribution(wave);
    let w = wave as nat;
    lemma_distribution_bounded(wave);
    let big = 80 * (10 + w);
    let a1 = min_nat(15 * w, 80) * (10 + w);
    let a2 = min_nat(6 * w, 35) * (10 + w);
    let a3 = min_nat(10 * w, 60) * (10 + w);
    let a4 = min_nat(8 * w, 50) * (10 + w);
    let a5 = min_nat(7 * w, 40) * (10 + w);
    let a6 = min_nat(6 * w, 30) * (10 + w);
    assert(a1 <= big && a2 <= big && a3 <= big && a4 <= big && a5 <= big && a6 <= big)
        by (nonlinear_arith)
        requires
            a1 == min_nat(15 * w, 80) * (10 + w),
            a2 == min_nat(6 * w, 35) * (10 + w),
            a3 == min_nat(10 * w, 60) * (10 + w),
            a4 == min_nat(8 * w, 50) * (10 + w),
            a5 == min_nat(7 * w, 40) * (10 + w),
            a6 == min_nat(6 * w, 30) * (10 + w),
            big == 80 * (10 + w),
    ;
    assert(big < 0x1_0000_0000_0000_0000);
    let full = seq![
        (EnemyKind::Basic, 1000u64),
        (EnemyKind::Charging, a1 as u64),
        (EnemyKind::Splitting, a2 as u64),
        (EnemyKind::Trail, a3 as u64),
        (EnemyKind::Shooter, a4 as u64),
        (EnemyKind::Bomber, a5 as u64),
        (EnemyKind::Gurgle, a6 as u64),
    ];
    let n: int = if w >= 7 {
        7
    } else if w >= 2 {
        w as int
    } else {
        1
    };
    assert(d =~= full.take(n));
    assert forall|i: int| 0 <= i < d.len() implies #[trigger] d[i].1 == kind_weight(d[i].0, wave)
        by {
        assert(d[i] == full[i]);
    }
    assert forall|k: EnemyKind|
        (exists|i: int| 0 <= i < d.len() && #[trigger] d[i].0 == k) <==> unlocked(k, wave) by {
        if unlocked(k, wave) {
            let i: int = match k {
                EnemyKind::Basic => 0,
                EnemyKind::Charging => 1,
                EnemyKind::Splitting => 2,
                EnemyKind::Trail => 3,
                EnemyKind::Shooter => 4,
                EnemyKind::Bomber => 5,
                _ => 6,
            };
            assert(d[i] == full[i]);
            assert(0 <= i < d.len() && d[i].0 == k);
        }
        if exists|i: int| 0 <= i < d.len() && #[trigger] d[i].0 == k {
            let i = choose|i: int| 0 <= i < d.len() && #[trigger] d[i].0 == k;
            assert(d[i] == full[i]);
            assert(i < n);
            if i == 0 {
                assert(k == EnemyKind::Basic);
            } else if i == 1 {
                assert(k == EnemyKind::Charging);
            } else if i == 2 {
                assert(k == EnemyKind::Splitting);
            } else if i == 3 {
                assert(k == EnemyKind::Trail);
            } else if i == 4 {
                assert(k == EnemyKind::Shooter);
            } else if i == 5 {
                assert(k == EnemyKind::Bomber);
            } else {
                assert(k == EnemyKind::Gurgle);
            }
        }
    }
    assert forall|i: int, j: int| 0 <= i < j < d.len() implies d[i].0 != d[j].0 by {
        assert(d[i] == full[i]);
        assert(d[j] == full[j]);
    }
}

/// A pick is the basic enemy or one of the kinds listed.
proof fn lemma_pick_is_listed(dist: Seq<(EnemyKind, u64)>, roll: nat)
    ensures
        pick_kind(dist, roll) == EnemyKind::Basic || exists|i: int|
            0 <= i < dist.len() && #[trigger] dist[i].0 == pick_kind(dist, roll),
    decreases dist.len(),
{
    if dist.len() > 0 && roll >= dist[0].1 {
        let rest = dist.drop_first();
        lemma_pick_is_listed(rest, (roll - dist[0].1) as nat);
        if pick_kind(dist, roll) != EnemyKind::Basic {
            let i = choose|i: int| 0 <= i < rest.len() && #[trigger] rest[i].0 == pick_kind(dist, roll);
            assert(dist[i + 1].0 == pick_kind(dist, roll));
        }
    }
}

/// A regular wave only brings kinds that have joined the roster by that
/// wave: only basic enemies in the first wave, charging enemies from the
/// second, and so on up to gurgles from the seventh; never the boss.
pub proof fn lemma_regular_wave_kinds(wave: u32, roll: nat)
    ensures
        unlocked(pick_kind(enemy_distribution(wave), roll), wave),
{
    let dist = enemy_distribution(wave);
    lemma_pick_is_listed(dist, roll);
    if pick_kind(dist, roll) != EnemyKind::Basic {
        let i = choose|i: int| 0 <= i < dist.len() && #[trigger] dist[i].0 == pick_kind(dist, roll);
        assert(unlocked(dist[i].0, wave));
    }
}

/// Sums the weights.
fn sum_weights(dist: &Vec<(EnemyKind, u64)>) -> (r: u64)
    requires
        total_weight(dist@) <= u64::MAX,
    ensures
        r == total_weight(dist@),
{
    let mut total: u64 = 0;
    let mut i: usize = 0;
    assert(dist@.skip(0) =~= dist@);
    while i < dist.len()
        invariant
            i <= dist.len(),
            total + total_weight(dist@.skip(i as int)) == total_weight(dist@),
            total_weight(dist@) <= u64::MAX,
        decreases dist.len() - i,
    {
        assert(dist@.skip(i as int).drop_first() =~= dist@.skip(i + 1));
        total = total + dist[i].1;
        i = i + 1;
    }
    total
}

/// Picks the kind of an enemy of a regular wave, each kind of the wave's
/// roster with a chance proportional to its weight.
pub fn select_enemy_type(wave: u32) -> (r: EnemyKind)
    ensures
        exists|roll: nat|
            roll < total_weight(enemy_distribution(wave)) && r == pick_kind(
                enemy_distribution(wave),
                roll,
            ),
{
    let distributions = calculate_enemy_distribution(wave);
    proof {
        lemma_distribution_total(wave);
    }
    let total_weight = sum_weights(&distributions);
    let roll = gen_range_inclusive(0, total_weight - 1);
    select_enemy_kind_for_roll(&distributions, roll)
}

/// An enemy for a spawn point of wave `wave_number`: the boss in a boss
/// wave, else a kind drawn from the wave's roster; either way with its
/// stats scaled by the wave's spawn multiplier.
pub fn enemy_for_wave(wave_number: u32, mode: GameMode) -> (r: EnemyBuilder)
    ensures
        exists|kind: EnemyKind|
            {
                &&& is_boss_wave_spec(wave_number) ==> kind == EnemyKind::MidgameBoss
                &&& !is_boss_wave_spec(wave_number) ==> exists|roll: nat|
                    roll < total_weight(enemy_distribution(wave_number)) && kind == pick_kind(
                        enemy_distribution(wave_number),
                        roll,
                    )
                &&& is_kind_with_stats(
                    r,
                    kind,
                    scaled_stats(preset_stats(kind), spawn_multiplier_milli(wave_number, mode)),
                )
            },
{
    let kind = if is_boss_wave(wave_number) {
        EnemyKind::MidgameBoss
    } else {
        select_enemy_type(wave_number)
    };
    spawn_enemy_of_kind(kind, wave_number, mode)
}

/// What starting the next wave leads to.
#[derive(Clone, Copy, PartialEq, Eq, Debug, Structural)]
pub enum WaveStart {
    /// A normal run has gone past its tenth wave: the player wins.
    Won,
    /// The wave begins with this many spawn points.
    Spawn { indicators: u32 },
}

/// Whether the next wave can begin: the wave counter can move on, and
/// unless that wins a normal run, the new wave's enemy count can be
/// computed.
pub fn next_wave_can_begin(wave: &Wave, mode: GameMode) -> (r: bool)
    ensures
        r == (wave.number < u32::MAX && (!(mode == GameMode::Normal && wave.number + 1 > 10)
            ==> wave_count_fits((wave.number + 1) as u32))),
{
    if wave.number == u32::MAX {
        return false;
    }
    let next = wave.number + 1;
    if mode == GameMode::Normal && next > 10 {
        return true;
    }
    wave_count_computable(next)
}

/// Moves to the next wave. A normal run is won once the wave number passes
/// 10; otherwise the new wave gets its enemy count.
pub fn begin_next_wave(wave: &mut Wave, mode: GameMode) -> (r: WaveStart)
    requires
        old(wave).number < u32::MAX,
        !(mode == GameMode::Normal && old(wave).number + 1 > 10) ==> wave_count_fits(
            (old(wave).number + 1) as u32,
        ),
    ensures
        final(wave).number == old(wave).number + 1,
        (mode == GameMode::Normal && final(wave).number > 10) <==> r == WaveStart::Won,
        r matches WaveStart::Spawn { indicators } ==> exists|roll: u32|
            indicators == enemies_in_wave(final(wave).number, roll),
{
    wave.number = wave.number + 1;
    if mode == GameMode::Normal && wave.number > 10 {
        return WaveStart::Won;
    }
    let indicators = calculate_enemies_for_wave(wave.number);
    WaveStart::Spawn { indicators }
}

impl Enemy {
    /// Whether the enemy has no health left.
    pub fn is_dead(&self) -> (r: bool)
        ensures
            r == (self.health == 0),
    {
        self.health == 0
    }

    /// A player bullet with `damage` hits the enemy while the player has a
    /// damage boost of `boost`. A live enemy loses both (down to zero);
    /// the result says whether it is still alive and so flashes.
    pub fn take_bullet(&mut self, damage: u32, boost: u32) -> (flash: bool)
        requires
            old(self).health > 0 ==> damage + boost <= u32::MAX,
        ensures
            final(self).speed == old(self).speed,
            final(self).damage == old(self).damage,
            final(self).xp == old(self).xp,
            old(self).health == 0 ==> final(self).health == 0 && !flash,
            old(self).health > 0 ==> final(self).health == if old(self).health > damage + boost {
                old(self).health - (damage + boost)
            } else {
                0
            },
            flash == (old(self).health > 0 && final(self).health > 0),
    {
        if self.health > 0 {
            self.health = self.health.saturating_sub(damage + boost);
            self.health > 0
        } else {
            false
        }
    }
}

/// What an enemy does to the player it touches.
#[derive(Clone, Copy, PartialEq, Eq, Debug, Structural)]
pub enum ContactOutcome {
    /// The enemy blows up, dealing this damage, and leaves the world.
    Explode { damage: u32 },
    /// The enemy strikes with its own damage.
    Strike { damage: u32 },
    /// The enemy does no harm.
    Harmless,
}

/// The outcome of an enemy touching the player; `explosion_damage` is the
/// damage of its explosion ability, if it has one.
pub fn contact_outcome(enemy: &Enemy, explosion_damage: Option<u32>) -> (r: ContactOutcome)
    ensures
        r == match explosion_damage {
            Some(d) => ContactOutcome::Explode { damage: d },
            None => if enemy.damage > 0 {
                ContactOutcome::Strike { damage: enemy.damage }
            } else {
                ContactOutcome::Harmless
            },
        },
{
    match explosion_damage {
        Some(d) => ContactOutcome::Explode { damage: d },
        None => {
            if enemy.damage > 0 {
                ContactOutcome::Strike { damage: enemy.damage }
            } else {
                ContactOutcome::Harmless
            }
        },
    }
}

/// How many enemies a splitter with `splits_remaining` splits left breaks
/// into: four, two, one, or none.
pub open spec fn split_count(splits_remaining: nat) -> nat {
    if splits_remaining == 3 {
        4
    } else if splits_remaining == 2 {
        2
    } else if splits_remaining == 1 {
        1
    } else {
        0
    }
}

/// All the enemies that come out of a splitter with `splits` splits left,
/// over all generations.
pub open spec fn descendants(splits: nat) -> nat
    decreases splits,
{
    if splits == 0 || splits > 3 {
        0
    } else {
        split_count(splits) * (1 + descendants((splits - 1) as nat))
    }
}

/// A fresh splitting enemy (three splits) ends as twenty enemies in all.
pub proof fn lemma_splitter_descendants()
    ensures
        descendants(3) == 20,
{
    assert(descendants(0) == 0);
    assert(descendants(1) == 1);
    assert(descendants(2) == 4);
    assert(descendants(3) == 20);
}

/// When a splitting enemy dies with splits left, the number of enemies it
/// breaks into and the enemy each of them is: 20 more health than the dead
/// one, the same speed and damage, half its XP, sprite 56, and one split
/// less.
pub fn split_offspring(enemy: &Enemy, split: &SplitAbility) -> (r: Option<(u32, EnemyBuilder)>)
    requires
        enemy.health + 20 <= u32::MAX,
    ensures
        (enemy.health == 0 && split.splits_remaining > 0) <==> r is Some,
        r matches Some((count, child)) ==> {
            &&& count == split_count(split.splits_remaining as nat)
            &&& child.health == enemy.health + 20
            &&& child.speed == enemy.speed
            &&& child.damage == enemy.damage
            &&& child.xp == enemy.xp / 2
            &&& child.sprite_index == 56
            &&& child.sprite_size == (16u32, 16u32)
            &&& child.abilities@ == seq![
                crate::enemy::builder::Ability::Splitting {
                    splits: (split.splits_remaining - 1) as u8,
                },
            ]
            &&& child.loot_pool is None
        },
{
    if enemy.health == 0 && split.splits_remaining > 0 {
        let num_spawns: u32 = match split.splits_remaining {
            3 => 4,
            2 => 2,
            1 => 1,
            _ => 0,
        };
        let child = EnemyBuilder::new().with_stats(
            enemy.health + 20,
            enemy.speed,
            enemy.damage,
            enemy.xp / 2,
        ).with_sprite(56, (16, 16)).with_splitting(split.splits_remaining - 1);
        assert(child.abilities@ =~= seq![
            crate::enemy::builder::Ability::Splitting {
                splits: (split.splits_remaining - 1) as u8,
            },
        ]);
        Some((num_spawns, child))
    } else {
        None
    }
}

/// The kind of a summoned minion for a roll out of 100: splitting under 3,
/// basic under 20, trail under 40, charging under 65, shooter under 80,
/// bomber under 95, gurgle otherwise.
pub open spec fn summon_kind_spec(roll: u64) -> EnemyKind {
    if roll < 3 {
        EnemyKind::Splitting
    } else if roll < 20 {
        EnemyKind::Basic
    } else if roll < 40 {
        EnemyKind::Trail
    } else if roll < 65 {
        EnemyKind::Charging
    } else if roll < 80 {
        EnemyKind::Shooter
    } else if roll < 95 {
        EnemyKind::Bomber
    } else {
        EnemyKind::Gurgle
    }
}

/// The shares of summoned minions: out of rolls 0 to 99, splitters take
/// 0-2, basic enemies 3-19, trail enemies 20-39, charging enemies 40-64,
/// shooters 65-79, bombers 80-94 and gurgles 95 and above; a summon is never
/// the boss.
pub proof fn lemma_summon_shares(roll: u64)
    ensures
        (summon_kind_spec(roll) == EnemyKind::Splitting) <==> roll < 3,
        (summon_kind_spec(roll) == EnemyKind::Basic) <==> (3 <= roll && roll < 20),
        (summon_kind_spec(roll) == EnemyKind::Trail) <==> (20 <= roll && roll < 40),
        (summon_kind_spec(roll) == EnemyKind::Charging) <==> (40 <= roll && roll < 65),
        (summon_kind_spec(roll) == EnemyKind::Shooter) <==> (65 <= roll && roll < 80),
        (summon_kind_spec(roll) == EnemyKind::Bomber) <==> (80 <= roll && roll < 95),
        (summon_kind_spec(roll) == EnemyKind::Gurgle) <==> roll >= 95,
        summon_kind_spec(roll) != EnemyKind::MidgameBoss,
{
}

/// The kind of a summoned minion for a roll out of 100.
pub fn summon_kind_for_roll(roll: u64) -> (r: EnemyKind)
    ensures
        r == summon_kind_spec(roll),
{
    if roll < 3 {
        EnemyKind::Splitting
    } else if roll < 20 {
        EnemyKind::Basic
    } else if roll < 40 {
        EnemyKind::Trail
    } else if roll < 65 {
        EnemyKind::Charging
    } else if roll < 80 {
        EnemyKind::Shooter
    } else if roll < 95 {
        EnemyKind::Bomber
    } else {
        EnemyKind::Gurgle
    }
}

/// Draws the kind of a summoned minion.
pub fn pick_summon_kind() -> (r: EnemyKind)
    ensures
        exists|roll: u64| roll < 100 && r == summon_kind_spec(roll),
{
    let roll = gen_range_inclusive(0, 99);
    summon_kind_for_roll(roll)
}

/// Draws how many minions a summoner calls in, between its minimum and
/// maximum.
pub fn roll_minion_count(min_minions: u32, max_minions: u32) -> (r: u32)
    requires
        min_minions <= max_minions,
    ensures
        min_minions <= r <= max_minions,
{
    gen_range_inclusive(min_minions as u64, max_minions as u64) as u32
}

/// How an enemy is moving in relation to the player.
#[derive(Clone, Copy, PartialEq, Eq, Debug, Structural)]
pub enum EnemyMode {
    /// Roaming about, until the player comes near.
    Wandering,
    Pursuing,
    /// Keeping at its preferred distance.
    MaintainingDistance,
    Retreating,
}

/// Which way an enemy moves this frame.
#[derive(Clone, Copy, PartialEq, Eq, Debug, Structural)]
pub enum MoveKind {
    /// Nowhere.
    Stay,
    /// In its roaming direction, at half speed.
    Roam,
    /// Towards the player, at full speed.
    TowardPlayer,
    /// Away from the player, at full speed.
    AwayFromPlayer,
    /// Towards the player by a tenth of the distance to its preferred one.
    Nudge,
}

/// The preferred distance and its tolerance of an enemy that fights from
/// afar, in thousandths.
#[derive(Clone, Copy, PartialEq, Eq, Debug, Structural)]
pub struct RangedBehavior {
    pub preferred_distance: u64,
    pub tolerance: u64,
}

/// The mode and move of an enemy that fights from afar at `distance`
/// (thousandths) from the player: it pursues when farther than its
/// preferred distance by more than the tolerance, retreats when nearer by
/// more than the tolerance, and otherwise keeps its distance, nudging
/// itself when off by more than half the tolerance.
pub open spec fn ranged_spec(distance: u64, ranged: RangedBehavior) -> (EnemyMode, MoveKind) {
    let diff = distance - ranged.preferred_distance;
    let off = if diff >= 0 {
        diff
    } else {
        -diff
    };
    if off > ranged.tolerance {
        if diff > 0 {
            (EnemyMode::Pursuing, MoveKind::TowardPlayer)
        } else {
            (EnemyMode::Retreating, MoveKind::AwayFromPlayer)
        }
    } else if off > ranged.tolerance / 2 {
        (EnemyMode::MaintainingDistance, MoveKind::Nudge)
    } else {
        (EnemyMode::MaintainingDistance, MoveKind::Stay)
    }
}

/// The mode and move of an enemy that fights from afar.
pub fn ranged_movement(distance: u64, ranged: &RangedBehavior) -> (r: (EnemyMode, MoveKind))
    ensures
        r == ranged_spec(distance, *ranged),
{
    let (off, farther) = if distance >= ranged.preferred_distance {
        (distance - ranged.preferred_distance, distance > ranged.preferred_distance)
    } else {
        (ranged.preferred_distance - distance, false)
    };
    if off > ranged.tolerance {
        if farther {
            (EnemyMode::Pursuing, MoveKind::TowardPlayer)
        } else {
            (EnemyMode::Retreating, MoveKind::AwayFromPlayer)
        }
    } else if off > ranged.tolerance / 2 {
        (EnemyMode::MaintainingDistance, MoveKind::Nudge)
    } else {
        (EnemyMode::MaintainingDistance, MoveKind::Stay)
    }
}

/// One frame of an ordinary enemy in mode `mode`: a wanderer starts
/// pursuing when the player is nearer than 500 units (unless it leaves a
/// trail) and roams otherwise; a pursuer runs at the player; an enemy
/// keeping its distance follows its ranged rule if it has one and pursues
/// otherwise; a retreating one runs away.
pub open spec fn movement_spec(
    mode: EnemyMode,
    player_near: bool,
    leaves_trail: bool,
    ranged: Option<RangedBehavior>,
    distance: u64,
) -> (EnemyMode, MoveKind) {
    match mode {
        EnemyMode::Wandering => if player_near && !leaves_trail {
            (EnemyMode::Pursuing, MoveKind::Stay)
        } else {
            (EnemyMode::Wandering, MoveKind::Roam)
        },
        EnemyMode::Pursuing => (EnemyMode::Pursuing, MoveKind::TowardPlayer),
        EnemyMode::MaintainingDistance => match ranged {
            Some(r) => (EnemyMode::MaintainingDistance, ranged_spec(distance, r).1),
            None => (EnemyMode::Pursuing, MoveKind::Stay),
        },
        EnemyMode::Retreating => (EnemyMode::Retreating, MoveKind::AwayFromPlayer),
    }
}

/// One frame of an ordinary enemy: its next mode and its move.
pub fn enemy_movement(
    mode: EnemyMode,
    player_near: bool,
    leaves_trail: bool,
    ranged: Option<RangedBehavior>,
    distance: u64,
) -> (r: (EnemyMode, MoveKind))
    ensures
        r == movement_spec(mode, player_near, leaves_trail, ranged, distance),
{
    match mode {
        EnemyMode::Wandering => {
            if player_near && !leaves_trail {
                (EnemyMode::Pursuing, MoveKind::Stay)
            } else {
                (EnemyMode::Wandering, MoveKind::Roam)
            }
        },
        EnemyMode::Pursuing => (EnemyMode::Pursuing, MoveKind::TowardPlayer),
        EnemyMode::MaintainingDistance => match ranged {
            Some(r) => (EnemyMode::MaintainingDistance, ranged_movement(distance, &r).1),
            None => (EnemyMode::Pursuing, MoveKind::Stay),
        },
        EnemyMode::Retreating => (EnemyMode::Retreating, MoveKind::AwayFromPlayer),
    }
}

} // verus!
