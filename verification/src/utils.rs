//! Small rules shared across the game.

use vstd::prelude::*;
use crate::rng::random_u32;

verus! {

/// Enemies per wave in the portal-driven wave cycle: always three.
pub fn calculate_enemies_per_wave(_wave_number: u32) -> (r: u32)
    ensures
        r == 3,
{
    let base_enemies: u32 = 1;
    let increase: u32 = 2;
    base_enemies + increase
}

/// Enemies in a wave of the simple wave rule when the random draw is
/// `roll`: ten in every tenth wave, else ten plus half the wave number plus
/// `roll % 10`.
pub open spec fn simple_wave_enemies(wave_number: u32, roll: u32) -> nat {
    if wave_number % 10 == 0 {
        10
    } else {
        (10 + wave_number / 2 + roll % 10) as nat
    }
}

/// Enemies in a wave of the simple wave rule for the draw `roll`.
pub fn enemies_for_wave_with_roll(wave_number: u32, roll: u32) -> (r: u32)
    ensures
        r == simple_wave_enemies(wave_number, roll),
{
    if wave_number % 10 == 0 {
        10
    } else {
        let base = 10 + (wave_number / 2);
        base + (roll % 10)
    }
}

/// Enemies in a wave of the simple wave rule, with a random extra.
pub fn calculate_enemies_for_wave(wave_number: u32) -> (r: u32)
    ensures
        exists|roll: u32| r == simple_wave_enemies(wave_number, roll),
{
    let roll = random_u32();
    enemies_for_wave_with_roll(wave_number, roll)
}

/// `a - b`, or zero if `b` is larger.
pub fn safe_subtract(a: u32, b: u32) -> (r: u32)
    ensures
        r == if a >= b {
            a - b
        } else {
            0
        },
{
    a.saturating_sub(b)
}

} // verus!
