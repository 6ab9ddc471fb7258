//! Potions.

use vstd::prelude::*;

verus! {

/// What a potion restores.
#[derive(Clone, Copy, PartialEq, Eq, Debug, Structural)]
pub enum PotionType {
    Health,
    Speed,
}

impl Default for PotionType {
    /// A health potion.
    fn default() -> (r: Self)
        ensures
            r == PotionType::Health,
    {
        PotionType::Health
    }
}

/// How strong a potion is and how long it lasts.
#[derive(Clone, Copy, PartialEq, Eq, Debug, Structural)]
pub struct PotionStats {
    /// How long the effect lasts, in milliseconds.
    pub effect_duration: u32,
    pub effect_amount: u32,
}

impl Default for PotionStats {
    /// No effect at all.
    fn default() -> (r: Self)
        ensures
            r == (PotionStats { effect_duration: 0, effect_amount: 0 }),
    {
        PotionStats { effect_duration: 0, effect_amount: 0 }
    }
}

} // verus!
