//! Armor pieces.

use vstd::prelude::*;

verus! {

/// What an armor piece adds to the player, and how much damage it can soak
/// before it breaks.
#[derive(Clone, Copy, PartialEq, Eq, Debug, Structural)]
pub struct ArmorStats {
    pub defense: u32,
    pub durability: u32,
}

impl Default for ArmorStats {
    /// No defense, no durability.
    fn default() -> (r: Self)
        ensures
            r == (ArmorStats { defense: 0, durability: 0 }),
    {
        ArmorStats { defense: 0, durability: 0 }
    }
}

} // verus!
