//! Game-wide records: the wave counter and the game mode.

use vstd::prelude::*;

verus! {

/// The number of the current wave (0 before the first one).
#[derive(Clone, Copy, PartialEq, Eq, Debug, Structural)]
pub struct Wave {
    pub number: u32,
}

impl Default for Wave {
    /// No wave has started.
    fn default() -> (r: Self)
        ensures
            r.number == 0,
    {
        Wave { number: 0 }
    }
}

/// How a run ends: a normal run is won after ten waves, a forever run goes
/// on and makes boss waves harder.
#[derive(Clone, Copy, PartialEq, Eq, Debug, Structural)]
pub enum GameMode {
    Normal,
    Forever,
}

impl Default for GameMode {
    /// A normal run.
    fn default() -> (r: Self)
        ensures
            r == GameMode::Normal,
    {
        GameMode::Normal
    }
}

} // verus!
