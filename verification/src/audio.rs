//! The sounds the game asks for.

use vstd::prelude::*;

verus! {

/// A sound to play, or a change to the sound.
#[derive(Clone, Copy, PartialEq, Eq, Debug, Structural)]
pub enum AudioEvent {
    Kill,
    Hit,
    Fire,
    UI,
    PopUp,
    Win,
    Lose,
    LevelUp,
    PickUp,
    ToggleMute,
}

} // verus!
