//! Enemies: their stats, how they are built, which ones a wave brings, and
//! what happens when they are hit, touch the player or die.

pub mod builder;
pub mod components;
pub mod presets;
pub mod systems;
