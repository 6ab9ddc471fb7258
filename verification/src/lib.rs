//! Game rules of a top-down wave shooter: experience and levels, waves and
//! enemy rosters, loot tables, the player's inventory, the shop, menus and
//! the small state machines that drive enemies.

mod rng;
pub mod level;
pub mod configs;
pub mod gun;
pub mod armor;
pub mod potion;
pub mod loot;
pub mod resources;
pub mod player;
pub mod shop;
pub mod utils;
pub mod game_state;
pub mod animation;
pub mod loot_grid;
pub mod audio;
pub mod world;
pub mod enemy;
