//! Fixed numbers of the game. Durations are in milliseconds and fractional
//! quantities in thousandths, so that every rule can work on integers.

use vstd::prelude::*;

verus! {

/// Side of one sprite tile, in pixels.
pub const TILE_W: u32 = 16;
/// Height of one sprite tile, in pixels.
pub const TILE_H: u32 = 16;
/// Side of one large sprite tile, in pixels.
pub const TILE_W_32: u32 = 32;
/// Height of one large sprite tile, in pixels.
pub const TILE_H_32: u32 = 32;
/// Columns of small tiles in the sprite sheet.
pub const SPRITE_SHEET_W: u32 = 256 / TILE_W;
/// Rows of small tiles in the sprite sheet.
pub const SPRITE_SHEET_H: u32 = 256 / TILE_H;

/// Decorations scattered over the world.
pub const NUM_WORLD_DECORATIONS: usize = 100;

/// Speed of a fresh player.
pub const PLAYER_SPEED: u32 = 10;
/// Health of a fresh player.
pub const PLAYER_HEALTH: u32 = 50;
/// Health cap of a fresh player.
pub const PLAYER_MAX_HEALTH: u32 = 200;
/// How long the player stays invincible after a hit, in milliseconds.
pub const PLAYER_INVINCIBLE_TIME_MS: u32 = 750;
/// Defense beyond this value brings no further protection.
pub const MAX_DEFENSE: u32 = 30;

/// Time between two shots of the default gun, in milliseconds.
pub const FIRING_INTERVAL_MS: u32 = 400;
/// Life of a bullet of the default gun, in milliseconds.
pub const BULLET_TIME_MS: u32 = 500;
/// Speed of a bullet of the default gun.
pub const BULLET_SPEED: u32 = 10;
/// Damage of a bullet of the default gun.
pub const BULLET_DAMAGE: u32 = 25;
/// Spread of the default gun, in thousandths.
pub const BULLET_SPREAD_MILLI: u32 = 700;
/// Bullets fired per shot by the default gun.
pub const NUM_BULLETS_PER_SHOT: usize = 4;

/// Number of slots of each kind in the inventory.
pub const INVENTORY_SLOTS: usize = 4;

/// Background colour of the world.
pub const BG_COLOR: (u8, u8, u8) = (72, 59, 58);
/// Background colour of the menus.
pub const UI_BG_COLOR: (u8, u8, u8) = (197, 204, 184);

} // verus!
