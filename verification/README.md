# Fishmans Adventure

A 2D top-down wave shooter. The game rules live in a library whose
behaviour is stated in contracts and proved with Verus; the game itself
(Bevy plugins, drawing, input, positions and other floating-point work) is
a thin program around it.

## Layout

- `src/` — the verified rules:
  - `level.rs`: experience and levels, with the laws that a level-up never
    loses or invents experience;
  - `player.rs`: health, gold and the inventory (picking up, selling,
    switching, potions, taking hits);
  - `loot.rs`: loot tables, drops and the stats of dropped items;
  - `shop.rs`: purchases;
  - `enemy/`: enemy presets, builders, waves and rosters, charging and
    ranged behaviour, splitting and summoning;
  - `game_state.rs`, `loot_grid.rs`, `animation.rs`: screens, menus, the
    loot board and sprite frames;
  - `world.rs`, `gun.rs`, `armor.rs`, `potion.rs`, `configs.rs`,
    `resources.rs`, `utils.rs`, `audio.rs`: the starting kit and shared
    values.
- `tests/` — tests of the library on concrete values.
- `app/` — the Bevy program.

Durations are kept in milliseconds and distances, spreads and multipliers
in thousandths, so that the rules work on integers.

## Verifying

Run Verus on `src/lib.rs` with the crate's dependencies; `tests/` run with
`cargo test`.
