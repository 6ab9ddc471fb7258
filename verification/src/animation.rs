//! Sprite animation: which frame of the sprite sheet to show next.

use vstd::prelude::*;
use crate::player::PlayerState;

verus! {

/// The first frame of the player's animation in each state.
pub open spec fn player_base_frame(state: PlayerState) -> usize {
    match state {
        PlayerState::Idle => 0,
        PlayerState::Run => 4,
    }
}

/// The next frame of the player: the base frame of the state plus the
/// position after `index` in a cycle of four.
pub fn next_player_frame(state: PlayerState, index: usize) -> (r: usize)
    requires
        index < usize::MAX,
    ensures
        r == player_base_frame(state) + (index + 1) % 4,
{
    let base_sprite_index: usize = match state {
        PlayerState::Idle => 0,
        PlayerState::Run => 4,
    };
    base_sprite_index + (index + 1) % 4
}

/// The next frame of an enemy: the next one within its group of four,
/// wrapping round.
pub open spec fn next_enemy_frame_spec(index: nat) -> nat {
    (index - index % 4 + (index + 1) % 4) as nat
}

/// The next frame of an enemy.
pub fn next_enemy_frame(index: usize) -> (r: usize)
    requires
        index < usize::MAX,
    ensures
        r == next_enemy_frame_spec(index as nat),
{
    let base_index = index - (index % 4);
    base_index + ((index + 1) % 4)
}

/// An enemy's animation never leaves its group of four frames, and comes
/// back to the frame it started from after four steps.
pub proof fn lemma_enemy_frames_cycle(index: nat)
    ensures
        next_enemy_frame_spec(index) / 4 == index / 4,
        next_enemy_frame_spec(
            next_enemy_frame_spec(next_enemy_frame_spec(next_enemy_frame_spec(index))),
        ) == index,
{
    let q = index / 4;
    let r = index % 4;
    assert(index == 4 * q + r && r < 4);
    assert forall|k: nat| k < 4 implies #[trigger] next_enemy_frame_spec(4 * q + k) == 4 * q + (k
        + 1) % 4 by {
        assert((4 * q + k) % 4 == k) by (nonlinear_arith)
            requires
                k < 4,
        ;
        assert((4 * q + k + 1) % 4 == (k + 1) % 4) by (nonlinear_arith)
            requires
                k < 4,
        ;
    }
    assert((4 * q + ((r + 1) % 4)) / 4 == q) by (nonlinear_arith)
        requires
            r < 4,
    ;
    assert(next_enemy_frame_spec(4 * q + r) == 4 * q + (r + 1) % 4);
    assert(next_enemy_frame_spec(4 * q + (r + 1) % 4) == 4 * q + (r + 2) % 4);
    assert(next_enemy_frame_spec(4 * q + (r + 2) % 4) == 4 * q + (r + 3) % 4);
    assert(next_enemy_frame_spec(4 * q + (r + 3) % 4) == 4 * q + r);
}

} // verus!
