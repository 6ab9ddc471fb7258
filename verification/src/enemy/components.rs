//! What an enemy carries once it is in the world.

use vstd::prelude::*;

verus! {

/// The stats of a live enemy.
#[derive(Clone, Copy, PartialEq, Eq, Debug, Structural)]
pub struct Enemy {
    pub health: u32,
    pub speed: u32,
    pub damage: u32,
    pub xp: u32,
}

/// How many more times an enemy splits when it dies.
#[derive(Clone, Copy, PartialEq, Eq, Debug, Structural)]
pub struct SplitAbility {
    pub splits_remaining: u8,
    pub num_splits: u8,
}

/// The phases of a charging enemy.
#[derive(Clone, Copy, PartialEq, Eq, Debug, Structural)]
pub enum ChargeState {
    /// Walking towards the player.
    Approaching,
    /// Standing still, about to charge.
    Preparing,
    /// Rushing at where the player stood.
    Charging,
    /// Catching its breath while still drifting towards the player.
    Cooldown,
}

/// The charging skill of an enemy; its timer and target point live with
/// the enemy in the world.
#[derive(Clone, Copy, PartialEq, Eq, Debug, Structural)]
pub struct ChargeAbility {
    pub state: ChargeState,
    /// How close the player must be for a charge to begin.
    pub charge_distance: u32,
    pub charge_speed: u32,
    /// Length of the cooldown, in milliseconds.
    pub cooldown_duration: u32,
}

/// How a charging enemy moves this frame.
#[derive(Clone, Copy, PartialEq, Eq, Debug, Structural)]
pub enum ChargeMove {
    Still,
    /// At its own speed, towards the player.
    TowardPlayer,
    /// At its charge speed, towards the point it aims at.
    TowardTarget,
}

/// What happens to the point a charging enemy aims at.
#[derive(Clone, Copy, PartialEq, Eq, Debug, Structural)]
pub enum TargetChange {
    Keep,
    /// Aim at where the player stands now.
    SetToPlayer,
    Clear,
}

/// One frame of a charging enemy.
#[derive(Clone, Copy, PartialEq, Eq, Debug, Structural)]
pub struct ChargeStep {
    pub next: ChargeState,
    /// Restart the phase timer with this many milliseconds.
    pub restart_timer: Option<u32>,
    pub target: TargetChange,
    pub movement: ChargeMove,
    /// Random jitter added to the position, in thousandths of a unit.
    pub shake: u32,
}

/// One frame of a charging enemy in phase `state`: an approaching enemy
/// starts preparing (1.5 s) once the player is within its charge distance
/// and walks on otherwise; a preparing one charges (0.5 s) at the player's
/// spot when its timer ends; a charging one cools down for its cooldown when
/// its timer ends and otherwise rushes, shaking, at its target if it has
/// one; a cooling one approaches again when its timer ends and otherwise
/// drifts, shaking, towards the player.
pub open spec fn charge_step_spec(
    ability: ChargeAbility,
    within_distance: bool,
    timer_finished: bool,
    has_target: bool,
) -> ChargeStep {
    match ability.state {
        ChargeState::Approaching => if within_distance {
            ChargeStep {
                next: ChargeState::Preparing,
                restart_timer: Some(1500),
                target: TargetChange::Keep,
                movement: ChargeMove::Still,
                shake: 0,
            }
        } else {
            ChargeStep {
                next: ChargeState::Approaching,
                restart_timer: None,
                target: TargetChange::Keep,
                movement: ChargeMove::TowardPlayer,
                shake: 0,
            }
        },
        ChargeState::Preparing => if timer_finished {
            ChargeStep {
                next: ChargeState::Charging,
                restart_timer: Some(500),
                target: TargetChange::SetToPlayer,
                movement: ChargeMove::Still,
                shake: 0,
            }
        } else {
            ChargeStep {
                next: ChargeState::Preparing,
                restart_timer: None,
                target: TargetChange::Keep,
                movement: ChargeMove::Still,
                shake: 0,
            }
        },
        ChargeState::Charging => if timer_finished {
            ChargeStep {
                next: ChargeState::Cooldown,
                restart_timer: Some(ability.cooldown_duration),
                target: TargetChange::Clear,
                movement: ChargeMove::Still,
                shake: 0,
            }
        } else if has_target {
            ChargeStep {
                next: ChargeState::Charging,
                restart_timer: None,
                target: TargetChange::Keep,
                movement: ChargeMove::TowardTarget,
                shake: 2000,
            }
        } else {
            ChargeStep {
                next: ChargeState::Charging,
                restart_timer: None,
                target: TargetChange::Keep,
                movement: ChargeMove::Still,
                shake: 0,
            }
        },
        ChargeState::Cooldown => if timer_finished {
            ChargeStep {
                next: ChargeState::Approaching,
                restart_timer: None,
                target: TargetChange::Keep,
                movement: ChargeMove::Still,
                shake: 0,
            }
        } else {
            ChargeStep {
                next: ChargeState::Cooldown,
                restart_timer: None,
                target: TargetChange::Keep,
                movement: ChargeMove::TowardPlayer,
                shake: 1000,
            }
        },
    }
}

/// The phase that follows `state` in the charge cycle.
pub open spec fn next_phase(state: ChargeState) -> ChargeState {
    match state {
        ChargeState::Approaching => ChargeState::Preparing,
        ChargeState::Preparing => ChargeState::Charging,
        ChargeState::Charging => ChargeState::Cooldown,
        ChargeState::Cooldown => ChargeState::Approaching,
    }
}

impl ChargeAbility {
    /// Plays one frame: whether the player is within the charge distance,
    /// whether the phase timer has just run out, and whether a target point
    /// is set. The ability moves to the next phase.
    pub fn step(&mut self, within_distance: bool, timer_finished: bool, has_target: bool) -> (r:
        ChargeStep)
        ensures
            r == charge_step_spec(*old(self), within_distance, timer_finished, has_target),
            final(self).state == r.next,
            final(self).charge_distance == old(self).charge_distance,
            final(self).charge_speed == old(self).charge_speed,
            final(self).cooldown_duration == old(self).cooldown_duration,
    {
        let step = match self.state {
            ChargeState::Approaching => {
                if within_distance {
                    ChargeStep {
                        next: ChargeState::Preparing,
                        restart_timer: Some(1500),
                        target: TargetChange::Keep,
                        movement: ChargeMove::Still,
                        shake: 0,
                    }
                } else {
                    ChargeStep {
                        next: ChargeState::Approaching,
                        restart_timer: None,
                        target: TargetChange::Keep,
                        movement: ChargeMove::TowardPlayer,
                        shake: 0,
                    }
                }
            },
            ChargeState::Preparing => {
                if timer_finished {
                    ChargeStep {
                        next: ChargeState::Charging,
                        restart_timer: Some(500),
                        target: TargetChange::SetToPlayer,
                        movement: ChargeMove::Still,
                        shake: 0,
                    }
                } else {
                    ChargeStep {
                        next: ChargeState::Preparing,
                        restart_timer: None,
                        target: TargetChange::Keep,
                        movement: ChargeMove::Still,
                        shake: 0,
                    }
                }
            },
            ChargeState::Charging => {
                if timer_finished {
                    ChargeStep {
                        next: ChargeState::Cooldown,
                        restart_timer: Some(self.cooldown_duration),
                        target: TargetChange::Clear,
                        movement: ChargeMove::Still,
                        shake: 0,
                    }
                } else if has_target {
                    ChargeStep {
                        next: ChargeState::Charging,
                        restart_timer: None,
                        target: TargetChange::Keep,
                        movement: ChargeMove::TowardTarget,
                        shake: 2000,
                    }
                } else {
                    ChargeStep {
                        next: ChargeState::Charging,
                        restart_timer: None,
                        target: TargetChange::Keep,
                        movement: ChargeMove::Still,
                        shake: 0,
                    }
                }
            },
            ChargeState::Cooldown => {
                if timer_finished {
                    ChargeStep {
                        next: ChargeState::Approaching,
                        restart_timer: None,
                        target: TargetChange::Keep,
                        movement: ChargeMove::Still,
                        shake: 0,
                    }
                } else {
                    ChargeStep {
                        next: ChargeState::Cooldown,
                        restart_timer: None,
                        target: TargetChange::Keep,
                        movement: ChargeMove::TowardPlayer,
                        shake: 1000,
                    }
                }
            },
        };
        self.state = step.next;
        step
    }
}

/// A charging enemy only ever stays in its phase or moves to the next one
/// of the cycle approach, prepare, charge, cool down; it leaves the approach
/// exactly when the player comes within range and any other phase exactly
/// when its timer runs out.
pub proof fn lemma_charge_cycle(
    ability: ChargeAbility,
    within_distance: bool,
    timer_finished: bool,
    has_target: bool,
)
    ensures
        ({
            let next = charge_step_spec(ability, within_distance, timer_finished, has_target).next;
            &&& next == ability.state || next == next_phase(ability.state)
            &&& ability.state == ChargeState::Approaching ==> (next != ability.state
                <==> within_distance)
            &&& ability.state != ChargeState::Approaching ==> (next != ability.state
                <==> timer_finished)
        }),
{
}

/// How a charging enemy moves in each phase: it walks at the player while
/// approaching (until in range) and while cooling down (until the timer
/// runs out, jittering by one unit); it rushes at its target only while
/// charging with a target set (jittering by two units); it stands still
/// otherwise, in particular for the whole of the preparation. The phase
/// timer restarts only on a change of phase out of approaching (1.5 s),
/// preparing (0.5 s) or charging (the cooldown), and the target is taken
/// when the charge begins and dropped when it ends.
pub proof fn lemma_charge_moves(
    ability: ChargeAbility,
    within_distance: bool,
    timer_finished: bool,
    has_target: bool,
)
    ensures
        ({
            let s = charge_step_spec(ability, within_distance, timer_finished, has_target);
            let st = ability.state;
            &&& st == ChargeState::Preparing ==> s.movement == ChargeMove::Still && s.shake == 0
            &&& (s.movement == ChargeMove::TowardPlayer) <==> ((st == ChargeState::Approaching
                && !within_distance) || (st == ChargeState::Cooldown && !timer_finished))
            &&& (s.movement == ChargeMove::TowardTarget) <==> (st == ChargeState::Charging
                && !timer_finished && has_target)
            &&& s.shake == (if s.movement == ChargeMove::TowardTarget {
                2000u32
            } else if st == ChargeState::Cooldown && s.movement == ChargeMove::TowardPlayer {
                1000u32
            } else {
                0u32
            })
            &&& s.restart_timer == (if st == ChargeState::Approaching && within_distance {
                Some(1500u32)
            } else if st == ChargeState::Preparing && timer_finished {
                Some(500u32)
            } else if st == ChargeState::Charging && timer_finished {
                Some(ability.cooldown_duration)
            } else {
                None::<u32>
            })
            &&& (s.target == TargetChange::SetToPlayer) <==> (st == ChargeState::Preparing
                && timer_finished)
            &&& (s.target == TargetChange::Clear) <==> (st == ChargeState::Charging
                && timer_finished)
        }),
{
}

} // verus!
