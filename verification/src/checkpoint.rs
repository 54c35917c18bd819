//! Checkpoints and the end of a level.

use vstd::prelude::*;
use crate::constants::Constants;
use crate::probes::{CheckpointCheck, Player, ProbeView};

verus! {

/// The kinds of checkpoint.
#[derive(Clone, Copy, Debug, PartialEq, Eq, Structural)]
pub enum Checkpoint {
    /// Reaching it ends the level.
    End,
}

/// The kind of checkpoint that an entity of the world is.
#[derive(Clone, Copy, Debug, PartialEq, Eq, Structural)]
pub struct CheckpointResource(pub Checkpoint);

/// Where a level stands.
#[derive(Clone, Copy, Debug, PartialEq, Eq, Hash, Structural)]
pub enum LevelState {
    PrePlay,
    Playing,
    Over,
}

/// The state of the level that is being played, if one is.
#[derive(Clone, Copy, Debug, PartialEq, Eq, Structural)]
pub struct LevelStateResource(pub Option<LevelState>);

/// Whether the player has reached a checkpoint: there is a player, its
/// checkpoint probe hit something, and the player's feet are no higher above
/// the hit than the grounded threshold.
pub open spec fn checkpoint_reached(
    player: Option<Player>,
    check: ProbeView,
    grounded_threshold: int,
) -> bool {
    match player {
        Some(player) => match player.height_above(check) {
            Some(height) => height <= grounded_threshold,
            None => false,
        },
        None => false,
    }
}

/// The state of the level after the checkpoint detector has run: a level
/// that has not ended yet is over once a checkpoint is reached; in every
/// other case the state stays.
pub open spec fn after_checkmark(state: LevelState, reached: bool) -> LevelState {
    if state == LevelState::PrePlay && reached {
        LevelState::Over
    } else {
        state
    }
}

/// Runs the checkpoint detector for one tick and hands back the state of
/// the level after it. With no player there is nothing to detect.
pub fn hit_checkmark(
    player: Option<Player>,
    check: &CheckpointCheck,
    constants: &Constants,
    state: LevelState,
) -> (next: LevelState)
    ensures
        next == after_checkmark(
            state,
            checkpoint_reached(player, check.0@, constants.grounded_threshold as int),
        ),
{
    if state != LevelState::PrePlay {
        return state;
    }
    let player = match player {
        Some(player) => player,
        None => {
            return state;
        },
    };
    match player.height_above_hit(&check.0) {
        Some(height) => {
            if height <= constants.grounded_threshold as i128 {
                LevelState::Over
            } else {
                state
            }
        },
        None => state,
    }
}

} // verus!
