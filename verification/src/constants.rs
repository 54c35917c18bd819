//! The tunable numbers of the game. They are read once and never change
//! while the game runs.

use vstd::prelude::*;

verus! {

/// The tunable numbers of the game.
///
/// Thresholds are lengths in sub-units, speeds are sub-units per second,
/// forces are sub-units per second gained per second, times are in
/// milliseconds unless the name says otherwise.
#[derive(Clone, Debug)]
pub struct Constants {
    /// Seconds the result screen stays up after a level.
    pub post_level_secs: u64,
    /// Sideways push away from a wall.
    pub dash_force: u32,
    /// Milliseconds after the last key press at which a half-typed trick is dropped.
    pub trick_time: u64,
    /// Upward speed gained by landing on an enemy.
    pub squish_bounce_force: u32,
    /// Name of the tile sheet that holds the characters.
    pub character_sheet: String,
    /// Sideways acceleration while a movement key is held.
    pub player_speed: u32,
    /// The sideways speed that running can not exceed.
    pub max_player_speed: u32,
    /// Upward acceleration of a jump at its strongest.
    pub jump_force: u32,
    /// Milliseconds for which a held jump keeps pushing.
    pub initial_jump_time: u64,
    /// The player stands on the ground when nearer to it than this.
    pub grounded_threshold: i64,
    /// The player is at a wall when nearer to it than this plus the wall reach.
    pub wall_threshold: i64,
}

} // verus!
