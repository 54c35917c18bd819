//! The scenes of the game, and what belongs to which.

use vstd::prelude::*;
use crate::checkpoint::LevelState;
use crate::combat::{DeleteManager, DeleteMe};
use crate::constants::Constants;
use crate::timer::{Timer, TimerMode, TimerView};

verus! {

/// The scenes of the game.
#[derive(Clone, Copy, Debug, PartialEq, Eq, Hash, Structural)]
pub enum Scene {
    /// The screen on which a level is picked.
    LevelMap,
    Home,
    Level,
}

impl Default for Scene {
    /// The game starts at home.
    fn default() -> (scene: Scene)
        ensures
            scene == Scene::Home,
    {
        Scene::Home
    }
}

/// The scene that an entity was made for.
#[derive(Clone, Copy, Debug, PartialEq, Eq, Structural)]
pub struct BelongsToScene(pub Scene);

/// The file of the level to be played.
#[derive(Clone, Debug)]
pub struct LevelID(pub String);

/// The timer that holds the result screen up after a level.
#[derive(Clone, Copy, Debug)]
pub struct EndLevelTimer(pub Timer);

/// Milliseconds in one second.
pub const MILLIS_PER_SECOND: u64 = 1000;

/// The number keys that pick a level.
#[derive(Clone, Copy, Debug, PartialEq, Eq, Structural)]
pub struct LevelKeys {
    pub key1: bool,
    pub key2: bool,
    pub key3: bool,
    pub key4: bool,
    pub key5: bool,
}

/// Whether entity `i` of the list was made for another scene than `current`.
pub open spec fn is_leftover(owned: Seq<(u64, BelongsToScene)>, current: Scene, i: int) -> bool {
    0 <= i < owned.len() && owned[i].1.0 != current
}

/// The entities that were made for another scene than `current`.
pub open spec fn leftovers(owned: Seq<(u64, BelongsToScene)>, current: Scene) -> Set<u64> {
    Set::new(|entity: u64| exists|i: int| is_leftover(owned, current, i) && owned[i].0 == entity)
}

/// Sweeps up when a scene is left: every entity that was made for another
/// scene than `current` is tagged for removal, and the level is ready to be
/// played anew.
pub fn cleanup(
    owned: &Vec<(u64, BelongsToScene)>,
    current: Scene,
    deletions: &mut DeleteManager,
) -> (state: LevelState)
    requires
        old(deletions).wf(),
    ensures
        final(deletions).wf(),
        final(deletions)@ == old(deletions)@.union(leftovers(owned@, current)),
        state == LevelState::PrePlay,
{
    let mut i: usize = 0;
    while i < owned.len()
        invariant
            i <= owned.len(),
            deletions.wf(),
            deletions@ == old(deletions)@.union(leftovers(owned@.take(i as int), current)),
        decreases owned.len() - i,
    {
        let ghost before = owned@.take(i as int);
        let ghost after = owned@.take(i + 1);
        let entry = owned[i];
        if entry.1.0 != current {
            deletions.mark(DeleteMe { entity: entry.0 });
        }
        proof {
            assert forall|entity: u64| #[trigger]
                leftovers(after, current).contains(entity) <==> leftovers(before, current).contains(
                    entity,
                ) || (entry.1.0 != current && entity == entry.0) by {
                if leftovers(after, current).contains(entity) {
                    let k = choose|k: int| is_leftover(after, current, k) && after[k].0 == entity;
                    if k < i {
                        assert(is_leftover(before, current, k) && before[k].0 == entity);
                    }
                }
                if leftovers(before, current).contains(entity) {
                    let k = choose|k: int| is_leftover(before, current, k) && before[k].0 == entity;
                    assert(is_leftover(after, current, k) && after[k].0 == entity);
                }
                if entry.1.0 != current && entity == entry.0 {
                    assert(is_leftover(after, current, i as int) && after[i as int].0 == entity);
                }
            }
            assert(deletions@ =~= old(deletions)@.union(leftovers(after, current)));
        }
        i += 1;
    }
    proof {
        assert(owned@.take(i as int) =~= owned@);
    }
    LevelState::PrePlay
}

/// The scene after the home screen has seen the keyboard: the space bar
/// starts the level.
pub fn update_home(scene: Scene, space_pressed: bool) -> (next: Scene)
    ensures
        next == if scene == Scene::Home && space_pressed {
            Scene::Level
        } else {
            scene
        },
{
    if scene == Scene::Home && space_pressed {
        Scene::Level
    } else {
        scene
    }
}

/// The scene after the level has seen the keyboard: the space bar leaves
/// for home.
pub fn update_level(scene: Scene, space_pressed: bool) -> (next: Scene)
    ensures
        next == if scene == Scene::Level && space_pressed {
            Scene::Home
        } else {
            scene
        },
{
    if scene == Scene::Level && space_pressed {
        Scene::Home
    } else {
        scene
    }
}

/// The file of the level that a number key stands for.
pub open spec fn level_file(key: int) -> Seq<char> {
    if key == 1 {
        "untitled_old.tmx"@
    } else if key == 2 {
        "plains_2.tmx"@
    } else if key == 3 {
        "jumping.tmx"@
    } else if key == 4 {
        "long.tmx"@
    } else {
        "plains_5"@
    }
}

/// The number key that counts when several went down at once: the highest.
pub open spec fn chosen_level(pressed: LevelKeys) -> Option<int> {
    if pressed.key5 {
        Some(5)
    } else if pressed.key4 {
        Some(4)
    } else if pressed.key3 {
        Some(3)
    } else if pressed.key2 {
        Some(2)
    } else if pressed.key1 {
        Some(1)
    } else {
        None
    }
}

/// The level that the map screen picks for the number keys that went down,
/// if any went down. The game then moves on to the level scene.
pub fn select_level(pressed: LevelKeys) -> (picked: Option<LevelID>)
    ensures
        match picked {
            Some(level) => chosen_level(pressed) matches Some(key) && level.0@ == level_file(key),
            None => chosen_level(pressed) is None,
        },
{
    if pressed.key5 {
        Some(LevelID(String::from_str("plains_5")))
    } else if pressed.key4 {
        Some(LevelID(String::from_str("long.tmx")))
    } else if pressed.key3 {
        Some(LevelID(String::from_str("jumping.tmx")))
    } else if pressed.key2 {
        Some(LevelID(String::from_str("plains_2.tmx")))
    } else if pressed.key1 {
        Some(LevelID(String::from_str("untitled_old.tmx")))
    } else {
        None
    }
}

impl EndLevelTimer {
    /// The timer of the result screen: a one-shot timer of
    /// `post_level_secs` seconds, or of as many seconds as a timer can
    /// hold where that is fewer.
    pub fn new(constants: &Constants) -> (timer: EndLevelTimer)
        ensures
            timer.0@ == TimerView::fresh(
                result_screen_nanos(constants.post_level_secs as nat),
                TimerMode::Once,
            ),
    {
        let secs = constants.post_level_secs;
        let limit: u64 = u64::MAX / MILLIS_PER_SECOND;
        let millis: u64 = if secs > limit {
            u64::MAX
        } else {
            secs * MILLIS_PER_SECOND
        };
        EndLevelTimer(Timer::from_millis(millis, TimerMode::Once))
    }
}

/// The nanoseconds that a result screen of `secs` seconds stays up.
pub open spec fn result_screen_nanos(secs: nat) -> nat {
    if secs > u64::MAX / MILLIS_PER_SECOND {
        u64::MAX as nat * 1_000_000
    } else {
        secs * MILLIS_PER_SECOND as nat * 1_000_000
    }
}

/// Lets `delta` nanoseconds of the result screen pass. Once its timer has
/// run out the game goes home.
pub fn handle_post_game_update(timer: &mut EndLevelTimer, scene: Scene, delta: u64) -> (next: Scene)
    ensures
        final(timer).0@ == old(timer).0@.tick(delta as nat),
        next == if final(timer).0@.finished {
            Scene::Home
        } else {
            scene
        },
{
    timer.0.tick(delta);
    if timer.0.finished() {
        Scene::Home
    } else {
        scene
    }
}

} // verus!
