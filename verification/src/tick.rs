//! One tick of the player, stage by stage.
//!
//! The stages of a tick depend on one another and run in a fixed order.
//! Before the physics engine resolves the probes, [`begin_tick`] moves them
//! to the player. After it has, [`finish_tick`] reads them: locomotion
//! first, then combat, then the trick engine, then the checkpoint detector.

use vstd::prelude::*;
use crate::checkpoint::{after_checkmark, checkpoint_reached, hit_checkmark, LevelState};
use crate::combat::{squish_enemy_below_player, squish_target, DeleteManager, DeleteMe};
use crate::constants::Constants;
use crate::geometry::{clamp, Point, Size, Velocity};
use crate::input::{HeldKeys, Key, PressedKeys};
use crate::locomotion::{
    before_jump, jump_pushes, jump_timer_after, surroundings, update_velocity_with_input,
    with_jump, LastJumpTime,
};
use crate::probes::{
    ground_probe_origin, update_bottom_of_player_raycasts, update_sides_of_player_raycasts,
    BottomOfPlayerRayCast, LeftSideOfPlayerCast, Player, RightSideOfPlayerCast,
};
use crate::timer::{TimerMode, TimerView, NANOS_PER_MILLI};
use crate::trick_engine::{
    engine_view, settled, step, tick_input, trick_manager, LastKeyPressed, Score, Trick,
    TrickOutcome, TrickView, FIRST_WINDOW_MS,
};
use crate::tricks::TrickList;

verus! {

/// What the player did to the keyboard, and how long the tick is.
#[derive(Clone, Copy, Debug, PartialEq, Eq, Structural)]
pub struct TickInput {
    /// The keys that are held down.
    pub held: HeldKeys,
    /// The directional keys that went down in this tick.
    pub pressed: PressedKeys,
    /// The length of the tick in nanoseconds.
    pub delta: u64,
    /// Wall-clock time in milliseconds.
    pub now_ms: usize,
}

/// What the four stages of a tick did.
#[derive(Clone, Copy, Debug, PartialEq, Eq, Structural)]
pub struct TickReport {
    /// The gain of the jump curve, where the held jump pushed.
    pub gain: Option<u32>,
    /// The enemy that was landed on, tagged for removal.
    pub squished: Option<DeleteMe>,
    /// What the trick engine did.
    pub trick: TrickOutcome,
    /// The state of the level after the checkpoint detector.
    pub level: LevelState,
}

/// Everything that belongs to one player between ticks.
#[derive(Clone, Debug)]
pub struct PlayerState {
    pub player: Player,
    pub trick: Trick,
    pub score: Score,
    pub last_key_pressed: LastKeyPressed,
}

/// A player as it enters a level: at rest at the spawn point, with no
/// points, no key pressed yet and a fresh trick state.
pub fn spawn_player(spawn: Point, half_extents: Size) -> (state: PlayerState)
    ensures
        state.player == (Player {
            position: spawn,
            velocity: Velocity { x: 0, y: 0 },
            half_extents,
        }),
        state.score == Score(0),
        state.last_key_pressed.0 == (Key::Left, 0usize),
        state.trick@ == (TrickView {
            pending: None,
            timer: TimerView::fresh(
                FIRST_WINDOW_MS as nat * NANOS_PER_MILLI as nat,
                TimerMode::Once,
            ),
            keys: Seq::<Key>::empty(),
        }),
        settled(state.trick@),
{
    PlayerState {
        player: Player { position: spawn, velocity: Velocity { x: 0, y: 0 }, half_extents },
        trick: Trick::new(),
        score: Score(0),
        last_key_pressed: LastKeyPressed((Key::Left, 0)),
    }
}

/// The first half of a tick: moves all five probes to the player, so that
/// the physics engine casts them from where the player is now.
pub fn begin_tick(
    bottom: &mut BottomOfPlayerRayCast,
    left: &mut LeftSideOfPlayerCast,
    right: &mut RightSideOfPlayerCast,
    player: &Player,
)
    ensures
        final(left).0@ == old(left).0@.moved_to(player.position),
        final(right).0@ == old(right).0@.moved_to(player.position),
        final(bottom).checkpoint.0@ == old(bottom).checkpoint.0@.moved_to(player.position),
        final(bottom).squish.0@ == old(bottom).squish.0@.moved_to(player.position),
        final(bottom).grounded.0@ == old(bottom).grounded.0@.moved_to(
            ground_probe_origin(player.position),
        ),
{
    update_sides_of_player_raycasts(left, right, player);
    update_bottom_of_player_raycasts(bottom, player);
}

/// The velocity after locomotion, given the gain that the jump curve gave.
pub open spec fn velocity_after_locomotion(
    player: Player,
    bottom: BottomOfPlayerRayCast,
    left: LeftSideOfPlayerCast,
    right: RightSideOfPlayerCast,
    constants: Constants,
    input: TickInput,
    gain: Option<u32>,
) -> Velocity {
    let around = surroundings(player, bottom.grounded.0@, left.0@, right.0@, constants);
    let v = before_jump(player.velocity, around, input.held, constants, input.delta as nat);
    match gain {
        Some(gain) => with_jump(v, constants, gain as nat, input.delta as nat),
        None => v,
    }
}

/// The velocity after combat: a player that lands on an enemy bounces.
pub open spec fn velocity_after_combat(
    v: Velocity,
    squished: Option<DeleteMe>,
    constants: Constants,
) -> Velocity {
    match squished {
        Some(_) => Velocity { x: v.x, y: clamp(v.y + constants.squish_bounce_force) as i64 },
        None => v,
    }
}

/// The second half of a tick, once the physics engine has filled in what
/// the probes hit. The four stages run in this order, each on what the one
/// before it left: locomotion updates the velocity and the jump timer;
/// combat lets the player land on an enemy and tags it for removal; the
/// trick engine takes the keys
/// and the time; the checkpoint detector decides whether the level is over.
pub fn finish_tick<F: Fn(u128, u128) -> u32>(
    player: &mut Player,
    jump: &mut LastJumpTime,
    trick: &mut Trick,
    score: &mut Score,
    last_key_pressed: &mut LastKeyPressed,
    deletions: &mut DeleteManager,
    level: LevelState,
    bottom: &BottomOfPlayerRayCast,
    left: &LeftSideOfPlayerCast,
    right: &RightSideOfPlayerCast,
    trick_list: &TrickList,
    constants: &Constants,
    input: TickInput,
    curve: F,
) -> (report: TickReport)
    requires
        forall|remaining: u128, duration: u128|
            remaining <= duration ==> call_requires(curve, (remaining, duration)),
        old(trick)@.wf(),
        old(trick)@.pending matches Some(pending) ==> old(score).0 + pending.points <= usize::MAX,
        old(deletions).wf(),
    ensures
        final(player).position == old(player).position,
        final(player).half_extents == old(player).half_extents,
        final(trick)@.wf(),
        final(deletions).wf(),
        final(deletions)@ == match report.squished {
            Some(tag) => old(deletions)@.insert(tag.entity),
            None => old(deletions)@,
        },
        ({
            let around = surroundings(
                *old(player),
                bottom.grounded.0@,
                left.0@,
                right.0@,
                *constants,
            );
            let v = before_jump(
                old(player).velocity,
                around,
                input.held,
                *constants,
                input.delta as nat,
            );
            let timer = jump_timer_after(
                old(jump).0@,
                around,
                input.held,
                v.y as int,
                input.delta as nat,
            );
            let moved = Player {
                velocity: velocity_after_locomotion(
                    *old(player),
                    *bottom,
                    *left,
                    *right,
                    *constants,
                    input,
                    report.gain,
                ),
                ..*old(player)
            };
            &&& final(jump).0@ == timer
            &&& report.gain is Some <==> jump_pushes(old(jump).0@, around, input.held, v.y as int)
            &&& report.gain matches Some(gain) ==> call_ensures(
                curve,
                (timer.remaining() as u128, timer.duration as u128),
                gain,
            )
            &&& match report.squished {
                Some(tag) => squish_target(moved, bottom.squish.0@) == Some(tag.entity),
                None => squish_target(moved, bottom.squish.0@) is None,
            }
            &&& final(player).velocity == velocity_after_combat(
                moved.velocity,
                report.squished,
                *constants,
            )
            &&& (engine_view(*final(trick), *final(score), *final(last_key_pressed)), report.trick)
                == step(
                engine_view(*old(trick), *old(score), *old(last_key_pressed)),
                tick_input(
                    *trick_list,
                    *constants,
                    bottom.grounded,
                    *final(player),
                    input.pressed,
                    input.delta,
                    input.now_ms,
                ),
            )
            &&& report.level == after_checkmark(
                level,
                checkpoint_reached(
                    Some(*final(player)),
                    bottom.checkpoint.0@,
                    constants.grounded_threshold as int,
                ),
            )
        }),
{
    let gain = update_velocity_with_input(
        player,
        jump,
        input.held,
        &bottom.grounded,
        left,
        right,
        constants,
        input.delta,
        curve,
    );
    let squished = squish_enemy_below_player(player, &bottom.squish, constants, deletions);
    let outcome = trick_manager(
        trick,
        score,
        last_key_pressed,
        trick_list,
        constants,
        &bottom.grounded,
        player,
        input.pressed,
        input.delta,
        input.now_ms,
    );
    let level = hit_checkmark(Some(*player), &bottom.checkpoint, constants, level);
    TickReport { gain, squished, trick: outcome, level }
}

} // verus!
