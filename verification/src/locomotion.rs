//! Locomotion: running, pushing off walls and the held jump.
//!
//! Each tick the player's velocity is updated from the keys that are held
//! and from what the ground probe and the two wall probes hit. Gravity and
//! the motion itself are the physics engine's business.

use vstd::prelude::*;
use vstd::arithmetic::div_mod::lemma_div_is_ordered;
use crate::constants::Constants;
use crate::geometry::{
    clamp, impulse, impulse_of, saturate, Velocity, NANOS_PER_SECOND, UNIT,
};
use crate::input::HeldKeys;
use crate::probes::{
    GroundedCheck, LeftSideOfPlayerCast, Player, ProbeView, RightSideOfPlayerCast,
};
use crate::timer::{Timer, TimerMode, TimerView, NANOS_PER_MILLI};

verus! {

/// A wall counts as near when it is closer than the wall threshold plus this.
pub const WALL_REACH: i64 = 32 * UNIT;

/// The value of the jump curve that stands for the full jump force.
pub const GAIN_ONE: u32 = 1_000_000;

/// What the probes say about the player's surroundings in this tick.
#[derive(Clone, Copy, Debug, PartialEq, Eq, Structural)]
pub struct Surroundings {
    /// The ground probe hit something, however far below.
    pub ground_below: bool,
    /// The player stands on the ground.
    pub grounded: bool,
    /// A wall is near on the left.
    pub wall_left: bool,
    /// A wall is near on the right.
    pub wall_right: bool,
}

/// The absolute value.
pub open spec fn magnitude(v: int) -> int {
    if v < 0 {
        -v
    } else {
        v
    }
}

/// The signed distance from the player to what the left wall probe hit.
pub open spec fn left_wall_distance(player: Player, left: ProbeView) -> Option<int> {
    match left.hit_point() {
        Some((x, _)) => Some(player.left_reference() - x),
        None => None,
    }
}

/// The signed distance from the player to what the right wall probe hit.
pub open spec fn right_wall_distance(player: Player, right: ProbeView) -> Option<int> {
    match right.hit_point() {
        Some((x, _)) => Some(player.right_reference() - x),
        None => None,
    }
}

/// Whether a wall at this distance is near enough to push off from.
pub open spec fn wall_is_near(distance: Option<int>, wall_threshold: int) -> bool {
    match distance {
        Some(d) => magnitude(d) < wall_threshold + WALL_REACH,
        None => false,
    }
}

/// The surroundings as the three probes show them.
pub open spec fn surroundings(
    player: Player,
    ground: ProbeView,
    left: ProbeView,
    right: ProbeView,
    constants: Constants,
) -> Surroundings {
    Surroundings {
        ground_below: player.height_above(ground) is Some,
        grounded: player.is_grounded(ground, constants.grounded_threshold as int),
        wall_left: wall_is_near(
            left_wall_distance(player, left),
            constants.wall_threshold as int,
        ),
        wall_right: wall_is_near(
            right_wall_distance(player, right),
            constants.wall_threshold as int,
        ),
    }
}

/// Reads the surroundings off the probes.
pub fn sense(
    player: &Player,
    ground: &GroundedCheck,
    left: &LeftSideOfPlayerCast,
    right: &RightSideOfPlayerCast,
    constants: &Constants,
) -> (around: Surroundings)
    ensures
        around == surroundings(*player, ground.0@, left.0@, right.0@, *constants),
{
    let reach: i128 = constants.wall_threshold as i128 + WALL_REACH as i128;
    let wall_left = match left.0.hit_point() {
        Some((x, _)) => {
            let d: i128 = player.position.x as i128 + player.half_extents.width as i128 - x;
            let m: i128 = if d < 0 { -d } else { d };
            m < reach
        },
        None => false,
    };
    let wall_right = match right.0.hit_point() {
        Some((x, _)) => {
            let d: i128 = player.position.x as i128 - player.half_extents.width as i128 - x;
            let m: i128 = if d < 0 { -d } else { d };
            m < reach
        },
        None => false,
    };
    let height = player.height_above_hit(&ground.0);
    Surroundings {
        ground_below: height.is_some(),
        grounded: player.grounded(ground, constants.grounded_threshold),
        wall_left,
        wall_right,
    }
}

/// The velocity after pushing off the walls. With the jump key held, a near
/// wall on the right gives a push up and to the left, and then a near wall
/// on the left a push up and to the right.
pub open spec fn after_walls(
    v: Velocity,
    around: Surroundings,
    held: HeldKeys,
    jump_push: nat,
    dash_push: nat,
) -> Velocity {
    let v1 = if around.wall_right && held.jump {
        Velocity { x: clamp(v.x - dash_push) as i64, y: clamp(v.y + jump_push) as i64 }
    } else {
        v
    };
    if around.wall_left && held.jump {
        Velocity { x: clamp(v1.x + dash_push) as i64, y: clamp(v1.y + jump_push) as i64 }
    } else {
        v1
    }
}

/// The sideways speed after running to the left: `push` faster to the left,
/// and set to the top speed leftwards where that exceeds the top speed.
pub open spec fn run_left(x: int, push: nat, top: nat) -> int {
    let pushed = clamp(x - push);
    if top < magnitude(pushed) {
        -(top as int)
    } else {
        pushed
    }
}

/// The sideways speed after running to the right: `push` faster to the
/// right, and cut down to the top speed, in the direction the player is then
/// moving in, where that exceeds the top speed.
pub open spec fn run_right(x: int, push: nat, top: nat) -> int {
    let pushed = clamp(x + push);
    if top < magnitude(pushed) {
        if pushed < 0 {
            -(top as int)
        } else {
            top as int
        }
    } else {
        pushed
    }
}

/// The velocity after running. Only a player on the ground runs; the left
/// key is handled before the right key.
pub open spec fn after_run(
    v: Velocity,
    around: Surroundings,
    held: HeldKeys,
    push: nat,
    top: nat,
) -> Velocity {
    if around.grounded {
        let x1 = if held.left {
            run_left(v.x as int, push, top)
        } else {
            v.x as int
        };
        let x2 = if held.right {
            run_right(x1, push, top)
        } else {
            x1
        };
        Velocity { x: x2 as i64, y: v.y }
    } else {
        v
    }
}

/// The jump timer once it has been decided whether to start it over: it
/// starts over when the jump key is held, and the player is on the ground.
pub open spec fn jump_timer_armed(timer: TimerView, around: Surroundings, held: HeldKeys) -> TimerView {
    if around.ground_below && held.jump && around.grounded {
        timer.reset()
    } else {
        timer
    }
}

/// Whether the held jump pushes in this tick: the jump key is held, there
/// is ground below, the jump timer has not run out, and the player is not
/// falling. `upward` is the upward speed after walls and running.
pub open spec fn jump_pushes(
    timer: TimerView,
    around: Surroundings,
    held: HeldKeys,
    upward: int,
) -> bool {
    around.ground_below && held.jump && !jump_timer_armed(timer, around, held).finished && upward
        >= 0
}

/// The jump timer after the tick.
pub open spec fn jump_timer_after(
    timer: TimerView,
    around: Surroundings,
    held: HeldKeys,
    upward: int,
    delta: nat,
) -> TimerView {
    if jump_pushes(timer, around, held, upward) {
        jump_timer_armed(timer, around, held).tick(delta)
    } else {
        jump_timer_armed(timer, around, held)
    }
}

/// The change of speed that the jump force brings about in `delta`
/// nanoseconds when the jump curve stands at `gain`, rounded down.
pub open spec fn thrust(force: nat, gain: nat, delta: nat) -> nat {
    (force * gain * delta) / ((GAIN_ONE as nat) * (NANOS_PER_SECOND as nat))
}

/// No thrust is larger than this.
pub const MAX_THRUST: u128 = 340_282_366_920_938_463_463_374;

/// Computes [`thrust`].
pub fn thrust_of(force: u32, gain: u32, delta: u64) -> (change: u128)
    ensures
        change == thrust(force as nat, gain as nat, delta as nat),
        change <= MAX_THRUST,
{
    assert(force as nat * gain as nat <= 0xffff_ffff * 0xffff_ffff) by (nonlinear_arith)
        requires
            force <= 0xffff_ffff,
            gain <= 0xffff_ffff,
    ;
    let scaled: u64 = force as u64 * gain as u64;
    assert(scaled as nat * delta as nat <= 0xffff_ffff_ffff_ffff * 0xffff_ffff_ffff_ffff)
        by (nonlinear_arith)
        requires
            scaled <= 0xffff_ffff_ffff_ffff,
            delta <= 0xffff_ffff_ffff_ffff,
    ;
    let product: u128 = scaled as u128 * delta as u128;
    let divisor: u128 = GAIN_ONE as u128 * NANOS_PER_SECOND;
    assert(force as nat * gain as nat * delta as nat == scaled as nat * delta as nat);
    proof {
        lemma_div_is_ordered(product as int, u128::MAX as int, divisor as int);
    }
    product / divisor
}

/// The velocity before the held jump is added: after walls and running.
pub open spec fn before_jump(
    v: Velocity,
    around: Surroundings,
    held: HeldKeys,
    constants: Constants,
    delta: nat,
) -> Velocity {
    after_run(
        after_walls(
            v,
            around,
            held,
            impulse(constants.jump_force as nat, delta),
            impulse(constants.dash_force as nat, delta),
        ),
        around,
        held,
        impulse(constants.player_speed as nat, delta),
        constants.max_player_speed as nat,
    )
}

/// The velocity after the held jump has pushed with the curve at `gain`.
pub open spec fn with_jump(v: Velocity, constants: Constants, gain: nat, delta: nat) -> Velocity {
    Velocity { x: v.x, y: clamp(v.y + thrust(constants.jump_force as nat, gain, delta)) as i64 }
}

/// The timer of the held jump: it runs from the moment the player last
/// stood on the ground with the jump key held.
#[derive(Clone, Copy, Debug)]
pub struct LastJumpTime(pub Timer);

impl LastJumpTime {
    /// The jump timer at the start of a level: a one-shot timer of
    /// `initial_jump_time` milliseconds, not yet started over.
    pub fn new(constants: &Constants) -> (jump: LastJumpTime)
        ensures
            jump.0@ == TimerView::fresh(
                constants.initial_jump_time as nat * NANOS_PER_MILLI as nat,
                TimerMode::Once,
            ),
    {
        LastJumpTime(Timer::from_millis(constants.initial_jump_time, TimerMode::Once))
    }
}

/// Updates the player's velocity for one tick of `delta` nanoseconds.
///
/// First the walls push, then the player runs, then the held jump pushes.
/// How hard the jump pushes falls off along the jump curve: where it pushes,
/// `curve` is asked once, with the nanoseconds the jump timer has left and
/// its duration, for the gain in parts of [`GAIN_ONE`], and the gain it gave
/// is handed back. Where the jump does not push, `curve` is not asked.
pub fn update_velocity_with_input<F: Fn(u128, u128) -> u32>(
    player: &mut Player,
    jump: &mut LastJumpTime,
    held: HeldKeys,
    ground: &GroundedCheck,
    left: &LeftSideOfPlayerCast,
    right: &RightSideOfPlayerCast,
    constants: &Constants,
    delta: u64,
    curve: F,
) -> (gain: Option<u32>)
    requires
        forall|remaining: u128, duration: u128|
            remaining <= duration ==> call_requires(curve, (remaining, duration)),
    ensures
        final(player).position == old(player).position,
        final(player).half_extents == old(player).half_extents,
        ({
            let around = surroundings(*old(player), ground.0@, left.0@, right.0@, *constants);
            let v = before_jump(old(player).velocity, around, held, *constants, delta as nat);
            let timer = jump_timer_after(old(jump).0@, around, held, v.y as int, delta as nat);
            &&& final(jump).0@ == timer
            &&& gain is Some <==> jump_pushes(old(jump).0@, around, held, v.y as int)
            &&& match gain {
                Some(gain) => {
                    &&& call_ensures(
                        curve,
                        (timer.remaining() as u128, timer.duration as u128),
                        gain,
                    )
                    &&& final(player).velocity == with_jump(
                        v,
                        *constants,
                        gain as nat,
                        delta as nat,
                    )
                },
                None => final(player).velocity == v,
            }
        }),
{
    let around = sense(player, ground, left, right, constants);
    let jump_push = impulse_of(constants.jump_force, delta) as i128;
    let dash_push = impulse_of(constants.dash_force, delta) as i128;
    let run_push = impulse_of(constants.player_speed, delta) as i128;
    let top = constants.max_player_speed as i128;
    if around.wall_right && held.jump {
        player.velocity.y = saturate(player.velocity.y as i128 + jump_push);
        player.velocity.x = saturate(player.velocity.x as i128 - dash_push);
    }
    if around.wall_left && held.jump {
        player.velocity.y = saturate(player.velocity.y as i128 + jump_push);
        player.velocity.x = saturate(player.velocity.x as i128 + dash_push);
    }
    if around.grounded {
        if held.left {
            let pushed = saturate(player.velocity.x as i128 - run_push);
            let speed: i128 = if pushed < 0 { -(pushed as i128) } else { pushed as i128 };
            player.velocity.x = if top < speed { saturate(-top) } else { pushed };
        }
        if held.right {
            let pushed = saturate(player.velocity.x as i128 + run_push);
            let speed: i128 = if pushed < 0 { -(pushed as i128) } else { pushed as i128 };
            player.velocity.x = if top < speed {
                if pushed < 0 {
                    saturate(-top)
                } else {
                    saturate(top)
                }
            } else {
                pushed
            };
        }
    }
    if around.ground_below && held.jump {
        if around.grounded {
            jump.0.reset();
        }
        if !jump.0.finished() && player.velocity.y >= 0 {
            jump.0.tick(delta);
            let remaining = jump.0.remaining();
            let duration = jump.0.duration();
            let gain = curve(remaining, duration);
            let push = thrust_of(constants.jump_force, gain, delta) as i128;
            player.velocity.y = saturate(player.velocity.y as i128 + push);
            return Some(gain);
        }
    }
    None
}

/// The upward speed never drops in a tick of the controller: nothing it
/// does to the velocity points downwards. So over any run of ticks in
/// which the player stands on the ground with the jump key held, the
/// upward speed is non-decreasing as far as the controller is concerned,
/// whatever the jump curve gives.
pub proof fn lemma_upward_speed_never_drops(
    v: Velocity,
    around: Surroundings,
    held: HeldKeys,
    constants: Constants,
    gain: nat,
    delta: nat,
)
    ensures
        before_jump(v, around, held, constants, delta).y >= v.y,
        with_jump(before_jump(v, around, held, constants, delta), constants, gain, delta).y
            >= v.y,
{
}

/// On the ground with the jump key held, the jump pushes for as long as
/// the player is not falling and the tick is shorter than the jump timer:
/// the timer starts over in every such tick, so it is the length of the
/// hold in the air, not on the ground, that uses the jump up.
pub proof fn lemma_grounded_jump_pushes(
    timer: TimerView,
    around: Surroundings,
    held: HeldKeys,
    upward: int,
    delta: nat,
)
    requires
        around.ground_below,
        around.grounded,
        held.jump,
        upward >= 0,
    ensures
        jump_pushes(timer, around, held, upward),
        jump_timer_after(timer, around, held, upward, delta) == timer.reset().tick(delta),
{
}

/// Once the jump timer has run out in the air, the held jump adds nothing:
/// the velocity is what walls and running make of it.
pub proof fn lemma_spent_jump_adds_nothing(
    timer: TimerView,
    around: Surroundings,
    held: HeldKeys,
    upward: int,
)
    requires
        timer.finished,
        !around.grounded,
    ensures
        !jump_pushes(timer, around, held, upward),
{
}

} // verus!
