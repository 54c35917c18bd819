use platformer_core::constants::Constants;
use platformer_core::geometry::{impulse_of, Point, Size, Velocity};
use platformer_core::input::HeldKeys;
use platformer_core::locomotion::{
    sense, thrust_of, update_velocity_with_input, LastJumpTime, Surroundings,
};
use platformer_core::probes::{
    GroundedCheck, Hit, LeftSideOfPlayerCast, Player, RightSideOfPlayerCast,
};

const TICK: u64 = 10_000_000;

fn constants() -> Constants {
    Constants {
        post_level_secs: 3,
        dash_force: 500_000,
        trick_time: 1000,
        squish_bounce_force: 0,
        character_sheet: "characters".to_string(),
        player_speed: 300_000,
        max_player_speed: 100_000,
        jump_force: 2_000_000,
        initial_jump_time: 500,
        grounded_threshold: 10_000,
        wall_threshold: 1_000,
    }
}

fn player(vx: i64, vy: i64) -> Player {
    Player {
        position: Point { x: 0, y: 100_000 },
        velocity: Velocity { x: vx, y: vy },
        half_extents: Size { width: 8_000, height: 8_000 },
    }
}

fn ground(time_of_impact: Option<i64>) -> GroundedCheck {
    let mut ground = GroundedCheck::new();
    ground.0.origin = Point { x: 0, y: 84_000 };
    if let Some(time_of_impact) = time_of_impact {
        ground.0.hits.push(Hit { entity: 1, time_of_impact });
    }
    ground
}

fn left_wall(time_of_impact: Option<i64>) -> LeftSideOfPlayerCast {
    let mut left = LeftSideOfPlayerCast::new();
    left.0.origin = Point { x: 0, y: 100_000 };
    if let Some(time_of_impact) = time_of_impact {
        left.0.hits.push(Hit { entity: 2, time_of_impact });
    }
    left
}

fn right_wall(time_of_impact: Option<i64>) -> RightSideOfPlayerCast {
    let mut right = RightSideOfPlayerCast::new();
    right.0.origin = Point { x: 0, y: 100_000 };
    if let Some(time_of_impact) = time_of_impact {
        right.0.hits.push(Hit { entity: 3, time_of_impact });
    }
    right
}

fn linear(remaining: u128, duration: u128) -> u32 {
    if duration == 0 {
        0
    } else {
        (remaining * 1_000_000 / duration) as u32
    }
}

fn held(left: bool, right: bool, jump: bool) -> HeldKeys {
    HeldKeys { left, right, jump }
}

fn step(
    player: &mut Player,
    jump: &mut LastJumpTime,
    keys: HeldKeys,
    ground: &GroundedCheck,
    left: &LeftSideOfPlayerCast,
    right: &RightSideOfPlayerCast,
    delta: u64,
) -> Option<u32> {
    update_velocity_with_input(player, jump, keys, ground, left, right, &constants(), delta, linear)
}

#[test]
fn impulse_is_force_times_time() {
    assert_eq!(impulse_of(1_000, 16_000_000), 16);
    assert_eq!(impulse_of(300_000, TICK), 3_000);
    assert_eq!(impulse_of(999, 1_000_000), 0);
    assert_eq!(impulse_of(0, u64::MAX), 0);
    assert_eq!(impulse_of(u32::MAX, u64::MAX), 79_228_162_495_817_593_515);
}

#[test]
fn thrust_is_force_times_gain_times_time() {
    assert_eq!(thrust_of(2_000_000, 500_000, TICK), 10_000);
    assert_eq!(thrust_of(2_000_000, 1_000_000, TICK), 20_000);
    assert_eq!(thrust_of(2_000_000, 0, TICK), 0);
    assert_eq!(thrust_of(1, 1, 999_999_999_999_999), 0);
    assert_eq!(thrust_of(1, 1, 1_000_000_000_000_000), 1);
}

#[test]
fn the_surroundings_are_read_off_the_probes() {
    let around = sense(&player(0, 0), &ground(Some(0)), &left_wall(None), &right_wall(None), &constants());
    assert_eq!(
        around,
        Surroundings { ground_below: true, grounded: true, wall_left: false, wall_right: false }
    );
    let around =
        sense(&player(0, 0), &ground(Some(2_000)), &left_wall(Some(20_000)), &right_wall(None), &constants());
    assert_eq!(
        around,
        Surroundings { ground_below: true, grounded: false, wall_left: true, wall_right: false }
    );
    let around =
        sense(&player(0, 0), &ground(None), &left_wall(None), &right_wall(Some(20_000)), &constants());
    assert_eq!(
        around,
        Surroundings { ground_below: false, grounded: false, wall_left: false, wall_right: true }
    );
}

#[test]
fn a_wall_is_near_only_inside_the_threshold_plus_the_reach() {
    let near = sense(&player(0, 0), &ground(None), &left_wall(None), &right_wall(Some(24_999)), &constants());
    assert!(near.wall_right);
    let far = sense(&player(0, 0), &ground(None), &left_wall(None), &right_wall(Some(25_000)), &constants());
    assert!(!far.wall_right);
    let near = sense(&player(0, 0), &ground(None), &left_wall(Some(24_999)), &right_wall(None), &constants());
    assert!(near.wall_left);
    let far = sense(&player(0, 0), &ground(None), &left_wall(Some(25_000)), &right_wall(None), &constants());
    assert!(!far.wall_left);
}

#[test]
fn running_left_on_the_ground_speeds_up_to_the_left() {
    let mut p = player(0, 0);
    let mut jump = LastJumpTime::new(&constants());
    let gain = step(&mut p, &mut jump, held(true, false, false), &ground(Some(0)), &left_wall(None), &right_wall(None), TICK);
    assert_eq!(gain, None);
    assert_eq!(p.velocity, Velocity { x: -3_000, y: 0 });
    assert_eq!(p.position, Point { x: 0, y: 100_000 });
}

#[test]
fn running_right_on_the_ground_speeds_up_to_the_right() {
    let mut p = player(0, 0);
    let mut jump = LastJumpTime::new(&constants());
    step(&mut p, &mut jump, held(false, true, false), &ground(Some(0)), &left_wall(None), &right_wall(None), TICK);
    assert_eq!(p.velocity, Velocity { x: 3_000, y: 0 });
}

#[test]
fn there_is_no_running_in_the_air() {
    let mut p = player(500, 0);
    let mut jump = LastJumpTime::new(&constants());
    step(&mut p, &mut jump, held(true, false, false), &ground(Some(2_000)), &left_wall(None), &right_wall(None), TICK);
    assert_eq!(p.velocity, Velocity { x: 500, y: 0 });
    step(&mut p, &mut jump, held(false, true, false), &ground(None), &left_wall(None), &right_wall(None), TICK);
    assert_eq!(p.velocity, Velocity { x: 500, y: 0 });
}

#[test]
fn running_stops_at_the_top_speed() {
    let mut jump = LastJumpTime::new(&constants());
    let mut p = player(-99_000, 0);
    step(&mut p, &mut jump, held(true, false, false), &ground(Some(0)), &left_wall(None), &right_wall(None), TICK);
    assert_eq!(p.velocity.x, -100_000);
    let mut p = player(99_000, 0);
    step(&mut p, &mut jump, held(false, true, false), &ground(Some(0)), &left_wall(None), &right_wall(None), TICK);
    assert_eq!(p.velocity.x, 100_000);
    let mut p = player(97_000, 0);
    step(&mut p, &mut jump, held(false, true, false), &ground(Some(0)), &left_wall(None), &right_wall(None), TICK);
    assert_eq!(p.velocity.x, 100_000);
}

#[test]
fn the_left_key_cuts_any_excess_down_to_top_speed_leftwards() {
    let mut jump = LastJumpTime::new(&constants());
    let mut p = player(200_000, 0);
    step(&mut p, &mut jump, held(true, false, false), &ground(Some(0)), &left_wall(None), &right_wall(None), TICK);
    assert_eq!(p.velocity.x, -100_000);
}

#[test]
fn the_right_key_cuts_an_excess_down_in_the_direction_of_motion() {
    let mut jump = LastJumpTime::new(&constants());
    let mut p = player(-200_000, 0);
    step(&mut p, &mut jump, held(false, true, false), &ground(Some(0)), &left_wall(None), &right_wall(None), TICK);
    assert_eq!(p.velocity.x, -100_000);
}

#[test]
fn with_both_keys_held_left_is_handled_before_right() {
    let mut jump = LastJumpTime::new(&constants());
    let mut p = player(200_000, 0);
    step(&mut p, &mut jump, held(true, true, false), &ground(Some(0)), &left_wall(None), &right_wall(None), TICK);
    assert_eq!(p.velocity.x, -97_000);
    let mut p = player(1_000, 0);
    step(&mut p, &mut jump, held(true, true, false), &ground(Some(0)), &left_wall(None), &right_wall(None), TICK);
    assert_eq!(p.velocity.x, 1_000);
}

#[test]
fn a_near_wall_on_the_right_pushes_up_and_left() {
    let mut jump = LastJumpTime::new(&constants());
    let mut p = player(0, -50_000);
    let gain = step(&mut p, &mut jump, held(false, false, true), &ground(None), &left_wall(None), &right_wall(Some(20_000)), TICK);
    assert_eq!(gain, None);
    assert_eq!(p.velocity, Velocity { x: -5_000, y: -30_000 });
}

#[test]
fn a_near_wall_on_the_left_pushes_up_and_right() {
    let mut jump = LastJumpTime::new(&constants());
    let mut p = player(0, -50_000);
    step(&mut p, &mut jump, held(false, false, true), &ground(None), &left_wall(Some(20_000)), &right_wall(None), TICK);
    assert_eq!(p.velocity, Velocity { x: 5_000, y: -30_000 });
}

#[test]
fn walls_on_both_sides_push_up_twice() {
    let mut jump = LastJumpTime::new(&constants());
    let mut p = player(0, -50_000);
    step(&mut p, &mut jump, held(false, false, true), &ground(None), &left_wall(Some(20_000)), &right_wall(Some(20_000)), TICK);
    assert_eq!(p.velocity, Velocity { x: 0, y: -10_000 });
}

#[test]
fn a_wall_does_not_push_without_the_jump_key() {
    let mut jump = LastJumpTime::new(&constants());
    let mut p = player(0, -50_000);
    step(&mut p, &mut jump, held(true, true, false), &ground(None), &left_wall(Some(20_000)), &right_wall(Some(20_000)), TICK);
    assert_eq!(p.velocity, Velocity { x: 0, y: -50_000 });
}

#[test]
fn a_far_wall_does_not_push() {
    let mut jump = LastJumpTime::new(&constants());
    let mut p = player(0, -50_000);
    step(&mut p, &mut jump, held(false, false, true), &ground(None), &left_wall(Some(25_000)), &right_wall(Some(25_000)), TICK);
    assert_eq!(p.velocity, Velocity { x: 0, y: -50_000 });
}

#[test]
fn a_jump_from_the_ground_pushes_along_the_curve() {
    let mut jump = LastJumpTime::new(&constants());
    jump.0.tick(400_000_000);
    let mut p = player(0, 0);
    let gain = step(&mut p, &mut jump, held(false, false, true), &ground(Some(0)), &left_wall(None), &right_wall(None), TICK);
    assert_eq!(gain, Some(980_000));
    assert_eq!(p.velocity, Velocity { x: 0, y: 19_600 });
    assert_eq!(jump.0.elapsed(), 10_000_000);
    assert!(!jump.0.finished());
}

#[test]
fn upward_speed_does_not_drop_while_jumping_from_the_ground() {
    let mut jump = LastJumpTime::new(&constants());
    let mut p = player(0, 0);
    let mut before = p.velocity.y;
    for _ in 0..20 {
        let gain = step(&mut p, &mut jump, held(false, false, true), &ground(Some(0)), &left_wall(None), &right_wall(None), TICK);
        assert_eq!(gain, Some(980_000));
        assert!(p.velocity.y >= before);
        assert_eq!(p.velocity.y, before + 19_600);
        before = p.velocity.y;
    }
}

#[test]
fn a_falling_player_is_not_pushed_by_the_jump() {
    let mut jump = LastJumpTime::new(&constants());
    let mut p = player(0, -1);
    let gain = step(&mut p, &mut jump, held(false, false, true), &ground(Some(2_000)), &left_wall(None), &right_wall(None), TICK);
    assert_eq!(gain, None);
    assert_eq!(p.velocity.y, -1);
    assert_eq!(jump.0.elapsed(), 0);
}

#[test]
fn the_jump_needs_the_key() {
    let mut jump = LastJumpTime::new(&constants());
    let mut p = player(0, 0);
    let gain = step(&mut p, &mut jump, held(false, false, false), &ground(Some(0)), &left_wall(None), &right_wall(None), TICK);
    assert_eq!(gain, None);
    assert_eq!(p.velocity.y, 0);
    assert_eq!(jump.0.elapsed(), 0);
}

#[test]
fn the_jump_timer_starts_over_on_the_ground_only() {
    let mut jump = LastJumpTime::new(&constants());
    let mut p = player(0, 0);
    step(&mut p, &mut jump, held(false, false, true), &ground(Some(2_000)), &left_wall(None), &right_wall(None), TICK);
    assert_eq!(jump.0.elapsed(), 10_000_000);
    step(&mut p, &mut jump, held(false, false, true), &ground(Some(2_000)), &left_wall(None), &right_wall(None), TICK);
    assert_eq!(jump.0.elapsed(), 20_000_000);
    step(&mut p, &mut jump, held(false, false, true), &ground(Some(1_999)), &left_wall(None), &right_wall(None), TICK);
    assert_eq!(jump.0.elapsed(), 10_000_000);
}

#[test]
fn without_ground_contact_the_controller_adds_nothing_and_gravity_wins() {
    let gravity_per_tick = 9_800;
    let mut jump = LastJumpTime::new(&constants());
    let mut p = player(0, 0);
    let mut before = p.velocity.y;
    for _ in 0..10 {
        let gain = step(&mut p, &mut jump, held(false, false, true), &ground(None), &left_wall(None), &right_wall(None), TICK);
        assert_eq!(gain, None);
        assert_eq!(p.velocity.y, before);
        p.velocity.y -= gravity_per_tick;
        assert!(p.velocity.y < before);
        before = p.velocity.y;
    }
    assert_eq!(p.velocity.y, -98_000);
}

#[test]
fn high_above_the_ground_the_jump_runs_out_and_gravity_takes_over() {
    let tick: u64 = 100_000_000;
    let gravity_per_tick = 98_000;
    let mut jump = LastJumpTime::new(&constants());
    let mut p = player(0, 0);
    let mut seen = Vec::new();
    let mut gains = Vec::new();
    for _ in 0..10 {
        let gain = step(&mut p, &mut jump, held(false, false, true), &ground(Some(50_000)), &left_wall(None), &right_wall(None), tick);
        gains.push(gain);
        p.velocity.y -= gravity_per_tick;
        seen.push(p.velocity.y);
    }
    assert_eq!(
        gains,
        vec![
            Some(800_000),
            Some(600_000),
            Some(400_000),
            Some(200_000),
            Some(0),
            None,
            None,
            None,
            None,
            None
        ]
    );
    assert_eq!(
        seen,
        vec![62_000, 84_000, 66_000, 8_000, -90_000, -188_000, -286_000, -384_000, -482_000, -580_000]
    );
    assert!(jump.0.finished());
    for pair in seen[3..].windows(2) {
        assert!(pair[1] < pair[0]);
    }
}

#[test]
fn speeds_stop_at_the_edge_of_the_range() {
    let mut jump = LastJumpTime::new(&constants());
    let mut p = player(0, i64::MAX - 5);
    let gain = step(&mut p, &mut jump, held(false, false, true), &ground(Some(0)), &left_wall(None), &right_wall(None), TICK);
    assert_eq!(gain, Some(980_000));
    assert_eq!(p.velocity.y, i64::MAX);
}

#[test]
fn the_jump_timer_lasts_the_initial_jump_time() {
    let jump = LastJumpTime::new(&constants());
    assert_eq!(jump.0.duration(), 500_000_000);
    assert_eq!(jump.0.elapsed(), 0);
    assert!(!jump.0.finished());
}
