use platformer_core::constants::Constants;
use platformer_core::geometry::{Point, Size, Velocity};
use platformer_core::input::{Key, PressedKeys};
use platformer_core::probes::{GroundedCheck, Hit, Player};
use platformer_core::trick_engine::{trick_manager, LastKeyPressed, Score, Trick, TrickOutcome};
use platformer_core::tricks::{TrickDefinition, TrickList};

const MS: u64 = 1_000_000;

fn constants() -> Constants {
    Constants {
        post_level_secs: 3,
        dash_force: 0,
        trick_time: 1000,
        squish_bounce_force: 0,
        character_sheet: "characters".to_string(),
        player_speed: 0,
        max_player_speed: 0,
        jump_force: 0,
        initial_jump_time: 500,
        grounded_threshold: 10_000,
        wall_threshold: 0,
    }
}

fn player() -> Player {
    Player {
        position: Point { x: 0, y: 100_000 },
        velocity: Velocity { x: 0, y: 0 },
        half_extents: Size { width: 8_000, height: 8_000 },
    }
}

fn airborne() -> GroundedCheck {
    let mut ground = GroundedCheck::new();
    ground.0.origin = Point { x: 0, y: 84_000 };
    ground
}

fn landed() -> GroundedCheck {
    let mut ground = airborne();
    ground.0.hits.push(Hit { entity: 1, time_of_impact: 0 });
    ground
}

fn dictionary() -> TrickList {
    TrickList {
        tricks: vec![
            (
                vec![Key::Up, Key::Down],
                TrickDefinition { name: "flip".to_string(), points: 100, takes_ms: 300 },
            ),
            (vec![Key::Up], TrickDefinition { name: "hop".to_string(), points: 10, takes_ms: 100 }),
        ],
    }
}

struct World {
    trick: Trick,
    score: Score,
    last: LastKeyPressed,
    list: TrickList,
    constants: Constants,
}

impl World {
    fn new(list: TrickList) -> World {
        World {
            trick: Trick::new(),
            score: Score(0),
            last: LastKeyPressed((Key::Left, 0)),
            list,
            constants: constants(),
        }
    }

    fn tick(
        &mut self,
        ground: &GroundedCheck,
        pressed: PressedKeys,
        delta: u64,
        now_ms: usize,
    ) -> TrickOutcome {
        trick_manager(
            &mut self.trick,
            &mut self.score,
            &mut self.last,
            &self.list,
            &self.constants,
            ground,
            &player(),
            pressed,
            delta,
            now_ms,
        )
    }

    fn idle(list: TrickList) -> World {
        let mut world = World::new(list);
        let outcome = world.tick(&airborne(), PressedKeys::none(), 500 * MS, 500);
        assert_eq!(outcome, TrickOutcome::Waiting);
        assert!(world.trick.timer().finished());
        world
    }

    fn with_pending_flip() -> World {
        let mut world = World::idle(dictionary());
        assert_eq!(
            world.tick(&airborne(), PressedKeys::only(Key::Up), 16 * MS, 1000),
            TrickOutcome::Recorded
        );
        assert_eq!(
            world.tick(&airborne(), PressedKeys::only(Key::Down), 16 * MS, 1100),
            TrickOutcome::Recognised
        );
        world
    }
}

#[test]
fn a_new_trick_state_is_empty_with_its_first_window_running() {
    let trick = Trick::new();
    assert!(trick.keys().is_empty());
    assert!(trick.pending().is_none());
    assert!(!trick.timer().finished());
    assert_eq!(trick.timer().duration(), 500_000_000);
    assert_eq!(trick.timer().elapsed(), 0);
}

#[test]
fn add_key_appends_to_the_buffer() {
    let mut trick = Trick::new();
    trick.add_key(Key::Up);
    trick.add_key(Key::Left);
    assert_eq!(trick.keys(), &vec![Key::Up, Key::Left]);
    assert!(trick.pending().is_none());
}

#[test]
fn keys_are_left_out_during_the_first_window() {
    let mut world = World::new(dictionary());
    let outcome = world.tick(&airborne(), PressedKeys::only(Key::Up), 16 * MS, 100);
    assert_eq!(outcome, TrickOutcome::Blocked);
    assert!(world.trick.keys().is_empty());
    assert_eq!(world.last.0, (Key::Up, 100));
}

#[test]
fn the_two_key_trick_is_selected_without_an_intermediate_commit() {
    let mut world = World::idle(dictionary());
    let first = world.tick(&airborne(), PressedKeys::only(Key::Up), 16 * MS, 1000);
    assert_eq!(first, TrickOutcome::Recorded);
    assert!(world.trick.pending().is_none());
    assert_eq!(world.trick.keys(), &vec![Key::Up]);
    assert_eq!(world.score.0, 0);
    let second = world.tick(&airborne(), PressedKeys::only(Key::Down), 16 * MS, 1100);
    assert_eq!(second, TrickOutcome::Recognised);
    let pending = world.trick.pending().unwrap();
    assert_eq!(pending.name, "flip");
    assert_eq!(pending.points, 100);
    assert!(world.trick.keys().is_empty());
    assert_eq!(world.trick.timer().duration(), 300_000_000);
    assert_eq!(world.trick.timer().elapsed(), 0);
    assert!(!world.trick.timer().finished());
    assert_eq!(world.score.0, 0);
}

#[test]
fn a_commit_scores_exactly_the_points_of_the_trick() {
    let mut world = World::with_pending_flip();
    world.score = Score(7);
    assert_eq!(world.tick(&airborne(), PressedKeys::none(), 100 * MS, 1200), TrickOutcome::Waiting);
    assert_eq!(world.score.0, 7);
    assert_eq!(
        world.tick(&airborne(), PressedKeys::none(), 200 * MS, 1400),
        TrickOutcome::Scored { points: 100 }
    );
    assert_eq!(world.score.0, 107);
    assert!(world.trick.pending().is_none());
    assert!(world.trick.keys().is_empty());
    assert_eq!(world.tick(&airborne(), PressedKeys::none(), 200 * MS, 1600), TrickOutcome::Waiting);
    assert_eq!(world.score.0, 107);
}

#[test]
fn landing_inside_the_window_cancels_the_trick() {
    let mut world = World::with_pending_flip();
    assert_eq!(
        world.tick(&landed(), PressedKeys::none(), 100 * MS, 1200),
        TrickOutcome::Canceled
    );
    assert!(world.trick.pending().is_none());
    assert_eq!(world.score.0, 0);
    assert_eq!(world.tick(&airborne(), PressedKeys::none(), 300 * MS, 1500), TrickOutcome::Waiting);
    assert_eq!(world.score.0, 0);
    assert_eq!(world.tick(&airborne(), PressedKeys::none(), 300 * MS, 1800), TrickOutcome::Waiting);
    assert_eq!(world.score.0, 0);
}

#[test]
fn landing_when_the_window_is_just_over_still_scores() {
    let mut world = World::with_pending_flip();
    assert_eq!(
        world.tick(&landed(), PressedKeys::none(), 300 * MS, 1400),
        TrickOutcome::Scored { points: 100 }
    );
    assert_eq!(world.score.0, 100);
}

#[test]
fn ground_far_below_does_not_cancel() {
    let mut world = World::with_pending_flip();
    let mut ground = airborne();
    ground.0.hits.push(Hit { entity: 1, time_of_impact: 2_000 });
    assert_eq!(world.tick(&ground, PressedKeys::none(), 100 * MS, 1200), TrickOutcome::Waiting);
    assert!(world.trick.pending().is_some());
    let mut nearer = airborne();
    nearer.0.hits.push(Hit { entity: 1, time_of_impact: 1_999 });
    assert_eq!(world.tick(&nearer, PressedKeys::none(), 10 * MS, 1210), TrickOutcome::Canceled);
}

#[test]
fn a_stale_buffer_is_dropped() {
    let mut world = World::idle(dictionary());
    assert_eq!(
        world.tick(&airborne(), PressedKeys::only(Key::Up), 16 * MS, 1000),
        TrickOutcome::Recorded
    );
    assert_eq!(world.tick(&airborne(), PressedKeys::none(), 16 * MS, 2000), TrickOutcome::Waiting);
    assert_eq!(world.trick.keys(), &vec![Key::Up]);
    assert_eq!(world.tick(&airborne(), PressedKeys::none(), 16 * MS, 2001), TrickOutcome::Waiting);
    assert!(world.trick.keys().is_empty());
}

#[test]
fn a_key_after_the_buffer_went_stale_starts_a_new_sequence() {
    let mut world = World::idle(dictionary());
    world.tick(&airborne(), PressedKeys::only(Key::Up), 16 * MS, 1000);
    let outcome = world.tick(&airborne(), PressedKeys::only(Key::Down), 16 * MS, 2500);
    assert_eq!(outcome, TrickOutcome::Recorded);
    assert_eq!(world.trick.keys(), &vec![Key::Down]);
    assert!(world.trick.pending().is_none());
}

#[test]
fn a_wrong_second_key_throws_the_buffer_away() {
    let mut world = World::idle(dictionary());
    world.tick(&airborne(), PressedKeys::only(Key::Up), 16 * MS, 1000);
    let outcome = world.tick(&airborne(), PressedKeys::only(Key::Left), 16 * MS, 1100);
    assert_eq!(outcome, TrickOutcome::Missed);
    assert!(world.trick.keys().is_empty());
    assert!(!world.trick.timer().finished());
    assert_eq!(world.trick.timer().elapsed(), 0);
    assert_eq!(world.last.0, (Key::Left, 1100));
    assert_eq!(
        world.tick(&airborne(), PressedKeys::only(Key::Up), 16 * MS, 1200),
        TrickOutcome::Blocked
    );
    assert!(world.trick.keys().is_empty());
}

#[test]
fn a_one_key_trick_is_recognised_where_nothing_longer_exists() {
    let list = TrickList {
        tricks: vec![(
            vec![Key::Right],
            TrickDefinition { name: "lean".to_string(), points: 5, takes_ms: 0 },
        )],
    };
    let mut world = World::idle(list);
    assert_eq!(
        world.tick(&airborne(), PressedKeys::only(Key::Right), 16 * MS, 1000),
        TrickOutcome::Recognised
    );
    assert_eq!(
        world.tick(&airborne(), PressedKeys::none(), 0, 1000),
        TrickOutcome::Scored { points: 5 }
    );
    assert_eq!(world.score.0, 5);
}

#[test]
fn keys_pressed_inside_the_commit_window_are_left_out() {
    let mut world = World::with_pending_flip();
    assert_eq!(
        world.tick(&airborne(), PressedKeys::only(Key::Left), 16 * MS, 1150),
        TrickOutcome::Blocked
    );
    assert!(world.trick.keys().is_empty());
    assert_eq!(world.trick.pending().map(|t| t.points), Some(100));
    assert_eq!(world.last.0, (Key::Left, 1150));
}

#[test]
fn a_one_key_trick_beside_an_unrelated_longer_one_is_recognised_at_once() {
    let list = TrickList {
        tricks: vec![
            (
                vec![Key::Up, Key::Down],
                TrickDefinition { name: "flip".to_string(), points: 100, takes_ms: 300 },
            ),
            (vec![Key::Left], TrickDefinition { name: "lean".to_string(), points: 5, takes_ms: 50 }),
        ],
    };
    let mut world = World::idle(list);
    assert_eq!(
        world.tick(&airborne(), PressedKeys::only(Key::Left), 16 * MS, 1000),
        TrickOutcome::Recognised
    );
    assert_eq!(world.trick.pending().map(|t| t.name.as_str()), Some("lean"));
    assert_eq!(world.trick.timer().duration(), 50_000_000);
}
