use platformer_core::combat::{squish_enemy_below_player, DeleteManager, DeleteMe};
use platformer_core::constants::Constants;
use platformer_core::geometry::{Point, Size, Velocity};
use platformer_core::probes::{Hit, Player, SquishCheck};

fn constants() -> Constants {
    Constants {
        post_level_secs: 3,
        dash_force: 0,
        trick_time: 1000,
        squish_bounce_force: 250_000,
        character_sheet: "characters".to_string(),
        player_speed: 0,
        max_player_speed: 0,
        jump_force: 0,
        initial_jump_time: 500,
        grounded_threshold: 10_000,
        wall_threshold: 0,
    }
}

fn player() -> Player {
    Player {
        position: Point { x: 0, y: 100_000 },
        velocity: Velocity { x: 1_234, y: -40_000 },
        half_extents: Size { width: 8_000, height: 8_000 },
    }
}

fn squish_at(distance_below_feet: i64) -> SquishCheck {
    let mut squish = SquishCheck::new();
    squish.0.origin = Point { x: 0, y: 100_000 };
    squish.0.hits.push(Hit { entity: 42, time_of_impact: 8_000 + distance_below_feet });
    squish
}

#[test]
fn an_enemy_less_than_one_unit_below_is_squished() {
    let mut player = player();
    let mut deletions = DeleteManager::new();
    let tag =
        squish_enemy_below_player(&mut player, &squish_at(999), &constants(), &mut deletions);
    assert!(deletions.is_marked(42));
    assert_eq!(tag, Some(DeleteMe { entity: 42 }));
    assert_eq!(player.velocity, Velocity { x: 1_234, y: 210_000 });
    assert_eq!(player.position, Point { x: 0, y: 100_000 });
}

#[test]
fn an_enemy_exactly_one_unit_below_is_not_squished() {
    let mut player = player();
    let mut deletions = DeleteManager::new();
    let tag =
        squish_enemy_below_player(&mut player, &squish_at(1_000), &constants(), &mut deletions);
    assert!(!deletions.is_marked(42));
    assert_eq!(tag, None);
    assert_eq!(player.velocity, Velocity { x: 1_234, y: -40_000 });
}

#[test]
fn an_enemy_above_the_feet_is_squished() {
    let mut player = player();
    let mut deletions = DeleteManager::new();
    let tag =
        squish_enemy_below_player(&mut player, &squish_at(-3_000), &constants(), &mut deletions);
    assert_eq!(tag, Some(DeleteMe { entity: 42 }));
}

#[test]
fn without_a_hit_nothing_is_squished() {
    let mut player = player();
    let mut deletions = DeleteManager::new();
    let tag =
        squish_enemy_below_player(&mut player, &SquishCheck::new(), &constants(), &mut deletions);
    assert!(deletions.delete_me().is_empty());
    assert_eq!(tag, None);
    assert_eq!(player.velocity, Velocity { x: 1_234, y: -40_000 });
}

#[test]
fn the_nearest_enemy_is_the_one_that_is_squished() {
    let mut player = player();
    let mut squish = squish_at(5_000);
    squish.0.hits.push(Hit { entity: 7, time_of_impact: 8_500 });
    let mut deletions = DeleteManager::new();
    deletions.mark(DeleteMe { entity: 3 });
    let tag = squish_enemy_below_player(&mut player, &squish, &constants(), &mut deletions);
    assert!(deletions.is_marked(7));
    assert!(deletions.is_marked(3));
    assert!(!deletions.is_marked(42));
    assert_eq!(tag, Some(DeleteMe { entity: 7 }));
}

#[test]
fn the_bounce_stops_at_the_highest_speed() {
    let mut player = player();
    player.velocity.y = i64::MAX - 10;
    let mut deletions = DeleteManager::new();
    let tag = squish_enemy_below_player(&mut player, &squish_at(0), &constants(), &mut deletions);
    assert!(tag.is_some());
    assert_eq!(player.velocity.y, i64::MAX);
}

#[test]
fn tagging_twice_is_tagging_once() {
    let mut manager = DeleteManager::new();
    assert!(!manager.is_marked(42));
    manager.mark(DeleteMe { entity: 42 });
    manager.mark(DeleteMe { entity: 42 });
    manager.mark(DeleteMe { entity: 7 });
    assert!(manager.is_marked(42));
    assert!(manager.is_marked(7));
    assert!(!manager.is_marked(8));
    let mut doomed = manager.delete_me();
    doomed.sort();
    assert_eq!(doomed, vec![7, 42]);
}

#[test]
fn the_cleanup_pass_leaves_nothing_tagged() {
    let mut manager = DeleteManager::new();
    manager.mark(DeleteMe { entity: 1 });
    assert_eq!(manager.delete_me(), vec![1]);
    assert!(!manager.is_marked(1));
    assert!(manager.delete_me().is_empty());
}
