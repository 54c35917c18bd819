use platformer_core::checkpoint::{Checkpoint, CheckpointResource};
use platformer_core::geometry::{Point, Size};
use platformer_core::level::{
    asset_path, atlas_rows, find_player_spawn, find_spawn_in_layer, find_tileset, find_word, flip,
    initialize_checkmarks, initialize_enemy_spawns, initialize_map_collisions, level_path,
    tag_reads, tile_position, word_at, LevelError, MapObject, ObjectShape, Tile, TilesetName,
};
use platformer_core::scenes::LevelID;

fn object(x: i64, y: i64, spawn: Option<&str>, checkpoint: Option<&str>) -> MapObject {
    MapObject {
        x,
        y,
        shape: ObjectShape::Rect { width: 16_000, height: 32_000 },
        spawn: spawn.map(|s| s.to_string()),
        checkpoint: checkpoint.map(|s| s.to_string()),
    }
}

#[test]
fn heights_are_flipped_on_the_way_into_the_world() {
    assert_eq!(flip(5), -5);
    assert_eq!(flip(-5), 5);
    assert_eq!(flip(0), 0);
    assert_eq!(flip(i64::MAX), -i64::MAX);
    assert_eq!(flip(i64::MIN), i64::MAX);
}

#[test]
fn a_tag_reads_its_text_exactly() {
    assert!(tag_reads(&Some("player".to_string()), "player"));
    assert!(!tag_reads(&Some("players".to_string()), "player"));
    assert!(!tag_reads(&Some("Player".to_string()), "player"));
    assert!(!tag_reads(&None, "player"));
}

#[test]
fn the_player_spawns_at_the_first_tagged_object() {
    let layers = vec![
        vec![object(1, 1, None, None), object(2, 2, Some("enemy_1"), None)],
        vec![],
        vec![
            object(3, 3, Some("enemy_1"), None),
            object(40_000, 70_000, Some("player"), None),
            object(5, 5, Some("player"), None),
        ],
        vec![object(6, 6, Some("player"), None)],
    ];
    assert_eq!(find_player_spawn(&layers), Ok(Point { x: 40_000, y: -70_000 }));
    assert_eq!(find_spawn_in_layer(&layers[0]), None);
    assert_eq!(find_spawn_in_layer(&layers[2]), Some(1));
}

#[test]
fn a_map_without_a_player_spawn_is_refused() {
    let layers = vec![vec![object(1, 1, None, Some("player")), object(2, 2, Some("enemy_1"), None)]];
    assert_eq!(find_player_spawn(&layers), Err(LevelError::MissingSpawnPoint));
    assert_eq!(find_player_spawn(&vec![]), Err(LevelError::MissingSpawnPoint));
}

#[test]
fn end_checkpoints_are_placed_where_their_rectangles_are() {
    let mut round = object(9, 9, None, Some("end"));
    round.shape = ObjectShape::Other;
    let objects = vec![
        object(1_000, 2_000, None, Some("end")),
        object(3, 3, None, Some("start")),
        round,
        object(4, 4, Some("player"), None),
        object(-5_000, -6_000, Some("enemy_1"), Some("end")),
    ];
    let placed = initialize_checkmarks(&objects);
    assert_eq!(placed.len(), 2);
    assert_eq!(placed[0].0.position, Point { x: 1_000, y: -2_000 });
    assert_eq!(placed[0].0.size, Size { width: 16_000, height: 32_000 });
    assert_eq!(placed[0].0.color, "#ff0000");
    assert_eq!(placed[0].1, CheckpointResource(Checkpoint::End));
    assert_eq!(placed[1].0.position, Point { x: -5_000, y: 6_000 });
    assert_eq!(placed[1].1, CheckpointResource(Checkpoint::End));
}

#[test]
fn enemies_are_placed_at_their_spawn_points() {
    let size = Size { width: 24_000, height: 24_000 };
    let objects = vec![
        object(1_000, 2_000, Some("enemy_1"), None),
        object(3, 3, Some("enemy_2"), None),
        object(4, 4, Some("player"), None),
        object(-5_000, -6_000, Some("enemy_1"), Some("end")),
    ];
    let placed = initialize_enemy_spawns(&objects, size);
    assert_eq!(placed.len(), 2);
    assert_eq!(placed[0].0.position, Point { x: 1_000, y: -2_000 });
    assert_eq!(placed[0].0.size, size);
    assert_eq!(placed[0].0.color, "#ff0000");
    assert_eq!(placed[1].0.position, Point { x: -5_000, y: 6_000 });
    assert!(initialize_enemy_spawns(&vec![], size).is_empty());
}

#[test]
fn the_character_sheet_is_found_by_name() {
    let names = vec![
        TilesetName("tiles".to_string()),
        TilesetName("characters".to_string()),
        TilesetName("characters".to_string()),
    ];
    assert_eq!(find_tileset(&names, &"characters".to_string()), Ok(1));
    assert_eq!(find_tileset(&names, &"tiles".to_string()), Ok(0));
    assert_eq!(find_tileset(&names, &"fonts".to_string()), Err(LevelError::MissingCharacterSheet));
    assert_eq!(find_tileset(&vec![], &"tiles".to_string()), Err(LevelError::MissingCharacterSheet));
}

#[test]
fn tiles_lie_on_a_grid_that_grows_downwards() {
    assert_eq!(tile_position(0, 0, 16, 16), Point { x: 0, y: 0 });
    assert_eq!(tile_position(3, 2, 16, 24), Point { x: 48_000, y: -48_000 });
    assert_eq!(
        tile_position(u32::MAX, u32::MAX, u32::MAX, u32::MAX),
        Point { x: i64::MAX, y: i64::MIN }
    );
}

#[test]
fn the_rows_of_a_tile_sheet() {
    assert_eq!(atlas_rows(40, 8), Some(5));
    assert_eq!(atlas_rows(41, 8), Some(5));
    assert_eq!(atlas_rows(0, 8), Some(0));
    assert_eq!(atlas_rows(40, 0), None);
}

#[test]
fn a_tile_without_collision_shapes_is_scenery() {
    let placed = initialize_map_collisions(3, 2, 16, 24, None);
    assert_eq!(placed.len(), 1);
    match &placed[0] {
        Tile::Scenery(object) => {
            assert_eq!(object.position, Point { x: 48_000, y: -48_000 });
            assert_eq!(object.size, Size { width: 16_000, height: 24_000 });
            assert_eq!(object.color, "#ff0000");
        },
        Tile::Solid(_) => panic!("scenery expected"),
    }
}

#[test]
fn a_tile_with_collision_shapes_makes_a_platform_for_each_rectangle() {
    let shapes = vec![
        ObjectShape::Rect { width: 16_000, height: 8_000 },
        ObjectShape::Other,
        ObjectShape::Rect { width: 4_000, height: 4_000 },
    ];
    let placed = initialize_map_collisions(1, 1, 16, 16, Some(&shapes));
    assert_eq!(placed.len(), 2);
    match (&placed[0], &placed[1]) {
        (Tile::Solid(first), Tile::Solid(second)) => {
            assert_eq!(first.0.position, Point { x: 16_000, y: -16_000 });
            assert_eq!(first.0.size, Size { width: 16_000, height: 8_000 });
            assert_eq!(second.0.position, Point { x: 16_000, y: -16_000 });
            assert_eq!(second.0.size, Size { width: 4_000, height: 4_000 });
        },
        _ => panic!("platforms expected"),
    }
    assert!(initialize_map_collisions(1, 1, 16, 16, Some(&vec![ObjectShape::Other])).is_empty());
    assert!(initialize_map_collisions(1, 1, 16, 16, Some(&vec![])).is_empty());
}

#[test]
fn a_word_is_found_where_it_stands() {
    assert!(word_at("my assets", "assets", 3));
    assert!(!word_at("my assets", "assets", 2));
    assert!(!word_at("my assets", "assets", 4));
    assert!(!word_at("my assets", "assets", 100));
    assert!(word_at("abc", "", 3));
    assert!(!word_at("abc", "", 4));
    assert_eq!(find_word("my assets, your assets", "assets", 0), Some(3));
    assert_eq!(find_word("my assets, your assets", "assets", 4), Some(16));
    assert_eq!(find_word("my assets, your assets", "assets", 17), None);
    assert_eq!(find_word("my assets", "asset ", 0), None);
    assert_eq!(find_word("abc", "", 3), Some(3));
    assert_eq!(find_word("abc", "", 4), None);
    assert_eq!(find_word("h\u{e9}llo assets", "assets", 0), Some(6));
}

#[test]
fn a_picture_is_loaded_from_below_the_assets_folder() {
    assert_eq!(asset_path("/home/me/game/assets/tiles/ground.png"), Some("./tiles/ground.png".to_string()));
    assert_eq!(asset_path("assets/characters.png"), Some("./characters.png".to_string()));
    assert_eq!(asset_path("game/assets"), Some(".".to_string()));
    assert_eq!(asset_path("a/assets/b/assets/c.png"), Some("./b/".to_string()));
    assert_eq!(asset_path("/home/me/game/tiles/ground.png"), None);
    assert_eq!(asset_path(""), None);
}

#[test]
fn a_level_is_loaded_from_the_assets_folder() {
    assert_eq!(level_path(&LevelID("jumping.tmx".to_string())), "./assets/jumping.tmx");
    assert_eq!(level_path(&LevelID("".to_string())), "./assets/");
}
