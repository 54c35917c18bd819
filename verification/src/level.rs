//! What a level is made of: the objects of its map, where the player and
//! the enemies start, where the checkpoints stand, and where the tiles lie.
//!
//! A map counts its rows downwards; the world's `y` grows upwards. So every
//! height that comes from a map is flipped on its way into the world.

use vstd::prelude::*;
use crate::checkpoint::{Checkpoint, CheckpointResource};
use crate::geometry::{clamp, saturate, Point, Size, UNIT};
use crate::scenes::LevelID;

verus! {

/// What can be wrong with a level.
#[derive(Clone, Copy, Debug, PartialEq, Eq, Structural)]
pub enum LevelError {
    /// No object of the map is tagged as the player's spawn point.
    MissingSpawnPoint,
    /// No tile sheet has the name of the character sheet.
    MissingCharacterSheet,
}

/// The outline of a map object.
#[derive(Clone, Copy, Debug, PartialEq, Eq, Structural)]
pub enum ObjectShape {
    Rect { width: i64, height: i64 },
    Other,
}

/// An object of a map's object layer, with the two tags that matter.
#[derive(Clone, Debug)]
pub struct MapObject {
    pub x: i64,
    /// Counted downwards, as the map does.
    pub y: i64,
    pub shape: ObjectShape,
    /// The text of the `spawn` tag, if the object has one.
    pub spawn: Option<String>,
    /// The text of the `checkpoint` tag, if the object has one.
    pub checkpoint: Option<String>,
}

/// The mathematical value of a [`MapObject`].
pub struct MapObjectView {
    pub x: i64,
    pub y: i64,
    pub shape: ObjectShape,
    pub spawn: Option<Seq<char>>,
    pub checkpoint: Option<Seq<char>>,
}

impl View for MapObject {
    type V = MapObjectView;

    open spec fn view(&self) -> MapObjectView {
        MapObjectView {
            x: self.x,
            y: self.y,
            shape: self.shape,
            spawn: match self.spawn {
                Some(text) => Some(text@),
                None => None,
            },
            checkpoint: match self.checkpoint {
                Some(text) => Some(text@),
                None => None,
            },
        }
    }
}

/// Something that stands in the world: where, how big, and in what colour
/// it is drawn where there is no picture of it.
#[derive(Clone, Debug)]
pub struct Object {
    pub position: Point,
    pub size: Size,
    pub color: String,
}

/// The mathematical value of an [`Object`].
pub struct ObjectView {
    pub position: Point,
    pub size: Size,
    pub color: Seq<char>,
}

impl View for Object {
    type V = ObjectView;

    open spec fn view(&self) -> ObjectView {
        ObjectView { position: self.position, size: self.size, color: self.color@ }
    }
}

/// The object that an entity of the world stands for.
#[derive(Clone, Debug)]
pub struct ObjectComponent(pub Object);

/// An enemy that stands in the world.
#[derive(Clone, Debug)]
pub struct Enemy(pub Object);

/// A piece of ground that bodies collide with.
#[derive(Clone, Debug)]
pub struct Platform(pub Object);

/// What a tile of the map puts into the world.
#[derive(Clone, Debug)]
pub enum Tile {
    /// Ground to stand on.
    Solid(Platform),
    /// A picture and nothing else.
    Scenery(Object),
}

/// The name of a tile sheet.
#[derive(Clone, Debug)]
pub struct TilesetName(pub String);

/// A height of the map as a height of the world.
pub open spec fn flipped(y: i64) -> i64 {
    clamp(-(y as int)) as i64
}

/// Computes [`flipped`].
pub fn flip(y: i64) -> (up: i64)
    ensures
        up == flipped(y),
{
    saturate(-(y as i128))
}

/// Where a map object stands in the world.
pub open spec fn world_position(object: MapObjectView) -> Point {
    Point { x: object.x, y: flipped(object.y) }
}

/// The values of a list of map objects, in order.
pub open spec fn object_views(objects: Seq<MapObject>) -> Seq<MapObjectView> {
    Seq::new(objects.len(), |i: int| objects[i]@)
}

/// The values of the object layers of a map, in order.
pub open spec fn layer_views(layers: Seq<Vec<MapObject>>) -> Seq<Seq<MapObjectView>> {
    Seq::new(layers.len(), |i: int| object_views(layers[i]@))
}

/// The values of a list of enemies, in order.
pub open spec fn enemy_views(placed: Seq<Enemy>) -> Seq<ObjectView> {
    Seq::new(placed.len(), |i: int| placed[i].0@)
}

/// Whether the object is the player's spawn point.
pub open spec fn is_player_spawn(object: MapObjectView) -> bool {
    object.spawn == Some("player"@)
}

/// Whether the object is the spawn point of an enemy.
pub open spec fn is_enemy_spawn(object: MapObjectView) -> bool {
    object.spawn == Some("enemy_1"@)
}

/// Whether the object is a checkpoint that ends the level: a rectangle
/// tagged as the checkpoint `end`.
pub open spec fn is_end_checkpoint(object: MapObjectView) -> bool {
    object.shape is Rect && object.checkpoint == Some("end"@)
}

/// Object `o` of layer `l` is the player's spawn point, and the first one:
/// no earlier layer holds one, and no earlier object of this layer is one.
pub open spec fn is_first_player_spawn(layers: Seq<Seq<MapObjectView>>, l: int, o: int) -> bool {
    &&& 0 <= l < layers.len()
    &&& 0 <= o < layers[l].len()
    &&& is_player_spawn(layers[l][o])
    &&& forall|p: int| 0 <= p < o ==> !is_player_spawn(#[trigger] layers[l][p])
    &&& forall|k: int, p: int|
        0 <= k < l && 0 <= p < layers[k].len() ==> !is_player_spawn(#[trigger] layers[k][p])
}

/// No object of any layer is the player's spawn point.
pub open spec fn no_player_spawn(layers: Seq<Seq<MapObjectView>>) -> bool {
    forall|k: int, p: int|
        0 <= k < layers.len() && 0 <= p < layers[k].len() ==> !is_player_spawn(
            #[trigger] layers[k][p],
        )
}

/// Whether a tag is there and reads `text`.
pub fn tag_reads(tag: &Option<String>, text: &str) -> (reads: bool)
    ensures
        reads == match *tag {
            Some(value) => value@ == text@,
            None => false,
        },
{
    match tag {
        Some(value) => {
            let wanted = String::from_str(text);
            *value == wanted
        },
        None => false,
    }
}

/// The first object of a layer that is the player's spawn point.
pub fn find_spawn_in_layer(objects: &Vec<MapObject>) -> (found: Option<usize>)
    ensures
        match found {
            Some(o) => {
                &&& o < objects.len()
                &&& is_player_spawn(objects@[o as int]@)
                &&& forall|p: int| 0 <= p < o ==> !is_player_spawn(#[trigger] objects@[p]@)
            },
            None => forall|p: int| 0 <= p < objects.len() ==> !is_player_spawn(#[trigger] objects@[p]@),
        },
{
    let mut i: usize = 0;
    while i < objects.len()
        invariant
            i <= objects.len(),
            forall|p: int| 0 <= p < i ==> !is_player_spawn(#[trigger] objects@[p]@),
        decreases objects.len() - i,
    {
        if tag_reads(&objects[i].spawn, "player") {
            return Some(i);
        }
        i += 1;
    }
    None
}

/// Where the player starts: the place of the first object, layer by layer,
/// that is tagged as the player's spawn point. A map without one is refused.
pub fn find_player_spawn(layers: &Vec<Vec<MapObject>>) -> (spawn: Result<Point, LevelError>)
    ensures
        match spawn {
            Ok(point) => exists|l: int, o: int|
                is_first_player_spawn(layer_views(layers@), l, o) && point == world_position(
                    #[trigger] layer_views(layers@)[l][o],
                ),
            Err(error) => error == LevelError::MissingSpawnPoint && no_player_spawn(
                layer_views(layers@),
            ),
        },
{
    let ghost all = layer_views(layers@);
    let mut l: usize = 0;
    while l < layers.len()
        invariant
            all == layer_views(layers@),
            l <= layers.len(),
            forall|k: int, p: int|
                0 <= k < l && 0 <= p < all[k].len() ==> !is_player_spawn(#[trigger] all[k][p]),
        decreases layers.len() - l,
    {
        let layer = &layers[l];
        assert(all[l as int] == object_views(layer@));
        match find_spawn_in_layer(layer) {
            Some(o) => {
                let object = &layer[o];
                let point = Point { x: object.x, y: flip(object.y) };
                proof {
                    assert(all[l as int][o as int] == object@);
                    assert forall|p: int| 0 <= p < o implies !is_player_spawn(
                        #[trigger] all[l as int][p],
                    ) by {
                        assert(all[l as int][p] == layer@[p]@);
                    }
                    assert(is_first_player_spawn(all, l as int, o as int));
                }
                return Ok(point);
            },
            None => {
                proof {
                    assert forall|p: int| 0 <= p < all[l as int].len() implies !is_player_spawn(
                        #[trigger] all[l as int][p],
                    ) by {
                        assert(all[l as int][p] == layer@[p]@);
                    }
                }
            },
        }
        l += 1;
    }
    Err(LevelError::MissingSpawnPoint)
}

/// There is only one first spawn point.
pub proof fn lemma_first_player_spawn_unique(
    layers: Seq<Seq<MapObjectView>>,
    l1: int,
    o1: int,
    l2: int,
    o2: int,
)
    requires
        is_first_player_spawn(layers, l1, o1),
        is_first_player_spawn(layers, l2, o2),
    ensures
        l1 == l2,
        o1 == o2,
{
    if l1 < l2 {
        assert(!is_player_spawn(layers[l1][o1]));
    } else if l2 < l1 {
        assert(!is_player_spawn(layers[l2][o2]));
    } else if o1 < o2 {
        assert(!is_player_spawn(layers[l1][o1]));
    } else if o2 < o1 {
        assert(!is_player_spawn(layers[l2][o2]));
    }
}

/// The colour in which an object without a picture is drawn.
pub open spec fn marker_color() -> Seq<char> {
    "#ff0000"@
}

/// The checkpoint that a map object stands for.
pub open spec fn checkpoint_object(object: MapObjectView) -> ObjectView {
    ObjectView {
        position: world_position(object),
        size: Size { width: object.shape->width, height: object.shape->height },
        color: marker_color(),
    }
}

/// The enemy of the given size that a map object stands for.
pub open spec fn enemy_object(object: MapObjectView, size: Size) -> ObjectView {
    ObjectView { position: world_position(object), size, color: marker_color() }
}

/// The checkpoints of a layer, in the order of its objects.
pub open spec fn end_checkpoints(objects: Seq<MapObjectView>) -> Seq<ObjectView>
    decreases objects.len(),
{
    if objects.len() == 0 {
        Seq::empty()
    } else {
        let earlier = end_checkpoints(objects.drop_last());
        if is_end_checkpoint(objects.last()) {
            earlier.push(checkpoint_object(objects.last()))
        } else {
            earlier
        }
    }
}

/// The enemies of a layer, in the order of its objects.
pub open spec fn enemies(objects: Seq<MapObjectView>, size: Size) -> Seq<ObjectView>
    decreases objects.len(),
{
    if objects.len() == 0 {
        Seq::empty()
    } else {
        let earlier = enemies(objects.drop_last(), size);
        if is_enemy_spawn(objects.last()) {
            earlier.push(enemy_object(objects.last(), size))
        } else {
            earlier
        }
    }
}

/// The checkpoints that a layer of the map puts into the world: one for
/// each rectangle tagged as the checkpoint `end`, where the rectangle is.
pub fn initialize_checkmarks(objects: &Vec<MapObject>) -> (placed: Vec<(Object, CheckpointResource)>)
    ensures
        placed@.len() == end_checkpoints(object_views(objects@)).len(),
        forall|i: int|
            0 <= i < placed@.len() ==> (#[trigger] placed@[i]).0@ == end_checkpoints(
                object_views(objects@),
            )[i] && placed@[i].1 == CheckpointResource(Checkpoint::End),
{
    let ghost all = object_views(objects@);
    let mut placed: Vec<(Object, CheckpointResource)> = Vec::new();
    let mut i: usize = 0;
    while i < objects.len()
        invariant
            all == object_views(objects@),
            i <= objects.len(),
            placed@.len() == end_checkpoints(all.take(i as int)).len(),
            forall|k: int|
                0 <= k < placed@.len() ==> (#[trigger] placed@[k]).0@ == end_checkpoints(
                    all.take(i as int),
                )[k] && placed@[k].1 == CheckpointResource(Checkpoint::End),
        decreases objects.len() - i,
    {
        proof {
            assert(all.take(i + 1).drop_last() =~= all.take(i as int));
            assert(all.take(i + 1).last() == objects@[i as int]@);
        }
        let object = &objects[i];
        match object.shape {
            ObjectShape::Rect { width, height } => {
                if tag_reads(&object.checkpoint, "end") {
                    placed.push(
                        (
                            Object {
                                position: Point { x: object.x, y: flip(object.y) },
                                size: Size { width, height },
                                color: String::from_str("#ff0000"),
                            },
                            CheckpointResource(Checkpoint::End),
                        ),
                    );
                }
            },
            ObjectShape::Other => {},
        }
        i += 1;
    }
    proof {
        assert(all.take(i as int) =~= all);
    }
    placed
}

/// The enemies that a layer of the map puts into the world: one of the
/// given size for each object tagged as the spawn point `enemy_1`.
pub fn initialize_enemy_spawns(objects: &Vec<MapObject>, size: Size) -> (placed: Vec<Enemy>)
    ensures
        enemy_views(placed@) == enemies(object_views(objects@), size),
{
    let ghost all = object_views(objects@);
    let mut placed: Vec<Enemy> = Vec::new();
    let mut i: usize = 0;
    while i < objects.len()
        invariant
            all == object_views(objects@),
            i <= objects.len(),
            enemy_views(placed@) == enemies(all.take(i as int), size),
        decreases objects.len() - i,
    {
        proof {
            assert(all.take(i + 1).drop_last() =~= all.take(i as int));
            assert(all.take(i + 1).last() == objects@[i as int]@);
        }
        let object = &objects[i];
        if tag_reads(&object.spawn, "enemy_1") {
            let ghost before = enemy_views(placed@);
            let enemy = Enemy(
                Object {
                    position: Point { x: object.x, y: flip(object.y) },
                    size,
                    color: String::from_str("#ff0000"),
                },
            );
            placed.push(enemy);
            assert(enemy_views(placed@) =~= before.push(enemy_object(object@, size)));
        }
        i += 1;
    }
    proof {
        assert(all.take(i as int) =~= all);
    }
    placed
}

/// The first tile sheet of the given name.
pub fn find_tileset(names: &Vec<TilesetName>, wanted: &String) -> (found: Result<usize, LevelError>)
    ensures
        match found {
            Ok(i) => {
                &&& i < names.len()
                &&& names@[i as int].0@ == wanted@
                &&& forall|k: int| 0 <= k < i ==> (#[trigger] names@[k]).0@ != wanted@
            },
            Err(error) => {
                &&& error == LevelError::MissingCharacterSheet
                &&& forall|k: int| 0 <= k < names.len() ==> (#[trigger] names@[k]).0@ != wanted@
            },
        },
{
    let mut i: usize = 0;
    while i < names.len()
        invariant
            i <= names.len(),
            forall|k: int| 0 <= k < i ==> (#[trigger] names@[k]).0@ != wanted@,
        decreases names.len() - i,
    {
        if names[i].0 == *wanted {
            return Ok(i);
        }
        i += 1;
    }
    Err(LevelError::MissingCharacterSheet)
}

/// Where the tile in column `col` and row `row` lies in the world, for
/// tiles of the given size in whole units.
pub open spec fn tile_origin(col: u32, row: u32, tile_width: u32, tile_height: u32) -> Point {
    Point {
        x: clamp(col * tile_width * UNIT) as i64,
        y: clamp(-(row * tile_height * UNIT)) as i64,
    }
}

/// Computes [`tile_origin`].
pub fn tile_position(col: u32, row: u32, tile_width: u32, tile_height: u32) -> (origin: Point)
    ensures
        origin == tile_origin(col, row, tile_width, tile_height),
{
    assert(col as int * tile_width as int <= 0xffff_ffff * 0xffff_ffff) by (nonlinear_arith)
        requires
            0 <= col <= 0xffff_ffff,
            0 <= tile_width <= 0xffff_ffff,
    ;
    assert(row as int * tile_height as int <= 0xffff_ffff * 0xffff_ffff) by (nonlinear_arith)
        requires
            0 <= row <= 0xffff_ffff,
            0 <= tile_height <= 0xffff_ffff,
    ;
    let across: i128 = col as i128 * tile_width as i128;
    let down: i128 = row as i128 * tile_height as i128;
    let unit: i128 = UNIT as i128;
    assert(unit == 1000);
    assert(across <= 0xffff_ffff * 0xffff_ffff && down <= 0xffff_ffff * 0xffff_ffff);
    Point { x: saturate(across * unit), y: saturate(-(down * unit)) }
}

/// The number of rows of a tile sheet with `tilecount` tiles in `columns`
/// columns. A sheet without columns has no rows to speak of.
pub fn atlas_rows(tilecount: u32, columns: u32) -> (rows: Option<u32>)
    ensures
        match rows {
            Some(rows) => columns > 0 && rows == tilecount / columns,
            None => columns == 0,
        },
{
    if columns == 0 {
        None
    } else {
        Some(tilecount / columns)
    }
}

/// The size of a tile in the world, for tiles of the given size in whole units.
pub open spec fn tile_extent(tile_width: u32, tile_height: u32) -> Size {
    Size { width: (tile_width * UNIT) as i64, height: (tile_height * UNIT) as i64 }
}

/// What a tile is in the world, as a mathematical value: solid or not, and
/// the object it stands for.
pub struct TileView {
    pub solid: bool,
    pub object: ObjectView,
}

impl View for Tile {
    type V = TileView;

    open spec fn view(&self) -> TileView {
        match *self {
            Tile::Solid(platform) => TileView { solid: true, object: platform.0@ },
            Tile::Scenery(object) => TileView { solid: false, object: object@ },
        }
    }
}

/// The values of a list of tiles, in order.
pub open spec fn tile_views(tiles: Seq<Tile>) -> Seq<TileView> {
    Seq::new(tiles.len(), |i: int| tiles[i]@)
}

/// The platforms that the collision shapes of a tile make at `origin`: one
/// for each rectangle, of the rectangle's size, in the order of the shapes.
pub open spec fn platforms(shapes: Seq<ObjectShape>, origin: Point) -> Seq<TileView>
    decreases shapes.len(),
{
    if shapes.len() == 0 {
        Seq::empty()
    } else {
        let earlier = platforms(shapes.drop_last(), origin);
        match shapes.last() {
            ObjectShape::Rect { width, height } => earlier.push(
                TileView {
                    solid: true,
                    object: ObjectView {
                        position: origin,
                        size: Size { width, height },
                        color: marker_color(),
                    },
                },
            ),
            ObjectShape::Other => earlier,
        }
    }
}

/// What the tile at `origin` puts into the world. A tile without collision
/// shapes is scenery of the size of a tile; a tile with collision shapes
/// makes the platforms of its rectangles.
pub open spec fn tile_entities(
    origin: Point,
    extent: Size,
    collision: Option<Seq<ObjectShape>>,
) -> Seq<TileView> {
    match collision {
        Some(shapes) => platforms(shapes, origin),
        None => seq![
            TileView {
                solid: false,
                object: ObjectView { position: origin, size: extent, color: marker_color() },
            },
        ],
    }
}

/// Puts one tile of the map into the world: the tile in column `col` and
/// row `row`, for tiles of the given size in whole units, with the
/// collision shapes that the tile sheet gives it, if it gives any.
pub fn initialize_map_collisions(
    col: u32,
    row: u32,
    tile_width: u32,
    tile_height: u32,
    collision: Option<&Vec<ObjectShape>>,
) -> (placed: Vec<Tile>)
    ensures
        tile_views(placed@) == tile_entities(
            tile_origin(col, row, tile_width, tile_height),
            tile_extent(tile_width, tile_height),
            match collision {
                Some(shapes) => Some(shapes@),
                None => None,
            },
        ),
{
    let origin = tile_position(col, row, tile_width, tile_height);
    let mut placed: Vec<Tile> = Vec::new();
    match collision {
        Some(shapes) => {
            let mut i: usize = 0;
            while i < shapes.len()
                invariant
                    i <= shapes.len(),
                    tile_views(placed@) == platforms(shapes@.take(i as int), origin),
                decreases shapes.len() - i,
            {
                proof {
                    assert(shapes@.take(i + 1).drop_last() =~= shapes@.take(i as int));
                    assert(shapes@.take(i + 1).last() == shapes@[i as int]);
                }
                match shapes[i] {
                    ObjectShape::Rect { width, height } => {
                        let ghost before = tile_views(placed@);
                        let tile = Tile::Solid(
                            Platform(
                                Object {
                                    position: origin,
                                    size: Size { width, height },
                                    color: String::from_str("#ff0000"),
                                },
                            ),
                        );
                        placed.push(tile);
                        assert(tile_views(placed@) =~= before.push(tile@));
                    },
                    ObjectShape::Other => {},
                }
                i += 1;
            }
            proof {
                assert(shapes@.take(i as int) =~= shapes@);
            }
        },
        None => {
            let unit: i64 = UNIT;
            assert(unit == 1000);
            let tile = Tile::Scenery(
                Object {
                    position: origin,
                    size: Size {
                        width: tile_width as i64 * unit,
                        height: tile_height as i64 * unit,
                    },
                    color: String::from_str("#ff0000"),
                },
            );
            placed.push(tile);
            assert(tile_views(placed@) =~= seq![tile@]);
        },
    }
    placed
}

/// `word` stands in `text` at place `i`.
pub open spec fn occurs_at(text: Seq<char>, word: Seq<char>, i: int) -> bool {
    0 <= i && i + word.len() <= text.len() && text.subrange(i, i + word.len()) == word
}

/// Place `i` is the first at or after `from` at which `word` stands in `text`.
pub open spec fn next_occurrence(text: Seq<char>, word: Seq<char>, from: int, i: int) -> bool {
    &&& from <= i
    &&& occurs_at(text, word, i)
    &&& forall|j: int| from <= j < i ==> !occurs_at(text, word, j)
}

/// There is only one next occurrence.
pub proof fn lemma_next_occurrence_unique(
    text: Seq<char>,
    word: Seq<char>,
    from: int,
    i: int,
    j: int,
)
    requires
        next_occurrence(text, word, from, i),
        next_occurrence(text, word, from, j),
    ensures
        i == j,
{
}

/// The piece of `text` between the first occurrence of `word` and the one
/// after it, or the end of the text where `word` does not occur again.
/// There is no such piece where `word` does not occur at all.
pub open spec fn piece_after(text: Seq<char>, word: Seq<char>) -> Option<Seq<char>> {
    if exists|i: int| next_occurrence(text, word, 0, i) {
        let first = choose|i: int| next_occurrence(text, word, 0, i);
        let start = first + word.len();
        if exists|j: int| next_occurrence(text, word, start, j) {
            Some(text.subrange(start, choose|j: int| next_occurrence(text, word, start, j)))
        } else {
            Some(text.subrange(start, text.len() as int))
        }
    } else {
        None
    }
}

/// Whether `word` stands in `text` at place `i`.
pub fn word_at(text: &str, word: &str, i: usize) -> (found: bool)
    ensures
        found == occurs_at(text@, word@, i as int),
{
    let n = text.unicode_len();
    let m = word.unicode_len();
    if i > n || m > n - i {
        return false;
    }
    let mut k: usize = 0;
    while k < m
        invariant
            n == text@.len(),
            m == word@.len(),
            i + m <= n,
            k <= m,
            forall|t: int| 0 <= t < k ==> text@[i + t] == word@[t],
        decreases m - k,
    {
        if text.get_char(i + k) != word.get_char(k) {
            assert(text@.subrange(i as int, i + m)[k as int] == text@[i + k]);
            return false;
        }
        k += 1;
    }
    assert(text@.subrange(i as int, i + m) =~= word@);
    true
}

/// The first place at or after `from` at which `word` stands in `text`.
pub fn find_word(text: &str, word: &str, from: usize) -> (found: Option<usize>)
    ensures
        match found {
            Some(i) => next_occurrence(text@, word@, from as int, i as int),
            None => forall|j: int| from <= j ==> !occurs_at(text@, word@, j),
        },
{
    let n = text.unicode_len();
    let mut i: usize = from;
    while i < n
        invariant
            n == text@.len(),
            from <= i,
            forall|j: int| from <= j < i ==> !occurs_at(text@, word@, j),
        decreases n - i,
    {
        if word_at(text, word, i) {
            return Some(i);
        }
        i += 1;
    }
    if i == n && word_at(text, word, n) {
        return Some(n);
    }
    None
}

/// Where a picture lies as the game loads it: the piece of the path that
/// follows the folder `assets`, with a dot in front. A path that does not
/// lead through `assets` has no such place.
pub fn asset_path(source: &str) -> (path: Option<String>)
    ensures
        match path {
            Some(path) => piece_after(source@, "assets"@) matches Some(piece) && path@ == seq![
                '.',
            ] + piece,
            None => piece_after(source@, "assets"@) is None,
        },
{
    let word = "assets";
    proof {
        reveal_strlit("assets");
        reveal_strlit(".");
    }
    let n = source.unicode_len();
    let first = match find_word(source, word, 0) {
        Some(first) => first,
        None => {
            return None;
        },
    };
    let start = first + word.unicode_len();
    proof {
        let c = choose|i: int| next_occurrence(source@, word@, 0, i);
        lemma_next_occurrence_unique(source@, word@, 0, first as int, c);
    }
    let end = match find_word(source, word, start) {
        Some(second) => {
            proof {
                let c = choose|j: int| next_occurrence(source@, word@, start as int, j);
                lemma_next_occurrence_unique(source@, word@, start as int, second as int, c);
            }
            second
        },
        None => n,
    };
    let piece = source.substring_char(start, end);
    let mut path = String::from_str(".");
    path.append(piece);
    assert(path@ =~= seq!['.'] + piece@);
    Some(path)
}

/// The file of a level as the game loads it: the level's name inside the
/// folder `assets`.
pub fn level_path(level: &LevelID) -> (path: String)
    ensures
        path@ == "./assets/"@ + level.0@,
{
    let mut path = String::from_str("./assets/");
    path.append(level.0.as_str());
    path
}

} // verus!
