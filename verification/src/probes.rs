//! The player and the probes that feel the world around it.
//!
//! A probe is a ray or a swept shape fixed to the player. Every tick the
//! probes are first moved to where the player is, then the physics engine
//! fills in what each probe hit, and only then is anything read from them.

use vstd::prelude::*;
use crate::geometry::{clamp, saturate, Point, Size, Velocity, UNIT};

verus! {

/// The collision layers of the world.
#[derive(Clone, Copy, Debug, PartialEq, Eq, Hash, Structural)]
pub enum Layers {
    Checkpoint,
    Player,
    Enemy,
    Ground,
}

/// The direction a probe looks in.
#[derive(Clone, Copy, Debug, PartialEq, Eq, Structural)]
pub enum Direction {
    Down,
    Left,
    Right,
}

impl Direction {
    /// The x component of the unit vector.
    pub open spec fn dx(self) -> int {
        match self {
            Direction::Down => 0,
            Direction::Left => -1,
            Direction::Right => 1,
        }
    }

    /// The y component of the unit vector.
    pub open spec fn dy(self) -> int {
        match self {
            Direction::Down => -1,
            Direction::Left => 0,
            Direction::Right => 0,
        }
    }
}

/// One intersection of a probe with the world.
#[derive(Clone, Copy, Debug, PartialEq, Eq, Structural)]
pub struct Hit {
    /// The entity that was hit.
    pub entity: u64,
    /// How far along the probe's direction the hit lies, in sub-units.
    pub time_of_impact: i64,
}

/// Hit `i` is the nearest one: none lies nearer, and those before it lie farther.
pub open spec fn is_nearest(hits: Seq<Hit>, i: int) -> bool {
    &&& 0 <= i < hits.len()
    &&& forall|j: int| 0 <= j < hits.len() ==> hits[i].time_of_impact <= (#[trigger] hits[j]).time_of_impact
    &&& forall|j: int| 0 <= j < i ==> hits[i].time_of_impact < (#[trigger] hits[j]).time_of_impact
}

/// The nearest hit, the earliest of them where several are equally near.
pub open spec fn nearest_hit(hits: Seq<Hit>) -> Option<Hit> {
    if hits.len() == 0 {
        None
    } else {
        Some(hits[choose|i: int| is_nearest(hits, i)])
    }
}

/// Only one hit can be the nearest.
pub proof fn lemma_nearest_unique(hits: Seq<Hit>, i: int, j: int)
    requires
        is_nearest(hits, i),
        is_nearest(hits, j),
    ensures
        i == j,
{
    if i < j {
        assert(hits[j].time_of_impact < hits[i].time_of_impact);
    } else if j < i {
        assert(hits[i].time_of_impact < hits[j].time_of_impact);
    }
}

/// A probe as a mathematical value.
pub struct ProbeView {
    pub origin: Point,
    pub direction: Direction,
    pub mask: Layers,
    pub hits: Seq<Hit>,
}

impl ProbeView {
    /// Where the nearest hit lies in the world, as `(x, y)`.
    pub open spec fn hit_point(self) -> Option<(int, int)> {
        match nearest_hit(self.hits) {
            Some(hit) => Some(
                (
                    self.origin.x + self.direction.dx() * hit.time_of_impact,
                    self.origin.y + self.direction.dy() * hit.time_of_impact,
                ),
            ),
            None => None,
        }
    }

    /// The same probe moved to `origin`.
    pub open spec fn moved_to(self, origin: Point) -> ProbeView {
        ProbeView { origin, ..self }
    }
}

/// A ray or swept shape: where it starts, where it looks, which layer it
/// may hit, and what it hit this tick.
#[derive(Clone, Debug)]
pub struct Probe {
    pub origin: Point,
    pub direction: Direction,
    pub mask: Layers,
    pub hits: Vec<Hit>,
}

impl View for Probe {
    type V = ProbeView;

    open spec fn view(&self) -> ProbeView {
        ProbeView {
            origin: self.origin,
            direction: self.direction,
            mask: self.mask,
            hits: self.hits@,
        }
    }
}

impl Probe {
    /// The value of a probe at the world's origin that has hit nothing yet.
    pub open spec fn new_view(direction: Direction, mask: Layers) -> ProbeView {
        ProbeView { origin: Point { x: 0, y: 0 }, direction, mask, hits: Seq::<Hit>::empty() }
    }

    /// A probe at the world's origin that has hit nothing yet.
    pub fn new(direction: Direction, mask: Layers) -> (probe: Probe)
        ensures
            probe@ == Probe::new_view(direction, mask),
    {
        Probe { origin: Point { x: 0, y: 0 }, direction, mask, hits: Vec::new() }
    }

    /// The nearest hit of this tick.
    pub fn nearest(&self) -> (found: Option<Hit>)
        ensures
            found == nearest_hit(self.hits@),
    {
        if self.hits.len() == 0 {
            return None;
        }
        let mut best: usize = 0;
        let mut i: usize = 1;
        while i < self.hits.len()
            invariant
                0 <= best < i <= self.hits.len(),
                forall|j: int|
                    0 <= j < i ==> self.hits@[best as int].time_of_impact <= (
                    #[trigger] self.hits@[j]).time_of_impact,
                forall|j: int|
                    0 <= j < best ==> self.hits@[best as int].time_of_impact < (
                    #[trigger] self.hits@[j]).time_of_impact,
            decreases self.hits.len() - i,
        {
            if self.hits[i].time_of_impact < self.hits[best].time_of_impact {
                best = i;
            }
            i += 1;
        }
        proof {
            assert(is_nearest(self.hits@, best as int));
            let k = choose|k: int| is_nearest(self.hits@, k);
            lemma_nearest_unique(self.hits@, best as int, k);
        }
        Some(self.hits[best])
    }

    /// Where the nearest hit lies in the world.
    pub fn hit_point(&self) -> (point: Option<(i128, i128)>)
        ensures
            match point {
                Some((x, y)) => self@.hit_point() == Some((x as int, y as int)),
                None => self@.hit_point() is None,
            },
    {
        match self.nearest() {
            Some(hit) => {
                let toi = hit.time_of_impact as i128;
                let point = match self.direction {
                    Direction::Down => (self.origin.x as i128, self.origin.y as i128 - toi),
                    Direction::Left => (self.origin.x as i128 - toi, self.origin.y as i128),
                    Direction::Right => (self.origin.x as i128 + toi, self.origin.y as i128),
                };
                Some(point)
            },
            None => None,
        }
    }
}

/// The player's body: where it is, how fast it moves and how big it is.
#[derive(Clone, Copy, Debug, PartialEq, Eq, Structural)]
pub struct Player {
    pub position: Point,
    pub velocity: Velocity,
    pub half_extents: Size,
}

impl Player {
    /// The height of the player's feet.
    pub open spec fn bottom_edge(self) -> int {
        self.position.y - self.half_extents.height
    }

    /// The x coordinate from which the distance to a wall on the left is taken.
    pub open spec fn left_reference(self) -> int {
        self.position.x + self.half_extents.width
    }

    /// The x coordinate from which the distance to a wall on the right is taken.
    pub open spec fn right_reference(self) -> int {
        self.position.x - self.half_extents.width
    }

    /// How far the feet are above what a downward probe hit; negative when
    /// the feet are below it. `None` when the probe hit nothing.
    pub open spec fn height_above(self, probe: ProbeView) -> Option<int> {
        match probe.hit_point() {
            Some((_, y)) => Some(self.bottom_edge() - y),
            None => None,
        }
    }

    /// Whether the player stands on the ground: the ground probe hit
    /// something and the feet are less than `threshold` above it.
    pub open spec fn is_grounded(self, ground: ProbeView, threshold: int) -> bool {
        match self.height_above(ground) {
            Some(height) => height < threshold,
            None => false,
        }
    }

    /// Computes [`Player::is_grounded`].
    pub fn grounded(&self, ground: &GroundedCheck, threshold: i64) -> (standing: bool)
        ensures
            standing == self.is_grounded(ground.0@, threshold as int),
    {
        match self.height_above_hit(&ground.0) {
            Some(height) => height < threshold as i128,
            None => false,
        }
    }

    /// Computes [`Player::height_above`].
    pub fn height_above_hit(&self, probe: &Probe) -> (height: Option<i128>)
        ensures
            match height {
                Some(h) => self.height_above(probe@) == Some(h as int),
                None => self.height_above(probe@) is None,
            },
    {
        match probe.hit_point() {
            Some((_, y)) => Some(
                self.position.y as i128 - self.half_extents.height as i128 - y,
            ),
            None => None,
        }
    }
}

/// How far below the player's centre the ground probe starts.
pub const GROUND_PROBE_DROP: i64 = 16 * UNIT;

/// The swept shape under the player that tells whether it stands on the ground.
#[derive(Clone, Debug)]
pub struct GroundedCheck(pub Probe);

/// The ray under the player that finds an enemy to land on.
#[derive(Clone, Debug)]
pub struct SquishCheck(pub Probe);

/// The ray under the player that finds a checkpoint.
#[derive(Clone, Debug)]
pub struct CheckpointCheck(pub Probe);

/// The ray that looks for a wall to the right of the player.
#[derive(Clone, Debug)]
pub struct RightSideOfPlayerCast(pub Probe);

/// The ray that looks for a wall to the left of the player.
#[derive(Clone, Debug)]
pub struct LeftSideOfPlayerCast(pub Probe);

/// The three probes that look down from the player.
#[derive(Clone, Debug)]
pub struct BottomOfPlayerRayCast {
    pub grounded: GroundedCheck,
    pub checkpoint: CheckpointCheck,
    pub squish: SquishCheck,
}

impl GroundedCheck {
    /// The ground probe: looks down and sees the ground only.
    pub fn new() -> (check: GroundedCheck)
        ensures
            check.0@ == Probe::new_view(Direction::Down, Layers::Ground),
    {
        GroundedCheck(Probe::new(Direction::Down, Layers::Ground))
    }
}

impl SquishCheck {
    /// The squish probe: looks down and sees enemies only.
    pub fn new() -> (check: SquishCheck)
        ensures
            check.0@ == Probe::new_view(Direction::Down, Layers::Enemy),
    {
        SquishCheck(Probe::new(Direction::Down, Layers::Enemy))
    }
}

impl CheckpointCheck {
    /// The checkpoint probe: looks down and sees checkpoints only.
    pub fn new() -> (check: CheckpointCheck)
        ensures
            check.0@ == Probe::new_view(Direction::Down, Layers::Checkpoint),
    {
        CheckpointCheck(Probe::new(Direction::Down, Layers::Checkpoint))
    }
}

impl RightSideOfPlayerCast {
    /// The right wall probe: looks right and sees the ground only.
    pub fn new() -> (cast: RightSideOfPlayerCast)
        ensures
            cast.0@ == Probe::new_view(Direction::Right, Layers::Ground),
    {
        RightSideOfPlayerCast(Probe::new(Direction::Right, Layers::Ground))
    }
}

impl LeftSideOfPlayerCast {
    /// The left wall probe: looks left and sees the ground only.
    pub fn new() -> (cast: LeftSideOfPlayerCast)
        ensures
            cast.0@ == Probe::new_view(Direction::Left, Layers::Ground),
    {
        LeftSideOfPlayerCast(Probe::new(Direction::Left, Layers::Ground))
    }
}

impl BottomOfPlayerRayCast {
    /// The three downward probes, fresh.
    pub fn new() -> (bottom: BottomOfPlayerRayCast)
        ensures
            bottom.grounded.0@ == Probe::new_view(Direction::Down, Layers::Ground),
            bottom.checkpoint.0@ == Probe::new_view(Direction::Down, Layers::Checkpoint),
            bottom.squish.0@ == Probe::new_view(Direction::Down, Layers::Enemy),
    {
        BottomOfPlayerRayCast {
            grounded: GroundedCheck::new(),
            checkpoint: CheckpointCheck::new(),
            squish: SquishCheck::new(),
        }
    }
}

/// Where the ground probe starts when the player is at `centre`.
pub open spec fn ground_probe_origin(centre: Point) -> Point {
    Point { x: centre.x, y: clamp(centre.y - GROUND_PROBE_DROP) as i64 }
}

/// Moves the two wall probes to the player. Nothing else about them changes.
pub fn update_sides_of_player_raycasts(
    left: &mut LeftSideOfPlayerCast,
    right: &mut RightSideOfPlayerCast,
    player: &Player,
)
    ensures
        final(left).0@ == old(left).0@.moved_to(player.position),
        final(right).0@ == old(right).0@.moved_to(player.position),
{
    left.0.origin = player.position;
    right.0.origin = player.position;
}

/// Moves the three downward probes to the player: the two rays to its
/// centre, the ground shape [`GROUND_PROBE_DROP`] below it. Nothing else
/// about them changes.
pub fn update_bottom_of_player_raycasts(bottom: &mut BottomOfPlayerRayCast, player: &Player)
    ensures
        final(bottom).checkpoint.0@ == old(bottom).checkpoint.0@.moved_to(player.position),
        final(bottom).squish.0@ == old(bottom).squish.0@.moved_to(player.position),
        final(bottom).grounded.0@ == old(bottom).grounded.0@.moved_to(
            ground_probe_origin(player.position),
        ),
{
    bottom.checkpoint.0.origin = player.position;
    bottom.squish.0.origin = player.position;
    bottom.grounded.0.origin = Point {
        x: player.position.x,
        y: saturate(player.position.y as i128 - GROUND_PROBE_DROP as i128),
    };
}

} // verus!
