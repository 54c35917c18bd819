//! Landing on enemies, and the deferred removal of what was landed on.
//!
//! Nothing is removed from the world while a tick is still reading it.
//! An entity is tagged for removal when the decision falls, and a cleanup
//! pass after the tick takes all tagged entities out at once.

use vstd::prelude::*;
use crate::constants::Constants;
use crate::geometry::{clamp, saturate, UNIT};
use crate::probes::{nearest_hit, Player, ProbeView, SquishCheck};

verus! {

/// An enemy is landed on when the player's feet are less than this above it.
pub const SQUISH_REACH: i64 = UNIT;

/// The tag that marks an entity for removal by the cleanup pass.
#[derive(Clone, Copy, Debug, PartialEq, Eq, Structural)]
pub struct DeleteMe {
    pub entity: u64,
}

/// The entity that the player lands on in this tick, if any: the nearest
/// hit of the squish probe, provided the player's feet are less than
/// [`SQUISH_REACH`] above it.
pub open spec fn squish_target(player: Player, squish: ProbeView) -> Option<u64> {
    match (nearest_hit(squish.hits), player.height_above(squish)) {
        (Some(hit), Some(height)) => if height < SQUISH_REACH {
            Some(hit.entity)
        } else {
            None
        },
        _ => None,
    }
}

/// Lets the player land on the enemy under it.
///
/// Where there is a target, it is tagged for removal, the tag is handed
/// back, and the player bounces: `squish_bounce_force` is added to its
/// upward speed. Where there is none, nothing changes.
pub fn squish_enemy_below_player(
    player: &mut Player,
    squish: &SquishCheck,
    constants: &Constants,
    deletions: &mut DeleteManager,
) -> (tag: Option<DeleteMe>)
    requires
        old(deletions).wf(),
    ensures
        match tag {
            Some(tag) => squish_target(*old(player), squish.0@) == Some(tag.entity),
            None => squish_target(*old(player), squish.0@) is None,
        },
        final(deletions).wf(),
        final(deletions)@ == match tag {
            Some(tag) => old(deletions)@.insert(tag.entity),
            None => old(deletions)@,
        },
        final(player).position == old(player).position,
        final(player).half_extents == old(player).half_extents,
        final(player).velocity.x == old(player).velocity.x,
        final(player).velocity.y == if tag is Some {
            clamp(old(player).velocity.y + constants.squish_bounce_force)
        } else {
            old(player).velocity.y as int
        },
{
    let hit = match squish.0.nearest() {
        Some(hit) => hit,
        None => {
            return None;
        },
    };
    let height = match player.height_above_hit(&squish.0) {
        Some(height) => height,
        None => {
            return None;
        },
    };
    if height < SQUISH_REACH as i128 {
        let tag = DeleteMe { entity: hit.entity };
        deletions.mark(tag);
        player.velocity.y = saturate(
            player.velocity.y as i128 + constants.squish_bounce_force as i128,
        );
        Some(tag)
    } else {
        None
    }
}

/// The entities that are tagged for removal.
#[derive(Clone, Debug)]
pub struct DeleteManager {
    tagged: Vec<u64>,
}

impl View for DeleteManager {
    type V = Set<u64>;

    closed spec fn view(&self) -> Set<u64> {
        self.tagged@.to_set()
    }
}

impl DeleteManager {
    /// No entity is listed twice.
    pub closed spec fn wf(&self) -> bool {
        self.tagged@.no_duplicates()
    }

    /// Nothing is tagged.
    pub fn new() -> (manager: DeleteManager)
        ensures
            manager.wf(),
            manager@ == Set::<u64>::empty(),
    {
        let manager = DeleteManager { tagged: Vec::new() };
        assert(manager.tagged@.to_set() =~= Set::<u64>::empty());
        manager
    }

    /// Whether `entity` is tagged.
    pub fn is_marked(&self, entity: u64) -> (marked: bool)
        ensures
            marked == self@.contains(entity),
    {
        let mut i: usize = 0;
        while i < self.tagged.len()
            invariant
                i <= self.tagged.len(),
                forall|k: int| 0 <= k < i ==> self.tagged@[k] != entity,
            decreases self.tagged.len() - i,
        {
            if self.tagged[i] == entity {
                assert(self.tagged@.contains(entity));
                return true;
            }
            i += 1;
        }
        assert(!self.tagged@.contains(entity));
        false
    }

    /// Tags an entity. Tagging it again changes nothing.
    pub fn mark(&mut self, tag: DeleteMe)
        requires
            old(self).wf(),
        ensures
            final(self).wf(),
            final(self)@ == old(self)@.insert(tag.entity),
    {
        if !self.is_marked(tag.entity) {
            proof {
                self.tagged@.lemma_push_to_set_commute(tag.entity);
            }
            self.tagged.push(tag.entity);
        } else {
            assert(self@.insert(tag.entity) =~= self@);
        }
    }

    /// The cleanup pass: hands out every tagged entity, each one once, and
    /// leaves nothing tagged.
    pub fn delete_me(&mut self) -> (doomed: Vec<u64>)
        requires
            old(self).wf(),
        ensures
            final(self).wf(),
            final(self)@ == Set::<u64>::empty(),
            doomed@.no_duplicates(),
            doomed@.to_set() == old(self)@,
    {
        let mut doomed: Vec<u64> = Vec::new();
        std::mem::swap(&mut self.tagged, &mut doomed);
        assert(self.tagged@.to_set() =~= Set::<u64>::empty());
        doomed
    }
}

} // verus!
