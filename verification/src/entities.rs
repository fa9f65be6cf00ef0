//! The non-player entities: goblins and the demon. Both carry an opaque
//! numeric handle under which the host addresses them in movement commands
//! and proximity-query results.

use vstd::prelude::*;
use crate::config::SimConfig;
use crate::geom::{Vec2, in_bounds};

verus! {

#[derive(Clone, Copy, Debug, PartialEq, Eq, Structural)]
pub struct GoblinState {
    /// Opaque handle, unique for the session.
    pub id: u64,
    /// Position in the play plane, kept in step with the host's physics.
    pub pos: Vec2,
    /// Health, in `[0, goblin_max_health]`; at zero the goblin is reaped.
    pub health: u64,
    /// Time left until this goblin may strike the wizard again.
    pub attack_cooldown: u64,
}

impl GoblinState {
    pub open spec fn wf(self, cfg: SimConfig) -> bool {
        &&& in_bounds(self.pos)
        &&& self.health <= cfg.goblin_max_health
    }

    /// Is the goblin still alive (kept by the lifecycle pass)?
    pub open spec fn alive(self) -> bool {
        self.health > 0
    }
}

#[derive(Clone, Copy, Debug, PartialEq, Eq, Structural)]
pub struct DemonState {
    /// Opaque handle, unique for the session.
    pub id: u64,
    /// The summon point; a demon does not move.
    pub pos: Vec2,
    /// Time left before the demon expires; at zero it is reaped.
    pub life: u64,
}

impl DemonState {
    pub open spec fn wf(self) -> bool {
        in_bounds(self.pos)
    }
}

} // verus!
