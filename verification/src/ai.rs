//! Targeting: each goblin turns toward the wizard, unless a demon stands
//! both within the fear radius and at least as close as the wizard — then
//! the goblin runs straight away from the demon. The core emits direction
//! vectors and a step length; normalising the direction and turning it
//! into an engine translation (and a facing angle) is the host's job.

use vstd::prelude::*;
use crate::config::SimConfig;
use crate::entities::GoblinState;
use crate::geom::{Vec2, in_bounds, delta_bounds, sub_spec, neg_spec, dist_sq_spec};
use crate::math::{DT_MAX, CFG_LIMIT};

verus! {

/// One per-tick movement command for a goblin: an (unnormalised) direction
/// and the length of the displacement to take along it.
#[derive(Clone, Copy, Debug, PartialEq, Eq, Structural)]
pub struct GoblinMove {
    pub id: u64,
    /// Direction to move and face; not normalised.
    pub dir: Vec2,
    /// Displacement length for this tick (speed scaled by the delta).
    pub step: u64,
}

/// Does a goblin at `gpos` flee a demon at `dpos`? Only when the demon is
/// within the fear radius and at least as close as the wizard.
pub open spec fn flees_spec(gpos: Vec2, wpos: Vec2, dpos: Vec2, fear_radius: int) -> bool {
    let dd = dist_sq_spec(dpos, gpos);
    dd <= fear_radius * fear_radius && dd <= dist_sq_spec(wpos, gpos)
}

/// The movement direction of one goblin: toward the wizard, or straight
/// away from a feared demon.
pub open spec fn direction_spec(gpos: Vec2, wpos: Vec2, demon: Option<Vec2>, fear_radius: int) -> Vec2 {
    match demon {
        Option::None => sub_spec(wpos, gpos),
        Option::Some(dpos) => if flees_spec(gpos, wpos, dpos, fear_radius) {
            neg_spec(sub_spec(dpos, gpos))
        } else {
            sub_spec(wpos, gpos)
        },
    }
}

/// Length of the displacement an entity of `speed` takes over `dt`
/// milliseconds.
pub open spec fn step_of(speed: int, dt: int) -> int {
    speed * dt / 1000
}

pub fn compute_direction(gpos: Vec2, wpos: Vec2, demon: Option<Vec2>, fear_radius: u64) -> (dir:
    Vec2)
    requires
        in_bounds(gpos),
        in_bounds(wpos),
        demon matches Some(d) ==> in_bounds(d),
        fear_radius <= CFG_LIMIT,
    ensures
        dir == direction_spec(gpos, wpos, demon, fear_radius as int),
        delta_bounds(dir),
{
    match demon {
        Option::None => wpos.sub(gpos),
        Option::Some(dpos) => {
            let to_demon = dpos.sub(gpos);
            let dd = to_demon.norm_sq();
            let fr = fear_radius as i64;
            proof {
                assert(fr * fr <= 1_000_000_000_000_000_000) by (nonlinear_arith)
                    requires
                        0 <= fr <= 1_000_000_000,
                ;
            }
            let to_wizard = wpos.sub(gpos);
            if dd <= fr * fr && dd <= to_wizard.norm_sq() {
                to_demon.neg()
            } else {
                to_wizard
            }
        },
    }
}

pub fn move_step(speed: u64, dt: u64) -> (r: u64)
    requires
        speed <= CFG_LIMIT,
        dt <= DT_MAX,
    ensures
        r == step_of(speed as int, dt as int),
{
    proof {
        assert(speed * dt <= 1_000_000_000_000_000_000) by (nonlinear_arith)
            requires
                speed <= 1_000_000_000,
                dt <= 1_000_000_000,
        ;
    }
    speed * dt / 1000
}

/// The movement command of one goblin for this tick.
pub open spec fn goblin_move_spec(
    g: GoblinState,
    wpos: Vec2,
    demon: Option<Vec2>,
    cfg: SimConfig,
    dt: int,
) -> GoblinMove {
    GoblinMove {
        id: g.id,
        dir: direction_spec(g.pos, wpos, demon, cfg.fear_radius as int),
        step: step_of(cfg.goblin_speed as int, dt) as u64,
    }
}

/// The whole targeting pass: one movement command per goblin. Pure — it
/// reads positions and writes nothing.
pub fn plan_moves(
    goblins: &Vec<GoblinState>,
    wpos: Vec2,
    demon: Option<Vec2>,
    cfg: &SimConfig,
    dt: u64,
) -> (r: Vec<GoblinMove>)
    requires
        forall|i: int| 0 <= i < goblins@.len() ==> in_bounds((#[trigger] goblins@[i]).pos),
        in_bounds(wpos),
        demon matches Some(d) ==> in_bounds(d),
        cfg.valid(),
        dt <= DT_MAX,
    ensures
        r@.len() == goblins@.len(),
        forall|i: int|
            0 <= i < r@.len() ==> #[trigger] r@[i] == goblin_move_spec(
                goblins@[i],
                wpos,
                demon,
                *cfg,
                dt as int,
            ),
{
    let step = move_step(cfg.goblin_speed, dt);
    let mut r: Vec<GoblinMove> = Vec::new();
    let mut i: usize = 0;
    while i < goblins.len()
        invariant
            i <= goblins@.len(),
            r@.len() == i,
            forall|j: int| 0 <= j < goblins@.len() ==> in_bounds((#[trigger] goblins@[j]).pos),
            in_bounds(wpos),
            demon matches Some(d) ==> in_bounds(d),
            cfg.valid(),
            dt <= DT_MAX,
            step == step_of(cfg.goblin_speed as int, dt as int),
            forall|j: int|
                0 <= j < i ==> #[trigger] r@[j] == goblin_move_spec(
                    goblins@[j],
                    wpos,
                    demon,
                    *cfg,
                    dt as int,
                ),
        decreases goblins@.len() - i,
    {
        let g = goblins[i];
        let dir = compute_direction(g.pos, wpos, demon, cfg.fear_radius);
        r.push(GoblinMove { id: g.id, dir, step });
        i = i + 1;
    }
    r
}

} // verus!
