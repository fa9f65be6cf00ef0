//! Combat resolution: the wizard's melee, the demon's one-shot summon
//! effect, and goblin melee against the wizard. The two area channels take
//! the host's proximity-query result — a duplicate-free set of goblin
//! handles — as an argument and damage each named goblin exactly once; a
//! handle that names no goblin is ignored. Whether an entity exactly on
//! the query boundary is in the set is the host's choice: nothing here
//! depends on it.

use vstd::prelude::*;
use crate::config::SimConfig;
use crate::entities::GoblinState;
use crate::geom::{Vec2, POS_LIMIT, in_bounds, facing_bounds, dist_sq_spec, dist_sq};
use crate::math::{DT_MAX, sat_sub, sub_clamped};
use crate::vitals::WizardState;

verus! {

/// Membership scan over the host's query result.
pub fn contains_id(ids: &Vec<u64>, id: u64) -> (r: bool)
    ensures
        r == ids@.contains(id),
{
    let mut i: usize = 0;
    while i < ids.len()
        invariant
            i <= ids@.len(),
            forall|j: int| 0 <= j < i ==> ids@[j] != id,
        decreases ids@.len() - i,
    {
        if ids[i] == id {
            return true;
        }
        i = i + 1;
    }
    false
}

/// A goblin after one hit of the given strength: health clamps at zero.
pub open spec fn damaged(g: GoblinState, strength: int) -> GoblinState {
    GoblinState { health: sat_sub(g.health as int, strength) as u64, ..g }
}

/// An area hit: every goblin whose handle the query returned is damaged
/// exactly once; every other goblin is untouched.
pub open spec fn area_damaged(gs: Seq<GoblinState>, targets: Seq<u64>, strength: int) -> Seq<
    GoblinState,
> {
    gs.map_values(|g: GoblinState| if targets.contains(g.id) { damaged(g, strength) } else { g })
}

pub fn apply_area_damage(goblins: &mut Vec<GoblinState>, targets: &Vec<u64>, strength: u64)
    ensures
        final(goblins)@ == area_damaged(old(goblins)@, targets@, strength as int),
{
    let ghost gs0 = old(goblins)@;
    let mut i: usize = 0;
    while i < goblins.len()
        invariant
            i <= goblins@.len(),
            goblins@.len() == gs0.len(),
            forall|j: int|
                0 <= j < i ==> #[trigger] goblins@[j] == (if targets@.contains(gs0[j].id) {
                    damaged(gs0[j], strength as int)
                } else {
                    gs0[j]
                }),
            forall|j: int| i <= j < gs0.len() ==> #[trigger] goblins@[j] == gs0[j],
        decreases gs0.len() - i,
    {
        let g = goblins[i];
        if contains_id(targets, g.id) {
            let hit = GoblinState { health: sub_clamped(g.health, strength), ..g };
            goblins.set(i, hit);
        }
        i = i + 1;
    }
    proof {
        assert(goblins@ =~= area_damaged(gs0, targets@, strength as int));
    }
}

/// An area hit touches nothing but health, and only ever lowers it.
pub proof fn lemma_area_damaged_fields(gs: Seq<GoblinState>, targets: Seq<u64>, strength: int)
    requires
        strength >= 0,
    ensures
        area_damaged(gs, targets, strength).len() == gs.len(),
        forall|i: int|
            0 <= i < gs.len() ==> {
                let g = #[trigger] area_damaged(gs, targets, strength)[i];
                g.id == gs[i].id && g.pos == gs[i].pos && g.attack_cooldown
                    == gs[i].attack_cooldown && g.health <= gs[i].health
            },
{
    assert forall|i: int| 0 <= i < gs.len() implies {
        let g = #[trigger] area_damaged(gs, targets, strength)[i];
        g.id == gs[i].id && g.pos == gs[i].pos && g.attack_cooldown == gs[i].attack_cooldown
            && g.health <= gs[i].health
    } by {
        assert(area_damaged(gs, targets, strength)[i] == (if targets.contains(gs[i].id) {
            damaged(gs[i], strength)
        } else {
            gs[i]
        }));
    }
}

/// Does the wizard's melee fire this tick? Only with the trigger held,
/// the cooldown (decremented first) run out, and the mana cost covered.
pub open spec fn attack_fires_spec(w: WizardState, held: bool, cfg: SimConfig, dt: int) -> bool {
    held && sat_sub(w.attack_cooldown as int, dt) == 0 && w.mana >= cfg.attack_mana_cost
}

/// The wizard after the melee channel: the cooldown always counts down
/// (clamped at zero); on a firing tick the mana cost is spent and the
/// cooldown rearmed.
pub open spec fn wizard_after_attack_spec(
    w: WizardState,
    held: bool,
    cfg: SimConfig,
    dt: int,
) -> WizardState {
    if attack_fires_spec(w, held, cfg, dt) {
        WizardState {
            mana: (w.mana - cfg.attack_mana_cost) as u64,
            attack_cooldown: cfg.wizard_attack_cooldown,
            ..w
        }
    } else {
        WizardState { attack_cooldown: sat_sub(w.attack_cooldown as int, dt) as u64, ..w }
    }
}

/// The wizard melee channel. `targets` is the host's proximity query
/// around the wizard; it is consulted only on a firing tick (on any other
/// tick no query need have been issued at all). Returns whether the attack
/// fired — the host's cue to play the attack animation.
pub fn wizard_attack_step(
    w: &mut WizardState,
    goblins: &mut Vec<GoblinState>,
    held: bool,
    targets: &Vec<u64>,
    cfg: &SimConfig,
    dt: u64,
) -> (fired: bool)
    requires
        old(w).wf(*cfg),
        cfg.valid(),
        dt <= DT_MAX,
    ensures
        fired == attack_fires_spec(*old(w), held, *cfg, dt as int),
        *final(w) == wizard_after_attack_spec(*old(w), held, *cfg, dt as int),
        final(w).wf(*cfg),
        final(goblins)@ == (if fired {
            area_damaged(old(goblins)@, targets@, cfg.attack_strength as int)
        } else {
            old(goblins)@
        }),
{
    let cd = sub_clamped(w.attack_cooldown, dt);
    if held && cd == 0 && w.mana >= cfg.attack_mana_cost {
        apply_area_damage(goblins, targets, cfg.attack_strength);
        w.mana = w.mana - cfg.attack_mana_cost;
        w.attack_cooldown = cfg.wizard_attack_cooldown;
        true
    } else {
        w.attack_cooldown = cd;
        false
    }
}

/// Does the summon fire this tick? Only on a fresh press of the summon
/// trigger with the mana pool full.
pub open spec fn summons_spec(w: WizardState, pressed: bool, cfg: SimConfig) -> bool {
    pressed && w.mana >= cfg.max_mana
}

/// `f * off / 1000`, rounded toward zero: the facing component of the
/// summon offset.
pub open spec fn scaled_toward_zero(f: int, off: int) -> int {
    if f >= 0 {
        f * off / 1000
    } else {
        -((-f) * off / 1000)
    }
}

pub open spec fn clamp_coord(x: int) -> int {
    if x > POS_LIMIT {
        POS_LIMIT as int
    } else if x < -POS_LIMIT {
        -POS_LIMIT as int
    } else {
        x
    }
}

/// Where a summoned demon appears: offset from the wizard along its
/// facing, clamped to the play-field bound.
pub open spec fn summon_point_spec(w: WizardState, cfg: SimConfig) -> Vec2 {
    Vec2 {
        x: clamp_coord(w.pos.x + scaled_toward_zero(w.facing.x as int, cfg.summon_offset as int)) as i64,
        y: clamp_coord(w.pos.y + scaled_toward_zero(w.facing.y as int, cfg.summon_offset as int)) as i64,
    }
}

fn scale_facing(f: i64, off: u64) -> (r: i64)
    requires
        -2_000 <= f <= 2_000,
        off <= 1_000_000,
    ensures
        r == scaled_toward_zero(f as int, off as int),
        -2_000_000 <= r <= 2_000_000,
{
    proof {
        assert(forall|a: int, b: int|
            0 <= a <= 2_000 && 0 <= b <= 1_000_000 ==> 0 <= #[trigger] (a * b) <= 2_000_000_000)
            by (nonlinear_arith);
    }
    if f >= 0 {
        (((f as u64) * off) / 1000) as i64
    } else {
        -((((-f) as u64) * off / 1000) as i64)
    }
}

fn clamp_to_field(x: i64) -> (r: i64)
    ensures
        r == clamp_coord(x as int),
{
    if x > POS_LIMIT {
        POS_LIMIT
    } else if x < -POS_LIMIT {
        -POS_LIMIT
    } else {
        x
    }
}

pub fn summon_point(w: &WizardState, cfg: &SimConfig) -> (p: Vec2)
    requires
        in_bounds(w.pos),
        facing_bounds(w.facing),
        cfg.valid(),
    ensures
        p == summon_point_spec(*w, *cfg),
        in_bounds(p),
{
    let dx = scale_facing(w.facing.x, cfg.summon_offset);
    let dy = scale_facing(w.facing.y, cfg.summon_offset);
    Vec2 { x: clamp_to_field(w.pos.x + dx), y: clamp_to_field(w.pos.y + dy) }
}

/// Does a goblin strike the wizard this tick? Only with the wizard within
/// melee distance and the goblin's cooldown (decremented first) run out.
pub open spec fn goblin_strikes(g: GoblinState, wpos: Vec2, cfg: SimConfig, dt: int) -> bool {
    &&& dist_sq_spec(g.pos, wpos) <= cfg.goblin_attack_distance * cfg.goblin_attack_distance
    &&& sat_sub(g.attack_cooldown as int, dt) == 0
}

/// A goblin after its melee channel: the cooldown counts down, and rearms
/// in full on a striking tick. (A goblin whose health ran out this tick
/// still strikes with its pre-death state; it is reaped only afterwards.)
pub open spec fn goblin_after_melee(g: GoblinState, wpos: Vec2, cfg: SimConfig, dt: int) -> GoblinState {
    GoblinState {
        attack_cooldown: if goblin_strikes(g, wpos, cfg, dt) {
            cfg.goblin_attack_cooldown
        } else {
            sat_sub(g.attack_cooldown as int, dt) as u64
        },
        ..g
    }
}

/// The wizard's health after every striking goblin has landed one hit of
/// `goblin_attack_damage`, clamping at zero.
pub open spec fn health_after_strikes(
    h: int,
    gs: Seq<GoblinState>,
    wpos: Vec2,
    cfg: SimConfig,
    dt: int,
) -> int
    decreases gs.len(),
{
    if gs.len() == 0 {
        h
    } else {
        let rest = health_after_strikes(h, gs.drop_last(), wpos, cfg, dt);
        if goblin_strikes(gs.last(), wpos, cfg, dt) {
            sat_sub(rest, cfg.goblin_attack_damage as int)
        } else {
            rest
        }
    }
}

/// After any number of strikes, health lies between zero and its old
/// value: goblin melee only ever lowers it, and never below zero.
pub proof fn lemma_health_after_bounds(
    h: int,
    gs: Seq<GoblinState>,
    wpos: Vec2,
    cfg: SimConfig,
    dt: int,
)
    requires
        h >= 0,
    ensures
        0 <= health_after_strikes(h, gs, wpos, cfg, dt) <= h,
    decreases gs.len(),
{
    if gs.len() > 0 {
        lemma_health_after_bounds(h, gs.drop_last(), wpos, cfg, dt);
    }
}

/// The goblin melee channel: every goblin's cooldown counts down, every
/// striking goblin deals one hit to the wizard and rearms.
pub fn goblin_melee_step(goblins: &mut Vec<GoblinState>, w: &mut WizardState, cfg: &SimConfig, dt: u64)
    requires
        forall|i: int| 0 <= i < old(goblins)@.len() ==> in_bounds((#[trigger] old(goblins)@[i]).pos),
        in_bounds(old(w).pos),
        cfg.valid(),
        dt <= DT_MAX,
    ensures
        final(goblins)@.len() == old(goblins)@.len(),
        forall|i: int|
            0 <= i < old(goblins)@.len() ==> #[trigger] final(goblins)@[i] == goblin_after_melee(
                old(goblins)@[i],
                old(w).pos,
                *cfg,
                dt as int,
            ),
        *final(w) == (WizardState {
            health: health_after_strikes(
                old(w).health as int,
                old(goblins)@,
                old(w).pos,
                *cfg,
                dt as int,
            ) as u64,
            ..*old(w)
        }),
{
    let ghost gs0 = old(goblins)@;
    let ghost w0 = *old(w);
    let wpos = w.pos;
    let dist = cfg.goblin_attack_distance as i64;
    proof {
        assert(dist * dist <= 1_000_000_000_000_000_000 && dist * dist >= 0) by (nonlinear_arith)
            requires
                0 <= dist <= 1_000_000_000,
        ;
    }
    let range_sq: i64 = dist * dist;
    let mut i: usize = 0;
    while i < goblins.len()
        invariant
            i <= gs0.len(),
            goblins@.len() == gs0.len(),
            forall|j: int| 0 <= j < gs0.len() ==> in_bounds((#[trigger] gs0[j]).pos),
            in_bounds(w0.pos),
            cfg.valid(),
            dt <= DT_MAX,
            wpos == w0.pos,
            range_sq == cfg.goblin_attack_distance * cfg.goblin_attack_distance,
            forall|j: int|
                0 <= j < i ==> #[trigger] goblins@[j] == goblin_after_melee(
                    gs0[j],
                    w0.pos,
                    *cfg,
                    dt as int,
                ),
            forall|j: int| i <= j < gs0.len() ==> #[trigger] goblins@[j] == gs0[j],
            *w == (WizardState {
                health: health_after_strikes(
                    w0.health as int,
                    gs0.take(i as int),
                    w0.pos,
                    *cfg,
                    dt as int,
                ) as u64,
                ..w0
            }),
        decreases gs0.len() - i,
    {
        proof {
            assert(gs0.take(i + 1).drop_last() =~= gs0.take(i as int));
            assert(gs0.take(i + 1).last() == gs0[i as int]);
            lemma_health_after_bounds(w0.health as int, gs0.take(i as int), w0.pos, *cfg, dt as int);
            lemma_health_after_bounds(w0.health as int, gs0.take(i + 1), w0.pos, *cfg, dt as int);
        }
        let g = goblins[i];
        let cd = sub_clamped(g.attack_cooldown, dt);
        let in_range = dist_sq(g.pos, wpos) <= range_sq;
        if in_range && cd == 0 {
            w.health = sub_clamped(w.health, cfg.goblin_attack_damage);
            goblins.set(i, GoblinState { attack_cooldown: cfg.goblin_attack_cooldown, ..g });
        } else {
            goblins.set(i, GoblinState { attack_cooldown: cd, ..g });
        }
        i = i + 1;
    }
    proof {
        assert(gs0.take(gs0.len() as int) =~= gs0);
    }
}

} // verus!
