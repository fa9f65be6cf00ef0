//! The simulation aggregate and its ordered tick. One tick runs in the
//! fixed order: spawn → targeting/movement → combat (wizard melee, demon
//! summon, goblin melee) → vitals → lifecycle. The host drives it in two
//! phases: `begin_tick` advances the clock and may emit a spawn wave, the
//! host places the wave's goblins (`add_goblin`) and gathers its
//! proximity-query results, and `finish_tick` runs the rest of the tick,
//! so that goblins spawned this tick are visible to targeting before
//! combat resolves, and goblins killed this tick are removed only after
//! combat has used their pre-death state.

use vstd::prelude::*;
use crate::ai::{GoblinMove, goblin_move_spec, plan_moves, step_of, move_step};
use crate::combat::{
    area_damaged, attack_fires_spec, goblin_after_melee, health_after_strikes,
    lemma_area_damaged_fields, lemma_health_after_bounds, summon_point, summon_point_spec,
    summons_spec, wizard_after_attack_spec, wizard_attack_step, apply_area_damage,
    goblin_melee_step,
};
use crate::config::SimConfig;
use crate::entities::{DemonState, GoblinState};
use crate::geom::{Vec2, in_bounds, facing_bounds};
use crate::lifecycle::{
    demon_after_tick, demon_tick, kept_goblins, lemma_kept_elements, lemma_kept_ids,
    reap_demon, reap_goblins, reaped_ids,
};
use crate::math::{DT_MAX, sat_add_u64, add_saturating};
use crate::spawn::{
    HALF_TURN, SpawnRequest, current_level, draw_wave_params, level_spec, make_wave, spawn_angle,
};
use crate::timer::{IntervalTimer, timer_after, timer_fires};
use crate::vitals::{WizardState, vitals_spec};

verus! {

/// The host's input intents for one tick: four held movement keys, the
/// held melee trigger, and the edge-triggered summon press.
#[derive(Clone, Copy, Debug, PartialEq, Eq, Structural)]
pub struct TickInputs {
    pub move_up: bool,
    pub move_down: bool,
    pub move_left: bool,
    pub move_right: bool,
    pub attack_held: bool,
    pub summon_pressed: bool,
}

/// The wizard's movement command for one tick: an (unnormalised) key
/// direction and the displacement length to take along it.
#[derive(Clone, Copy, Debug, PartialEq, Eq, Structural)]
pub struct WizardMove {
    pub dir: Vec2,
    pub step: u64,
}

/// Everything one tick asks of the host: movement commands to hand to the
/// kinematics, an attack-animation cue, a demon to place, and entities to
/// despawn.
#[derive(Clone, Debug)]
pub struct TickOutput {
    /// Movement command for the wizard; absent once the game is over.
    pub wizard_move: Option<WizardMove>,
    /// One movement command per goblin; empty once the game is over.
    pub goblin_moves: Vec<GoblinMove>,
    /// The melee attack fired: play the attack animation.
    pub attack_fired: bool,
    /// A demon was summoned at this point: place its engine entity.
    pub summoned: Option<Vec2>,
    /// The game-over transition fired on this very tick.
    pub wizard_died: bool,
    /// Handles of the goblins reaped this tick, to despawn.
    pub removed_goblins: Vec<u64>,
    /// The demon expired this tick: despawn its engine entity.
    pub demon_expired: bool,
}

/// A spawn wave: the level it was drawn at, the random phase, and one
/// placement request per goblin. The host turns each angle into a point
/// on the spawn circle and hands the goblin back via `add_goblin`.
#[derive(Clone, Debug)]
pub struct Wave {
    pub level: u64,
    pub phase: u64,
    pub requests: Vec<SpawnRequest>,
}

/// The key direction the wizard moves in, in the host's screen-plane
/// convention: each held key contributes one unit (1000) on its axis.
pub open spec fn wizard_move_dir_spec(inp: TickInputs) -> Vec2 {
    Vec2 {
        x: ((if inp.move_left {
            1000int
        } else {
            0int
        }) - (if inp.move_right {
            1000int
        } else {
            0int
        })) as i64,
        y: ((if inp.move_down {
            1000int
        } else {
            0int
        }) - (if inp.move_up {
            1000int
        } else {
            0int
        })) as i64,
    }
}

pub open spec fn demon_pos_of(d: Option<DemonState>) -> Option<Vec2> {
    match d {
        Option::None => Option::None,
        Option::Some(dem) => Option::Some(dem.pos),
    }
}

/// The ghost value of one whole `finish_tick`: the state pieces after the
/// ordered pass, and every output handed to the host.
pub struct TickModel {
    pub wizard: WizardState,
    pub goblins: Seq<GoblinState>,
    pub demon: Option<DemonState>,
    pub next_id: u64,
    pub wizard_move: Option<WizardMove>,
    pub goblin_moves: Seq<GoblinMove>,
    pub attack_fired: bool,
    pub summoned: Option<Vec2>,
    pub wizard_died: bool,
    pub removed_goblins: Seq<u64>,
    pub demon_expired: bool,
}

/// What `finish_tick` does, step by step: the movement pass (suppressed
/// once the game is over), the wizard melee channel, the demon summon
/// (replacing any live demon), the goblin melee channel (suppressed with
/// the movement pass), vitals, the demon countdown, and the reap.
pub open spec fn tick_spec(
    s: Simulation,
    inp: TickInputs,
    attack_targets: Seq<u64>,
    summon_targets: Seq<u64>,
    dt: int,
) -> TickModel {
    let frozen = s.wizard.game_over;
    let wizard_move = if frozen {
        Option::<WizardMove>::None
    } else {
        Option::Some(
            WizardMove {
                dir: wizard_move_dir_spec(inp),
                step: step_of(s.cfg.wizard_speed as int, dt) as u64,
            },
        )
    };
    let goblin_moves = if frozen {
        Seq::<GoblinMove>::empty()
    } else {
        Seq::new(
            s.goblins@.len(),
            |i: int| goblin_move_spec(s.goblins@[i], s.wizard.pos, demon_pos_of(s.demon), s.cfg, dt),
        )
    };
    let fired = attack_fires_spec(s.wizard, inp.attack_held, s.cfg, dt);
    let w1 = wizard_after_attack_spec(s.wizard, inp.attack_held, s.cfg, dt);
    let gs1 = if fired {
        area_damaged(s.goblins@, attack_targets, s.cfg.attack_strength as int)
    } else {
        s.goblins@
    };
    let summons = summons_spec(w1, inp.summon_pressed, s.cfg);
    let point = summon_point_spec(w1, s.cfg);
    let w2 = if summons {
        WizardState { mana: 0, ..w1 }
    } else {
        w1
    };
    let d1 = if summons {
        Option::Some(DemonState { id: s.next_id, pos: point, life: s.cfg.demon_life })
    } else {
        s.demon
    };
    let nid = if summons {
        sat_add_u64(s.next_id as int, 1) as u64
    } else {
        s.next_id
    };
    let gs2 = if summons {
        area_damaged(gs1, summon_targets, s.cfg.demon_strength as int)
    } else {
        gs1
    };
    let gs3 = if frozen {
        gs2
    } else {
        Seq::new(gs2.len(), |i: int| goblin_after_melee(gs2[i], w2.pos, s.cfg, dt))
    };
    let w3 = if frozen {
        w2
    } else {
        WizardState {
            health: health_after_strikes(w2.health as int, gs2, w2.pos, s.cfg, dt) as u64,
            ..w2
        }
    };
    let wizard_died = !w3.game_over && w3.health == 0;
    let w4 = vitals_spec(w3, s.cfg, dt);
    let d2 = demon_after_tick(d1, dt);
    let demon_expired = d2 matches Some(d) && d.life == 0;
    let d3 = if demon_expired {
        Option::<DemonState>::None
    } else {
        d2
    };
    TickModel {
        wizard: w4,
        goblins: kept_goblins(gs3),
        demon: d3,
        next_id: nid,
        wizard_move,
        goblin_moves,
        attack_fired: fired,
        summoned: if summons {
            Option::Some(point)
        } else {
            Option::None
        },
        wizard_died,
        removed_goblins: reaped_ids(gs3),
        demon_expired,
    }
}

/// The whole simulation: configuration, the wizard, the live goblins and
/// demon, the spawn schedule and the session clock.
pub struct Simulation {
    pub cfg: SimConfig,
    pub wizard: WizardState,
    pub goblins: Vec<GoblinState>,
    pub demon: Option<DemonState>,
    pub spawn_timer: IntervalTimer,
    /// Simulated session time, in milliseconds.
    pub elapsed_ms: u64,
    /// Next fresh entity handle; handles are never reused.
    pub next_id: u64,
}

impl Simulation {
    pub open spec fn goblins_wf(self) -> bool {
        forall|i: int|
            0 <= i < self.goblins@.len() ==> (#[trigger] self.goblins@[i]).wf(self.cfg)
    }

    /// Goblin handles are strictly increasing (hence unique) and below
    /// the next fresh handle.
    pub open spec fn ids_wf(self) -> bool {
        &&& forall|i: int, j: int|
            0 <= i < j < self.goblins@.len() ==> self.goblins@[i].id < self.goblins@[j].id
        &&& forall|i: int|
            0 <= i < self.goblins@.len() ==> (#[trigger] self.goblins@[i]).id < self.next_id
    }

    /// The invariant every public operation preserves: a valid
    /// configuration, vitals within their ranges, every entity inside the
    /// play field, unique handles, and a live spawn schedule.
    pub open spec fn wf(self) -> bool {
        &&& self.cfg.valid()
        &&& self.wizard.wf(self.cfg)
        &&& self.goblins_wf()
        &&& (self.demon matches Some(d) ==> d.wf())
        &&& self.spawn_timer.wf()
        &&& self.spawn_timer.period == self.cfg.spawn_interval
        &&& self.ids_wf()
    }

    /// Does a session value look freshly built at `wizard_pos`? The
    /// wizard alone, full health, the configured starting mana, facing
    /// north with the melee on cooldown; no goblins, no demon; the spawn
    /// timer a full interval from firing; the clock at zero.
    pub open spec fn is_initial(self, cfg: SimConfig, wizard_pos: Vec2) -> bool {
        &&& self.cfg == cfg
        &&& self.wizard == (WizardState {
            pos: wizard_pos,
            facing: Vec2 { x: 0, y: 1000 },
            mana: cfg.initial_mana,
            health: cfg.max_health,
            attack_cooldown: cfg.wizard_attack_cooldown,
            game_over: false,
        })
        &&& self.goblins@ == Seq::<GoblinState>::empty()
        &&& self.demon is None
        &&& self.spawn_timer == (IntervalTimer {
            period: cfg.spawn_interval,
            remaining: cfg.spawn_interval,
        })
        &&& self.elapsed_ms == 0
        &&& self.next_id == 0
    }

    /// A fresh session.
    pub fn new(cfg: SimConfig, wizard_pos: Vec2) -> (s: Simulation)
        requires
            cfg.valid(),
            in_bounds(wizard_pos),
        ensures
            s.wf(),
            s.is_initial(cfg, wizard_pos),
    {
        Simulation {
            cfg,
            wizard: WizardState::new(&cfg, wizard_pos),
            goblins: Vec::new(),
            demon: Option::None,
            spawn_timer: IntervalTimer::new(cfg.spawn_interval),
            elapsed_ms: 0,
            next_id: 0,
        }
    }

    /// Checked construction: rejects an invalid configuration or an
    /// out-of-field starting position instead of accepting a session the
    /// tick functions could not serve.
    pub fn try_new(cfg: SimConfig, wizard_pos: Vec2) -> (r: Option<Simulation>)
        ensures
            r is Some <==> (cfg.valid() && in_bounds(wizard_pos)),
            r matches Some(s) ==> s.wf() && s.is_initial(cfg, wizard_pos),
    {
        let ok = cfg.validate() && wizard_pos.x >= -crate::geom::POS_LIMIT && wizard_pos.x
            <= crate::geom::POS_LIMIT && wizard_pos.y >= -crate::geom::POS_LIMIT && wizard_pos.y
            <= crate::geom::POS_LIMIT;
        if ok {
            Option::Some(Simulation::new(cfg, wizard_pos))
        } else {
            Option::None
        }
    }

    /// Overwrites the wizard's position from the host's physics, which
    /// owns actual movement (commands may be cut short by collisions).
    pub fn set_wizard_position(&mut self, p: Vec2)
        requires
            old(self).wf(),
            in_bounds(p),
        ensures
            final(self).wf(),
            final(self).wizard == (WizardState { pos: p, ..old(self).wizard }),
            final(self).goblins@ == old(self).goblins@,
            final(self).demon == old(self).demon,
            final(self).cfg == old(self).cfg,
            final(self).spawn_timer == old(self).spawn_timer,
            final(self).elapsed_ms == old(self).elapsed_ms,
            final(self).next_id == old(self).next_id,
    {
        self.wizard.pos = p;
    }

    /// Overwrites the wizard's facing from the host's cursor aim.
    pub fn set_facing(&mut self, f: Vec2)
        requires
            old(self).wf(),
            facing_bounds(f),
        ensures
            final(self).wf(),
            final(self).wizard == (WizardState { facing: f, ..old(self).wizard }),
            final(self).goblins@ == old(self).goblins@,
            final(self).demon == old(self).demon,
            final(self).cfg == old(self).cfg,
            final(self).spawn_timer == old(self).spawn_timer,
            final(self).elapsed_ms == old(self).elapsed_ms,
            final(self).next_id == old(self).next_id,
    {
        self.wizard.facing = f;
    }

    /// Overwrites one goblin's position from the host's physics.
    pub fn set_goblin_position(&mut self, i: usize, p: Vec2)
        requires
            old(self).wf(),
            i < old(self).goblins@.len(),
            in_bounds(p),
        ensures
            final(self).wf(),
            final(self).goblins@ == old(self).goblins@.update(
                i as int,
                GoblinState { pos: p, ..old(self).goblins@[i as int] },
            ),
            final(self).wizard == old(self).wizard,
            final(self).demon == old(self).demon,
            final(self).cfg == old(self).cfg,
            final(self).spawn_timer == old(self).spawn_timer,
            final(self).elapsed_ms == old(self).elapsed_ms,
            final(self).next_id == old(self).next_id,
    {
        let g = self.goblins[i];
        self.goblins.set(i, GoblinState { pos: p, ..g });
    }

    /// The first tick phase: advances the session clock and the spawn
    /// schedule. When the schedule fires, draws a wave — a count uniform
    /// in `[1, level]` (never empty) and a random phase — and returns its
    /// placement requests; the host places each goblin on the spawn
    /// circle and hands it back through `add_goblin` before finishing
    /// the tick, so the newcomers are visible to targeting and combat.
    pub fn begin_tick(&mut self, dt: u64) -> (wave: Option<Wave>)
        requires
            old(self).wf(),
            dt <= DT_MAX,
        ensures
            final(self).wf(),
            final(self).cfg == old(self).cfg,
            final(self).wizard == old(self).wizard,
            final(self).goblins@ == old(self).goblins@,
            final(self).demon == old(self).demon,
            final(self).next_id == old(self).next_id,
            final(self).elapsed_ms == sat_add_u64(old(self).elapsed_ms as int, dt as int),
            final(self).spawn_timer == timer_after(old(self).spawn_timer, dt as int),
            wave is Some <==> timer_fires(old(self).spawn_timer, dt as int),
            wave matches Some(w) ==> {
                &&& w.level == level_spec(
                    sat_add_u64(old(self).elapsed_ms as int, dt as int),
                    old(self).cfg.level_offset as int,
                )
                &&& 1 <= w.requests@.len() <= w.level
                &&& w.phase < HALF_TURN
                &&& forall|i: int|
                    0 <= i < w.requests@.len() ==> (#[trigger] w.requests@[i]).angle
                        == spawn_angle(w.phase as int, i, w.requests@.len() as int)
            },
    {
        self.elapsed_ms = add_saturating(self.elapsed_ms, dt);
        let fired = self.spawn_timer.tick(dt);
        if fired {
            let level = current_level(self.elapsed_ms, self.cfg.level_offset);
            let (count, phase) = draw_wave_params(level);
            let requests = make_wave(count, phase);
            Option::Some(Wave { level, phase, requests })
        } else {
            Option::None
        }
    }

    /// Hands a spawned goblin to the simulation: full health, the melee
    /// cooldown fully wound so it cannot strike the instant it appears,
    /// and a fresh handle. Returns the handle, or nothing in the
    /// (practically unreachable) case that the handle space is spent.
    pub fn add_goblin(&mut self, pos: Vec2) -> (r: Option<u64>)
        requires
            old(self).wf(),
            in_bounds(pos),
        ensures
            final(self).wf(),
            final(self).cfg == old(self).cfg,
            final(self).wizard == old(self).wizard,
            final(self).demon == old(self).demon,
            final(self).spawn_timer == old(self).spawn_timer,
            final(self).elapsed_ms == old(self).elapsed_ms,
            old(self).next_id < u64::MAX ==> {
                &&& r == Some(old(self).next_id)
                &&& final(self).goblins@ == old(self).goblins@.push(
                    GoblinState {
                        id: old(self).next_id,
                        pos,
                        health: old(self).cfg.goblin_max_health,
                        attack_cooldown: old(self).cfg.goblin_attack_cooldown,
                    },
                )
                &&& final(self).next_id == old(self).next_id + 1
            },
            old(self).next_id == u64::MAX ==> r is None && final(self).goblins@ == old(
                self,
            ).goblins@ && final(self).next_id == old(self).next_id,
    {
        if self.next_id < u64::MAX {
            let id = self.next_id;
            self.goblins.push(
                GoblinState {
                    id,
                    pos,
                    health: self.cfg.goblin_max_health,
                    attack_cooldown: self.cfg.goblin_attack_cooldown,
                },
            );
            self.next_id = id + 1;
            Option::Some(id)
        } else {
            Option::None
        }
    }

    /// The second tick phase: the ordered pass after spawning. Targeting
    /// emits one movement command per goblin (the whole pass, goblin
    /// melee included, is suppressed once the game is over); the wizard's
    /// melee resolves against the host's proximity query around the
    /// wizard; a fresh summon press with a full mana pool places the
    /// demon ahead of the wizard, zeroes the mana pool, and smites the
    /// query around the summon point once — a one-shot effect, never
    /// repeated on later ticks (a new summon replaces a live demon: the
    /// session tracks at most one); every striking goblin lands one hit;
    /// vitals regenerate and may end the game; the demon burns down; and
    /// the dead are reaped, goblins killed this tick having acted with
    /// their pre-death state.
    pub fn finish_tick(
        &mut self,
        dt: u64,
        inputs: TickInputs,
        attack_targets: &Vec<u64>,
        summon_targets: &Vec<u64>,
    ) -> (out: TickOutput)
        requires
            old(self).wf(),
            dt <= DT_MAX,
        ensures
            final(self).wf(),
            final(self).cfg == old(self).cfg,
            final(self).elapsed_ms == old(self).elapsed_ms,
            final(self).spawn_timer == old(self).spawn_timer,
            ({
                let t = tick_spec(*old(self), inputs, attack_targets@, summon_targets@, dt as int);
                &&& final(self).wizard == t.wizard
                &&& final(self).goblins@ == t.goblins
                &&& final(self).demon == t.demon
                &&& final(self).next_id == t.next_id
                &&& out.wizard_move == t.wizard_move
                &&& out.goblin_moves@ == t.goblin_moves
                &&& out.attack_fired == t.attack_fired
                &&& out.summoned == t.summoned
                &&& out.wizard_died == t.wizard_died
                &&& out.removed_goblins@ == t.removed_goblins
                &&& out.demon_expired == t.demon_expired
            }),
            forall|i: int|
                0 <= i < final(self).goblins@.len() ==> (#[trigger] final(self).goblins@[i]).alive(),
            final(self).demon matches Some(d) ==> d.life > 0,
    {
        let ghost s0 = *old(self);
        let ghost t = tick_spec(s0, inputs, attack_targets@, summon_targets@, dt as int);
        let cfg = self.cfg;
        let frozen = self.wizard.game_over;

        // Targeting / movement pass (pure).
        let wizard_move: Option<WizardMove> = if frozen {
            Option::None
        } else {
            Option::Some(
                WizardMove { dir: wizard_move_dir(inputs), step: move_step(cfg.wizard_speed, dt) },
            )
        };
        let demon_pos: Option<Vec2> = match &self.demon {
            Option::None => Option::None,
            Option::Some(d) => Option::Some(d.pos),
        };
        proof {
            assert forall|i: int| 0 <= i < self.goblins@.len() implies in_bounds(
                (#[trigger] self.goblins@[i]).pos,
            ) by {
                assert(s0.goblins@[i].wf(s0.cfg));
            }
        }
        let goblin_moves: Vec<GoblinMove> = if frozen {
            Vec::new()
        } else {
            plan_moves(&self.goblins, self.wizard.pos, demon_pos, &cfg, dt)
        };
        proof {
            assert(goblin_moves@ =~= t.goblin_moves);
        }

        // Wizard melee channel.
        let fired = wizard_attack_step(
            &mut self.wizard,
            &mut self.goblins,
            inputs.attack_held,
            attack_targets,
            &cfg,
            dt,
        );
        let ghost w1 = self.wizard;
        let ghost gs1 = self.goblins@;

        // Demon summon channel (one-shot).
        let summoned: Option<Vec2> = if inputs.summon_pressed && self.wizard.mana
            >= cfg.max_mana {
            let point = summon_point(&self.wizard, &cfg);
            self.demon = Option::Some(
                DemonState { id: self.next_id, pos: point, life: cfg.demon_life },
            );
            self.next_id = add_saturating(self.next_id, 1);
            self.wizard.mana = 0;
            apply_area_damage(&mut self.goblins, summon_targets, cfg.demon_strength);
            Option::Some(point)
        } else {
            Option::None
        };
        let ghost w2 = self.wizard;
        let ghost gs2 = self.goblins@;
        proof {
            if fired {
                lemma_area_damaged_fields(s0.goblins@, attack_targets@, cfg.attack_strength as int);
            }
            if summoned is Some {
                lemma_area_damaged_fields(gs1, summon_targets@, cfg.demon_strength as int);
            }
            assert forall|i: int| 0 <= i < gs2.len() implies in_bounds((#[trigger] gs2[i]).pos)
                && gs2[i].health <= cfg.goblin_max_health && gs2[i].id == s0.goblins@[i].id by {
                assert(s0.goblins@[i].wf(s0.cfg));
            }
        }

        // Goblin melee channel (frozen with the movement pass).
        if !frozen {
            goblin_melee_step(&mut self.goblins, &mut self.wizard, &cfg, dt);
            proof {
                lemma_health_after_bounds(w2.health as int, gs2, w2.pos, cfg, dt as int);
            }
        }
        let ghost w3 = self.wizard;
        let ghost gs3 = self.goblins@;
        proof {
            if !frozen {
                assert(gs3 =~= Seq::new(
                    gs2.len(),
                    |i: int| goblin_after_melee(gs2[i], w2.pos, cfg, dt as int),
                ));
            }
            assert forall|i: int| 0 <= i < gs3.len() implies (#[trigger] gs3[i]).wf(cfg)
                && gs3[i].id == s0.goblins@[i].id by {
                assert(s0.goblins@[i].wf(s0.cfg));
            }
        }

        // Vitals.
        let wizard_died = self.wizard.tick_vitals(&cfg, dt);

        // Demon countdown and lifecycle.
        demon_tick(&mut self.demon, dt);
        let removed_goblins = reap_goblins(&mut self.goblins);
        let demon_expired = reap_demon(&mut self.demon);

        proof {
            lemma_kept_elements(gs3);
            assert forall|k: int| 0 <= k < self.goblins@.len() implies (#[trigger] self
                .goblins@[k]).wf(cfg) by {
                let i = choose|i: int| 0 <= i < gs3.len() && gs3[i] == kept_goblins(gs3)[k];
                assert(gs3[i].wf(cfg));
            }
            lemma_kept_ids(gs3, self.next_id);
        }

        TickOutput {
            wizard_move,
            goblin_moves,
            attack_fired: fired,
            summoned,
            wizard_died,
            removed_goblins,
            demon_expired,
        }
    }

    /// Current mana, as a read-only snapshot for the host's display.
    pub fn mana(&self) -> (r: u64)
        ensures
            r == self.wizard.mana,
    {
        self.wizard.mana
    }

    /// Current health, as a read-only snapshot for the host's display.
    pub fn health(&self) -> (r: u64)
        ensures
            r == self.wizard.health,
    {
        self.wizard.health
    }

    pub fn game_over(&self) -> (r: bool)
        ensures
            r == self.wizard.game_over,
    {
        self.wizard.game_over
    }

    /// The current difficulty step.
    pub fn level(&self) -> (r: u64)
        requires
            self.wf(),
        ensures
            r == level_spec(self.elapsed_ms as int, self.cfg.level_offset as int),
    {
        current_level(self.elapsed_ms, self.cfg.level_offset)
    }

    pub fn goblin_count(&self) -> (r: usize)
        ensures
            r == self.goblins@.len(),
    {
        self.goblins.len()
    }

    pub fn goblin(&self, i: usize) -> (g: GoblinState)
        requires
            i < self.goblins@.len(),
        ensures
            g == self.goblins@[i as int],
    {
        self.goblins[i]
    }

    pub fn demon_state(&self) -> (d: Option<DemonState>)
        ensures
            d == self.demon,
    {
        self.demon
    }

    /// A reference proximity query over the simulation's own positions:
    /// the handles of the goblins within `radius` of `center`, boundary
    /// inclusive, in order. A host with a physics engine may answer the
    /// combat channels from its own spatial index instead; the channels
    /// accept either (nothing depends on the boundary choice).
    pub fn goblin_ids_within(&self, center: Vec2, radius: u64) -> (r: Vec<u64>)
        requires
            self.wf(),
            in_bounds(center),
            radius <= crate::math::CFG_LIMIT,
        ensures
            r@ == ids_within_spec(self.goblins@, center, radius as int),
    {
        proof {
            assert((radius as i64) * (radius as i64) <= 1_000_000_000_000_000_000)
                by (nonlinear_arith)
                requires
                    radius <= 1_000_000_000,
            ;
        }
        let rsq: i64 = (radius as i64) * (radius as i64);
        let ghost gs0 = self.goblins@;
        let mut r: Vec<u64> = Vec::new();
        let mut i: usize = 0;
        while i < self.goblins.len()
            invariant
                i <= gs0.len(),
                self.goblins@ == gs0,
                self.wf(),
                in_bounds(center),
                rsq == (radius as int) * (radius as int),
                r@ == ids_within_spec(gs0.take(i as int), center, radius as int),
            decreases gs0.len() - i,
        {
            proof {
                assert(gs0.take(i + 1).drop_last() =~= gs0.take(i as int));
                assert(gs0.take(i + 1).last() == gs0[i as int]);
                assert(gs0[i as int].wf(self.cfg));
            }
            let g = self.goblins[i];
            if crate::geom::dist_sq(g.pos, center) <= rsq {
                r.push(g.id);
            }
            i = i + 1;
        }
        proof {
            assert(gs0.take(gs0.len() as int) =~= gs0);
        }
        r
    }
}

/// The handles of the goblins within `radius` of `center`, boundary
/// inclusive, in order.
pub open spec fn ids_within_spec(gs: Seq<GoblinState>, center: Vec2, radius: int) -> Seq<u64>
    decreases gs.len(),
{
    if gs.len() == 0 {
        Seq::empty()
    } else {
        let rest = ids_within_spec(gs.drop_last(), center, radius);
        if crate::geom::dist_sq_spec(gs.last().pos, center) <= radius * radius {
            rest.push(gs.last().id)
        } else {
            rest
        }
    }
}

/// Law: the reference proximity query holds a handle exactly when some
/// goblin carries it within the radius. With it, an area channel fed
/// from this query damages precisely the goblins inside the effect
/// circle, each exactly once.
pub proof fn lemma_ids_within_iff(gs: Seq<GoblinState>, center: Vec2, radius: int, id: u64)
    ensures
        ids_within_spec(gs, center, radius).contains(id) <==> exists|i: int|
            0 <= i < gs.len() && (#[trigger] gs[i]).id == id && crate::geom::dist_sq_spec(
                gs[i].pos,
                center,
            ) <= radius * radius,
    decreases gs.len(),
{
    if gs.len() > 0 {
        let d = gs.drop_last();
        let rest = ids_within_spec(d, center, radius);
        lemma_ids_within_iff(d, center, radius, id);
        assert(forall|i: int| 0 <= i < d.len() ==> #[trigger] d[i] == gs[i]);
        let within = ids_within_spec(gs, center, radius);
        let last = gs.last();
        let in_range = crate::geom::dist_sq_spec(last.pos, center) <= radius * radius;
        if within.contains(id) {
            let k = choose|k: int| 0 <= k < within.len() && within[k] == id;
            if in_range && k == rest.len() {
                assert(gs[gs.len() - 1].id == id && crate::geom::dist_sq_spec(
                    gs[gs.len() - 1].pos,
                    center,
                ) <= radius * radius);
            } else {
                assert(rest[k] == id);
                assert(rest.contains(id));
                let i = choose|i: int|
                    0 <= i < d.len() && (#[trigger] d[i]).id == id && crate::geom::dist_sq_spec(
                        d[i].pos,
                        center,
                    ) <= radius * radius;
                assert(gs[i].id == id && crate::geom::dist_sq_spec(gs[i].pos, center) <= radius
                    * radius);
            }
        }
        if exists|i: int|
            0 <= i < gs.len() && (#[trigger] gs[i]).id == id && crate::geom::dist_sq_spec(
                gs[i].pos,
                center,
            ) <= radius * radius {
            let i = choose|i: int|
                0 <= i < gs.len() && (#[trigger] gs[i]).id == id && crate::geom::dist_sq_spec(
                    gs[i].pos,
                    center,
                ) <= radius * radius;
            if i == gs.len() - 1 {
                assert(in_range);
                assert(within[rest.len() as int] == id);
                assert(within.contains(id));
            } else {
                assert(d[i].id == id && crate::geom::dist_sq_spec(d[i].pos, center) <= radius
                    * radius);
                assert(rest.contains(id));
                let k = choose|k: int| 0 <= k < rest.len() && rest[k] == id;
                assert(within[k] == id);
                assert(within.contains(id));
            }
        }
    }
}

/// The key direction of the wizard's movement command, one unit (1000)
/// per held key on each axis, in the host's screen-plane convention.
pub fn wizard_move_dir(inp: TickInputs) -> (r: Vec2)
    ensures
        r == wizard_move_dir_spec(inp),
{
    let x: i64 = (if inp.move_left {
        1000
    } else {
        0
    }) - (if inp.move_right {
        1000
    } else {
        0
    });
    let y: i64 = (if inp.move_down {
        1000
    } else {
        0
    }) - (if inp.move_up {
        1000
    } else {
        0
    });
    Vec2 { x, y }
}

} // verus!
