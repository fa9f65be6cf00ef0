//! Whole-tick scenarios through `Simulation`: spawning, combat order,
//! the demon one-shot, game-over freezing and the lifecycle.

use arena_sim::config::SimConfig;
use arena_sim::geom::Vec2;
use arena_sim::sim::{Simulation, TickInputs};

fn idle() -> TickInputs {
    TickInputs {
        move_up: false,
        move_down: false,
        move_left: false,
        move_right: false,
        attack_held: false,
        summon_pressed: false,
    }
}

fn origin() -> Vec2 {
    Vec2 { x: 0, y: 0 }
}

fn no_targets() -> Vec<u64> {
    Vec::new()
}

#[test]
fn vitals_stay_in_range_across_many_ticks() {
    let cfg = SimConfig::standard();
    let mut sim = Simulation::new(cfg, origin());
    for n in 0..200u64 {
        assert!(sim.mana() <= cfg.max_mana && sim.health() <= cfg.max_health);
        let wave = sim.begin_tick(333);
        if let Some(w) = wave {
            assert!(1 <= w.requests.len() as u64 && w.requests.len() as u64 <= w.level);
            for r in w.requests.iter() {
                // Place the wave on the axes' corners of the spawn circle
                // rather than doing trigonometry here.
                let p = if r.angle < 180_000 {
                    Vec2 { x: cfg.spawn_radius as i64, y: 0 }
                } else {
                    Vec2 { x: -(cfg.spawn_radius as i64), y: 0 }
                };
                let _ = sim.add_goblin(p);
            }
        }
        let mut inputs = idle();
        inputs.attack_held = n % 3 == 0;
        let attack_targets = sim.goblin_ids_within(origin(), cfg.attack_range);
        sim.finish_tick(333, inputs, &attack_targets, &no_targets());
        assert!(sim.mana() <= cfg.max_mana && sim.health() <= cfg.max_health);
        // No dead goblin survives a tick.
        for i in 0..sim.goblin_count() {
            assert!(sim.goblin(i).health > 0);
        }
    }
}

#[test]
fn spawn_timer_fires_on_schedule() {
    let cfg = SimConfig::standard();
    let mut sim = Simulation::new(cfg, origin());
    assert!(sim.begin_tick(4_999).is_none());
    let wave = sim.begin_tick(1).expect("the interval elapsed");
    assert_eq!(wave.level, 2);
    assert!((1..=2).contains(&(wave.requests.len() as u64)));
    sim.finish_tick(1, idle(), &no_targets(), &no_targets());
}

#[test]
fn killed_goblin_is_reaped_and_never_seen_negative() {
    // A goblin of health 5 takes a strength-5 hit: zero, then removed.
    let mut cfg = SimConfig::standard();
    cfg.goblin_max_health = 5_000;
    cfg.attack_strength = 5_000;
    let mut sim = Simulation::new(cfg, origin());
    sim.begin_tick(1_000);
    let id = sim.add_goblin(Vec2 { x: 0, y: 1_000 }).unwrap();
    let mut inputs = idle();
    inputs.attack_held = true;
    let targets = vec![id];
    let out = sim.finish_tick(1_000, inputs, &targets, &no_targets());
    assert!(out.attack_fired);
    assert_eq!(out.removed_goblins, vec![id]);
    assert_eq!(sim.goblin_count(), 0);
}

#[test]
fn dying_goblin_still_strikes_with_pre_death_state() {
    // Combat uses this tick's pre-death state: the goblin killed by the
    // wizard's melee still lands its own hit before the reap.
    let cfg = SimConfig::standard();
    let mut sim = Simulation::new(cfg, origin());
    sim.begin_tick(1_000);
    let id = sim.add_goblin(Vec2 { x: 0, y: 1_000 }).unwrap();
    // Wind the goblin's cooldown down to 1 s without letting it strike.
    sim.finish_tick(2_000, idle(), &no_targets(), &no_targets());
    let mut inputs = idle();
    inputs.attack_held = true;
    let targets = vec![id];
    let out = sim.finish_tick(1_000, inputs, &targets, &no_targets());
    assert!(out.attack_fired);
    assert_eq!(out.removed_goblins, vec![id]);
    assert_eq!(sim.health(), cfg.max_health - cfg.goblin_attack_damage);
}

#[test]
fn summon_costs_all_mana_and_smites_once() {
    // Summoning at full mana zeroes the pool and damages every goblin in
    // the effect radius exactly once, never again on later ticks.
    let mut cfg = SimConfig::standard();
    cfg.goblin_max_health = 15_000;
    let mut sim = Simulation::new(cfg, origin());
    sim.begin_tick(0);
    let near = sim.add_goblin(Vec2 { x: 0, y: 5_000 }).unwrap();
    let far = sim.add_goblin(Vec2 { x: 0, y: 20_000 }).unwrap();
    assert_eq!(sim.mana(), cfg.max_mana);
    // The demon appears 3 units ahead of the wizard, facing north.
    let summon_point = Vec2 { x: 0, y: 3_000 };
    let summon_targets = sim.goblin_ids_within(summon_point, cfg.demon_range);
    assert_eq!(summon_targets, vec![near]);
    let mut inputs = idle();
    inputs.summon_pressed = true;
    let out = sim.finish_tick(0, inputs, &no_targets(), &summon_targets);
    assert_eq!(out.summoned, Some(summon_point));
    assert_eq!(sim.mana(), 0);
    let demon = sim.demon_state().expect("a demon was summoned");
    assert_eq!(demon.pos, summon_point);
    assert_eq!(demon.life, cfg.demon_life);
    assert_eq!(sim.goblin(0).id, near);
    assert_eq!(sim.goblin(0).health, 15_000 - cfg.demon_strength);
    assert_eq!(sim.goblin(1).id, far);
    assert_eq!(sim.goblin(1).health, 15_000);
    // A second press without a full pool does nothing, and the one-shot
    // effect is not repeated.
    let out2 = sim.finish_tick(0, inputs, &no_targets(), &summon_targets);
    assert_eq!(out2.summoned, None);
    assert_eq!(sim.goblin(0).health, 15_000 - cfg.demon_strength);
}

#[test]
fn summon_needs_full_mana_and_a_fresh_press() {
    let cfg = SimConfig::standard();
    let mut sim = Simulation::new(cfg, origin());
    // Not pressed: no summon even at full mana.
    let out = sim.finish_tick(0, idle(), &no_targets(), &no_targets());
    assert!(out.summoned.is_none() && sim.demon_state().is_none());
    // Pressed below full mana: no summon.
    sim.wizard.mana = cfg.max_mana - 1;
    let mut inputs = idle();
    inputs.summon_pressed = true;
    let out = sim.finish_tick(0, inputs, &no_targets(), &no_targets());
    assert!(out.summoned.is_none() && sim.demon_state().is_none());
}

#[test]
fn new_summon_replaces_the_live_demon() {
    // The session tracks at most one demon: summoning over a live one
    // replaces it (the host despawns by handle when told).
    let cfg = SimConfig::standard();
    let mut sim = Simulation::new(cfg, origin());
    let mut inputs = idle();
    inputs.summon_pressed = true;
    sim.finish_tick(0, inputs, &no_targets(), &no_targets());
    let first = sim.demon_state().unwrap();
    sim.wizard.mana = cfg.max_mana;
    sim.finish_tick(1_000, inputs, &no_targets(), &no_targets());
    let second = sim.demon_state().unwrap();
    assert_ne!(first.id, second.id);
    assert_eq!(second.life, cfg.demon_life - 1_000);
}

#[test]
fn attack_spends_mana_before_the_summon_gate() {
    // Combat order: the melee channel resolves first, so its mana cost
    // empties the "full pool" the summon gate demands on the same tick.
    let mut cfg = SimConfig::standard();
    cfg.regen_rate = 0;
    let mut sim = Simulation::new(cfg, origin());
    let mut inputs = idle();
    inputs.attack_held = true;
    inputs.summon_pressed = true;
    let out = sim.finish_tick(1_000, inputs, &no_targets(), &no_targets());
    assert!(out.attack_fired);
    assert!(out.summoned.is_none());
    assert_eq!(sim.mana(), cfg.max_mana - cfg.attack_mana_cost);
}

#[test]
fn summon_point_follows_the_facing() {
    let cfg = SimConfig::standard();
    let mut sim = Simulation::new(cfg, origin());
    sim.set_facing(Vec2 { x: -1_000, y: 0 });
    let mut inputs = idle();
    inputs.summon_pressed = true;
    let out = sim.finish_tick(0, inputs, &no_targets(), &no_targets());
    assert_eq!(out.summoned, Some(Vec2 { x: -3_000, y: 0 }));
}

#[test]
fn demon_expires_when_its_life_runs_out() {
    let cfg = SimConfig::standard();
    let mut sim = Simulation::new(cfg, origin());
    let mut inputs = idle();
    inputs.summon_pressed = true;
    sim.finish_tick(0, inputs, &no_targets(), &no_targets());
    assert!(sim.demon_state().is_some());
    let out = sim.finish_tick(2_000, idle(), &no_targets(), &no_targets());
    assert!(!out.demon_expired);
    assert_eq!(sim.demon_state().unwrap().life, 3_000);
    let out = sim.finish_tick(3_000, idle(), &no_targets(), &no_targets());
    assert!(out.demon_expired);
    assert!(sim.demon_state().is_none());
}

#[test]
fn goblin_melee_respects_range_and_cooldown() {
    let cfg = SimConfig::standard();
    let mut sim = Simulation::new(cfg, origin());
    sim.begin_tick(0);
    sim.add_goblin(Vec2 { x: 0, y: 1_000 }).unwrap();
    sim.add_goblin(Vec2 { x: 0, y: 9_000 }).unwrap();
    // One tick of 3 s runs both cooldowns out; only the near goblin hits.
    sim.finish_tick(3_000, idle(), &no_targets(), &no_targets());
    assert_eq!(sim.health(), cfg.max_health - cfg.goblin_attack_damage);
    // The striker rearmed: 1 s later it cannot hit again.
    sim.finish_tick(1_000, idle(), &no_targets(), &no_targets());
    assert_eq!(sim.health(), cfg.max_health - cfg.goblin_attack_damage);
    // The near goblin's cooldown runs out again after 3 s in total.
    sim.finish_tick(2_000, idle(), &no_targets(), &no_targets());
    assert_eq!(sim.health(), cfg.max_health - 2 * cfg.goblin_attack_damage);
}

#[test]
fn wizard_attack_gated_by_cooldown_mana_and_trigger() {
    let mut cfg = SimConfig::standard();
    cfg.regen_rate = 0;
    cfg.goblin_max_health = 20_000;
    let mut sim = Simulation::new(cfg, origin());
    sim.begin_tick(500);
    let id = sim.add_goblin(Vec2 { x: 0, y: 2_000 }).unwrap();
    let targets = vec![id];
    let mut inputs = idle();
    inputs.attack_held = true;
    // Cooldown (1 s at start) has not run out yet: no attack.
    let out = sim.finish_tick(500, inputs, &targets, &no_targets());
    assert!(!out.attack_fired);
    // Cooldown runs out now: the attack fires and costs mana.
    let out = sim.finish_tick(500, inputs, &targets, &no_targets());
    assert!(out.attack_fired);
    assert_eq!(sim.mana(), cfg.max_mana - cfg.attack_mana_cost);
    assert_eq!(sim.goblin(0).health, cfg.goblin_max_health.saturating_sub(cfg.attack_strength));
    // Trigger released: no attack even with the cooldown run out.
    let out = sim.finish_tick(1_000, idle(), &targets, &no_targets());
    assert!(!out.attack_fired);
    // Without mana the attack cannot fire.
    sim.wizard.mana = cfg.attack_mana_cost - 1;
    let out = sim.finish_tick(1_000, inputs, &targets, &no_targets());
    assert!(!out.attack_fired);
}

#[test]
fn game_over_freezes_movement_and_goblin_melee() {
    let cfg = SimConfig::standard();
    let mut sim = Simulation::new(cfg, origin());
    sim.begin_tick(0);
    sim.add_goblin(Vec2 { x: 0, y: 1_000 }).unwrap();
    let mut inputs = idle();
    inputs.move_up = true;
    let out = sim.finish_tick(0, inputs, &no_targets(), &no_targets());
    assert!(out.wizard_move.is_some());
    assert_eq!(out.goblin_moves.len(), 1);
    // Run the wizard's health out: the transition fires exactly once.
    sim.wizard.health = 0;
    let out = sim.finish_tick(0, inputs, &no_targets(), &no_targets());
    assert!(out.wizard_died && sim.game_over());
    // From the next tick on, the whole movement/melee pass is frozen,
    // while spawning and the demon countdown continue.
    let out = sim.finish_tick(3_000, inputs, &no_targets(), &no_targets());
    assert!(!out.wizard_died);
    assert!(out.wizard_move.is_none());
    assert!(out.goblin_moves.is_empty());
    assert_eq!(sim.health(), 0);
    let wave = sim.begin_tick(5_000);
    assert!(wave.is_some());
}

#[test]
fn movement_command_follows_held_keys() {
    let cfg = SimConfig::standard();
    let mut sim = Simulation::new(cfg, origin());
    let mut inputs = idle();
    inputs.move_up = true;
    inputs.move_left = true;
    let out = sim.finish_tick(100, inputs, &no_targets(), &no_targets());
    let mv = out.wizard_move.unwrap();
    assert_eq!(mv.dir, Vec2 { x: 1_000, y: -1_000 });
    assert_eq!(mv.step, cfg.wizard_speed * 100 / 1_000);
}

#[test]
fn proximity_query_is_boundary_inclusive_and_ordered() {
    let cfg = SimConfig::standard();
    let mut sim = Simulation::new(cfg, origin());
    sim.begin_tick(0);
    let a = sim.add_goblin(Vec2 { x: 3_000, y: 0 }).unwrap();
    let _b = sim.add_goblin(Vec2 { x: 3_001, y: 0 }).unwrap();
    let c = sim.add_goblin(Vec2 { x: -2_000, y: 0 }).unwrap();
    let ids = sim.goblin_ids_within(origin(), 3_000);
    assert_eq!(ids, vec![a, c]);
}

#[test]
fn spawned_goblin_cannot_strike_at_once() {
    let cfg = SimConfig::standard();
    let mut sim = Simulation::new(cfg, origin());
    sim.begin_tick(0);
    sim.add_goblin(Vec2 { x: 0, y: 500 }).unwrap();
    // In range, but the spawn cooldown (3 s) is fully wound.
    sim.finish_tick(1_000, idle(), &no_targets(), &no_targets());
    assert_eq!(sim.health(), cfg.max_health);
}
