//! Component-level checks: vitals, timers, spawn geometry, targeting and
//! the lifecycle filter, on concrete values.

use arena_sim::ai::compute_direction;
use arena_sim::config::SimConfig;
use arena_sim::entities::GoblinState;
use arena_sim::geom::Vec2;
use arena_sim::lifecycle::{reap_goblins, reap_demon};
use arena_sim::entities::DemonState;
use arena_sim::spawn::{current_level, draw_wave_params, make_wave};
use arena_sim::timer::IntervalTimer;
use arena_sim::vitals::WizardState;

fn cfg() -> SimConfig {
    SimConfig::standard()
}

#[test]
fn regen_adds_rate_times_dt() {
    // Mana 4, rate 1 per second: after 3 s it is exactly 7.
    let c = cfg();
    let mut w = WizardState::new(&c, Vec2 { x: 0, y: 0 });
    w.mana = 4_000;
    w.tick_vitals(&c, 3_000);
    assert_eq!(w.mana, 7_000);
}

#[test]
fn regen_clamps_at_max() {
    // A further 10 s clamps at 10, not 17.
    let c = cfg();
    let mut w = WizardState::new(&c, Vec2 { x: 0, y: 0 });
    w.mana = 7_000;
    w.tick_vitals(&c, 10_000);
    assert_eq!(w.mana, 10_000);
}

#[test]
fn vitals_bounds_hold_across_ticks() {
    let c = cfg();
    let mut w = WizardState::new(&c, Vec2 { x: 0, y: 0 });
    for _ in 0..100 {
        assert!(w.mana <= c.max_mana && w.health <= c.max_health);
        w.tick_vitals(&c, 700);
        assert!(w.mana <= c.max_mana && w.health <= c.max_health);
        w.apply_damage(300);
    }
    // Health clamps at zero, never wraps.
    w.apply_damage(u64::MAX);
    assert_eq!(w.health, 0);
}

#[test]
fn game_over_fires_once_at_zero_health() {
    let c = cfg();
    let mut w = WizardState::new(&c, Vec2 { x: 0, y: 0 });
    w.apply_damage(c.max_health);
    assert!(!w.game_over);
    let died_now = w.tick_vitals(&c, 16);
    assert!(died_now && w.game_over);
    let died_again = w.tick_vitals(&c, 16);
    assert!(!died_again && w.game_over);
}

#[test]
fn spend_mana_clamps_at_zero() {
    let c = cfg();
    let mut w = WizardState::new(&c, Vec2 { x: 0, y: 0 });
    w.spend_mana(2_500);
    assert_eq!(w.mana, 7_500);
    w.spend_mana(u64::MAX);
    assert_eq!(w.mana, 0);
}

#[test]
fn interval_timer_counts_down_and_wraps() {
    let mut t = IntervalTimer::new(5_000);
    assert!(!t.tick(4_999));
    assert_eq!(t.remaining, 1);
    assert!(t.tick(1));
    assert_eq!(t.remaining, 5_000);
    // A long delta wraps the overshoot around the period.
    assert!(t.tick(12_300));
    assert_eq!(t.remaining, 5_000 - (12_300 - 5_000) % 5_000);
}

#[test]
fn level_steps_every_thirty_seconds() {
    assert_eq!(current_level(0, 2), 2);
    assert_eq!(current_level(29_999, 2), 2);
    assert_eq!(current_level(30_000, 2), 3);
    assert_eq!(current_level(95_000, 2), 5);
    assert_eq!(current_level(0, 1), 1);
}

#[test]
fn spawn_draws_stay_in_level_range() {
    // At level 4, every draw falls in {1, 2, 3, 4}.
    let mut seen = [false; 5];
    for _ in 0..400 {
        let (count, phase) = draw_wave_params(4);
        assert!((1..=4).contains(&count));
        assert!(phase < 180_000);
        seen[count as usize] = true;
    }
    // A uniform draw over four values varies over 400 samples.
    assert!(seen.iter().filter(|s| **s).count() >= 2);
}

#[test]
fn wave_of_four_is_spaced_quarter_turns() {
    let wave = make_wave(4, 0);
    let angles: Vec<u64> = wave.iter().map(|r| r.angle).collect();
    assert_eq!(angles, vec![0, 90_000, 180_000, 270_000]);
    // The same spacing holds modulo any phase.
    let wave = make_wave(4, 123_456);
    let angles: Vec<u64> = wave.iter().map(|r| r.angle).collect();
    assert_eq!(angles, vec![123_456, 213_456, 303_456, 33_456]);
}

#[test]
fn wave_len_matches_count() {
    for count in 1..=9u64 {
        let wave = make_wave(count, 7_000);
        assert_eq!(wave.len() as u64, count);
        for r in wave.iter() {
            assert!(r.angle < 360_000);
        }
    }
}

#[test]
fn goblin_flees_closer_demon_within_fear_radius() {
    // Demon at distance 4, wizard at distance 6, fear radius 5: flee,
    // straight away from the demon.
    let g = Vec2 { x: 0, y: 0 };
    let dir = compute_direction(
        g,
        Vec2 { x: 0, y: -6_000 },
        Some(Vec2 { x: 0, y: 4_000 }),
        5_000,
    );
    assert_eq!(dir, Vec2 { x: 0, y: -4_000 });
}

#[test]
fn goblin_pursues_wizard_when_wizard_closer() {
    // Demon at distance 6, wizard at distance 4: pursue the wizard.
    let g = Vec2 { x: 0, y: 0 };
    let dir = compute_direction(
        g,
        Vec2 { x: 0, y: -4_000 },
        Some(Vec2 { x: 0, y: 6_000 }),
        5_000,
    );
    assert_eq!(dir, Vec2 { x: 0, y: -4_000 });
}

#[test]
fn goblin_pursues_when_demon_outside_fear_radius() {
    // Demon closer than the wizard but beyond the fear radius: pursue.
    let g = Vec2 { x: 0, y: 0 };
    let dir = compute_direction(
        g,
        Vec2 { x: 0, y: -9_000 },
        Some(Vec2 { x: 0, y: 6_000 }),
        5_000,
    );
    assert_eq!(dir, Vec2 { x: 0, y: -9_000 });
}

#[test]
fn goblin_pursues_without_demon() {
    let dir = compute_direction(
        Vec2 { x: 1_000, y: 2_000 },
        Vec2 { x: 4_000, y: -2_000 },
        None,
        5_000,
    );
    assert_eq!(dir, Vec2 { x: 3_000, y: -4_000 });
}

fn goblin(id: u64, health: u64) -> GoblinState {
    GoblinState { id, pos: Vec2 { x: 0, y: 0 }, health, attack_cooldown: 0 }
}

#[test]
fn reap_removes_exactly_the_dead() {
    let mut gs = vec![goblin(0, 0), goblin(1, 500), goblin(2, 0), goblin(3, 2_000)];
    let removed = reap_goblins(&mut gs);
    assert_eq!(removed, vec![0, 2]);
    let ids: Vec<u64> = gs.iter().map(|g| g.id).collect();
    assert_eq!(ids, vec![1, 3]);
}

#[test]
fn reap_twice_removes_nothing_the_second_time() {
    let mut gs = vec![goblin(0, 0), goblin(1, 500), goblin(2, 0)];
    let first = reap_goblins(&mut gs);
    assert_eq!(first, vec![0, 2]);
    let second = reap_goblins(&mut gs);
    assert!(second.is_empty());
    assert_eq!(gs.len(), 1);
}

#[test]
fn expired_demon_is_reaped() {
    let mut d = Some(DemonState { id: 9, pos: Vec2 { x: 0, y: 0 }, life: 0 });
    assert!(reap_demon(&mut d));
    assert!(d.is_none());
    let mut live = Some(DemonState { id: 9, pos: Vec2 { x: 0, y: 0 }, life: 1 });
    assert!(!reap_demon(&mut live));
    assert!(live.is_some());
}

#[test]
fn invalid_configuration_is_rejected_at_construction() {
    let mut c = cfg();
    c.spawn_interval = 0;
    assert!(!c.validate());
    assert!(arena_sim::sim::Simulation::try_new(c, Vec2 { x: 0, y: 0 }).is_none());
    let mut c2 = cfg();
    c2.initial_mana = c2.max_mana + 1;
    assert!(!c2.validate());
    let c3 = cfg();
    assert!(arena_sim::sim::Simulation::try_new(c3, Vec2 { x: 0, y: 0 }).is_some());
}
