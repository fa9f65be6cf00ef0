//! The wizard's vitals: health, mana, regeneration, the attack cooldown and
//! the game-over flag. Health and mana always stay within `[0, max]`; the
//! game-over transition fires once, when health has reached zero, and is
//! never undone.

use vstd::prelude::*;
use crate::config::SimConfig;
use crate::geom::{Vec2, in_bounds, facing_bounds};
use crate::math::{DT_MAX, sat_sub, capped_add, sub_clamped, add_capped};

verus! {

#[derive(Clone, Copy, Debug, PartialEq, Eq, Structural)]
pub struct WizardState {
    /// Position in the play plane, kept in step with the host's physics.
    pub pos: Vec2,
    /// Facing direction (nominally of length 1000), set from cursor aim.
    pub facing: Vec2,
    /// Mana, in `[0, max_mana]`.
    pub mana: u64,
    /// Health, in `[0, max_health]`.
    pub health: u64,
    /// Time left until the next melee attack is permitted.
    pub attack_cooldown: u64,
    /// Set once health reaches zero; never cleared.
    pub game_over: bool,
}

/// Mana regained over `dt` milliseconds at `rate` per second.
pub open spec fn regen_amount(rate: int, dt: int) -> int {
    rate * dt / 1000
}

/// One vitals tick: regenerate mana, clamp it to the ceiling, and raise the
/// game-over flag if health has run out.
pub open spec fn vitals_spec(w: WizardState, cfg: SimConfig, dt: int) -> WizardState {
    WizardState {
        mana: capped_add(w.mana as int, regen_amount(cfg.regen_rate as int, dt), cfg.max_mana as int) as u64,
        game_over: w.game_over || w.health == 0,
        ..w
    }
}

impl WizardState {
    pub open spec fn wf(self, cfg: SimConfig) -> bool {
        &&& in_bounds(self.pos)
        &&& facing_bounds(self.facing)
        &&& self.mana <= cfg.max_mana
        &&& self.health <= cfg.max_health
    }

    /// A fresh wizard: full health, the configured starting mana, facing
    /// north, with the melee attack initially on cooldown.
    pub fn new(cfg: &SimConfig, pos: Vec2) -> (w: WizardState)
        requires
            cfg.valid(),
            in_bounds(pos),
        ensures
            w == (WizardState {
                pos,
                facing: Vec2 { x: 0, y: 1000 },
                mana: cfg.initial_mana,
                health: cfg.max_health,
                attack_cooldown: cfg.wizard_attack_cooldown,
                game_over: false,
            }),
            w.wf(*cfg),
    {
        WizardState {
            pos,
            facing: Vec2 { x: 0, y: 1000 },
            mana: cfg.initial_mana,
            health: cfg.max_health,
            attack_cooldown: cfg.wizard_attack_cooldown,
            game_over: false,
        }
    }

    /// Per-tick vitals update. Returns whether the game-over flag was raised
    /// on this very tick (it fires at most once per session).
    pub fn tick_vitals(&mut self, cfg: &SimConfig, dt: u64) -> (just_died: bool)
        requires
            old(self).wf(*cfg),
            cfg.valid(),
            dt <= DT_MAX,
        ensures
            *final(self) == vitals_spec(*old(self), *cfg, dt as int),
            final(self).wf(*cfg),
            just_died == (!old(self).game_over && old(self).health == 0),
    {
        proof {
            assert(cfg.regen_rate * dt <= 1_000_000_000_000_000_000) by (nonlinear_arith)
                requires
                    cfg.regen_rate <= 1_000_000_000,
                    dt <= 1_000_000_000,
            ;
        }
        let regen: u64 = cfg.regen_rate * dt / 1000;
        self.mana = add_capped(self.mana, regen, cfg.max_mana);
        let just_died = self.health == 0 && !self.game_over;
        if just_died {
            self.game_over = true;
        }
        just_died
    }

    /// Damage clamps health at zero; it never wraps below.
    pub fn apply_damage(&mut self, amount: u64)
        ensures
            *final(self) == (WizardState {
                health: sat_sub(old(self).health as int, amount as int) as u64,
                ..*old(self)
            }),
    {
        self.health = sub_clamped(self.health, amount);
    }

    /// Spends mana, clamping at zero. Sufficiency is the caller's gate: the
    /// attack channels check their mana cost before spending.
    pub fn spend_mana(&mut self, amount: u64)
        ensures
            *final(self) == (WizardState {
                mana: sat_sub(old(self).mana as int, amount as int) as u64,
                ..*old(self)
            }),
    {
        self.mana = sub_clamped(self.mana, amount);
    }
}

} // verus!
