//! Simulation tuning values. All magnitudes are fixed-point (one game unit
//! is 1000), all durations are in milliseconds, and all rates are per
//! second. A configuration is validated once, when it is built; tick code
//! requires a valid configuration and never re-checks it.

use vstd::prelude::*;
use crate::math::CFG_LIMIT;

verus! {

#[derive(Clone, Copy, Debug, PartialEq, Eq, Structural)]
pub struct SimConfig {
    /// Mana ceiling; the demon summon demands a full pool.
    pub max_mana: u64,
    /// Mana regained per second.
    pub regen_rate: u64,
    /// Mana the wizard starts the session with.
    pub initial_mana: u64,
    /// Health ceiling; the wizard starts at this value.
    pub max_health: u64,
    /// Mana one melee attack costs.
    pub attack_mana_cost: u64,
    /// Health one wizard melee hit removes from a goblin.
    pub attack_strength: u64,
    /// Radius of the wizard's melee proximity query, centred on the wizard.
    pub attack_range: u64,
    /// Time between wizard melee attacks.
    pub wizard_attack_cooldown: u64,
    /// Wizard movement speed, distance per second.
    pub wizard_speed: u64,
    /// Health the demon's one-shot effect removes from a goblin.
    pub demon_strength: u64,
    /// Radius of the demon's one-shot effect, centred on the summon point.
    pub demon_range: u64,
    /// How long a summoned demon lives.
    pub demon_life: u64,
    /// How far in front of the wizard the demon appears.
    pub summon_offset: u64,
    /// A goblin flees a demon no farther away than this.
    pub fear_radius: u64,
    /// Health one goblin melee hit removes from the wizard.
    pub goblin_attack_damage: u64,
    /// A goblin may strike when the wizard is no farther away than this.
    pub goblin_attack_distance: u64,
    /// Time between melee attacks of one goblin.
    pub goblin_attack_cooldown: u64,
    /// Health a freshly spawned goblin has.
    pub goblin_max_health: u64,
    /// Goblin movement speed, distance per second.
    pub goblin_speed: u64,
    /// Period of the repeating spawn timer.
    pub spawn_interval: u64,
    /// Radius of the circle on which new goblins appear.
    pub spawn_radius: u64,
    /// Added to the elapsed-time wave count; keeps the level at least 1.
    pub level_offset: u64,
}

impl SimConfig {
    /// A configuration the tick functions accept: no zero-length interval,
    /// non-empty resource ranges, and every value small enough that all
    /// tick arithmetic stays inside the machine integer range.
    pub open spec fn valid(self) -> bool {
        &&& 1 <= self.max_mana <= CFG_LIMIT
        &&& self.regen_rate <= CFG_LIMIT
        &&& self.initial_mana <= self.max_mana
        &&& 1 <= self.max_health <= CFG_LIMIT
        &&& self.attack_mana_cost <= CFG_LIMIT
        &&& self.attack_strength <= CFG_LIMIT
        &&& self.attack_range <= CFG_LIMIT
        &&& self.wizard_attack_cooldown <= CFG_LIMIT
        &&& self.wizard_speed <= CFG_LIMIT
        &&& self.demon_strength <= CFG_LIMIT
        &&& self.demon_range <= CFG_LIMIT
        &&& self.demon_life <= CFG_LIMIT
        &&& self.summon_offset <= 1_000_000
        &&& self.fear_radius <= CFG_LIMIT
        &&& self.goblin_attack_damage <= CFG_LIMIT
        &&& self.goblin_attack_distance <= CFG_LIMIT
        &&& self.goblin_attack_cooldown <= CFG_LIMIT
        &&& 1 <= self.goblin_max_health <= CFG_LIMIT
        &&& self.goblin_speed <= CFG_LIMIT
        &&& 1 <= self.spawn_interval <= CFG_LIMIT
        &&& self.spawn_radius <= CFG_LIMIT
        &&& 1 <= self.level_offset <= CFG_LIMIT
    }

    /// The stock tuning: mana 10 regrowing 1 per second, wizard health 30,
    /// melee of strength 5 and range 3 every second for 1 mana, a demon of
    /// strength 10, range 5 and life 5 s summoned 3 units ahead, goblins of
    /// health 2 striking for 1 within range 2 every 3 s, waves every 5 s on
    /// a circle of radius 15, and a level two steps above the elapsed count.
    pub fn standard() -> (r: SimConfig)
        ensures
            r.valid(),
            r == (SimConfig {
                max_mana: 10_000,
                regen_rate: 1_000,
                initial_mana: 10_000,
                max_health: 30_000,
                attack_mana_cost: 1_000,
                attack_strength: 5_000,
                attack_range: 3_000,
                wizard_attack_cooldown: 1_000,
                wizard_speed: 6_000,
                demon_strength: 10_000,
                demon_range: 5_000,
                demon_life: 5_000,
                summon_offset: 3_000,
                fear_radius: 5_000,
                goblin_attack_damage: 1_000,
                goblin_attack_distance: 2_000,
                goblin_attack_cooldown: 3_000,
                goblin_max_health: 2_000,
                goblin_speed: 1_500,
                spawn_interval: 5_000,
                spawn_radius: 15_000,
                level_offset: 2,
            }),
    {
        SimConfig {
            max_mana: 10_000,
            regen_rate: 1_000,
            initial_mana: 10_000,
            max_health: 30_000,
            attack_mana_cost: 1_000,
            attack_strength: 5_000,
            attack_range: 3_000,
            wizard_attack_cooldown: 1_000,
            wizard_speed: 6_000,
            demon_strength: 10_000,
            demon_range: 5_000,
            demon_life: 5_000,
            summon_offset: 3_000,
            fear_radius: 5_000,
            goblin_attack_damage: 1_000,
            goblin_attack_distance: 2_000,
            goblin_attack_cooldown: 3_000,
            goblin_max_health: 2_000,
            goblin_speed: 1_500,
            spawn_interval: 5_000,
            spawn_radius: 15_000,
            level_offset: 2,
        }
    }

    /// Construction-time check: rejects zero-length intervals, empty
    /// resource ranges and out-of-range magnitudes.
    pub fn validate(&self) -> (r: bool)
        ensures
            r == self.valid(),
    {
        1 <= self.max_mana && self.max_mana <= CFG_LIMIT
            && self.regen_rate <= CFG_LIMIT
            && self.initial_mana <= self.max_mana
            && 1 <= self.max_health && self.max_health <= CFG_LIMIT
            && self.attack_mana_cost <= CFG_LIMIT
            && self.attack_strength <= CFG_LIMIT
            && self.attack_range <= CFG_LIMIT
            && self.wizard_attack_cooldown <= CFG_LIMIT
            && self.wizard_speed <= CFG_LIMIT
            && self.demon_strength <= CFG_LIMIT
            && self.demon_range <= CFG_LIMIT
            && self.demon_life <= CFG_LIMIT
            && self.summon_offset <= 1_000_000
            && self.fear_radius <= CFG_LIMIT
            && self.goblin_attack_damage <= CFG_LIMIT
            && self.goblin_attack_distance <= CFG_LIMIT
            && self.goblin_attack_cooldown <= CFG_LIMIT
            && 1 <= self.goblin_max_health && self.goblin_max_health <= CFG_LIMIT
            && self.goblin_speed <= CFG_LIMIT
            && 1 <= self.spawn_interval && self.spawn_interval <= CFG_LIMIT
            && self.spawn_radius <= CFG_LIMIT
            && 1 <= self.level_offset && self.level_offset <= CFG_LIMIT
    }
}

} // verus!
