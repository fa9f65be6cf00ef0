//! The spawn director: a repeating interval timer and a wave-scaling rule.
//! When the timer fires, the director draws a goblin count uniformly from
//! `[1, level]` — the level climbing one step every 30 simulated seconds —
//! and lays the wave out evenly around a circle, rotated by a random phase
//! so successive waves are not visually aligned.
//!
//! Angles are fixed-point degrees (a full turn is 360 000). The director
//! hands out angles; turning an angle on the spawn circle into a cartesian
//! point is the host's trigonometry.

use vstd::prelude::*;
use vstd::arithmetic::div_mod::{
    lemma_add_mod_noop, lemma_div_multiples_vanish, lemma_div_pos_is_pos,
    lemma_multiply_divide_lt, lemma_small_mod,
};
use crate::math::CFG_LIMIT;
use crate::rng::rand_range;

verus! {

/// A full turn of the spawn circle, in fixed-point degrees.
pub const FULL_TURN: u64 = 360_000;

/// The random wave phase is drawn below a half turn.
pub const HALF_TURN: u64 = 180_000;

/// One goblin to be placed: on the spawn circle, at this angle.
#[derive(Clone, Copy, Debug, PartialEq, Eq, Structural)]
pub struct SpawnRequest {
    /// Angle on the spawn circle, in `[0, FULL_TURN)`.
    pub angle: u64,
}

/// The difficulty step: one per 30 elapsed seconds, plus the configured
/// offset, so it is never below 1.
pub open spec fn level_spec(elapsed_ms: int, offset: int) -> int {
    elapsed_ms / 30_000 + offset
}

pub fn current_level(elapsed_ms: u64, offset: u64) -> (r: u64)
    requires
        1 <= offset <= CFG_LIMIT,
    ensures
        r == level_spec(elapsed_ms as int, offset as int),
        r >= 1,
{
    elapsed_ms / 30_000 + offset
}

/// Angle of the `i`th goblin of a wave of `count`, rotated by `phase`:
/// even fractions of a full turn, wrapped around it.
pub open spec fn spawn_angle(phase: int, i: int, count: int) -> int
    recommends
        0 < count,
{
    (phase + (i * 360_000) / count) % 360_000
}

/// Lays a wave out: `count` spawn requests at even angular spacing,
/// rotated by `phase`.
pub fn make_wave(count: u64, phase: u64) -> (r: Vec<SpawnRequest>)
    requires
        1 <= count,
        phase < FULL_TURN,
    ensures
        r@.len() == count,
        forall|i: int|
            0 <= i < count ==> (#[trigger] r@[i]).angle == spawn_angle(
                phase as int,
                i,
                count as int,
            ),
{
    let mut r: Vec<SpawnRequest> = Vec::new();
    let mut n: u64 = 0;
    while n < count
        invariant
            n <= count,
            1 <= count,
            phase < 360_000,
            r@.len() == n,
            forall|i: int|
                0 <= i < n ==> (#[trigger] r@[i]).angle == spawn_angle(
                    phase as int,
                    i,
                    count as int,
                ),
        decreases count - n,
    {
        proof {
            assert(n * 360_000 < count * 360_000) by (nonlinear_arith)
                requires
                    n < count,
            ;
            lemma_multiply_divide_lt(n as int * 360_000, count as int, 360_000);
            lemma_div_pos_is_pos(n as int * 360_000, count as int);
        }
        let step: u64 = ((n as u128) * 360_000 / (count as u128)) as u64;
        let angle: u64 = (phase + step) % 360_000;
        r.push(SpawnRequest { angle });
        n = n + 1;
    }
    r
}

/// Draws the random parameters of one wave: a goblin count uniform in
/// `[1, level]` and a phase uniform below a half turn. Waves are never
/// empty: the count range is inclusive of 1.
pub fn draw_wave_params(level: u64) -> (r: (u64, u64))
    requires
        level >= 1,
    ensures
        1 <= r.0 <= level,
        r.1 < HALF_TURN,
{
    let count = rand_range(1, level);
    let phase = rand_range(0, HALF_TURN - 1);
    (count, phase)
}

/// Law: wave spacing is even. Whenever the goblin count divides the full
/// turn exactly, consecutive spawn angles of one wave differ by exactly
/// `FULL_TURN / count`, whatever the random phase — four goblins stand a
/// quarter turn apart. (For a count that does not divide the full turn,
/// fixed-point rounding may shift single angles by one step.)
pub proof fn lemma_wave_even_spacing(phase: int, count: int, i: int)
    requires
        0 <= phase,
        1 < count,
        360_000int % count == 0,
        0 <= i,
        i + 1 < count,
    ensures
        spawn_angle(phase, i + 1, count) == (spawn_angle(phase, i, count) + 360_000int / count)
            % 360_000,
{
    let q = 360_000int / count;
    assert(count * q == 360_000) by {
        vstd::arithmetic::div_mod::lemma_fundamental_div_mod(360_000, count);
    }
    assert(q < 360_000 && q >= 1) by (nonlinear_arith)
        requires
            count * q == 360_000,
            count > 1,
    ;
    assert(i * 360_000 == count * (i * q)) by (nonlinear_arith)
        requires
            count * q == 360_000,
    ;
    assert((i + 1) * 360_000 == count * ((i + 1) * q)) by (nonlinear_arith)
        requires
            count * q == 360_000,
    ;
    lemma_div_multiples_vanish(i * q, count);
    lemma_div_multiples_vanish((i + 1) * q, count);
    assert((i + 1) * q == i * q + q) by (nonlinear_arith);
    assert((i * 360_000) / count == i * q);
    assert(((i + 1) * 360_000) / count == i * q + q);
    let a = phase + i * q;
    lemma_add_mod_noop(a, q, 360_000);
    lemma_small_mod(q as nat, 360_000 as nat);
    assert((a % 360_000 + q) % 360_000 == (a + q) % 360_000);
}

} // verus!
