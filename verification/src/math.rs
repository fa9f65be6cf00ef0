//! Saturating and clamping arithmetic shared by every component. Health,
//! mana, cooldowns and lifetimes are unsigned fixed-point values that clamp
//! at zero rather than going negative.

use vstd::prelude::*;

verus! {

/// Largest per-tick time delta the core accepts, in milliseconds.
pub const DT_MAX: u64 = 1_000_000_000;

/// Largest magnitude any configuration value may take; keeps every product
/// and sum in the simulation inside the machine integer range.
pub const CFG_LIMIT: u64 = 1_000_000_000;

/// `a - b`, clamped at zero.
pub open spec fn sat_sub(a: int, b: int) -> int {
    if a >= b {
        a - b
    } else {
        0
    }
}

/// `a + b`, clamped at `cap`.
pub open spec fn capped_add(a: int, b: int, cap: int) -> int {
    if a + b > cap {
        cap
    } else {
        a + b
    }
}

pub fn sub_clamped(a: u64, b: u64) -> (r: u64)
    ensures
        r == sat_sub(a as int, b as int),
{
    if a >= b {
        a - b
    } else {
        0
    }
}

pub fn add_capped(a: u64, b: u64, cap: u64) -> (r: u64)
    requires
        a + b <= u64::MAX,
    ensures
        r == capped_add(a as int, b as int, cap as int),
{
    let s: u64 = a + b;
    if s > cap {
        cap
    } else {
        s
    }
}

/// `a + b`, clamped at the top of the machine range; used for the session
/// clock, which may run arbitrarily long.
pub open spec fn sat_add_u64(a: int, b: int) -> int {
    if a + b > u64::MAX {
        u64::MAX as int
    } else {
        a + b
    }
}

pub fn add_saturating(a: u64, b: u64) -> (r: u64)
    ensures
        r == sat_add_u64(a as int, b as int),
{
    if a <= u64::MAX - b {
        a + b
    } else {
        u64::MAX
    }
}

} // verus!
