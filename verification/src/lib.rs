//! Simulation core of a small real-time arena combat loop: a wizard fends off
//! waves of goblins with a regenerating mana pool that also powers a one-shot
//! demon summon.
//!
//! All quantities are fixed-point integers: distances, health, mana and speeds
//! carry three fractional digits (one game unit is 1000), and time is counted
//! in milliseconds. Rendering, input polling, physics and audio are host
//! concerns: the host hands the core plain values (elapsed time, input intents,
//! proximity-query results) and carries out the movement commands and spawn
//! requests the core emits.

pub mod ai;
pub mod combat;
pub mod config;
pub mod entities;
pub mod geom;
pub mod lifecycle;
pub mod math;
mod rng;
pub mod sim;
pub mod spawn;
pub mod timer;
pub mod vitals;
