//! A particle cloud that drifts upward and fades, simulated in fixed-point
//! arithmetic: a population of particles that is spawned, culled and moved
//! once per tick.

pub mod particle;
pub mod random;
pub mod world;
pub mod laws;
