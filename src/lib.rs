//! Simulation kernel for small 2D sketches: vector math on fixed-point
//! coordinates, linear range mapping, boundary reflection, noise-driven
//! walkers, segment geometry, and the per-frame stepper that ties them together.
//!
//! Every coordinate is an `i64` count of micro-units (a millionth of a world
//! unit), so translation and reflection are exact. Angles and noise values
//! are computed by the host from the exact quantities this crate returns.
pub mod particle;
pub mod range_map;
pub mod segment;
pub mod vector;
pub mod walker;
pub mod world;
