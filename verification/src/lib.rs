//! Core pieces of a particle-based simulation engine: particle kinds and the
//! name/kind registry, the pair-interaction registry keyed by unordered kind
//! pairs, molecule selection for Monte Carlo moves, and the propagator
//! dispatch used when a simulation description is read from a TOML table.
//!
//! The floating-point numerics of the engine (potentials, integrators, the
//! minimizer) live outside this verified core.

pub mod input;
pub mod interactions;
pub mod kinds;
pub mod mc;
