//! A real-time relativistic particle-dynamics simulator.
//!
//! A mutable world of point masses is advanced in discrete time steps:
//! velocities are pre-integrated, pairwise elastic collisions are resolved
//! sequentially through a scratch buffer, and each particle's 4-velocity,
//! proper time and 4-position are then recomputed from its 3-velocity.
//! Per-step snapshots of particle state are extracted for an independent
//! presentation layer.
//!
//! All scalar quantities are fixed-point values ([`fixed::Fx`]): every
//! arithmetic step saturates at the `i64` range and truncates toward zero,
//! so each operation is a total, exactly specified function and the whole
//! simulation step is deterministic.

pub mod fixed;
pub mod laws;
pub mod phys;
pub mod threading;
pub mod vect;
