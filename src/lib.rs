//! Keeps a particle fluid solver's state consistent with the scene entities
//! that declare fluids, and fixes the order of the per-frame stages.
//!
//! - `context`: the entity-to-handle registry over the solver state, with the
//!   removal and initialization stages.
//! - `forces`: the force-edit stage (indexed removals, then appends).
//! - `writeback`: the order-preserving copy of particle positions.
//! - `schedule`: the stages, their groups and their order.
//! - `solver`: the solver state as the registry sees it.

pub mod context;
pub mod forces;
pub mod schedule;
pub mod solver;
pub mod writeback;
