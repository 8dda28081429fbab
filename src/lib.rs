//! Decision core of a tick-driven colony controller: a per-agent action-queue
//! interpreter, a per-locality population scheduler and a keyed record store
//! with a reclaimer for records of entities that are no longer live.
pub mod actions;
pub mod config;
pub mod creeps;
pub mod geometry;
pub mod mayor;
pub mod memory;
pub mod names;
pub mod rooms;
pub mod roles;
pub mod store;
pub mod tick;
