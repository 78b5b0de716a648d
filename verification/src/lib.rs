//! Core decision engine for a hexagonal colony simulation.
//!
//! Autonomous units pursue goals (fetch, store, deliver, work, demolish, eat,
//! wander) on a hex grid, navigating by a stigmergic signal field instead of
//! global pathfinding.  This crate holds the verified heart of that system:
//! the per-tick goal-to-action resolver, the timed action state machine each
//! unit executes, all-or-nothing inventory transfer, capacity-gated workplace
//! admission, and the three-phase tick driver that advances, starts and
//! finishes actions.
//!
//! The world the engine acts on (tile validity, occupancy, terrain, signal
//! strengths) is modelled as plain data handed in by the caller; rendering,
//! asset loading and input handling live outside this crate.

pub mod ids;
pub mod items;
pub mod geometry;
pub mod terrain;
pub mod inventory;
pub mod goals;
pub mod crafting;
pub mod signals;
pub mod rng;
pub mod construction;
pub mod structure_manifest;
pub mod world;
pub mod actions;
pub mod commands;
pub mod tick;
pub mod text;
pub mod units;
