//! Step orchestration engine for a sequential system-maintenance run.
//!
//! A maintenance run is an ordered list of named steps, each wrapping one or
//! more shell command strings. The engine drives every step through an
//! optional confirmation gate, records each command's outcome, applies the
//! any-fail policy per step, and aggregates run statistics whose counters
//! always add up to the number of steps. Process spawning, prompting,
//! progress rendering and notification delivery are left to the caller; the
//! engine owns every decision in between.

pub mod config;
pub mod executor;
pub mod stats;
pub mod steps;
pub mod updater;
