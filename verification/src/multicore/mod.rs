//! Multicore bookkeeping: core roles and capabilities, per-core state, the
//! core registry, the boot barrier, the startup topology with its joint state
//! table, and application-processor startup preflight.

pub mod barrier;
pub mod capabilities;
pub mod error;
pub mod local;
pub mod registry;
pub mod role;
pub mod startup;
pub mod startup_preflight;
pub mod startup_state;
pub mod topology;
