//! Policy layer: bounded confidences, model manifests, policy decisions and
//! the deterministic scheduler heuristic.

pub mod confidence;
pub mod decision;
pub mod heuristic;
pub mod manifest;
pub mod schedule;
