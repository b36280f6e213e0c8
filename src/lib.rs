//! Coordination engine for periodic importers: configuration, due-time and
//! liveness policy, progress estimation, and the claim/release lifecycle
//! guarded by revisions.

pub mod clock;
pub mod config;
pub mod progress;
pub mod importer;
pub mod lifecycle;
pub mod registry;
