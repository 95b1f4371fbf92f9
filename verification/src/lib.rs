//! Scope-based labeling and stale-container reaping for test containers.
//!
//! Containers started for a test run carry a triple of labels naming their
//! scope, their role within the scope, and a prune-eligibility sentinel.
//! Before a new container of the same scope and role is started, previously
//! abandoned containers are discovered through those labels, optionally
//! force-stopped, and pruned. A fixed stdout/stderr log observer
//! configuration is provided for started containers.

pub mod engine_model;
pub mod labels;
pub mod logging;
pub mod reaper;
