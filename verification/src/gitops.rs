//! Deterministic repair artifacts and the checks that stand before them.

/// Manual repair candidates.
pub mod artifact;
/// Operator handoffs.
pub mod handoff;
/// The one-field repair of the pilot image.
pub mod it_tools_image;
/// Post-deployment health.
pub mod qualified_deployment;
/// Deployment receipts.
pub mod receipt;
/// Offline validation policy.
pub mod sandbox;
/// Snapshots of tracked files.
pub mod snapshot;
/// Repair scope.
pub mod validate;
