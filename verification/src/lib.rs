//! Provider-neutral contracts and deterministic safety primitives.

/// External-system adapters.
pub mod adapters;
/// Orchestration of the shadow incident workflow.
pub mod application;
/// Application assembly.
pub mod bootstrap;
/// Secret-free configuration.
pub mod config;
/// Content identities.
pub mod digest;
/// Pure promotion and gate-admission contracts.
pub mod domain;
/// Decisions on file metadata.
pub mod files;
/// Repair preparation, validation and handoff.
pub mod gitops;
/// JSON text.
pub mod json;
/// Metrics, logs and traces.
pub mod observability;
/// Runtime policy for loading signed promotion manifests.
pub mod policy;
/// Child processes as data.
pub mod process;
/// Deployment qualification of external tools.
pub mod qualification;
/// Plain values shared with the reasoning core.
pub mod reasoning;
/// Characters, lines, decimals and other plain text operations.
pub mod text;
/// URLs and their parts.
pub mod url;
/// YAML documents.
pub mod yaml;
