//! Read-only Grafana adapters.

/// Context assembly.
pub mod context;
/// Typed queries.
pub mod gcx;
