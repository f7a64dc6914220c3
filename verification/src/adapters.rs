//! External-system adapters implementing capability-owned boundary contracts.

/// Server-owned read-only Git, deployment, and health context adapters.
pub mod context;
/// Disposable typed target-gateway protocol.
pub mod gateway;
/// Read-only Grafana adapters.
pub mod grafana;
/// Language-model adapters.
pub mod llm;
/// Notification boundary.
pub mod ntfy;
