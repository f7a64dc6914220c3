//! Plain values shared with the reasoning core.

/// Incident budgets and what is reserved of them.
pub mod budget;
/// Reports and why they are refused.
pub mod contracts;
/// Runs, their outcomes and their policy.
pub mod coordinator;
/// Evidence sources and outcomes.
pub mod evidence;
/// Incident scope and journal facts.
pub mod journal;
/// Providers and their order.
pub mod router;
/// Context calls and results.
pub mod tools;
