//! Runs, their outcomes and their policy.

use super::budget::BudgetConfig;
use super::router::{ProviderKind, ProviderOrder};
use vstd::prelude::*;

verus! {

/// How a run ended.
#[derive(Debug, Clone, Copy, PartialEq, Eq, Structural)]
pub enum RunStatus {
    /// A provider gave a report.
    Succeeded(ProviderKind),
    /// No provider gave a report.
    Exhausted,
}

/// Safe classifications of a failed provider attempt.
#[derive(Debug, Clone, Copy, PartialEq, Eq, Structural)]
pub enum FailureClass {
    /// Credentials are missing or rejected.
    AuthenticationRequired,
    /// The request rate or quota is used up.
    RateLimited,
    /// The provider or transport is temporarily unavailable.
    TemporarilyUnavailable,
    /// The response does not match the typed contract.
    MalformedResponse,
}

/// Reasoning policy.
#[derive(Debug, Clone, PartialEq, Eq)]
pub struct ReasoningConfig {
    /// The order in which providers are tried.
    pub provider_order: ProviderOrder,
    /// Providers that may be used.
    pub admitted_providers: Vec<ProviderKind>,
    /// Incident budget.
    pub budget: BudgetConfig,
    /// Bound on tool turns.
    pub max_tool_turns: u32,
}

} // verus!
