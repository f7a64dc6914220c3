//! Incident budgets and what is reserved of them.

use vstd::prelude::*;

verus! {

/// Incident budget.
#[derive(Debug, Clone, Copy, PartialEq, Eq, Structural)]
pub struct BudgetConfig {
    /// Cost ceiling of one incident, where one is set.
    pub max_cost_micro_usd: Option<u64>,
}

/// What one provider attempt reserves of the incident budget.
#[derive(Debug, Clone, Copy, PartialEq, Eq, Structural)]
pub struct Reservation {
    /// Provider calls.
    pub provider_calls: u32,
    /// Tokens.
    pub tokens: u64,
    /// Evidence queries.
    pub evidence_queries: u32,
    /// Cost in micro-USD.
    pub cost_micro_usd: u64,
}

} // verus!
