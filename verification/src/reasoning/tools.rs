//! Model-directed read-only context calls and their results.

use vstd::prelude::*;

verus! {

/// A read-only context capability.
#[derive(Debug, Clone, Copy, PartialEq, Eq, Structural)]
pub enum ContextTool {
    /// Query logs.
    QueryLogs,
    /// Query metrics.
    QueryMetrics,
    /// Read a desired-state file.
    ReadDesiredState,
    /// Read deployment history.
    ReadDeploymentHistory,
    /// Read health.
    ReadHealth,
    /// Discover what can be observed.
    DiscoverObservability,
}

/// One validated call.
pub struct ToolCall {
    /// Call identity.
    pub call_id: String,
    /// Requested capability.
    pub tool: ContextTool,
    /// Query text.
    pub query: String,
}

/// How a call ended.
#[derive(Debug, Clone, Copy, PartialEq, Eq, Structural)]
pub enum ToolResultClass {
    /// Evidence was committed.
    Succeeded,
    /// The query allowance is used up.
    Exhausted,
    /// The output exceeded its bound.
    Truncated,
    /// Policy refused the query.
    Denied,
    /// The backend is unavailable.
    Unavailable,
    /// The source is stale.
    Stale,
}

/// A safe result envelope.
pub struct ToolResult {
    /// Call identity.
    pub call_id: String,
    /// How the call ended.
    pub class: ToolResultClass,
    /// Committed evidence, if any.
    pub evidence_id: Option<String>,
    /// Fixed explanation.
    pub detail: String,
}

} // verus!
