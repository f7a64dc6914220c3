//! Incident scope.

use vstd::prelude::*;

verus! {

/// Server-owned incident and run identities.
pub struct JournalContext {
    /// Incident identity.
    pub incident_id: String,
    /// Run identity.
    pub run_id: String,
}

/// One journaled fact, as far as metrics tell facts apart.
#[derive(Debug, Clone, PartialEq, Eq)]
pub enum JournalEvent {
    /// An incident was opened.
    IncidentOpened {
        /// Incident identity.
        incident_id: String,
    },
    /// An incident recovered.
    IncidentRecovered {
        /// Incident identity.
        incident_id: String,
    },
    /// An incident got a terminal report.
    IncidentCompleted {
        /// Incident identity.
        incident_id: String,
    },
    /// An incomplete incident was resumed.
    IncidentResumed {
        /// Incident identity.
        incident_id: String,
    },
    /// A context call.
    ToolContext {
        /// Call identity.
        call_id: String,
    },
    /// Anything else.
    Other,
}

/// Totals over all journaled facts.
#[derive(Debug, Clone, Copy, PartialEq, Eq, Structural)]
pub struct JournalProjection {
    /// Active time of phases without a human, in milliseconds.
    pub active_machine_ms: u64,
    /// Provider time in milliseconds.
    pub provider_time_ms: u64,
    /// Human wait in milliseconds.
    pub human_wait_ms: u64,
    /// Provider attempts.
    pub provider_attempts: u32,
    /// Evidence queries.
    pub evidence_queries: u32,
    /// Context calls.
    pub tool_calls: u32,
    /// Context calls that committed evidence.
    pub successful_tool_calls: u32,
    /// Context call time in milliseconds.
    pub tool_elapsed_ms: u64,
    /// Context result bytes.
    pub tool_output_bytes: u64,
    /// Provider tokens.
    pub tokens: u64,
    /// Known cost in micro-USD.
    pub known_cost_micro_usd: u64,
    /// Attempts of unknown cost.
    pub unknown_cost_attempts: u32,
}

/// The incident journal: its facts, in order, and their totals.
#[derive(Debug, Clone, PartialEq, Eq)]
pub struct IncidentJournal {
    /// Facts, in order.
    pub entries: Vec<JournalEvent>,
    /// Totals.
    pub projection: JournalProjection,
}

} // verus!
