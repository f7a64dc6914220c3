//! Provider-neutral reports.

use super::router::ProviderKind;
use vstd::prelude::*;

verus! {

/// Why a provider's report is refused.
#[derive(Debug, Clone, PartialEq, Eq)]
pub enum ContractError {
    /// The text is no report.
    MalformedProviderResponse,
    /// The report cites evidence that does not exist.
    UnknownEvidence(String),
    /// The summary is empty.
    EmptySummary,
    /// The report cites no evidence.
    MissingEvidence,
}

/// The operator-facing part of an investigation.
#[derive(Debug, Clone, PartialEq, Eq)]
pub struct InvestigationResult {
    /// Incident identity.
    pub incident_id: String,
    /// The summary after the core's redaction, which is the only form that is rendered.
    pub redacted_summary: String,
    /// Evidence identities.
    pub evidence_ids: Vec<String>,
    /// The provider that gave the report, if one did.
    pub terminal_provider: Option<ProviderKind>,
}

} // verus!
