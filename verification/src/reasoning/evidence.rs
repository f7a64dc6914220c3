//! Evidence sources and the metadata of committed evidence.

use vstd::prelude::*;

verus! {

/// Where evidence was read from.
#[derive(Debug, Clone, Copy, PartialEq, Eq, Structural)]
pub enum EvidenceSource {
    /// Loki logs.
    GrafanaLogs,
    /// Prometheus metrics.
    GrafanaMetrics,
    /// A desired-state file in Git.
    GitDesiredState,
    /// Recent deployment history.
    DeploymentHistory,
    /// A health endpoint.
    Health,
    /// Metadata about observability itself.
    ObservabilityMetadata,
}

impl EvidenceSource {
    /// The name used in stored documents.
    pub open spec fn name(self) -> Seq<char> {
        match self {
            EvidenceSource::GrafanaLogs => "GrafanaLogs"@,
            EvidenceSource::GrafanaMetrics => "GrafanaMetrics"@,
            EvidenceSource::GitDesiredState => "GitDesiredState"@,
            EvidenceSource::DeploymentHistory => "DeploymentHistory"@,
            EvidenceSource::Health => "Health"@,
            EvidenceSource::ObservabilityMetadata => "ObservabilityMetadata"@,
        }
    }

    /// The name used in stored documents.
    pub fn wire_name(self) -> (r: &'static str)
        ensures
            r@ == self.name(),
    {
        match self {
            EvidenceSource::GrafanaLogs => "GrafanaLogs",
            EvidenceSource::GrafanaMetrics => "GrafanaMetrics",
            EvidenceSource::GitDesiredState => "GitDesiredState",
            EvidenceSource::DeploymentHistory => "DeploymentHistory",
            EvidenceSource::Health => "Health",
            EvidenceSource::ObservabilityMetadata => "ObservabilityMetadata",
        }
    }
}

/// How complete committed evidence is.
#[derive(Debug, Clone, Copy, PartialEq, Eq, Structural)]
pub enum EvidenceStatus {
    /// Some of it is missing.
    Partial,
    /// Policy refused the query.
    Rejected,
    /// The query allowance is used up.
    BudgetExhausted,
    /// Nothing was found.
    Empty,
    /// The source is unavailable.
    Unavailable,
}

/// Metadata of committed evidence.
pub struct EvidenceMetadata {
    /// How complete it is.
    pub status: EvidenceStatus,
    /// Age in milliseconds, where it is known.
    pub freshness_ms: Option<u64>,
    /// Whether it was cut off.
    pub truncated: bool,
    /// Fixed error word, if any.
    pub error: Option<String>,
}

/// Evidence that the board refused.
#[derive(Debug, Clone, Copy, PartialEq, Eq, Structural)]
pub enum EvidenceError {
    /// The board did not commit it.
    Refused,
}

/// Each source has its own name.
pub proof fn sources_have_their_own_names(source: EvidenceSource)
    ensures
        source == EvidenceSource::GrafanaLogs ==> source.name() == "GrafanaLogs"@,
        source == EvidenceSource::GrafanaMetrics ==> source.name() == "GrafanaMetrics"@,
        source == EvidenceSource::GitDesiredState ==> source.name() == "GitDesiredState"@,
        source == EvidenceSource::DeploymentHistory ==> source.name() == "DeploymentHistory"@,
        source == EvidenceSource::Health ==> source.name() == "Health"@,
        source == EvidenceSource::ObservabilityMetadata ==> source.name()
            == "ObservabilityMetadata"@,
{
}

} // verus!
