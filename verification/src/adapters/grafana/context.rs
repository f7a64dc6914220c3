//! Read-only Grafana context assembly over the bounded `gcx` runner.
//!
//! This adapter converts tool output into core evidence records. It cannot
//! execute arbitrary commands, mutate Grafana, or expose credentials to core.

use super::gcx;
use super::gcx::{GcxQuery, GcxRunError, GcxRunner, QueryKind, QueryView};
use crate::reasoning::evidence::{EvidenceError, EvidenceMetadata, EvidenceSource, EvidenceStatus};
use crate::reasoning::tools::{ContextTool, ToolCall, ToolResult, ToolResultClass};
use crate::text;
use vstd::prelude::*;

verus! {

/// Grafana datasource configuration for the two read-only context paths.
#[derive(Debug, Clone, PartialEq, Eq)]
pub struct GrafanaContextConfig {
    /// Loki datasource UID or alias.
    pub logs_datasource: String,
    /// Prometheus datasource UID or alias.
    pub metrics_datasource: String,
}

/// Read-only context service used by the reasoning shell.
#[derive(Debug, Clone)]
pub struct GrafanaContext {
    runner: GcxRunner,
    config: GrafanaContextConfig,
}

/// Per-investigation allowance for read-only Grafana requests.
#[derive(Debug, Clone, Copy, PartialEq, Eq, Structural)]
pub struct ContextBudget {
    remaining_queries: usize,
}

/// One model-directed, read-only context request.
#[derive(Debug, Clone, PartialEq, Eq)]
pub enum ReadOnlyRequest {
    /// Ask Loki for bounded logs through the configured datasource.
    Logs(String),
    /// Ask Prometheus for bounded metrics through the configured datasource.
    Metrics(String),
}

/// Safe failures at the Grafana context boundary.
#[derive(Debug, Clone, Copy, PartialEq, Eq, Structural)]
pub enum ContextError {
    /// The bounded process adapter rejected the query execution.
    Gcx(GcxRunError),
    /// The tool returned no commit-worthy evidence.
    Evidence(EvidenceError),
    /// The investigation exhausted its bounded read-only query allowance.
    QueryBudgetExceeded,
    /// The requested capability belongs to another read-only adapter.
    UnsupportedTool,
}

impl ContextBudget {
    /// Requests that are left.
    pub closed spec fn remaining(self) -> nat {
        self.remaining_queries as nat
    }

    /// Creates a budget that permits at most `max_queries` requests.
    pub fn new(max_queries: usize) -> (r: Self)
        ensures
            r.remaining() == max_queries,
    {
        ContextBudget { remaining_queries: max_queries }
    }

    /// Uses one request, if one is left.
    pub fn consume(&mut self) -> (r: Result<(), ContextError>)
        ensures
            old(self).remaining() > 0 ==> r is Ok && final(self).remaining() == old(
                self,
            ).remaining() - 1,
            old(self).remaining() == 0 ==> r == Err::<(), ContextError>(
                ContextError::QueryBudgetExceeded,
            ) && final(self).remaining() == 0,
    {
        match self.remaining_queries.checked_sub(1) {
            Some(remaining) => {
                self.remaining_queries = remaining;
                Ok(())
            },
            None => Err(ContextError::QueryBudgetExceeded),
        }
    }
}

/// The query kind that a tool asks this adapter for.
pub open spec fn tool_kind(tool: ContextTool) -> Option<QueryKind> {
    match tool {
        ContextTool::QueryLogs => Some(QueryKind::Logs),
        ContextTool::QueryMetrics => Some(QueryKind::Metrics),
        _ => None,
    }
}

/// The query for an expression, against the datasource of its kind.
pub open spec fn policy_query(
    config: GrafanaContextConfig,
    kind: QueryKind,
    expression: Seq<char>,
) -> QueryView {
    QueryView {
        kind,
        expression,
        datasource: match kind {
            QueryKind::Logs => config.logs_datasource@,
            QueryKind::Metrics => config.metrics_datasource@,
        },
    }
}

/// The source under which a failed call is recorded.
pub open spec fn failure_source(tool: ContextTool) -> EvidenceSource {
    match tool_kind(tool) {
        Some(kind) => gcx::kind_source(kind),
        None => EvidenceSource::ObservabilityMetadata,
    }
}

/// How a call ended.
pub open spec fn result_class(result: Result<String, ContextError>) -> ToolResultClass {
    match result {
        Ok(_) => ToolResultClass::Succeeded,
        Err(ContextError::QueryBudgetExceeded) => ToolResultClass::Exhausted,
        Err(ContextError::Gcx(GcxRunError::OutputLimitExceeded)) => ToolResultClass::Truncated,
        Err(ContextError::Gcx(GcxRunError::InvalidQuery)) => ToolResultClass::Denied,
        Err(ContextError::Gcx(_)) => ToolResultClass::Unavailable,
        Err(_) => ToolResultClass::Denied,
    }
}

/// The fixed explanation of how a call ended.
pub open spec fn result_detail(result: Result<String, ContextError>) -> Seq<char> {
    match result {
        Ok(_) => "bounded evidence committed"@,
        Err(ContextError::QueryBudgetExceeded) => "context query budget exhausted"@,
        Err(ContextError::Gcx(GcxRunError::OutputLimitExceeded)) =>
            "context output exceeded its bound"@,
        Err(ContextError::Gcx(GcxRunError::InvalidQuery)) => "query rejected by context policy"@,
        Err(ContextError::Gcx(_)) => "context backend unavailable"@,
        Err(_) => "context query failed safely"@,
    }
}

/// The record of a call that committed no evidence.
pub struct FailureRecord {
    /// Where the evidence would have come from.
    pub source: EvidenceSource,
    /// The query, or a fixed text where it is too long.
    pub query: String,
    /// A fixed text in place of evidence.
    pub content: Vec<u8>,
    /// Why there is none.
    pub metadata: EvidenceMetadata,
}

/// How complete the record of a failed call is.
pub open spec fn failure_status(class: ToolResultClass) -> EvidenceStatus {
    match class {
        ToolResultClass::Truncated => EvidenceStatus::Partial,
        ToolResultClass::Denied => EvidenceStatus::Rejected,
        ToolResultClass::Exhausted => EvidenceStatus::BudgetExhausted,
        ToolResultClass::Stale => EvidenceStatus::Empty,
        ToolResultClass::Unavailable => EvidenceStatus::Unavailable,
        ToolResultClass::Succeeded => EvidenceStatus::Unavailable,
    }
}

/// The fixed error word of a failed call.
pub open spec fn failure_word(class: ToolResultClass) -> Seq<char> {
    match class {
        ToolResultClass::Truncated => "output_limit_exceeded"@,
        ToolResultClass::Denied => "query_rejected"@,
        ToolResultClass::Exhausted => "budget_exhausted"@,
        ToolResultClass::Stale => "stale_source"@,
        ToolResultClass::Unavailable => "context_unavailable"@,
        ToolResultClass::Succeeded => "context_unavailable"@,
    }
}

/// The metadata of a failed call.
pub fn failure_metadata(class: ToolResultClass) -> (r: EvidenceMetadata)
    ensures
        r.status == failure_status(class),
        r.freshness_ms is None,
        r.truncated == (class == ToolResultClass::Truncated),
        r.error matches Some(word) && word@ == failure_word(class),
{
    let (status, truncated, error) = match class {
        ToolResultClass::Truncated => (
            EvidenceStatus::Partial,
            true,
            "output_limit_exceeded".to_owned(),
        ),
        ToolResultClass::Denied => (EvidenceStatus::Rejected, false, "query_rejected".to_owned()),
        ToolResultClass::Exhausted => (
            EvidenceStatus::BudgetExhausted,
            false,
            "budget_exhausted".to_owned(),
        ),
        ToolResultClass::Stale => (EvidenceStatus::Empty, false, "stale_source".to_owned()),
        ToolResultClass::Unavailable => (
            EvidenceStatus::Unavailable,
            false,
            "context_unavailable".to_owned(),
        ),
        ToolResultClass::Succeeded => (
            EvidenceStatus::Unavailable,
            false,
            "context_unavailable".to_owned(),
        ),
    };
    EvidenceMetadata { status, freshness_ms: None, truncated, error: Some(error) }
}

/// A query as it is recorded: whole within the bound, else a fixed text.
pub fn bounded_failure_query(query: &str, max_query_bytes: usize) -> (r: String)
    ensures
        r@ == (if text::utf8_len(query@) <= max_query_bytes {
            query@
        } else {
            "[QUERY_REDACTED]"@
        }),
{
    if text::byte_len(query) <= max_query_bytes {
        query.to_owned()
    } else {
        "[QUERY_REDACTED]".to_owned()
    }
}

impl GrafanaContext {
    /// Bounds of the runner.
    pub closed spec fn bounds(self) -> super::gcx::RunnerView {
        self.runner@
    }

    /// Fixed datasource policy.
    pub closed spec fn datasources(self) -> GrafanaContextConfig {
        self.config
    }

    /// Creates a context service with fixed datasource policy.
    pub fn new(runner: GcxRunner, config: GrafanaContextConfig) -> (r: Self)
        ensures
            r.bounds() == runner@,
            r.datasources() == config,
    {
        GrafanaContext { runner, config }
    }

    /// The runner.
    pub fn runner(&self) -> (r: &GcxRunner)
        ensures
            r@ == self.bounds(),
    {
        &self.runner
    }

    fn query(&self, kind: QueryKind, expression: &str) -> (r: GcxQuery)
        ensures
            r@ == policy_query(self.datasources(), kind, expression@),
    {
        match kind {
            QueryKind::Logs => GcxQuery::logs(expression, self.config.logs_datasource.as_str()),
            QueryKind::Metrics => GcxQuery::metrics(
                expression,
                self.config.metrics_datasource.as_str(),
            ),
        }
    }

    /// A bounded LogQL query against the configured datasource.
    pub fn logs(&self, expression: &str) -> (r: GcxQuery)
        ensures
            r@ == policy_query(self.datasources(), QueryKind::Logs, expression@),
    {
        self.query(QueryKind::Logs, expression)
    }

    /// A bounded PromQL query against the configured datasource.
    pub fn metrics(&self, expression: &str) -> (r: GcxQuery)
        ensures
            r@ == policy_query(self.datasources(), QueryKind::Metrics, expression@),
    {
        self.query(QueryKind::Metrics, expression)
    }

    fn query_with_budget(
        &self,
        budget: &mut ContextBudget,
        kind: QueryKind,
        expression: &str,
    ) -> (r: Result<GcxQuery, ContextError>)
        ensures
            match r {
                Ok(query) => old(budget).remaining() > 0 && final(budget).remaining() == old(
                    budget,
                ).remaining() - 1 && query@ == policy_query(self.datasources(), kind, expression@),
                Err(error) => old(budget).remaining() == 0 && final(budget).remaining() == 0
                    && error == ContextError::QueryBudgetExceeded,
            },
    {
        match budget.consume() {
            Ok(()) => Ok(self.query(kind, expression)),
            Err(error) => Err(error),
        }
    }

    /// A LogQL query after consuming one per-investigation budget token.
    pub fn logs_with_budget(&self, budget: &mut ContextBudget, expression: &str) -> (r: Result<
        GcxQuery,
        ContextError,
    >)
        ensures
            match r {
                Ok(query) => old(budget).remaining() > 0 && final(budget).remaining() == old(
                    budget,
                ).remaining() - 1 && query@ == policy_query(
                    self.datasources(),
                    QueryKind::Logs,
                    expression@,
                ),
                Err(error) => old(budget).remaining() == 0 && final(budget).remaining() == 0
                    && error == ContextError::QueryBudgetExceeded,
            },
    {
        self.query_with_budget(budget, QueryKind::Logs, expression)
    }

    /// A PromQL query after consuming one per-investigation budget token.
    pub fn metrics_with_budget(&self, budget: &mut ContextBudget, expression: &str) -> (r: Result<
        GcxQuery,
        ContextError,
    >)
        ensures
            match r {
                Ok(query) => old(budget).remaining() > 0 && final(budget).remaining() == old(
                    budget,
                ).remaining() - 1 && query@ == policy_query(
                    self.datasources(),
                    QueryKind::Metrics,
                    expression@,
                ),
                Err(error) => old(budget).remaining() == 0 && final(budget).remaining() == 0
                    && error == ContextError::QueryBudgetExceeded,
            },
    {
        self.query_with_budget(budget, QueryKind::Metrics, expression)
    }

    /// The query of one validated model tool call. A call that belongs to another adapter
    /// consumes nothing.
    pub fn begin_tool(&self, budget: &mut ContextBudget, call: &ToolCall) -> (r: Result<
        GcxQuery,
        ContextError,
    >)
        ensures
            match tool_kind(call.tool) {
                None => r == Err::<GcxQuery, ContextError>(ContextError::UnsupportedTool)
                    && *final(budget) == *old(budget),
                Some(kind) => match r {
                    Ok(query) => old(budget).remaining() > 0 && final(budget).remaining() == old(
                        budget,
                    ).remaining() - 1 && query@ == policy_query(
                        self.datasources(),
                        kind,
                        call.query@,
                    ),
                    Err(error) => old(budget).remaining() == 0 && final(budget).remaining() == 0
                        && error == ContextError::QueryBudgetExceeded,
                },
            },
    {
        match call.tool {
            ContextTool::QueryLogs => self.logs_with_budget(budget, call.query.as_str()),
            ContextTool::QueryMetrics => self.metrics_with_budget(budget, call.query.as_str()),
            ContextTool::ReadDesiredState => Err(ContextError::UnsupportedTool),
            ContextTool::ReadDeploymentHistory => Err(ContextError::UnsupportedTool),
            ContextTool::ReadHealth => Err(ContextError::UnsupportedTool),
            ContextTool::DiscoverObservability => Err(ContextError::UnsupportedTool),
        }
    }

    /// The safe result envelope of a call.
    pub fn execute_tool(&self, call: &ToolCall, result: Result<String, ContextError>) -> (r:
        ToolResult)
        ensures
            r.call_id@ == call.call_id@,
            r.class == result_class(result),
            r.detail@ == result_detail(result),
            match result {
                Ok(evidence_id) => r.evidence_id == Some(evidence_id),
                Err(_) => r.evidence_id is None,
            },
    {
        let call_id = call.call_id.clone();
        match result {
            Ok(evidence_id) => ToolResult {
                call_id,
                class: ToolResultClass::Succeeded,
                evidence_id: Some(evidence_id),
                detail: "bounded evidence committed".to_owned(),
            },
            Err(ContextError::QueryBudgetExceeded) => ToolResult {
                call_id,
                class: ToolResultClass::Exhausted,
                evidence_id: None,
                detail: "context query budget exhausted".to_owned(),
            },
            Err(ContextError::Gcx(GcxRunError::OutputLimitExceeded)) => ToolResult {
                call_id,
                class: ToolResultClass::Truncated,
                evidence_id: None,
                detail: "context output exceeded its bound".to_owned(),
            },
            Err(ContextError::Gcx(GcxRunError::InvalidQuery)) => ToolResult {
                call_id,
                class: ToolResultClass::Denied,
                evidence_id: None,
                detail: "query rejected by context policy".to_owned(),
            },
            Err(ContextError::Gcx(_)) => ToolResult {
                call_id,
                class: ToolResultClass::Unavailable,
                evidence_id: None,
                detail: "context backend unavailable".to_owned(),
            },
            Err(_) => ToolResult {
                call_id,
                class: ToolResultClass::Denied,
                evidence_id: None,
                detail: "context query failed safely".to_owned(),
            },
        }
    }

    /// The record to commit for a call without evidence; none where there is evidence.
    pub fn failure_record(&self, call: &ToolCall, result: &ToolResult, max_query_bytes: usize) -> (r:
        Option<FailureRecord>)
        ensures
            r is Some <==> result.evidence_id is None,
            r matches Some(record) ==> {
                &&& record.source == failure_source(call.tool)
                &&& record.query@ == (if text::utf8_len(call.query@) <= max_query_bytes {
                    call.query@
                } else {
                    "[QUERY_REDACTED]"@
                })
                &&& record.content@ == vstd::utf8::encode_utf8("[NO EVIDENCE]"@)
                &&& record.metadata.status == failure_status(result.class)
                &&& record.metadata.freshness_ms is None
                &&& record.metadata.truncated == (result.class == ToolResultClass::Truncated)
                &&& record.metadata.error matches Some(word) && word@ == failure_word(result.class)
            },
    {
        if result.evidence_id.is_some() {
            return None;
        }
        let source = match call.tool {
            ContextTool::QueryLogs => EvidenceSource::GrafanaLogs,
            ContextTool::QueryMetrics => EvidenceSource::GrafanaMetrics,
            ContextTool::ReadDesiredState => EvidenceSource::ObservabilityMetadata,
            ContextTool::ReadDeploymentHistory => EvidenceSource::ObservabilityMetadata,
            ContextTool::ReadHealth => EvidenceSource::ObservabilityMetadata,
            ContextTool::DiscoverObservability => EvidenceSource::ObservabilityMetadata,
        };
        Some(
            FailureRecord {
                source,
                query: bounded_failure_query(call.query.as_str(), max_query_bytes),
                content: vstd::slice::slice_to_vec("[NO EVIDENCE]".as_bytes()),
                metadata: failure_metadata(result.class),
            },
        )
    }

    /// The result with the record of its failure attached, where one was committed; a result
    /// with evidence stays as it is.
    pub fn attach_failure(&self, result: ToolResult, committed: Option<String>) -> (r: ToolResult)
        ensures
            r == (ToolResult {
                evidence_id: match result.evidence_id {
                    Some(evidence_id) => Some(evidence_id),
                    None => committed,
                },
                ..result
            }),
    {
        let mut attached = result;
        if attached.evidence_id.is_none() {
            attached.evidence_id = committed;
        }
        attached
    }

    /// The query of one request of a batch.
    pub fn begin_request(&self, budget: &mut ContextBudget, request: &ReadOnlyRequest) -> (r: Result<
        GcxQuery,
        ContextError,
    >)
        ensures
            match r {
                Ok(query) => old(budget).remaining() > 0 && final(budget).remaining() == old(
                    budget,
                ).remaining() - 1 && query@ == (match *request {
                    ReadOnlyRequest::Logs(expression) => policy_query(
                        self.datasources(),
                        QueryKind::Logs,
                        expression@,
                    ),
                    ReadOnlyRequest::Metrics(expression) => policy_query(
                        self.datasources(),
                        QueryKind::Metrics,
                        expression@,
                    ),
                }),
                Err(error) => old(budget).remaining() == 0 && final(budget).remaining() == 0
                    && error == ContextError::QueryBudgetExceeded,
            },
    {
        match request {
            ReadOnlyRequest::Logs(expression) => self.logs_with_budget(budget, expression.as_str()),
            ReadOnlyRequest::Metrics(expression) => self.metrics_with_budget(
                budget,
                expression.as_str(),
            ),
        }
    }
}

/// How a query went: its process and the commitment of its output.
pub enum QueryOutcome {
    /// The process gave no output.
    Failed(GcxRunError),
    /// The output was not committed.
    Refused(EvidenceError),
    /// The output was committed under this identity.
    Committed(String),
}

/// The evidence identity of a query, or why there is none.
pub fn settle_query(outcome: QueryOutcome) -> (r: Result<String, ContextError>)
    ensures
        r == (match outcome {
            QueryOutcome::Failed(error) => Err(ContextError::Gcx(error)),
            QueryOutcome::Refused(error) => Err(ContextError::Evidence(error)),
            QueryOutcome::Committed(evidence_id) => Ok(evidence_id),
        }),
{
    match outcome {
        QueryOutcome::Failed(error) => Err(ContextError::Gcx(error)),
        QueryOutcome::Refused(error) => Err(ContextError::Evidence(error)),
        QueryOutcome::Committed(evidence_id) => Ok(evidence_id),
    }
}

/// The identities of a batch, up to its first failure.
pub open spec fn batch_result(results: Seq<Result<String, ContextError>>) -> Result<
    Seq<String>,
    ContextError,
>
    decreases results.len(),
{
    if results.len() == 0 {
        Ok(Seq::empty())
    } else {
        match batch_result(results.drop_last()) {
            Err(error) => Err(error),
            Ok(ids) => match results.last() {
                Ok(id) => Ok(ids.push(id)),
                Err(error) => Err(error),
            },
        }
    }
}

/// A batch of requests under execution, in order. The first failure ends it.
pub struct Batch {
    evidence_ids: Vec<String>,
    failure: Option<ContextError>,
}

impl Batch {
    /// What the batch has given so far.
    pub closed spec fn outcome(self) -> Result<Seq<String>, ContextError> {
        match self.failure {
            Some(error) => Err(error),
            None => Ok(self.evidence_ids@),
        }
    }

    /// Starts a batch.
    pub fn new() -> (r: Self)
        ensures
            r.outcome() == batch_result(Seq::empty()),
    {
        let batch = Batch { evidence_ids: Vec::new(), failure: None };
        assert(batch.evidence_ids@ =~= Seq::<String>::empty());
        batch
    }

    /// Whether a request failed, so that no other is made.
    pub fn ended(&self) -> (r: bool)
        ensures
            r == self.outcome() is Err,
    {
        self.failure.is_some()
    }

    /// Takes the result of the next request.
    pub fn take(self, result: Result<String, ContextError>) -> (r: Self)
        ensures
            r.outcome() == (match self.outcome() {
                Err(error) => Err(error),
                Ok(ids) => match result {
                    Ok(id) => Ok(ids.push(id)),
                    Err(error) => Err(error),
                },
            }),
            forall|results: Seq<Result<String, ContextError>>|
                self.outcome() == #[trigger] batch_result(results) ==> r.outcome() == batch_result(
                    results.push(result),
                ),
    {
        let ghost before = self.outcome();
        let mut next = self;
        if next.failure.is_none() {
            match result {
                Ok(id) => next.evidence_ids.push(id),
                Err(error) => {
                    next.failure = Some(error);
                },
            }
        }
        assert forall|results: Seq<Result<String, ContextError>>|
            before == #[trigger] batch_result(results) implies next.outcome() == batch_result(
            results.push(result),
        ) by {
            assert(results.push(result).drop_last() =~= results);
        }
        next
    }

    /// The identities of the batch, or its first failure.
    pub fn execute_requests(self) -> (r: Result<Vec<String>, ContextError>)
        ensures
            match r {
                Ok(ids) => self.outcome() == Ok::<Seq<String>, ContextError>(ids@),
                Err(error) => self.outcome() == Err::<Seq<String>, ContextError>(error),
            },
    {
        match self.failure {
            Some(error) => Err(error),
            None => Ok(self.evidence_ids),
        }
    }
}

/// A call without evidence is always recorded as a failure of its class, and never as evidence.
pub proof fn failures_are_recorded_as_failures(result: Result<String, ContextError>)
    requires
        result is Err,
    ensures
        result_class(result) != ToolResultClass::Succeeded,
        failure_status(result_class(result)) == EvidenceStatus::Partial <==> result
            == Err::<String, ContextError>(ContextError::Gcx(GcxRunError::OutputLimitExceeded)),
{
}

/// A call's class and detail tell exactly how it went, and nothing of what the backend said.
pub proof fn classes_tell_how_a_call_went(result: Result<String, ContextError>)
    ensures
        ({
            let class = result_class(result);
            let detail = result_detail(result);
            let limit = result == Err::<String, ContextError>(
                ContextError::Gcx(GcxRunError::OutputLimitExceeded),
            );
            let invalid = result == Err::<String, ContextError>(
                ContextError::Gcx(GcxRunError::InvalidQuery),
            );
            let backend = result matches Err(ContextError::Gcx(_));
            let budget = result == Err::<String, ContextError>(ContextError::QueryBudgetExceeded);
            &&& class == ToolResultClass::Succeeded <==> result is Ok
            &&& class == ToolResultClass::Exhausted <==> budget
            &&& class == ToolResultClass::Truncated <==> limit
            &&& class == ToolResultClass::Unavailable <==> backend && !limit && !invalid
            &&& class == ToolResultClass::Denied <==> invalid || (result is Err && !backend
                && !budget)
            &&& class != ToolResultClass::Stale
            &&& result is Ok ==> detail == "bounded evidence committed"@
            &&& budget ==> detail == "context query budget exhausted"@
            &&& limit ==> detail == "context output exceeded its bound"@
            &&& invalid ==> detail == "query rejected by context policy"@
            &&& backend && !limit && !invalid ==> detail == "context backend unavailable"@
            &&& result is Err && !backend && !budget ==> detail == "context query failed safely"@
        }),
{
}

/// A failure is recorded under a status and a word of its class, and under the source of its tool.
pub proof fn failures_are_recorded_by_class_and_source(class: ToolResultClass, tool: ContextTool)
    ensures
        failure_status(class) == EvidenceStatus::Partial <==> class == ToolResultClass::Truncated,
        failure_status(class) == EvidenceStatus::Rejected <==> class == ToolResultClass::Denied,
        failure_status(class) == EvidenceStatus::BudgetExhausted <==> class
            == ToolResultClass::Exhausted,
        failure_status(class) == EvidenceStatus::Empty <==> class == ToolResultClass::Stale,
        failure_status(class) == EvidenceStatus::Unavailable <==> class
            == ToolResultClass::Unavailable || class == ToolResultClass::Succeeded,
        class == ToolResultClass::Truncated ==> failure_word(class) == "output_limit_exceeded"@,
        class == ToolResultClass::Denied ==> failure_word(class) == "query_rejected"@,
        class == ToolResultClass::Exhausted ==> failure_word(class) == "budget_exhausted"@,
        class == ToolResultClass::Stale ==> failure_word(class) == "stale_source"@,
        class == ToolResultClass::Unavailable ==> failure_word(class) == "context_unavailable"@,
        failure_source(tool) == EvidenceSource::GrafanaLogs <==> tool == ContextTool::QueryLogs,
        failure_source(tool) == EvidenceSource::GrafanaMetrics <==> tool
            == ContextTool::QueryMetrics,
        failure_source(tool) == EvidenceSource::ObservabilityMetadata <==> tool
            != ContextTool::QueryLogs && tool != ContextTool::QueryMetrics,
        tool_kind(tool) == Some(QueryKind::Logs) <==> tool == ContextTool::QueryLogs,
        tool_kind(tool) == Some(QueryKind::Metrics) <==> tool == ContextTool::QueryMetrics,
{
}

/// A query of a kind goes to the datasource that policy has for it, with its expression as given.
pub proof fn queries_go_to_the_datasource_of_their_kind(
    config: GrafanaContextConfig,
    expression: Seq<char>,
)
    ensures
        policy_query(config, QueryKind::Logs, expression) == (QueryView {
            kind: QueryKind::Logs,
            expression,
            datasource: config.logs_datasource@,
        }),
        policy_query(config, QueryKind::Metrics, expression) == (QueryView {
            kind: QueryKind::Metrics,
            expression,
            datasource: config.metrics_datasource@,
        }),
{
}

/// A batch gives the identity of every request in order where all succeeded, and otherwise the
/// first failure.
pub proof fn batches_give_every_identity_or_the_first_failure(
    results: Seq<Result<String, ContextError>>,
)
    ensures
        batch_result(results) is Ok <==> forall|i: int|
            0 <= i < results.len() ==> #[trigger] results[i] is Ok,
        batch_result(results) matches Ok(ids) ==> ids.len() == results.len() && forall|i: int|
            0 <= i < results.len() ==> #[trigger] results[i] == Ok::<String, ContextError>(ids[i]),
        batch_result(results) matches Err(error) ==> exists|n: int|
            0 <= n < results.len() && #[trigger] results[n] == Err::<String, ContextError>(error)
                && forall|i: int| 0 <= i < n ==> #[trigger] results[i] is Ok,
    decreases results.len(),
{
    if results.len() > 0 {
        let front = results.drop_last();
        batches_give_every_identity_or_the_first_failure(front);
        let n = results.len() - 1;
        assert forall|i: int| 0 <= i < front.len() implies front[i] == results[i] by {}
        if batch_result(front) is Ok {
            assert forall|i: int| 0 <= i < n implies #[trigger] results[i] is Ok by {
                assert(front[i] is Ok);
            }
            if results[n] is Ok {
                let ids = batch_result(results)->Ok_0;
                assert forall|i: int| 0 <= i < results.len() implies #[trigger] results[i] == Ok::<
                    String,
                    ContextError,
                >(ids[i]) by {
                    if i < n {
                        assert(front[i] == Ok::<String, ContextError>(
                            (batch_result(front)->Ok_0)[i],
                        ));
                    }
                }
            }
        } else {
            let error = batch_result(front)->Err_0;
            let m = choose|m: int|
                0 <= m < front.len() && #[trigger] front[m] == Err::<String, ContextError>(error)
                    && forall|i: int| 0 <= i < m ==> #[trigger] front[i] is Ok;
            assert(results[m] == Err::<String, ContextError>(error));
            assert forall|i: int| 0 <= i < m implies #[trigger] results[i] is Ok by {
                assert(front[i] is Ok);
            }
        }
    }
}

} // verus!
