//! Typed construction of the read-only `gcx` query subcommands.
//!
//! This module produces literal argument vectors. It does not invoke a shell,
//! accept arbitrary subcommands, or expose Grafana's generic API surface.

use crate::process::{variable, ProcessPlan, ProcessView};
use crate::reasoning::evidence::EvidenceSource;
use crate::text;
use crate::text::trim;
use vstd::prelude::*;

verus! {

/// Number of `gcx` processes at a time over all runners.
pub const GLOBAL_GCX_CONCURRENCY_LIMIT: usize = 64;

/// The read-only observability capability selected for a query.
#[derive(Debug, Clone, Copy, PartialEq, Eq, Structural)]
pub enum QueryKind {
    /// Query Loki logs.
    Logs,
    /// Query Prometheus metrics.
    Metrics,
}

/// Classified failures at the `gcx` process boundary.
#[derive(Debug, Clone, Copy, PartialEq, Eq, Structural)]
pub enum GcxRunError {
    /// The query or datasource violated the read-only context policy.
    InvalidQuery,
    /// The child process could not be started.
    SpawnFailed,
    /// The child produced more output than the context budget allows.
    OutputLimitExceeded,
    /// Reading the child streams failed.
    OutputReadFailed,
    /// The child exceeded its wall-clock budget.
    TimedOut,
    /// The child exited unsuccessfully; stderr is intentionally not retained.
    NonZeroExit(i32),
    /// The shared GCX concurrency gate was closed unexpectedly.
    ConcurrencyUnavailable,
}

/// Bounded output returned by a successful `gcx` invocation.
#[derive(Debug, Clone, PartialEq, Eq)]
pub struct GcxOutput {
    /// Bytes emitted on stdout by the read-only query.
    pub stdout: Vec<u8>,
}

/// A provider-neutral request that can be lowered to one fixed `gcx` command.
#[derive(Debug, Clone, PartialEq, Eq)]
pub enum GcxQuery {
    /// A bounded LogQL query against the configured Loki datasource.
    Logs {
        /// LogQL expression authored by the investigator.
        expression: String,
        /// Fixed datasource UID or alias selected by policy.
        datasource: String,
    },
    /// A bounded PromQL query against the configured Prometheus datasource.
    Metrics {
        /// PromQL expression authored by the investigator.
        expression: String,
        /// Fixed datasource UID or alias selected by policy.
        datasource: String,
    },
}

/// A request by kind, expression and datasource.
pub struct QueryView {
    /// Capability.
    pub kind: QueryKind,
    /// Expression.
    pub expression: Seq<char>,
    /// Datasource.
    pub datasource: Seq<char>,
}

impl View for GcxQuery {
    type V = QueryView;

    open spec fn view(&self) -> QueryView {
        match *self {
            GcxQuery::Logs { expression, datasource } => QueryView {
                kind: QueryKind::Logs,
                expression: expression@,
                datasource: datasource@,
            },
            GcxQuery::Metrics { expression, datasource } => QueryView {
                kind: QueryKind::Metrics,
                expression: expression@,
                datasource: datasource@,
            },
        }
    }
}

/// A datasource identifier of at most 128 letters, digits, `.`, `_` and `-`.
pub open spec fn is_datasource(datasource: Seq<char>) -> bool {
    1 <= datasource.len() <= 128 && text::Alphabet::Host.spells(datasource)
}

/// One line of expression, present, within its bound and without zero characters.
pub open spec fn is_expression(expression: Seq<char>, max_expression_bytes: nat) -> bool {
    &&& expression.len() > 0
    &&& text::utf8_len(expression) <= max_expression_bytes
    &&& !expression.contains('\0')
    &&& !expression.contains('\n')
    &&& !expression.contains('\r')
}

/// A query that selects without bound, by kind.
pub open spec fn is_unbounded(kind: QueryKind, normalized: Seq<char>) -> bool {
    match kind {
        QueryKind::Logs => !normalized.contains('{') || !normalized.contains('}')
            || text::has_part(normalized, "{}"@),
        QueryKind::Metrics => text::has_part(normalized, "{}"@) || text::has_part(
            normalized,
            "=~\".*\""@,
        ) || normalized == "*"@,
    }
}

/// A match-all selector or an operation that the policy prohibits.
pub open spec fn is_prohibited(normalized: Seq<char>) -> bool {
    ||| text::has_part(normalized, "=~\".*\""@)
    ||| text::has_part(normalized, "=~'.*'"@)
    ||| text::has_part(normalized, "--limit"@)
    ||| text::has_part(normalized, "limit0"@)
    ||| text::has_part(normalized, "gcxapi"@)
    ||| text::has_part(normalized, "http://"@)
    ||| text::has_part(normalized, "https://"@)
    ||| text::has_part(normalized, "topk("@)
    ||| text::has_part(normalized, "bottomk("@)
    ||| text::has_part(normalized, "count_values("@)
    ||| text::has_part(normalized, "label_values("@)
    ||| text::has_part(normalized, "series("@)
    ||| text::has_part(normalized, "metadata("@)
}

/// A query that may run: judged without whitespace and in lower case.
pub open spec fn is_allowed(query: QueryView, max_expression_bytes: nat) -> bool {
    let normalized = trim::squeezed(query.expression);
    &&& is_expression(query.expression, max_expression_bytes)
    &&& is_datasource(query.datasource)
    &&& !is_unbounded(query.kind, normalized)
    &&& !is_prohibited(normalized)
}

/// Where the evidence of a kind comes from.
pub open spec fn kind_source(kind: QueryKind) -> EvidenceSource {
    match kind {
        QueryKind::Logs => EvidenceSource::GrafanaLogs,
        QueryKind::Metrics => EvidenceSource::GrafanaMetrics,
    }
}

/// The arguments of a query.
pub open spec fn query_arguments(query: QueryView) -> Seq<Seq<char>> {
    seq![
        match query.kind {
            QueryKind::Logs => "logs"@,
            QueryKind::Metrics => "metrics"@,
        },
        "query"@,
        query.expression,
        "-d"@,
        query.datasource,
    ]
}

fn prohibited(normalized: &str) -> (r: bool)
    ensures
        r == is_prohibited(normalized@),
{
    text::contains(normalized, "=~\".*\"") || text::contains(normalized, "=~'.*'")
        || text::contains(normalized, "--limit") || text::contains(normalized, "limit0")
        || text::contains(normalized, "gcxapi") || text::contains(normalized, "http://")
        || text::contains(normalized, "https://") || text::contains(normalized, "topk(")
        || text::contains(normalized, "bottomk(") || text::contains(normalized, "count_values(")
        || text::contains(normalized, "label_values(") || text::contains(normalized, "series(")
        || text::contains(normalized, "metadata(")
}

fn unbounded(kind: QueryKind, normalized: &str) -> (r: bool)
    ensures
        r == is_unbounded(kind, normalized@),
{
    match kind {
        QueryKind::Logs => !text::contains_char(normalized, '{') || !text::contains_char(
            normalized,
            '}',
        ) || text::contains(normalized, "{}"),
        QueryKind::Metrics => text::contains(normalized, "{}") || text::contains(
            normalized,
            "=~\".*\"",
        ) || text::text_eq(normalized, "*"),
    }
}

impl GcxQuery {
    /// Creates a read-only LogQL request.
    pub fn logs(expression: &str, datasource: &str) -> (r: Self)
        ensures
            r@ == (QueryView {
                kind: QueryKind::Logs,
                expression: expression@,
                datasource: datasource@,
            }),
    {
        GcxQuery::Logs { expression: expression.to_owned(), datasource: datasource.to_owned() }
    }

    /// Creates a read-only PromQL request.
    pub fn metrics(expression: &str, datasource: &str) -> (r: Self)
        ensures
            r@ == (QueryView {
                kind: QueryKind::Metrics,
                expression: expression@,
                datasource: datasource@,
            }),
    {
        GcxQuery::Metrics { expression: expression.to_owned(), datasource: datasource.to_owned() }
    }

    /// Returns the source under which the output of this query is committed.
    pub fn source(&self) -> (r: EvidenceSource)
        ensures
            r == kind_source(self@.kind),
    {
        match self {
            GcxQuery::Logs { .. } => EvidenceSource::GrafanaLogs,
            GcxQuery::Metrics { .. } => EvidenceSource::GrafanaMetrics,
        }
    }

    /// Returns the capability represented by this query.
    pub fn kind(&self) -> (r: QueryKind)
        ensures
            r == self@.kind,
    {
        match self {
            GcxQuery::Logs { .. } => QueryKind::Logs,
            GcxQuery::Metrics { .. } => QueryKind::Metrics,
        }
    }

    /// The expression.
    pub fn expression(&self) -> (r: &str)
        ensures
            r@ == self@.expression,
    {
        match self {
            GcxQuery::Logs { expression, .. } => expression.as_str(),
            GcxQuery::Metrics { expression, .. } => expression.as_str(),
        }
    }

    /// The datasource.
    pub fn datasource(&self) -> (r: &str)
        ensures
            r@ == self@.datasource,
    {
        match self {
            GcxQuery::Logs { datasource, .. } => datasource.as_str(),
            GcxQuery::Metrics { datasource, .. } => datasource.as_str(),
        }
    }

    /// Lowers the request to a literal argv vector for `gcx`.
    pub fn argv(&self) -> (r: Vec<String>)
        ensures
            text::texts(r@) == query_arguments(self@),
    {
        let verb = match self.kind() {
            QueryKind::Logs => "logs".to_owned(),
            QueryKind::Metrics => "metrics".to_owned(),
        };
        let m = vec![
            verb,
            "query".to_owned(),
            self.expression().to_owned(),
            "-d".to_owned(),
            self.datasource().to_owned(),
        ];
        assert(text::texts(m@) =~= seq![m@[0]@, m@[1]@, m@[2]@, m@[3]@, m@[4]@]);
        m
    }

    /// Validates model-authored query data before process execution.
    pub fn validate(&self, max_expression_bytes: usize) -> (r: Result<(), GcxRunError>)
        ensures
            is_allowed(self@, max_expression_bytes as nat) ==> r is Ok,
            !is_allowed(self@, max_expression_bytes as nat) ==> r == Err::<(), GcxRunError>(
                GcxRunError::InvalidQuery,
            ),
    {
        let expression = self.expression();
        let datasource = self.datasource();
        let length: usize = text::chars_of(datasource).len();
        if expression.is_empty() || text::byte_len(expression) > max_expression_bytes || length == 0
            || length > 128 || !text::Alphabet::Host.spelled(datasource) || text::contains_char(
            expression,
            '\0',
        ) || text::contains_char(expression, '\n') || text::contains_char(expression, '\r') {
            return Err(GcxRunError::InvalidQuery);
        }
        let normalized = trim::squeeze(expression);
        if unbounded(self.kind(), normalized.as_str()) || prohibited(normalized.as_str()) {
            return Err(GcxRunError::InvalidQuery);
        }
        Ok(())
    }
}

/// Bounds of typed `gcx` queries.
#[derive(Debug, Clone, PartialEq, Eq)]
pub struct GcxRunner {
    binary: String,
    timeout_seconds: u64,
    max_output_bytes: usize,
    max_query_bytes: usize,
    max_concurrency: usize,
}

/// The bounds of a runner.
pub struct RunnerView {
    /// Pinned program.
    pub binary: Seq<char>,
    /// Wall-clock budget in seconds.
    pub timeout_seconds: u64,
    /// Output bound in bytes, for each stream.
    pub max_output_bytes: usize,
    /// Expression bound in bytes.
    pub max_query_bytes: usize,
    /// Number of processes at a time.
    pub max_concurrency: usize,
}

/// What was read of one stream, at most one byte more than the bound.
pub enum StreamRead {
    /// It could not be read.
    Unreadable,
    /// These bytes.
    Bytes(Vec<u8>),
}

/// How a `gcx` process went.
pub enum GcxOutcome {
    /// A concurrency gate was closed.
    GateClosed,
    /// It could not be started.
    NotStarted,
    /// Its streams could not be taken or awaited.
    StreamsLost,
    /// It exceeded its wall-clock budget.
    TimedOut,
    /// Both streams were read, and it ended: whether its status is known, whether it is a
    /// success, and its exit code.
    Ended(StreamRead, StreamRead, bool, bool, Option<i32>),
}

/// The bytes of a stream within the bound.
pub open spec fn read_within(read: StreamRead, limit: usize) -> Result<Vec<u8>, GcxRunError> {
    match read {
        StreamRead::Unreadable => Err(GcxRunError::OutputReadFailed),
        StreamRead::Bytes(bytes) => if bytes@.len() > limit {
            Err(GcxRunError::OutputLimitExceeded)
        } else {
            Ok(bytes)
        },
    }
}

/// What a process gave.
pub open spec fn gcx_result(outcome: GcxOutcome, limit: usize) -> Result<Vec<u8>, GcxRunError> {
    match outcome {
        GcxOutcome::GateClosed => Err(GcxRunError::ConcurrencyUnavailable),
        GcxOutcome::NotStarted => Err(GcxRunError::SpawnFailed),
        GcxOutcome::StreamsLost => Err(GcxRunError::OutputReadFailed),
        GcxOutcome::TimedOut => Err(GcxRunError::TimedOut),
        GcxOutcome::Ended(stdout, stderr, known, success, code) => match (
            read_within(stdout, limit),
            read_within(stderr, limit),
        ) {
            (Err(error), _) => Err(error),
            (_, Err(error)) => Err(error),
            (Ok(bytes), Ok(_)) => if !known {
                Err(GcxRunError::OutputReadFailed)
            } else if !success {
                Err(
                    GcxRunError::NonZeroExit(
                        match code {
                            Some(code) => code,
                            None => -1i32,
                        },
                    ),
                )
            } else {
                Ok(bytes)
            },
        },
    }
}

fn within(read: StreamRead, limit: usize) -> (r: Result<Vec<u8>, GcxRunError>)
    ensures
        r == read_within(read, limit),
{
    match read {
        StreamRead::Unreadable => Err(GcxRunError::OutputReadFailed),
        StreamRead::Bytes(bytes) => {
            if bytes.len() > limit {
                Err(GcxRunError::OutputLimitExceeded)
            } else {
                Ok(bytes)
            }
        },
    }
}

impl View for GcxRunner {
    type V = RunnerView;

    closed spec fn view(&self) -> RunnerView {
        RunnerView {
            binary: self.binary@,
            timeout_seconds: self.timeout_seconds,
            max_output_bytes: self.max_output_bytes,
            max_query_bytes: self.max_query_bytes,
            max_concurrency: self.max_concurrency,
        }
    }
}

impl GcxRunner {
    /// Creates a runner for a pinned `gcx` binary.
    pub fn new(binary: &str, timeout_seconds: u64, max_output_bytes: usize) -> (r: Self)
        ensures
            r@ == (RunnerView {
                binary: binary@,
                timeout_seconds,
                max_output_bytes,
                max_query_bytes: 4096,
                max_concurrency: 4,
            }),
    {
        GcxRunner {
            binary: binary.to_owned(),
            timeout_seconds,
            max_output_bytes,
            max_query_bytes: 4096,
            max_concurrency: 4,
        }
    }

    /// Overrides the maximum UTF-8 expression size accepted by the policy.
    pub fn with_max_query_bytes(self, max_query_bytes: usize) -> (r: Self)
        ensures
            r@ == (RunnerView { max_query_bytes, ..self@ }),
    {
        let mut next = self;
        next.max_query_bytes = max_query_bytes;
        next
    }

    /// Sets the maximum number of concurrent GCX child processes, at least one.
    pub fn with_max_concurrency(self, max_concurrency: usize) -> (r: Self)
        ensures
            r@ == (RunnerView {
                max_concurrency: if max_concurrency == 0 {
                    1
                } else {
                    max_concurrency
                },
                ..self@
            }),
    {
        let mut next = self;
        next.max_concurrency = if max_concurrency == 0 {
            1
        } else {
            max_concurrency
        };
        next
    }

    /// Wall-clock budget in seconds.
    pub fn timeout_seconds(&self) -> (r: u64)
        ensures
            r == self@.timeout_seconds,
    {
        self.timeout_seconds
    }

    /// Output bound in bytes, for each stream.
    pub fn max_output_bytes(&self) -> (r: usize)
        ensures
            r == self@.max_output_bytes,
    {
        self.max_output_bytes
    }

    /// Number of processes at a time.
    pub fn max_concurrency(&self) -> (r: usize)
        ensures
            r == self@.max_concurrency,
    {
        self.max_concurrency
    }

    /// Whether a stream is longer than the bound.
    pub fn exceeds(&self, length: usize) -> (r: bool)
        ensures
            r == (length > self@.max_output_bytes),
    {
        length > self.max_output_bytes
    }

    /// Plans one typed query without a shell; a query outside policy gets no process.
    pub fn plan(&self, query: &GcxQuery) -> (r: Result<ProcessPlan, GcxRunError>)
        ensures
            match r {
                Ok(plan) => is_allowed(query@, self@.max_query_bytes as nat) && plan@ == (
                ProcessView {
                    program: self@.binary,
                    arguments: query_arguments(query@),
                    environment: seq![("GCX_NO_UPDATE_NOTIFIER"@, "1"@)],
                }),
                Err(error) => !is_allowed(query@, self@.max_query_bytes as nat) && error
                    == GcxRunError::InvalidQuery,
            },
    {
        match query.validate(self.max_query_bytes) {
            Ok(()) => {},
            Err(error) => return Err(error),
        }
        let environment = vec![variable("GCX_NO_UPDATE_NOTIFIER", "1")];
        let plan = ProcessPlan {
            program: self.binary.clone(),
            arguments: query.argv(),
            environment,
        };
        assert(plan@.environment =~= seq![("GCX_NO_UPDATE_NOTIFIER"@, "1"@)]);
        Ok(plan)
    }

    /// The bounded output of a process, or why there is none.
    pub fn settle(&self, outcome: GcxOutcome) -> (r: Result<GcxOutput, GcxRunError>)
        ensures
            match r {
                Ok(output) => gcx_result(outcome, self@.max_output_bytes) == Ok::<
                    Vec<u8>,
                    GcxRunError,
                >(output.stdout) && output.stdout@.len() <= self@.max_output_bytes,
                Err(error) => gcx_result(outcome, self@.max_output_bytes) == Err::<
                    Vec<u8>,
                    GcxRunError,
                >(error),
            },
    {
        match outcome {
            GcxOutcome::GateClosed => Err(GcxRunError::ConcurrencyUnavailable),
            GcxOutcome::NotStarted => Err(GcxRunError::SpawnFailed),
            GcxOutcome::StreamsLost => Err(GcxRunError::OutputReadFailed),
            GcxOutcome::TimedOut => Err(GcxRunError::TimedOut),
            GcxOutcome::Ended(stdout, stderr, known, success, code) => {
                let bytes = match within(stdout, self.max_output_bytes) {
                    Ok(bytes) => bytes,
                    Err(error) => return Err(error),
                };
                match within(stderr, self.max_output_bytes) {
                    Ok(_) => {},
                    Err(error) => return Err(error),
                }
                if !known {
                    return Err(GcxRunError::OutputReadFailed);
                }
                if !success {
                    let status: i32 = match code {
                        Some(code) => code,
                        None => -1i32,
                    };
                    return Err(GcxRunError::NonZeroExit(status));
                }
                Ok(GcxOutput { stdout: bytes })
            },
        }
    }
}

/// What the policy refuses whatever its bound: an unbounded selection or a prohibited operation.
pub open spec fn is_refused(kind: QueryKind, expression: Seq<char>) -> bool {
    is_unbounded(kind, trim::squeezed(expression)) || is_prohibited(trim::squeezed(expression))
}

/// Inserted whitespace cannot hide what the policy refuses.
pub proof fn whitespace_does_not_evade_policy(
    kind: QueryKind,
    expression: Seq<char>,
    at: int,
    space: char,
)
    requires
        0 <= at <= expression.len(),
        trim::is_space(space),
    ensures
        is_refused(kind, expression.insert(at, space)) == is_refused(kind, expression),
{
    trim::lemma_squeezed_insert(expression, at, space);
}

/// The case of a letter cannot hide what the policy refuses.
pub proof fn letter_case_does_not_evade_policy(
    kind: QueryKind,
    expression: Seq<char>,
    at: int,
    letter: char,
)
    requires
        0 <= at < expression.len(),
        trim::lower(letter) == trim::lower(expression[at]),
    ensures
        is_refused(kind, expression.update(at, letter)) == is_refused(kind, expression),
{
    trim::lemma_squeezed_case(expression, at, letter);
}

/// What the policy takes, of either kind: one line within its bound against a plain datasource,
/// whose squeezed form names no prohibited operation and no match-all selector. A log selection
/// needs a selector that is not empty; a metric selection must not be the star alone, nor hold an
/// empty selector. Nothing else is refused: a star within a longer expression is no reason.
pub proof fn queries_are_allowed_exactly_within_policy(
    expression: Seq<char>,
    datasource: Seq<char>,
    max_expression_bytes: nat,
)
    ensures
        ({
            let flat = trim::squeezed(expression);
            let shaped = expression.len() >= 1 && vstd::utf8::encode_utf8(expression).len()
                <= max_expression_bytes && (forall|i: int|
                0 <= i < expression.len() ==> #[trigger] expression[i] != '\0' && expression[i]
                    != '\n' && expression[i] != '\r') && 1 <= datasource.len() <= 128 && (
            forall|i: int|
                0 <= i < datasource.len() ==> ('a' <= #[trigger] datasource[i] <= 'z') || ('A'
                    <= datasource[i] <= 'Z') || ('0' <= datasource[i] <= '9') || datasource[i]
                    == '.' || datasource[i] == '_' || datasource[i] == '-');
            let p0 = text::has_part(flat, "=~\".*\""@);
            let p1 = text::has_part(flat, "=~'.*'"@);
            let p2 = text::has_part(flat, "--limit"@);
            let p3 = text::has_part(flat, "limit0"@);
            let p4 = text::has_part(flat, "gcxapi"@);
            let p5 = text::has_part(flat, "http://"@);
            let p6 = text::has_part(flat, "https://"@);
            let p7 = text::has_part(flat, "topk("@);
            let p8 = text::has_part(flat, "bottomk("@);
            let p9 = text::has_part(flat, "count_values("@);
            let p10 = text::has_part(flat, "label_values("@);
            let p11 = text::has_part(flat, "series("@);
            let p12 = text::has_part(flat, "metadata("@);
            let prohibited = p0 || p1 || p2 || p3 || p4 || p5 || p6 || p7 || p8 || p9 || p10 || p11 || p12;
            let empty = text::has_part(flat, "{}"@);
            let opened = exists|i: int| 0 <= i < flat.len() && #[trigger] flat[i] == '{';
            let shut = exists|i: int| 0 <= i < flat.len() && #[trigger] flat[i] == '}';
            let logs = QueryView { kind: QueryKind::Logs, expression, datasource };
            let metrics = QueryView { kind: QueryKind::Metrics, expression, datasource };
            &&& is_allowed(logs, max_expression_bytes) <==> shaped && !prohibited && opened && shut
                && !empty
            &&& is_allowed(metrics, max_expression_bytes) <==> shaped && !prohibited && !empty && !(
            flat.len() == 1 && flat[0] == '*')
            &&& shaped && !prohibited && !empty && flat.len() > 1 ==> is_allowed(
                metrics,
                max_expression_bytes,
            )
        }),
{
    let flat = trim::squeezed(expression);
    reveal_strlit("*");
    if flat.len() == 1 && flat[0] == '*' {
        assert(flat =~= "*"@);
    }
    assert forall|i: int| 0 <= i < expression.len() implies expression.contains(
        #[trigger] expression[i],
    ) by {}
    assert forall|i: int| 0 <= i < flat.len() implies flat.contains(#[trigger] flat[i]) by {}
    let zeros = expression.contains('\0');
    let newlines = expression.contains('\n');
    let carriage = expression.contains('\r');
    assert(text::Alphabet::Host.spells(datasource) == (forall|i: int|
        0 <= i < datasource.len() ==> ('a' <= #[trigger] datasource[i] <= 'z') || ('A'
            <= datasource[i] <= 'Z') || ('0' <= datasource[i] <= '9') || datasource[i] == '.'
            || datasource[i] == '_' || datasource[i] == '-'));
}

/// A query is run as `gcx` with its kind, its expression as one argument, and its datasource.
pub proof fn queries_are_run_as_one_literal_command(query: QueryView)
    ensures
        query_arguments(query).len() == 5,
        query_arguments(query)[0] == (if query.kind == QueryKind::Logs {
            "logs"@
        } else {
            "metrics"@
        }),
        query_arguments(query)[1] == "query"@,
        query_arguments(query)[2] == query.expression,
        query_arguments(query)[3] == "-d"@,
        query_arguments(query)[4] == query.datasource,
        kind_source(QueryKind::Logs) == EvidenceSource::GrafanaLogs,
        kind_source(QueryKind::Metrics) == EvidenceSource::GrafanaMetrics,
{
}

/// Output is taken exactly from a process that ended well with both streams within their bound,
/// and is all that it printed.
pub proof fn output_needs_a_clean_bounded_end(outcome: GcxOutcome, limit: usize)
    ensures
        gcx_result(outcome, limit) is Ok <==> (outcome matches GcxOutcome::Ended(
            StreamRead::Bytes(out),
            StreamRead::Bytes(err),
            known,
            success,
            _,
        ) && out@.len() <= limit && err@.len() <= limit && known && success),
        gcx_result(outcome, limit) matches Ok(bytes) ==> (outcome matches GcxOutcome::Ended(
            StreamRead::Bytes(out),
            _,
            _,
            _,
            _,
        ) && bytes == out),
        (outcome matches GcxOutcome::Ended(StreamRead::Bytes(out), _, _, _, _) && out@.len()
            > limit) ==> gcx_result(outcome, limit) == Err::<Vec<u8>, GcxRunError>(
            GcxRunError::OutputLimitExceeded,
        ),
        outcome is TimedOut ==> gcx_result(outcome, limit) == Err::<Vec<u8>, GcxRunError>(
            GcxRunError::TimedOut,
        ),
        outcome is NotStarted ==> gcx_result(outcome, limit) == Err::<Vec<u8>, GcxRunError>(
            GcxRunError::SpawnFailed,
        ),
        outcome is GateClosed ==> gcx_result(outcome, limit) == Err::<Vec<u8>, GcxRunError>(
            GcxRunError::ConcurrencyUnavailable,
        ),
        outcome is StreamsLost ==> gcx_result(outcome, limit) == Err::<Vec<u8>, GcxRunError>(
            GcxRunError::OutputReadFailed,
        ),
        (outcome matches GcxOutcome::Ended(
            StreamRead::Bytes(out),
            StreamRead::Bytes(err),
            true,
            false,
            Some(code),
        ) ==> (out@.len() <= limit && err@.len() <= limit ==> gcx_result(outcome, limit) == Err::<
            Vec<u8>,
            GcxRunError,
        >(GcxRunError::NonZeroExit(code)))),
{
}

/// How many `gcx` processes run at a time in one service.
pub proof fn gcx_processes_are_bounded()
    ensures
        GLOBAL_GCX_CONCURRENCY_LIMIT == 64,
{
}

} // verus!
