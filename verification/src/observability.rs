//! Journal-derived low-cardinality efficiency metrics.
//!
//! The exporter is intentionally independent of Prometheus client state:
//! replaying the journal produces the same aggregate exposition after
//! restart, and no incident identity is emitted as a label.

use crate::reasoning::journal::{IncidentJournal, JournalEvent, JournalProjection};
use crate::text;
use crate::text::number;
use crate::text::trim;
use vstd::prelude::*;

/// Trace export.
pub mod tracing;

verus! {

/// A phase label that telemetry emitters accept.
pub open spec fn is_phase(phase: Seq<char>) -> bool {
    ||| phase == "investigation"@
    ||| phase == "reasoning"@
    ||| phase == "human_wait"@
    ||| phase == "execution"@
}

/// Decides [`is_phase`].
pub fn allowed_phase(phase: &str) -> (r: bool)
    ensures
        r == is_phase(phase@),
{
    text::text_eq(phase, "investigation") || text::text_eq(phase, "reasoning") || text::text_eq(
        phase,
        "human_wait",
    ) || text::text_eq(phase, "execution")
}

/// Bounded structured log fields. Payloads and query text are excluded.
#[derive(Debug, Clone, PartialEq, Eq)]
pub struct StructuredLog {
    /// Stable lifecycle event name.
    pub event: String,
    /// Incident identity retained as a log field, never a metric label.
    pub incident_id: String,
    /// Run identity retained as a log field, never a metric label.
    pub run_id: String,
    /// Optional bounded phase name.
    pub phase: Option<String>,
}

impl StructuredLog {
    /// Creates a bounded structured event and rejects unknown phase labels.
    pub fn new(event: &str, incident_id: &str, run_id: &str, phase: Option<&str>) -> (r: Option<
        Self,
    >)
        ensures
            match r {
                Some(log) => {
                    &&& log.event@ == trim::clipped(event@, 128)
                    &&& log.incident_id@ == trim::clipped(incident_id@, 128)
                    &&& log.run_id@ == trim::clipped(run_id@, 128)
                    &&& match phase {
                        Some(phase) => is_phase(phase@) && (log.phase matches Some(held)
                            && held@ == phase@),
                        None => log.phase is None,
                    }
                },
                None => phase matches Some(phase) && !is_phase(phase@),
            },
    {
        let held = match phase {
            Some(phase) => {
                if !allowed_phase(phase) {
                    return None;
                }
                Some(phase.to_owned())
            },
            None => None,
        };
        Some(
            StructuredLog {
                event: trim::clip(event, 128),
                incident_id: trim::clip(incident_id, 128),
                run_id: trim::clip(run_id, 128),
                phase: held,
            },
        )
    }
}

/// Bounded OTel-style span fields; export failure is non-blocking.
#[derive(Debug, Clone, PartialEq, Eq)]
pub struct SpanContext {
    /// Operation name.
    pub name: String,
    /// Controlled phase label.
    pub phase: String,
}

/// Creates a span context only for an allowlisted phase.
pub fn span_context(name: &str, phase: &str) -> (r: Option<SpanContext>)
    ensures
        match r {
            Some(span) => is_phase(phase@) && span.name@ == trim::clipped(name@, 128)
                && span.phase@ == phase@,
            None => !is_phase(phase@),
        },
{
    if allowed_phase(phase) {
        Some(SpanContext { name: trim::clip(name, 128), phase: phase.to_owned() })
    } else {
        None
    }
}

/// The kinds of facts that are counted.
#[derive(Debug, Clone, Copy, PartialEq, Eq, Structural)]
pub enum FactKind {
    /// An incident was opened.
    Opened,
    /// An incident recovered.
    Recovered,
    /// An incident got a terminal report.
    Completed,
    /// An incomplete incident was resumed.
    Resumed,
    /// Anything else.
    Uncounted,
}

/// The kind of a fact, without its identities.
pub open spec fn fact_kind(event: JournalEvent) -> FactKind {
    match event {
        JournalEvent::IncidentOpened { .. } => FactKind::Opened,
        JournalEvent::IncidentRecovered { .. } => FactKind::Recovered,
        JournalEvent::IncidentCompleted { .. } => FactKind::Completed,
        JournalEvent::IncidentResumed { .. } => FactKind::Resumed,
        JournalEvent::ToolContext { .. } => FactKind::Uncounted,
        JournalEvent::Other => FactKind::Uncounted,
    }
}

/// The kinds of journaled facts, in order.
pub open spec fn fact_kinds(entries: Seq<JournalEvent>) -> Seq<FactKind> {
    entries.map_values(|event: JournalEvent| fact_kind(event))
}

/// How many facts are of a kind.
pub open spec fn tally(kinds: Seq<FactKind>, kind: FactKind) -> nat
    decreases kinds.len(),
{
    if kinds.len() == 0 {
        0
    } else {
        tally(kinds.drop_last(), kind) + if kinds.last() == kind {
            1nat
        } else {
            0nat
        }
    }
}

/// One counter: its help, its type and its value.
pub open spec fn metric_text(name: Seq<char>, help: Seq<char>, value: nat) -> Seq<char> {
    "# HELP "@ + name + " "@ + help + "\n"@ + "# TYPE "@ + name + " counter\n"@ + name + " "@
        + number::decimal(value) + "\n"@
}

/// The counters of a journal, from the kinds of its facts and their totals alone.
pub open spec fn metrics_text(kinds: Seq<FactKind>, totals: JournalProjection) -> Seq<char> {
    Seq::<char>::empty() + metric_text(
        "ai_sre_incidents_opened_total"@,
        "Total normalized firing incidents."@,
        tally(kinds, FactKind::Opened),
    ) + metric_text(
        "ai_sre_incidents_recovered_total"@,
        "Total normalized recovery events."@,
        tally(kinds, FactKind::Recovered),
    ) + metric_text(
        "ai_sre_incidents_completed_total"@,
        "Total incidents with a terminal report."@,
        tally(kinds, FactKind::Completed),
    ) + metric_text(
        "ai_sre_incidents_resumed_total"@,
        "Total incomplete incidents resumed after redelivery or restart."@,
        tally(kinds, FactKind::Resumed),
    ) + metric_text(
        "ai_sre_active_machine_time_ms_total"@,
        "Aggregate active non-human phase time in milliseconds."@,
        totals.active_machine_ms as nat,
    ) + metric_text(
        "ai_sre_provider_time_ms_total"@,
        "Aggregate provider adapter time in milliseconds."@,
        totals.provider_time_ms as nat,
    ) + metric_text(
        "ai_sre_human_wait_time_ms_total"@,
        "Aggregate human approval wait time in milliseconds."@,
        totals.human_wait_ms as nat,
    ) + metric_text(
        "ai_sre_provider_attempts_total"@,
        "Aggregate provider attempts."@,
        totals.provider_attempts as nat,
    ) + metric_text(
        "ai_sre_evidence_queries_total"@,
        "Aggregate evidence queries charged to provider attempts."@,
        totals.evidence_queries as nat,
    ) + metric_text(
        "ai_sre_tool_calls_total"@,
        "Aggregate model-directed read-only context calls."@,
        totals.tool_calls as nat,
    ) + metric_text(
        "ai_sre_successful_tool_calls_total"@,
        "Aggregate context calls that committed evidence."@,
        totals.successful_tool_calls as nat,
    ) + metric_text(
        "ai_sre_tool_time_ms_total"@,
        "Aggregate bounded context-call time in milliseconds."@,
        totals.tool_elapsed_ms as nat,
    ) + metric_text(
        "ai_sre_tool_output_bytes_total"@,
        "Aggregate bounded context-result bytes retained for resumption."@,
        totals.tool_output_bytes as nat,
    ) + metric_text(
        "ai_sre_tokens_total"@,
        "Aggregate trusted provider token usage."@,
        totals.tokens as nat,
    ) + metric_text(
        "ai_sre_known_cost_micro_usd_total"@,
        "Aggregate known estimated provider cost in integer micro-USD."@,
        totals.known_cost_micro_usd as nat,
    ) + metric_text(
        "ai_sre_unknown_cost_attempts_total"@,
        "Provider attempts whose monetary cost remains unknown."@,
        totals.unknown_cost_attempts as nat,
    )
}

fn metric(output: &mut String, name: &str, help: &str, value: u64)
    ensures
        final(output)@ == old(output)@ + metric_text(name@, help@, value as nat),
{
    let ghost before = output@;
    output.append("# HELP ");
    output.append(name);
    output.append(" ");
    output.append(help);
    output.append("\n");
    output.append("# TYPE ");
    output.append(name);
    output.append(" counter\n");
    output.append(name);
    output.append(" ");
    let digits = number::decimal_text(value);
    output.append(digits.as_str());
    output.append("\n");
    assert(output@ =~= before + metric_text(name@, help@, value as nat));
}

/// How many facts of each counted kind a journal holds.
struct Tallies {
    opened: u64,
    recovered: u64,
    completed: u64,
    resumed: u64,
}

fn tallies(entries: &Vec<JournalEvent>) -> (r: Tallies)
    ensures
        r.opened == tally(fact_kinds(entries@), FactKind::Opened),
        r.recovered == tally(fact_kinds(entries@), FactKind::Recovered),
        r.completed == tally(fact_kinds(entries@), FactKind::Completed),
        r.resumed == tally(fact_kinds(entries@), FactKind::Resumed),
{
    let ghost kinds = fact_kinds(entries@);
    let mut counts = Tallies { opened: 0, recovered: 0, completed: 0, resumed: 0 };
    let mut i: usize = 0;
    assert(kinds.take(0) =~= Seq::empty());
    while i < entries.len()
        invariant
            i <= entries.len(),
            kinds == fact_kinds(entries@),
            counts.opened == tally(kinds.take(i as int), FactKind::Opened),
            counts.recovered == tally(kinds.take(i as int), FactKind::Recovered),
            counts.completed == tally(kinds.take(i as int), FactKind::Completed),
            counts.resumed == tally(kinds.take(i as int), FactKind::Resumed),
            counts.opened <= i,
            counts.recovered <= i,
            counts.completed <= i,
            counts.resumed <= i,
        decreases entries.len() - i,
    {
        proof {
            let next = kinds.take(i as int + 1);
            assert(next.drop_last() =~= kinds.take(i as int));
            assert(next.last() == fact_kind(entries@[i as int]));
        }
        match &entries[i] {
            JournalEvent::IncidentOpened { .. } => {
                counts.opened = counts.opened + 1;
            },
            JournalEvent::IncidentRecovered { .. } => {
                counts.recovered = counts.recovered + 1;
            },
            JournalEvent::IncidentCompleted { .. } => {
                counts.completed = counts.completed + 1;
            },
            JournalEvent::IncidentResumed { .. } => {
                counts.resumed = counts.resumed + 1;
            },
            JournalEvent::ToolContext { .. } => {},
            JournalEvent::Other => {},
        }
        i += 1;
    }
    assert(kinds.take(i as int) =~= kinds);
    counts
}

/// Renders fixed-name Prometheus aggregates from raw journal facts.
pub fn render_journal_metrics(journal: &IncidentJournal) -> (r: String)
    ensures
        r@ == metrics_text(fact_kinds(journal.entries@), journal.projection),
{
    let counts = tallies(&journal.entries);
    let totals = &journal.projection;
    let mut output = String::new();
    assert(output@ =~= Seq::<char>::empty());
    metric(
        &mut output,
        "ai_sre_incidents_opened_total",
        "Total normalized firing incidents.",
        counts.opened,
    );
    metric(
        &mut output,
        "ai_sre_incidents_recovered_total",
        "Total normalized recovery events.",
        counts.recovered,
    );
    metric(
        &mut output,
        "ai_sre_incidents_completed_total",
        "Total incidents with a terminal report.",
        counts.completed,
    );
    metric(
        &mut output,
        "ai_sre_incidents_resumed_total",
        "Total incomplete incidents resumed after redelivery or restart.",
        counts.resumed,
    );
    metric(
        &mut output,
        "ai_sre_active_machine_time_ms_total",
        "Aggregate active non-human phase time in milliseconds.",
        totals.active_machine_ms,
    );
    metric(
        &mut output,
        "ai_sre_provider_time_ms_total",
        "Aggregate provider adapter time in milliseconds.",
        totals.provider_time_ms,
    );
    metric(
        &mut output,
        "ai_sre_human_wait_time_ms_total",
        "Aggregate human approval wait time in milliseconds.",
        totals.human_wait_ms,
    );
    metric(
        &mut output,
        "ai_sre_provider_attempts_total",
        "Aggregate provider attempts.",
        totals.provider_attempts as u64,
    );
    metric(
        &mut output,
        "ai_sre_evidence_queries_total",
        "Aggregate evidence queries charged to provider attempts.",
        totals.evidence_queries as u64,
    );
    metric(
        &mut output,
        "ai_sre_tool_calls_total",
        "Aggregate model-directed read-only context calls.",
        totals.tool_calls as u64,
    );
    metric(
        &mut output,
        "ai_sre_successful_tool_calls_total",
        "Aggregate context calls that committed evidence.",
        totals.successful_tool_calls as u64,
    );
    metric(
        &mut output,
        "ai_sre_tool_time_ms_total",
        "Aggregate bounded context-call time in milliseconds.",
        totals.tool_elapsed_ms,
    );
    metric(
        &mut output,
        "ai_sre_tool_output_bytes_total",
        "Aggregate bounded context-result bytes retained for resumption.",
        totals.tool_output_bytes,
    );
    metric(
        &mut output,
        "ai_sre_tokens_total",
        "Aggregate trusted provider token usage.",
        totals.tokens,
    );
    metric(
        &mut output,
        "ai_sre_known_cost_micro_usd_total",
        "Aggregate known estimated provider cost in integer micro-USD.",
        totals.known_cost_micro_usd,
    );
    metric(
        &mut output,
        "ai_sre_unknown_cost_attempts_total",
        "Provider attempts whose monetary cost remains unknown.",
        totals.unknown_cost_attempts as u64,
    );
    output
}

/// Without line breaks, and without the braces and equals signs of labels.
pub open spec fn is_bare(s: Seq<char>) -> bool {
    !s.contains('\n') && !s.contains('{') && !s.contains('=')
}

/// How many lines end in a text.
pub open spec fn line_ends(s: Seq<char>) -> nat
    decreases s.len(),
{
    if s.len() == 0 {
        0
    } else {
        line_ends(s.drop_last()) + if s.last() == '\n' {
            1nat
        } else {
            0nat
        }
    }
}

proof fn lemma_line_ends_join(a: Seq<char>, b: Seq<char>)
    ensures
        line_ends(a + b) == line_ends(a) + line_ends(b),
    decreases b.len(),
{
    if b.len() > 0 {
        lemma_line_ends_join(a, b.drop_last());
        assert((a + b).drop_last() =~= a + b.drop_last());
    } else {
        assert(a + b =~= a);
    }
}

proof fn lemma_bare_line_ends(s: Seq<char>)
    requires
        is_bare(s),
    ensures
        line_ends(s) == 0,
    decreases s.len(),
{
    if s.len() > 0 {
        assert(s.contains(s.last()));
        assert forall|c: char| s.drop_last().contains(c) implies s.contains(c) by {
            let i = choose|i: int| 0 <= i < s.drop_last().len() && s.drop_last()[i] == c;
            assert(s[i] == c);
        }
        lemma_bare_line_ends(s.drop_last());
    }
}

/// A text without labels that ends `n` lines.
spec fn has_lines(s: Seq<char>, n: nat) -> bool {
    !s.contains('{') && !s.contains('=') && line_ends(s) == n
}

proof fn lemma_lines_join(a: Seq<char>, m: nat, b: Seq<char>, n: nat)
    requires
        has_lines(a, m),
        has_lines(b, n),
    ensures
        has_lines(a + b, m + n),
{
    lemma_line_ends_join(a, b);
    assert forall|i: int| 0 <= i < (a + b).len() implies (a + b)[i] != '{' && (a + b)[i] != '=' by {
        if i < a.len() {
            assert(a.contains(a[i]));
        } else {
            assert(b.contains(b[i - a.len()]));
        }
    }
}

/// A counter with a bare name and help takes three lines without labels.
proof fn lemma_metric_lines(name: Seq<char>, help: Seq<char>, value: nat)
    requires
        is_bare(name),
        is_bare(help),
    ensures
        has_lines(metric_text(name, help, value), 3),
{
    reveal_strlit("# HELP ");
    reveal_strlit(" ");
    reveal_strlit("\n");
    reveal_strlit("# TYPE ");
    reveal_strlit(" counter\n");
    let digits = number::decimal(value);
    number::lemma_decimal_value(value);
    assert(is_bare("# HELP "@));
    assert(is_bare("# TYPE "@));
    assert(is_bare(" "@));
    assert(is_bare(digits)) by {
        assert forall|i: int| 0 <= i < digits.len() implies digits[i] != '\n' && digits[i] != '{'
            && digits[i] != '=' by {
            assert(text::is_digit(digits[i]));
        }
    }
    let word = " counter\n"@.drop_last();
    assert(is_bare(word));
    lemma_bare_line_ends(word);
    assert(has_lines(" counter\n"@, 1));
    assert("\n"@.drop_last() =~= Seq::<char>::empty());
    assert(line_ends("\n"@.drop_last()) == 0);
    assert(has_lines("\n"@, 1));
    lemma_bare_line_ends("# HELP "@);
    lemma_bare_line_ends("# TYPE "@);
    lemma_bare_line_ends(" "@);
    lemma_bare_line_ends(name);
    lemma_bare_line_ends(help);
    lemma_bare_line_ends(digits);
    let a = "# HELP "@ + name;
    lemma_lines_join("# HELP "@, 0, name, 0);
    let b = a + " "@;
    lemma_lines_join(a, 0, " "@, 0);
    let c = b + help;
    lemma_lines_join(b, 0, help, 0);
    let d = c + "\n"@;
    lemma_lines_join(c, 0, "\n"@, 1);
    let e = d + "# TYPE "@;
    lemma_lines_join(d, 1, "# TYPE "@, 0);
    let f = e + name;
    lemma_lines_join(e, 1, name, 0);
    let g = f + " counter\n"@;
    lemma_lines_join(f, 1, " counter\n"@, 1);
    let h = g + name;
    lemma_lines_join(g, 2, name, 0);
    let i = h + " "@;
    lemma_lines_join(h, 2, " "@, 0);
    let j = i + digits;
    lemma_lines_join(i, 2, digits, 0);
    lemma_lines_join(j, 2, "\n"@, 1);
}

/// One more counter takes three more lines.
proof fn lemma_counter(
    before: Seq<char>,
    lines: nat,
    name: Seq<char>,
    help: Seq<char>,
    value: nat,
) -> (after: Seq<char>)
    requires
        has_lines(before, lines),
        is_bare(name),
        is_bare(help),
    ensures
        after == before + metric_text(name, help, value),
        has_lines(after, lines + 3),
{
    lemma_metric_lines(name, help, value);
    lemma_lines_join(before, lines, metric_text(name, help, value), 3);
    before + metric_text(name, help, value)
}

proof fn lemma_bare_incidents()
    ensures
        is_bare("ai_sre_incidents_opened_total"@),
        is_bare("Total normalized firing incidents."@),
        is_bare("ai_sre_incidents_recovered_total"@),
        is_bare("Total normalized recovery events."@),
        is_bare("ai_sre_incidents_completed_total"@),
        is_bare("Total incidents with a terminal report."@),
        is_bare("ai_sre_incidents_resumed_total"@),
        is_bare("Total incomplete incidents resumed after redelivery or restart."@),
{
    reveal_strlit("ai_sre_incidents_opened_total");
    reveal_strlit("Total normalized firing incidents.");
    reveal_strlit("ai_sre_incidents_recovered_total");
    reveal_strlit("Total normalized recovery events.");
    reveal_strlit("ai_sre_incidents_completed_total");
    reveal_strlit("Total incidents with a terminal report.");
    reveal_strlit("ai_sre_incidents_resumed_total");
    reveal_strlit("Total incomplete incidents resumed after redelivery or restart.");
}

proof fn lemma_bare_times()
    ensures
        is_bare("ai_sre_active_machine_time_ms_total"@),
        is_bare("Aggregate active non-human phase time in milliseconds."@),
        is_bare("ai_sre_provider_time_ms_total"@),
        is_bare("Aggregate provider adapter time in milliseconds."@),
        is_bare("ai_sre_human_wait_time_ms_total"@),
        is_bare("Aggregate human approval wait time in milliseconds."@),
        is_bare("ai_sre_provider_attempts_total"@),
        is_bare("Aggregate provider attempts."@),
{
    reveal_strlit("ai_sre_active_machine_time_ms_total");
    reveal_strlit("Aggregate active non-human phase time in milliseconds.");
    reveal_strlit("ai_sre_provider_time_ms_total");
    reveal_strlit("Aggregate provider adapter time in milliseconds.");
    reveal_strlit("ai_sre_human_wait_time_ms_total");
    reveal_strlit("Aggregate human approval wait time in milliseconds.");
    reveal_strlit("ai_sre_provider_attempts_total");
    reveal_strlit("Aggregate provider attempts.");
}

proof fn lemma_bare_calls()
    ensures
        is_bare("ai_sre_evidence_queries_total"@),
        is_bare("Aggregate evidence queries charged to provider attempts."@),
        is_bare("ai_sre_tool_calls_total"@),
        is_bare("Aggregate model-directed read-only context calls."@),
        is_bare("ai_sre_successful_tool_calls_total"@),
        is_bare("Aggregate context calls that committed evidence."@),
        is_bare("ai_sre_tool_time_ms_total"@),
        is_bare("Aggregate bounded context-call time in milliseconds."@),
{
    reveal_strlit("ai_sre_evidence_queries_total");
    reveal_strlit("Aggregate evidence queries charged to provider attempts.");
    reveal_strlit("ai_sre_tool_calls_total");
    reveal_strlit("Aggregate model-directed read-only context calls.");
    reveal_strlit("ai_sre_successful_tool_calls_total");
    reveal_strlit("Aggregate context calls that committed evidence.");
    reveal_strlit("ai_sre_tool_time_ms_total");
    reveal_strlit("Aggregate bounded context-call time in milliseconds.");
}

proof fn lemma_bare_costs()
    ensures
        is_bare("ai_sre_tool_output_bytes_total"@),
        is_bare("Aggregate bounded context-result bytes retained for resumption."@),
        is_bare("ai_sre_tokens_total"@),
        is_bare("Aggregate trusted provider token usage."@),
        is_bare("ai_sre_known_cost_micro_usd_total"@),
        is_bare("Aggregate known estimated provider cost in integer micro-USD."@),
        is_bare("ai_sre_unknown_cost_attempts_total"@),
        is_bare("Provider attempts whose monetary cost remains unknown."@),
{
    reveal_strlit("ai_sre_tool_output_bytes_total");
    reveal_strlit("Aggregate bounded context-result bytes retained for resumption.");
    reveal_strlit("ai_sre_tokens_total");
    reveal_strlit("Aggregate trusted provider token usage.");
    reveal_strlit("ai_sre_known_cost_micro_usd_total");
    reveal_strlit("Aggregate known estimated provider cost in integer micro-USD.");
    reveal_strlit("ai_sre_unknown_cost_attempts_total");
    reveal_strlit("Provider attempts whose monetary cost remains unknown.");
}

/// Metrics are sixteen counters of three lines each, and no line has a label: whatever the
/// journal holds, nothing but the totals varies.
pub proof fn metrics_are_lines_without_labels(kinds: Seq<FactKind>, totals: JournalProjection)
    ensures
        !metrics_text(kinds, totals).contains('{'),
        !metrics_text(kinds, totals).contains('='),
        line_ends(metrics_text(kinds, totals)) == 48,
{
    lemma_bare_incidents();
    lemma_bare_times();
    lemma_bare_calls();
    lemma_bare_costs();
    let t0 = Seq::<char>::empty();
    let t1 = lemma_counter(
        t0,
        0,
        "ai_sre_incidents_opened_total"@,
        "Total normalized firing incidents."@,
        tally(kinds, FactKind::Opened),
    );
    let t2 = lemma_counter(
        t1,
        3,
        "ai_sre_incidents_recovered_total"@,
        "Total normalized recovery events."@,
        tally(kinds, FactKind::Recovered),
    );
    let t3 = lemma_counter(
        t2,
        6,
        "ai_sre_incidents_completed_total"@,
        "Total incidents with a terminal report."@,
        tally(kinds, FactKind::Completed),
    );
    let t4 = lemma_counter(
        t3,
        9,
        "ai_sre_incidents_resumed_total"@,
        "Total incomplete incidents resumed after redelivery or restart."@,
        tally(kinds, FactKind::Resumed),
    );
    let t5 = lemma_counter(
        t4,
        12,
        "ai_sre_active_machine_time_ms_total"@,
        "Aggregate active non-human phase time in milliseconds."@,
        totals.active_machine_ms as nat,
    );
    let t6 = lemma_counter(
        t5,
        15,
        "ai_sre_provider_time_ms_total"@,
        "Aggregate provider adapter time in milliseconds."@,
        totals.provider_time_ms as nat,
    );
    let t7 = lemma_counter(
        t6,
        18,
        "ai_sre_human_wait_time_ms_total"@,
        "Aggregate human approval wait time in milliseconds."@,
        totals.human_wait_ms as nat,
    );
    let t8 = lemma_counter(
        t7,
        21,
        "ai_sre_provider_attempts_total"@,
        "Aggregate provider attempts."@,
        totals.provider_attempts as nat,
    );
    let t9 = lemma_counter(
        t8,
        24,
        "ai_sre_evidence_queries_total"@,
        "Aggregate evidence queries charged to provider attempts."@,
        totals.evidence_queries as nat,
    );
    let t10 = lemma_counter(
        t9,
        27,
        "ai_sre_tool_calls_total"@,
        "Aggregate model-directed read-only context calls."@,
        totals.tool_calls as nat,
    );
    let t11 = lemma_counter(
        t10,
        30,
        "ai_sre_successful_tool_calls_total"@,
        "Aggregate context calls that committed evidence."@,
        totals.successful_tool_calls as nat,
    );
    let t12 = lemma_counter(
        t11,
        33,
        "ai_sre_tool_time_ms_total"@,
        "Aggregate bounded context-call time in milliseconds."@,
        totals.tool_elapsed_ms as nat,
    );
    let t13 = lemma_counter(
        t12,
        36,
        "ai_sre_tool_output_bytes_total"@,
        "Aggregate bounded context-result bytes retained for resumption."@,
        totals.tool_output_bytes as nat,
    );
    let t14 = lemma_counter(
        t13,
        39,
        "ai_sre_tokens_total"@,
        "Aggregate trusted provider token usage."@,
        totals.tokens as nat,
    );
    let t15 = lemma_counter(
        t14,
        42,
        "ai_sre_known_cost_micro_usd_total"@,
        "Aggregate known estimated provider cost in integer micro-USD."@,
        totals.known_cost_micro_usd as nat,
    );
    let t16 = lemma_counter(
        t15,
        45,
        "ai_sre_unknown_cost_attempts_total"@,
        "Provider attempts whose monetary cost remains unknown."@,
        totals.unknown_cost_attempts as nat,
    );
    assert(t16 == metrics_text(kinds, totals));
}

/// Metrics depend on the counted totals alone.
pub proof fn metrics_depend_on_totals_alone(a: IncidentJournal, b: IncidentJournal)
    requires
        ({
            let first = fact_kinds(a.entries@);
            let second = fact_kinds(b.entries@);
            &&& tally(first, FactKind::Opened) == tally(second, FactKind::Opened)
            &&& tally(first, FactKind::Recovered) == tally(second, FactKind::Recovered)
            &&& tally(first, FactKind::Completed) == tally(second, FactKind::Completed)
            &&& tally(first, FactKind::Resumed) == tally(second, FactKind::Resumed)
        }),
        a.projection == b.projection,
    ensures
        metrics_text(fact_kinds(a.entries@), a.projection) == metrics_text(
            fact_kinds(b.entries@),
            b.projection,
        ),
{
}

/// Identities leave no trace in metrics: journals with the same kinds of facts, in any order,
/// and the same totals render the same.
pub proof fn metrics_hold_no_identities(a: IncidentJournal, b: IncidentJournal)
    requires
        fact_kinds(a.entries@).to_multiset() =~= fact_kinds(b.entries@).to_multiset(),
        a.projection == b.projection,
    ensures
        metrics_text(fact_kinds(a.entries@), a.projection) == metrics_text(
            fact_kinds(b.entries@),
            b.projection,
        ),
{
    let first = fact_kinds(a.entries@);
    let second = fact_kinds(b.entries@);
    lemma_tally_count(first, FactKind::Opened);
    lemma_tally_count(first, FactKind::Recovered);
    lemma_tally_count(first, FactKind::Completed);
    lemma_tally_count(first, FactKind::Resumed);
    lemma_tally_count(second, FactKind::Opened);
    lemma_tally_count(second, FactKind::Recovered);
    lemma_tally_count(second, FactKind::Completed);
    lemma_tally_count(second, FactKind::Resumed);
}

/// A tally is the number of occurrences in the multiset.
proof fn lemma_tally_count(kinds: Seq<FactKind>, kind: FactKind)
    ensures
        tally(kinds, kind) == kinds.to_multiset().count(kind),
    decreases kinds.len(),
{
    broadcast use vstd::seq_lib::group_to_multiset_ensures;

    if kinds.len() > 0 {
        lemma_tally_count(kinds.drop_last(), kind);
        assert(kinds.drop_last().push(kinds.last()) =~= kinds);
    }
}

/// One counter says its value behind its name.
proof fn lemma_metric_says_value(name: Seq<char>, help: Seq<char>, value: nat)
    ensures
        text::has_part(metric_text(name, help, value), name + " "@ + number::decimal(value) + "\n"@),
{
    let line = name + " "@ + number::decimal(value) + "\n"@;
    let front = "# HELP "@ + name + " "@ + help + "\n"@ + "# TYPE "@ + name + " counter\n"@;
    assert(metric_text(name, help, value) =~= front + line);
    text::lemma_own_part(line);
    text::lemma_parts_stay(front, line);
}

/// Every counter says its own total: the facts of its kind, or the total of its name.
pub proof fn counters_say_their_totals(kinds: Seq<FactKind>, totals: JournalProjection)
    ensures
        ({
            let text = metrics_text(kinds, totals);
            &&& text::has_part(text, "ai_sre_incidents_opened_total"@ + " "@ + number::decimal(tally(kinds, FactKind::Opened)) + "\n"@)
            &&& text::has_part(text, "ai_sre_incidents_recovered_total"@ + " "@ + number::decimal(tally(kinds, FactKind::Recovered)) + "\n"@)
            &&& text::has_part(text, "ai_sre_incidents_completed_total"@ + " "@ + number::decimal(tally(kinds, FactKind::Completed)) + "\n"@)
            &&& text::has_part(text, "ai_sre_incidents_resumed_total"@ + " "@ + number::decimal(tally(kinds, FactKind::Resumed)) + "\n"@)
            &&& text::has_part(text, "ai_sre_active_machine_time_ms_total"@ + " "@ + number::decimal(totals.active_machine_ms as nat) + "\n"@)
            &&& text::has_part(text, "ai_sre_provider_time_ms_total"@ + " "@ + number::decimal(totals.provider_time_ms as nat) + "\n"@)
            &&& text::has_part(text, "ai_sre_human_wait_time_ms_total"@ + " "@ + number::decimal(totals.human_wait_ms as nat) + "\n"@)
            &&& text::has_part(text, "ai_sre_provider_attempts_total"@ + " "@ + number::decimal(totals.provider_attempts as nat) + "\n"@)
            &&& text::has_part(text, "ai_sre_evidence_queries_total"@ + " "@ + number::decimal(totals.evidence_queries as nat) + "\n"@)
            &&& text::has_part(text, "ai_sre_tool_calls_total"@ + " "@ + number::decimal(totals.tool_calls as nat) + "\n"@)
            &&& text::has_part(text, "ai_sre_successful_tool_calls_total"@ + " "@ + number::decimal(totals.successful_tool_calls as nat) + "\n"@)
            &&& text::has_part(text, "ai_sre_tool_time_ms_total"@ + " "@ + number::decimal(totals.tool_elapsed_ms as nat) + "\n"@)
            &&& text::has_part(text, "ai_sre_tool_output_bytes_total"@ + " "@ + number::decimal(totals.tool_output_bytes as nat) + "\n"@)
            &&& text::has_part(text, "ai_sre_tokens_total"@ + " "@ + number::decimal(totals.tokens as nat) + "\n"@)
            &&& text::has_part(text, "ai_sre_known_cost_micro_usd_total"@ + " "@ + number::decimal(totals.known_cost_micro_usd as nat) + "\n"@)
            &&& text::has_part(text, "ai_sre_unknown_cost_attempts_total"@ + " "@ + number::decimal(totals.unknown_cost_attempts as nat) + "\n"@)
        }),
{
    let t0 = Seq::<char>::empty();
    let m = metric_text(
        "ai_sre_incidents_opened_total"@,
        "Total normalized firing incidents."@,
        tally(kinds, FactKind::Opened),
    );
    lemma_metric_says_value(
        "ai_sre_incidents_opened_total"@,
        "Total normalized firing incidents."@,
        tally(kinds, FactKind::Opened),
    );
    text::lemma_parts_stay(t0, m);
    let t1 = t0 + m;
    let m = metric_text(
        "ai_sre_incidents_recovered_total"@,
        "Total normalized recovery events."@,
        tally(kinds, FactKind::Recovered),
    );
    lemma_metric_says_value(
        "ai_sre_incidents_recovered_total"@,
        "Total normalized recovery events."@,
        tally(kinds, FactKind::Recovered),
    );
    text::lemma_parts_stay(t1, m);
    let t2 = t1 + m;
    let m = metric_text(
        "ai_sre_incidents_completed_total"@,
        "Total incidents with a terminal report."@,
        tally(kinds, FactKind::Completed),
    );
    lemma_metric_says_value(
        "ai_sre_incidents_completed_total"@,
        "Total incidents with a terminal report."@,
        tally(kinds, FactKind::Completed),
    );
    text::lemma_parts_stay(t2, m);
    let t3 = t2 + m;
    let m = metric_text(
        "ai_sre_incidents_resumed_total"@,
        "Total incomplete incidents resumed after redelivery or restart."@,
        tally(kinds, FactKind::Resumed),
    );
    lemma_metric_says_value(
        "ai_sre_incidents_resumed_total"@,
        "Total incomplete incidents resumed after redelivery or restart."@,
        tally(kinds, FactKind::Resumed),
    );
    text::lemma_parts_stay(t3, m);
    let t4 = t3 + m;
    let m = metric_text(
        "ai_sre_active_machine_time_ms_total"@,
        "Aggregate active non-human phase time in milliseconds."@,
        totals.active_machine_ms as nat,
    );
    lemma_metric_says_value(
        "ai_sre_active_machine_time_ms_total"@,
        "Aggregate active non-human phase time in milliseconds."@,
        totals.active_machine_ms as nat,
    );
    text::lemma_parts_stay(t4, m);
    let t5 = t4 + m;
    let m = metric_text(
        "ai_sre_provider_time_ms_total"@,
        "Aggregate provider adapter time in milliseconds."@,
        totals.provider_time_ms as nat,
    );
    lemma_metric_says_value(
        "ai_sre_provider_time_ms_total"@,
        "Aggregate provider adapter time in milliseconds."@,
        totals.provider_time_ms as nat,
    );
    text::lemma_parts_stay(t5, m);
    let t6 = t5 + m;
    let m = metric_text(
        "ai_sre_human_wait_time_ms_total"@,
        "Aggregate human approval wait time in milliseconds."@,
        totals.human_wait_ms as nat,
    );
    lemma_metric_says_value(
        "ai_sre_human_wait_time_ms_total"@,
        "Aggregate human approval wait time in milliseconds."@,
        totals.human_wait_ms as nat,
    );
    text::lemma_parts_stay(t6, m);
    let t7 = t6 + m;
    let m = metric_text(
        "ai_sre_provider_attempts_total"@,
        "Aggregate provider attempts."@,
        totals.provider_attempts as nat,
    );
    lemma_metric_says_value(
        "ai_sre_provider_attempts_total"@,
        "Aggregate provider attempts."@,
        totals.provider_attempts as nat,
    );
    text::lemma_parts_stay(t7, m);
    let t8 = t7 + m;
    let m = metric_text(
        "ai_sre_evidence_queries_total"@,
        "Aggregate evidence queries charged to provider attempts."@,
        totals.evidence_queries as nat,
    );
    lemma_metric_says_value(
        "ai_sre_evidence_queries_total"@,
        "Aggregate evidence queries charged to provider attempts."@,
        totals.evidence_queries as nat,
    );
    text::lemma_parts_stay(t8, m);
    let t9 = t8 + m;
    let m = metric_text(
        "ai_sre_tool_calls_total"@,
        "Aggregate model-directed read-only context calls."@,
        totals.tool_calls as nat,
    );
    lemma_metric_says_value(
        "ai_sre_tool_calls_total"@,
        "Aggregate model-directed read-only context calls."@,
        totals.tool_calls as nat,
    );
    text::lemma_parts_stay(t9, m);
    let t10 = t9 + m;
    let m = metric_text(
        "ai_sre_successful_tool_calls_total"@,
        "Aggregate context calls that committed evidence."@,
        totals.successful_tool_calls as nat,
    );
    lemma_metric_says_value(
        "ai_sre_successful_tool_calls_total"@,
        "Aggregate context calls that committed evidence."@,
        totals.successful_tool_calls as nat,
    );
    text::lemma_parts_stay(t10, m);
    let t11 = t10 + m;
    let m = metric_text(
        "ai_sre_tool_time_ms_total"@,
        "Aggregate bounded context-call time in milliseconds."@,
        totals.tool_elapsed_ms as nat,
    );
    lemma_metric_says_value(
        "ai_sre_tool_time_ms_total"@,
        "Aggregate bounded context-call time in milliseconds."@,
        totals.tool_elapsed_ms as nat,
    );
    text::lemma_parts_stay(t11, m);
    let t12 = t11 + m;
    let m = metric_text(
        "ai_sre_tool_output_bytes_total"@,
        "Aggregate bounded context-result bytes retained for resumption."@,
        totals.tool_output_bytes as nat,
    );
    lemma_metric_says_value(
        "ai_sre_tool_output_bytes_total"@,
        "Aggregate bounded context-result bytes retained for resumption."@,
        totals.tool_output_bytes as nat,
    );
    text::lemma_parts_stay(t12, m);
    let t13 = t12 + m;
    let m = metric_text(
        "ai_sre_tokens_total"@,
        "Aggregate trusted provider token usage."@,
        totals.tokens as nat,
    );
    lemma_metric_says_value(
        "ai_sre_tokens_total"@,
        "Aggregate trusted provider token usage."@,
        totals.tokens as nat,
    );
    text::lemma_parts_stay(t13, m);
    let t14 = t13 + m;
    let m = metric_text(
        "ai_sre_known_cost_micro_usd_total"@,
        "Aggregate known estimated provider cost in integer micro-USD."@,
        totals.known_cost_micro_usd as nat,
    );
    lemma_metric_says_value(
        "ai_sre_known_cost_micro_usd_total"@,
        "Aggregate known estimated provider cost in integer micro-USD."@,
        totals.known_cost_micro_usd as nat,
    );
    text::lemma_parts_stay(t14, m);
    let t15 = t14 + m;
    let m = metric_text(
        "ai_sre_unknown_cost_attempts_total"@,
        "Provider attempts whose monetary cost remains unknown."@,
        totals.unknown_cost_attempts as nat,
    );
    lemma_metric_says_value(
        "ai_sre_unknown_cost_attempts_total"@,
        "Provider attempts whose monetary cost remains unknown."@,
        totals.unknown_cost_attempts as nat,
    );
    text::lemma_parts_stay(t15, m);
    let t16 = t15 + m;
    assert(t16 == metrics_text(kinds, totals));
}

/// A fact counts once, under its own kind.
pub proof fn facts_count_under_their_kind(kinds: Seq<FactKind>, kind: FactKind, counted: FactKind)
    ensures
        tally(kinds.push(kind), counted) == tally(kinds, counted) + if kind == counted {
            1nat
        } else {
            0nat
        },
        tally(Seq::empty(), counted) == 0,
{
    assert(kinds.push(kind).drop_last() =~= kinds);
}

/// The kind of a journaled fact.
pub proof fn facts_have_the_kind_of_their_event(event: JournalEvent)
    ensures
        fact_kind(event) == FactKind::Opened <==> event is IncidentOpened,
        fact_kind(event) == FactKind::Recovered <==> event is IncidentRecovered,
        fact_kind(event) == FactKind::Completed <==> event is IncidentCompleted,
        fact_kind(event) == FactKind::Resumed <==> event is IncidentResumed,
{
}

/// The phases that telemetry may name.
pub proof fn phases_are_four_words(phase: Seq<char>)
    ensures
        is_phase(phase) <==> phase == "investigation"@ || phase == "reasoning"@ || phase
            == "human_wait"@ || phase == "execution"@,
{
}

/// A counter is three lines: its help, its type and its value.
pub proof fn counters_are_help_type_and_value(name: Seq<char>, help: Seq<char>, value: nat)
    ensures
        metric_text(name, help, value) == ("# HELP "@ + name + " "@ + help + "\n"@) + ("# TYPE "@ + name
            + " counter\n"@) + (name + " "@ + number::decimal(value) + "\n"@),
{
    assert(metric_text(name, help, value) =~= ("# HELP "@ + name + " "@ + help + "\n"@) + ("# TYPE "@
        + name + " counter\n"@) + (name + " "@ + number::decimal(value) + "\n"@));
}

} // verus!
