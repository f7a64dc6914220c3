//! Metrics, structured logs and traces.

use ai_sre::observability::tracing::{
    export_accepted, incident_trace_id, resolve_endpoint, response_fits, TraceEvent,
};
use ai_sre::observability::{render_journal_metrics, span_context, StructuredLog};
use ai_sre::reasoning::coordinator::RunStatus;
use ai_sre::reasoning::journal::{IncidentJournal, JournalEvent, JournalProjection};
use ai_sre::reasoning::router::ProviderKind;

fn totals() -> JournalProjection {
    JournalProjection {
        active_machine_ms: 1,
        provider_time_ms: 2,
        human_wait_ms: 3,
        provider_attempts: 4,
        evidence_queries: 5,
        tool_calls: 1,
        successful_tool_calls: 1,
        tool_elapsed_ms: 12,
        tool_output_bytes: 128,
        tokens: 6,
        known_cost_micro_usd: u64::MAX,
        unknown_cost_attempts: 7,
    }
}

fn journal(entries: Vec<JournalEvent>) -> IncidentJournal {
    IncidentJournal {
        entries,
        projection: totals(),
    }
}

fn opened(incident_id: &str) -> JournalEvent {
    JournalEvent::IncidentOpened {
        incident_id: incident_id.to_owned(),
    }
}

#[test]
fn metrics_use_fixed_names_without_incident_labels() {
    let metrics = render_journal_metrics(&journal(vec![
        opened("secret-incident-id"),
        JournalEvent::ToolContext {
            call_id: "call-1".to_owned(),
        },
    ]));
    assert!(metrics.contains("ai_sre_incidents_opened_total 1"));
    assert!(metrics.contains("ai_sre_tool_calls_total 1"));
    assert!(metrics.contains("ai_sre_successful_tool_calls_total 1"));
    assert!(metrics.contains("ai_sre_tool_output_bytes_total 128"));
    assert!(!metrics.contains("secret-incident-id"));
    assert!(!metrics.contains("incident_id="));
}

#[test]
fn telemetry_rejects_uncontrolled_labels_and_keeps_ids_out_of_metrics() {
    let event = StructuredLog::new("provider.finish", "incident-1", "run-1", Some("reasoning"));
    let rejected = StructuredLog::new("provider.finish", "incident-1", "run-1", Some("query"));
    assert!(event.is_some());
    assert!(rejected.is_none());
    assert!(span_context("provider", "reasoning").is_some());
    assert!(span_context("provider", "query").is_none());
}

#[test]
fn trace_events_reject_sensitive_or_uncontrolled_phase_values() {
    assert!(
        TraceEvent::new("trace", "span", "incident.investigation", "query", None, 1, Some(5))
            .is_none()
    );
    assert!(TraceEvent::new(
        "trace",
        "span",
        "incident.investigation",
        "investigation",
        None,
        1,
        Some(5)
    )
    .is_some());
}

#[test]
fn metrics_count_each_kind_of_fact() {
    let id = || "i".to_owned();
    let metrics = render_journal_metrics(&journal(vec![
        opened("a"),
        opened("b"),
        opened("c"),
        JournalEvent::IncidentRecovered { incident_id: id() },
        JournalEvent::IncidentRecovered { incident_id: id() },
        JournalEvent::IncidentCompleted { incident_id: id() },
        JournalEvent::IncidentResumed { incident_id: id() },
        JournalEvent::Other,
    ]));
    let lines: Vec<&str> = metrics.lines().collect();
    assert_eq!(lines.len(), 48);
    assert_eq!(
        lines[..6],
        [
            "# HELP ai_sre_incidents_opened_total Total normalized firing incidents.",
            "# TYPE ai_sre_incidents_opened_total counter",
            "ai_sre_incidents_opened_total 3",
            "# HELP ai_sre_incidents_recovered_total Total normalized recovery events.",
            "# TYPE ai_sre_incidents_recovered_total counter",
            "ai_sre_incidents_recovered_total 2",
        ]
    );
    let values: Vec<&str> = lines.iter().skip(2).step_by(3).copied().collect();
    assert_eq!(
        values,
        vec![
            "ai_sre_incidents_opened_total 3",
            "ai_sre_incidents_recovered_total 2",
            "ai_sre_incidents_completed_total 1",
            "ai_sre_incidents_resumed_total 1",
            "ai_sre_active_machine_time_ms_total 1",
            "ai_sre_provider_time_ms_total 2",
            "ai_sre_human_wait_time_ms_total 3",
            "ai_sre_provider_attempts_total 4",
            "ai_sre_evidence_queries_total 5",
            "ai_sre_tool_calls_total 1",
            "ai_sre_successful_tool_calls_total 1",
            "ai_sre_tool_time_ms_total 12",
            "ai_sre_tool_output_bytes_total 128",
            "ai_sre_tokens_total 6",
            "ai_sre_known_cost_micro_usd_total 18446744073709551615",
            "ai_sre_unknown_cost_attempts_total 7",
        ]
    );
    assert!(metrics.ends_with("\n"));
}

#[test]
fn metrics_take_forty_eight_lines_without_labels() {
    let text = render_journal_metrics(&journal(vec![opened("{a}"), opened("b\n")]));
    assert_eq!(text.lines().count(), 48);
    assert!(text.ends_with('\n'));
    assert!(!text.contains('{'));
    assert!(!text.contains('='));
}

#[test]
fn metrics_do_not_tell_journals_apart_by_identity_or_order() {
    let recovered = || JournalEvent::IncidentRecovered {
        incident_id: "z".to_owned(),
    };
    let first = render_journal_metrics(&journal(vec![opened("a"), recovered()]));
    let second = render_journal_metrics(&journal(vec![recovered(), opened("b")]));
    assert_eq!(first, second);
}

#[test]
fn log_fields_are_clipped() {
    let long = "é".repeat(200);
    let log = StructuredLog::new(&long, &long, &long, None).unwrap();
    assert_eq!(log.event, "é".repeat(128));
    assert_eq!(log.incident_id, "é".repeat(128));
    assert_eq!(log.run_id, "é".repeat(128));
    assert_eq!(log.phase, None);
    for phase in ["investigation", "reasoning", "human_wait", "execution"] {
        let log = StructuredLog::new("e", "i", "r", Some(phase)).unwrap();
        assert_eq!(log.phase.as_deref(), Some(phase));
    }
    let span = span_context(&long, "execution").unwrap();
    assert_eq!(span.name, "é".repeat(128));
    assert_eq!(span.phase, "execution");
}

#[test]
fn trace_ids_are_prefixes_of_digests() {
    assert_eq!(incident_trace_id("abc"), "ba7816bf8f01cfea414140de5dae2223");
    assert_eq!(incident_trace_id(""), "e3b0c44298fc1c149afbf4c8996fb924");
    assert_eq!(incident_trace_id("incident-1").len(), 32);
}

fn event(provider: Option<&str>, duration_ms: u64, end: u128) -> Option<TraceEvent> {
    TraceEvent::new(
        "trace",
        "span",
        "incident.investigation",
        "investigation",
        provider,
        duration_ms,
        Some(end),
    )
}

#[test]
fn trace_events_are_refused_outside_their_lists() {
    let make = |trace: &str, span: &str, name: &str, provider: Option<&str>, clock| {
        TraceEvent::new(trace, span, name, "investigation", provider, 1, clock)
    };
    let name = "incident.investigation";
    assert!(make("t", "s", name, Some("openai"), Some(1)).is_some());
    assert!(make("t", "s", name, Some("gemini"), Some(1)).is_some());
    assert!(make("t", "s", name, Some("deepseek"), Some(1)).is_some());
    assert!(make("t", "s", name, Some("secret-key"), Some(1)).is_none());
    assert!(make("t", "s", "other", None, Some(1)).is_none());
    assert!(make(" ", "s", name, None, Some(1)).is_none());
    assert!(make("t", "", name, None, Some(1)).is_none());
    assert!(make(&"t".repeat(256), "s", name, None, Some(1)).is_some());
    assert!(make(&"t".repeat(257), "s", name, None, Some(1)).is_none());
    assert!(make("t", &"s".repeat(257), name, None, Some(1)).is_none());
    assert!(make("t", "s", name, None, None).is_none());
    assert!(make("t", "s", name, None, Some(u64::MAX as u128)).is_some());
    assert!(make("t", "s", name, None, Some(u64::MAX as u128 + 1)).is_none());
}

#[test]
fn trace_payloads_are_metadata_only() {
    let payload = event(Some("openai"), 2, 5_000_000).unwrap().payload();
    let value: serde_json::Value = serde_json::from_str(&payload).unwrap();
    // Members stand in alphabetical order, as a parsed document writes them.
    assert_eq!(serde_json::to_string(&value).unwrap(), payload);
    let span = &value["resourceSpans"][0]["scopeSpans"][0]["spans"][0];
    assert_eq!(
        value["resourceSpans"][0]["resource"]["attributes"][0]["value"]["stringValue"],
        "ai-sre"
    );
    assert_eq!(span["traceId"], incident_trace_id("trace"));
    assert_eq!(span["spanId"].as_str().unwrap().len(), 16);
    assert_eq!(span["startTimeUnixNano"], "3000000");
    assert_eq!(span["endTimeUnixNano"], "5000000");
    assert_eq!(span["name"], "incident.investigation");
    let attributes = span["attributes"].as_array().unwrap();
    let shown: Vec<(&str, String)> = attributes
        .iter()
        .map(|a| (a["key"].as_str().unwrap(), a["value"].to_string()))
        .collect();
    assert_eq!(
        shown,
        vec![
            ("phase", "{\"stringValue\":\"investigation\"}".to_owned()),
            ("outcome", "{\"stringValue\":\"unspecified\"}".to_owned()),
            ("provider", "{\"stringValue\":\"openai\"}".to_owned()),
            ("duration_ms", "{\"intValue\":\"2\"}".to_owned()),
        ]
    );
    // A duration longer than the time since the epoch starts at the epoch.
    let early = event(None, u64::MAX, 7).unwrap().payload();
    assert!(early.contains("\"startTimeUnixNano\":\"0\""));
    assert!(early.contains("\"stringValue\":\"none\""));
}

#[test]
fn trace_outcomes_are_fixed_words() {
    for (status, provider, outcome) in [
        (RunStatus::Succeeded(ProviderKind::OpenAi), "openai", "succeeded"),
        (RunStatus::Succeeded(ProviderKind::Gemini), "gemini", "succeeded"),
        (RunStatus::Succeeded(ProviderKind::DeepSeek), "deepseek", "succeeded"),
        (RunStatus::Succeeded(ProviderKind::Deterministic), "deterministic", "baseline"),
        (RunStatus::Exhausted, "deterministic", "exhausted"),
    ] {
        let payload = event(None, 1, 9).unwrap().with_status(status).payload();
        assert!(payload.contains(&format!("\"stringValue\":\"{provider}\"")));
        assert!(payload.contains(&format!("\"stringValue\":\"{outcome}\"")));
    }
    let failed = event(Some("gemini"), 1, 9).unwrap().with_failure().payload();
    assert!(failed.contains("\"stringValue\":\"failed\""));
    assert!(failed.contains("\"stringValue\":\"none\""));
    assert!(!failed.contains("gemini"));
}

#[test]
fn trace_endpoints_follow_precedence() {
    let resolved = |base, traces| resolve_endpoint(base, traces);
    assert_eq!(
        resolved(Some("http://tempo:4318/otlp//"), None).as_deref(),
        Some("http://tempo:4318/otlp/v1/traces")
    );
    assert_eq!(
        resolved(Some("https://tempo"), None).as_deref(),
        Some("https://tempo/v1/traces")
    );
    assert_eq!(
        resolved(Some("http://base"), Some("http://traces/custom")).as_deref(),
        Some("http://traces/custom")
    );
    // A trace-specific endpoint that is refused is not replaced by the base.
    assert_eq!(resolved(Some("http://base"), Some("ftp://traces")), None);
    assert_eq!(resolved(None, None), None);
    for refused in [
        "tempo",
        "ftp://tempo",
        "http://user@tempo",
        "http://:pw@tempo",
        "http://tempo?x=1",
        "http://tempo#x",
    ] {
        assert_eq!(resolved(Some(refused), None), None, "{refused}");
        assert_eq!(resolved(None, Some(refused)), None, "{refused}");
    }
}

#[test]
fn exports_are_accepted_only_without_rejected_spans() {
    let accepted = |body: &str| export_accepted(200, Some(body.as_bytes()));
    for body in [
        "{}",
        "{\"partialSuccess\":null}",
        "{\"partialSuccess\":{}}",
        "{\"partialSuccess\":{\"rejectedSpans\":0}}",
        "{\"partialSuccess\":{\"rejectedSpans\":\"0\"}}",
    ] {
        assert!(accepted(body), "{body}");
    }
    for body in [
        "",
        "[]",
        "null",
        "{\"partialSuccess\":[]}",
        "{\"partialSuccess\":true}",
        "{\"partialSuccess\":{\"rejectedSpans\":1}}",
        "{\"partialSuccess\":{\"rejectedSpans\":-1}}",
        "{\"partialSuccess\":{\"rejectedSpans\":0.0}}",
        "{\"partialSuccess\":{\"rejectedSpans\":\"1\"}}",
        "{\"partialSuccess\":{\"rejectedSpans\":null}}",
    ] {
        assert!(!accepted(body), "{body}");
    }
    assert!(!export_accepted(202, Some(b"{}".as_slice())));
    assert!(!export_accepted(200, None));
    assert!(response_fits(3, 4, 7));
    assert!(!response_fits(3, 5, 7));
    assert!(!response_fits(usize::MAX, 1, 7));
}
