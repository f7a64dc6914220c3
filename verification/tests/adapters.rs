//! Read-only context, gateway and Grafana adapters.

use ai_sre::adapters::context::{
    deployment_history, git_desired_state, health_plan, ContextError, ProcessOutcome,
    ReadOnlyCommand, ReadOnlyRunner,
};
use ai_sre::adapters::gateway::protocol::{GatewayError, GatewayOperation, GatewayProtocol};
use ai_sre::adapters::grafana::context::{
    bounded_failure_query, failure_metadata, settle_query, Batch, ContextBudget,
    ContextError as GrafanaError, GrafanaContext, GrafanaContextConfig, QueryOutcome,
    ReadOnlyRequest,
};
use ai_sre::adapters::grafana::gcx::{
    GcxOutcome, GcxQuery, GcxRunError, GcxRunner, QueryKind, StreamRead,
};
use ai_sre::reasoning::evidence::{EvidenceError, EvidenceSource, EvidenceStatus};
use ai_sre::reasoning::tools::{ContextTool, ToolCall, ToolResultClass};

#[test]
fn context_budget_is_exhausted_without_underflow() {
    let mut budget = ContextBudget::new(1);
    let first = budget.consume();
    let second = budget.consume();
    assert_eq!(first, Ok(()));
    assert_eq!(second, Err(GrafanaError::QueryBudgetExceeded));
}

#[test]
fn read_only_requests_have_no_command_or_datasource_field() {
    let request = ReadOnlyRequest::Logs("{service=\"api\"} |= \"error\"".to_owned());
    let is_logs = matches!(request, ReadOnlyRequest::Logs(_));
    assert!(is_logs);
}

#[test]
fn budgets_stay_empty_once_exhausted() {
    let mut budget = ContextBudget::new(0);
    for _ in 0..3 {
        assert_eq!(budget.consume(), Err(GrafanaError::QueryBudgetExceeded));
    }
}

#[test]
fn gateway_accepts_each_attempt_once() {
    let mut protocol = GatewayProtocol::default();
    let input = "AI-SRE/1\texecute\tattempt-1\thomelab-target\tpayload";
    let request = protocol.parse(input).unwrap();
    assert_eq!(request.operation, GatewayOperation::Execute);
    assert_eq!(request.attempt_id, "attempt-1");
    assert_eq!(request.target, "homelab-target");
    assert_eq!(request.payload, "payload");
    let other = protocol
        .parse("AI-SRE/1\treceipt\tattempt-2\thomelab-target\tx y")
        .unwrap();
    assert_eq!(other.operation, GatewayOperation::Receipt);
    assert_eq!(protocol.parse(input), Err(GatewayError::Replay));
    // Another payload under the same attempt is a replay too.
    assert_eq!(
        protocol.parse("AI-SRE/1\treceipt\tattempt-1\thomelab-target\tother"),
        Err(GatewayError::Replay)
    );
}

#[test]
fn gateway_refusals_reserve_nothing() {
    let mut protocol = GatewayProtocol::default();
    for framing in [
        "",
        "AI-SRE/1\texecute\ta\thomelab-target",
        "AI-SRE/2\texecute\ta\thomelab-target\tp",
        "AI-SRE/1\texecute\t\thomelab-target\tp",
        "AI-SRE/1\texecute\ta\thomelab-target\tp\tq",
        "AI-SRE/1\t\ta\thomelab-target\tp",
    ] {
        assert_eq!(protocol.parse(framing), Err(GatewayError::InvalidFraming));
    }
    for refused in [
        "AI-SRE/1\tdelete\ta\thomelab-target\tp",
        "AI-SRE/1\texecute\ta\tother-target\tp",
        "AI-SRE/1\texecute\ta\thomelab-target\tp;q",
        "AI-SRE/1\texecute\ta\thomelab-target\tp|q",
        "AI-SRE/1\texecute\ta\thomelab-target\tp&q",
        "AI-SRE/1\texecute\ta\thomelab-target\tp\nq",
        "AI-SRE/1\texecute\ta\thomelab-target\tp\rq",
    ] {
        assert_eq!(protocol.parse(refused), Err(GatewayError::NotAllowed));
    }
    assert!(protocol
        .parse("AI-SRE/1\texecute\ta\thomelab-target\tp")
        .is_ok());
}

#[test]
fn git_plans_are_fixed_and_relative() {
    let command =
        git_desired_state("/usr/bin/git", "/srv/git", "main", "stacks/a.yml").unwrap();
    let plan = command.plan();
    assert_eq!(plan.program, "/usr/bin/git");
    assert_eq!(
        plan.arguments,
        vec![
            "--no-pager",
            "-C",
            "/srv/git",
            "show",
            "--no-ext-diff",
            "--format=",
            "main",
            "--",
            "stacks/a.yml"
        ]
    );
    assert!(plan.environment.is_empty());
    assert_eq!(command.query(), "git desired state main:stacks/a.yml");
    assert_eq!(command.source(), EvidenceSource::GitDesiredState);
    for (binary, repository, revision, path) in [
        ("git", "/srv/git", "main", "a"),
        ("/usr/bin/git", "", "main", "a"),
        ("/usr/bin/git", "/srv git", "main", "a"),
        ("/usr/bin/git", "/srv/git", "-main", "a"),
        ("/usr/bin/git", "/srv/git", "main", "/a"),
        ("/usr/bin/git", "/srv/git", "main", "a/../b"),
        ("/usr/bin/git", "/srv/git", "main", ".."),
        ("/usr/bin/git", "/srv/git", "ma\0in", "a"),
    ] {
        assert_eq!(
            git_desired_state(binary, repository, revision, path),
            Err(ContextError::InvalidPlan)
        );
    }
    // Each selector is short enough by itself, but not the description of both.
    let long = "r".repeat(500);
    assert_eq!(
        git_desired_state("/usr/bin/git", "/srv/git", &long, "a"),
        Err(ContextError::InvalidPlan)
    );
}

#[test]
fn history_is_bounded_between_one_and_fifty() {
    for (asked, shown) in [(0, "-n1"), (1, "-n1"), (20, "-n20"), (50, "-n50"), (51, "-n50")] {
        let command = deployment_history("/usr/bin/git", "/srv/git", "a", asked).unwrap();
        let plan = command.plan();
        assert_eq!(plan.arguments[6], shown);
        assert_eq!(plan.arguments[5], "--format=%H %cI %s");
        assert_eq!(command.query(), "deployment history a");
        assert_eq!(command.source(), EvidenceSource::DeploymentHistory);
    }
    assert_eq!(
        deployment_history("/usr/bin/git", "/srv/git", "../a", 1),
        Err(ContextError::InvalidPlan)
    );
}

#[test]
fn commands_need_absolute_programs_and_bounded_arguments() {
    let args = vec!["-q".to_owned()];
    let command = health_plan("/usr/local/bin/gatus-read", args, "api").unwrap();
    assert_eq!(command.query(), "health api");
    assert_eq!(command.source(), EvidenceSource::Health);
    assert_eq!(command.plan().arguments, vec!["-q"]);
    assert!(ReadOnlyCommand::new("/x", vec!["a".repeat(512)], EvidenceSource::Health, "q").is_ok());
    for (binary, argument, query) in [
        ("x", "a".to_owned(), "q".to_owned()),
        ("/x", "a".repeat(513), "q".to_owned()),
        ("/x", "a".to_owned(), " \t".to_owned()),
        ("/x", "a".to_owned(), "q".repeat(513)),
    ] {
        assert_eq!(
            ReadOnlyCommand::new(binary, vec![argument], EvidenceSource::Health, &query),
            Err(ContextError::InvalidPlan)
        );
    }
    assert_eq!(
        health_plan("/x", Vec::new(), "a b"),
        Err(ContextError::InvalidPlan)
    );
}

#[test]
fn read_only_outcomes_are_classified() {
    let runner = ReadOnlyRunner::new(5, 0, 0);
    assert_eq!(runner.max_output_bytes, 1);
    assert_eq!(runner.max_concurrency, 1);
    assert_eq!(ReadOnlyRunner::new(5, 1 << 20, 3).max_output_bytes, 65536);
    let runner = ReadOnlyRunner::new(5, 4, 2);
    let settle = |outcome| runner.settle(outcome);
    assert_eq!(
        settle(ProcessOutcome::GateClosed),
        Err(ContextError::ConcurrencyUnavailable)
    );
    assert_eq!(settle(ProcessOutcome::NotStarted), Err(ContextError::SpawnFailed));
    assert_eq!(settle(ProcessOutcome::Unreadable), Err(ContextError::SpawnFailed));
    assert_eq!(settle(ProcessOutcome::TimedOut), Err(ContextError::TimedOut));
    assert_eq!(
        settle(ProcessOutcome::Ended(vec![0; 5], true, true)),
        Err(ContextError::OutputLimitExceeded)
    );
    assert_eq!(
        settle(ProcessOutcome::Ended(vec![0; 4], false, true)),
        Err(ContextError::SpawnFailed)
    );
    assert_eq!(
        settle(ProcessOutcome::Ended(vec![0; 4], true, false)),
        Err(ContextError::NonZeroExit)
    );
    assert_eq!(settle(ProcessOutcome::Ended(vec![7; 4], true, true)), Ok(vec![7; 4]));
    assert!(runner.exceeds(5));
    assert!(!runner.exceeds(4));
}

#[test]
fn gcx_queries_lower_to_fixed_arguments() {
    let query = GcxQuery::logs("{app=\"api\"}", "loki");
    assert_eq!(query.kind(), QueryKind::Logs);
    assert_eq!(query.source(), EvidenceSource::GrafanaLogs);
    assert_eq!(query.argv(), vec!["logs", "query", "{app=\"api\"}", "-d", "loki"]);
    let query = GcxQuery::metrics("up", "prometheus");
    assert_eq!(query.kind(), QueryKind::Metrics);
    assert_eq!(query.source(), EvidenceSource::GrafanaMetrics);
    assert_eq!(query.argv(), vec!["metrics", "query", "up", "-d", "prometheus"]);
    let runner = GcxRunner::new("/usr/local/bin/gcx", 30, 1024);
    let plan = runner.plan(&query).unwrap();
    assert_eq!(plan.program, "/usr/local/bin/gcx");
    assert_eq!(
        plan.environment,
        vec![("GCX_NO_UPDATE_NOTIFIER".to_owned(), "1".to_owned())]
    );
    let narrow = GcxRunner::new("/usr/local/bin/gcx", 30, 1024).with_max_query_bytes(1);
    assert!(narrow.plan(&query).is_err());
    assert!(!runner.exceeds(1024));
    assert!(runner.exceeds(1025));
    assert_eq!(runner.max_concurrency(), 4);
    assert_eq!(runner.with_max_concurrency(0).max_concurrency(), 1);
}

#[test]
fn gcx_policy_refuses_unbounded_and_prohibited_queries() {
    let allowed = [
        GcxQuery::logs("{app=\"api\"} |= \"error\"", "loki"),
        GcxQuery::metrics("rate(http_requests_total{job=\"api\"}[5m])", "prom.main-1_x"),
    ];
    for query in &allowed {
        assert_eq!(query.validate(4096), Ok(()));
        assert_eq!(query.validate(2), Err(GcxRunError::InvalidQuery));
    }
    for expression in [
        "",
        "app=api",
        "{ }",
        "{app=\"api\"\n}",
        "{app=\"api\"}\r",
        "{app=\"a\0\"}",
        "{app =~ \".*\"}",
        "{app =~ '.*'}",
        "{app=\"api\"} --LIMIT 5",
        "{app=\"api\"} limit 0",
        "{app=\"api\"} gcx api",
        "{app=\"HTTP://x\"}",
        "{app=\"https://x\"}",
    ] {
        assert_eq!(
            GcxQuery::logs(expression, "loki").validate(4096),
            Err(GcxRunError::InvalidQuery),
            "{expression}"
        );
    }
    for expression in [
        "*",
        " * ",
        "up{}",
        "up{job=~\".*\"}",
        "TopK (5, up)",
        "bottomk(5, up)",
        "count_values(\"x\", up)",
        "label_values(up, job)",
        "series(up)",
        "metadata(up)",
    ] {
        assert_eq!(
            GcxQuery::metrics(expression, "prometheus").validate(4096),
            Err(GcxRunError::InvalidQuery),
            "{expression}"
        );
    }
    for datasource in ["", "a b", "a/b", "é"] {
        assert!(GcxQuery::metrics("up", datasource).validate(4096).is_err());
    }
    assert!(GcxQuery::metrics("up", &"d".repeat(128)).validate(4096).is_ok());
    assert!(GcxQuery::metrics("up", &"d".repeat(129)).validate(4096).is_err());
}

#[test]
fn whitespace_and_case_do_not_hide_operations() {
    for expression in ["topk(1,up)", "t o p k (1,up)", "\u{a0}TOP\u{2003}K(1,up)"] {
        assert!(GcxQuery::metrics(expression, "prometheus").validate(4096).is_err());
    }
}

#[test]
fn gcx_outcomes_are_classified() {
    let runner = GcxRunner::new("/gcx", 1, 3);
    let bytes = |n: usize| StreamRead::Bytes(vec![1; n]);
    let failure = |outcome| runner.settle(outcome).err();
    assert_eq!(
        failure(GcxOutcome::GateClosed),
        Some(GcxRunError::ConcurrencyUnavailable)
    );
    assert_eq!(failure(GcxOutcome::NotStarted), Some(GcxRunError::SpawnFailed));
    assert_eq!(failure(GcxOutcome::StreamsLost), Some(GcxRunError::OutputReadFailed));
    assert_eq!(failure(GcxOutcome::TimedOut), Some(GcxRunError::TimedOut));
    assert_eq!(
        failure(GcxOutcome::Ended(bytes(4), StreamRead::Unreadable, true, true, Some(0))),
        Some(GcxRunError::OutputLimitExceeded)
    );
    assert_eq!(
        failure(GcxOutcome::Ended(StreamRead::Unreadable, bytes(4), true, true, Some(0))),
        Some(GcxRunError::OutputReadFailed)
    );
    assert_eq!(
        failure(GcxOutcome::Ended(bytes(3), bytes(4), true, true, Some(0))),
        Some(GcxRunError::OutputLimitExceeded)
    );
    assert_eq!(
        failure(GcxOutcome::Ended(bytes(3), bytes(3), false, true, Some(0))),
        Some(GcxRunError::OutputReadFailed)
    );
    assert_eq!(
        failure(GcxOutcome::Ended(bytes(3), bytes(3), true, false, Some(7))),
        Some(GcxRunError::NonZeroExit(7))
    );
    assert_eq!(
        failure(GcxOutcome::Ended(bytes(3), bytes(3), true, false, None)),
        Some(GcxRunError::NonZeroExit(-1))
    );
    let output = runner
        .settle(GcxOutcome::Ended(bytes(3), bytes(0), true, true, Some(0)))
        .unwrap();
    assert_eq!(output.stdout, vec![1; 3]);
}

fn context() -> GrafanaContext {
    GrafanaContext::new(
        GcxRunner::new("/gcx", 1, 1024),
        GrafanaContextConfig {
            logs_datasource: "loki".to_owned(),
            metrics_datasource: "prometheus".to_owned(),
        },
    )
}

fn call(tool: ContextTool, query: &str) -> ToolCall {
    ToolCall {
        call_id: "call-1".to_owned(),
        tool,
        query: query.to_owned(),
    }
}

#[test]
fn tools_of_other_adapters_consume_nothing() {
    let context = context();
    let mut budget = ContextBudget::new(2);
    let query = context
        .begin_tool(&mut budget, &call(ContextTool::QueryLogs, "{a=\"b\"}"))
        .unwrap();
    assert_eq!(query.argv()[4], "loki");
    for tool in [
        ContextTool::ReadDesiredState,
        ContextTool::ReadDeploymentHistory,
        ContextTool::ReadHealth,
        ContextTool::DiscoverObservability,
    ] {
        assert_eq!(
            context.begin_tool(&mut budget, &call(tool, "x")),
            Err(GrafanaError::UnsupportedTool)
        );
    }
    let query = context
        .begin_tool(&mut budget, &call(ContextTool::QueryMetrics, "up"))
        .unwrap();
    assert_eq!(query.argv()[4], "prometheus");
    assert_eq!(
        context.begin_tool(&mut budget, &call(ContextTool::QueryMetrics, "up")),
        Err(GrafanaError::QueryBudgetExceeded)
    );
}

#[test]
fn tool_results_carry_fixed_details_and_failure_records() {
    let context = context();
    let asked = call(ContextTool::QueryLogs, "{a=\"b\"}");
    let good = context.execute_tool(&asked, Ok("evidence-1".to_owned()));
    assert_eq!(good.class, ToolResultClass::Succeeded);
    assert_eq!(good.detail, "bounded evidence committed");
    assert_eq!(good.evidence_id.as_deref(), Some("evidence-1"));
    assert!(context.failure_record(&asked, &good, 64).is_none());
    let kept = context.attach_failure(good, Some("other".to_owned()));
    assert_eq!(kept.evidence_id.as_deref(), Some("evidence-1"));
    for (error, class, detail, status, word, truncated) in [
        (
            GrafanaError::QueryBudgetExceeded,
            ToolResultClass::Exhausted,
            "context query budget exhausted",
            EvidenceStatus::BudgetExhausted,
            "budget_exhausted",
            false,
        ),
        (
            GrafanaError::Gcx(GcxRunError::OutputLimitExceeded),
            ToolResultClass::Truncated,
            "context output exceeded its bound",
            EvidenceStatus::Partial,
            "output_limit_exceeded",
            true,
        ),
        (
            GrafanaError::Gcx(GcxRunError::InvalidQuery),
            ToolResultClass::Denied,
            "query rejected by context policy",
            EvidenceStatus::Rejected,
            "query_rejected",
            false,
        ),
        (
            GrafanaError::Gcx(GcxRunError::TimedOut),
            ToolResultClass::Unavailable,
            "context backend unavailable",
            EvidenceStatus::Unavailable,
            "context_unavailable",
            false,
        ),
        (
            GrafanaError::Evidence(EvidenceError::Refused),
            ToolResultClass::Denied,
            "context query failed safely",
            EvidenceStatus::Rejected,
            "query_rejected",
            false,
        ),
        (
            GrafanaError::UnsupportedTool,
            ToolResultClass::Denied,
            "context query failed safely",
            EvidenceStatus::Rejected,
            "query_rejected",
            false,
        ),
    ] {
        let result = context.execute_tool(&asked, Err(error));
        assert_eq!(result.call_id, "call-1");
        assert_eq!(result.class, class);
        assert_eq!(result.detail, detail);
        let record = context.failure_record(&asked, &result, 64).unwrap();
        assert_eq!(record.source, EvidenceSource::GrafanaLogs);
        assert_eq!(record.query, "{a=\"b\"}");
        assert_eq!(record.content, b"[NO EVIDENCE]".to_vec());
        assert_eq!(record.metadata.status, status);
        assert_eq!(record.metadata.error.as_deref(), Some(word));
        assert_eq!(record.metadata.truncated, truncated);
        assert_eq!(record.metadata.freshness_ms, None);
        let attached = context.attach_failure(result, Some("evidence-2".to_owned()));
        assert_eq!(attached.evidence_id.as_deref(), Some("evidence-2"));
    }
    assert_eq!(failure_metadata(ToolResultClass::Stale).status, EvidenceStatus::Empty);
    assert_eq!(bounded_failure_query("abcd", 4), "abcd");
    assert_eq!(bounded_failure_query("abcde", 4), "[QUERY_REDACTED]");
    let other = call(ContextTool::ReadHealth, "x");
    let refused = context.execute_tool(&other, Err(GrafanaError::UnsupportedTool));
    let record = context.failure_record(&other, &refused, 64).unwrap();
    assert_eq!(record.source, EvidenceSource::ObservabilityMetadata);
}

#[test]
fn batches_end_at_their_first_failure() {
    let context = context();
    let mut budget = ContextBudget::new(1);
    let requests = [
        ReadOnlyRequest::Logs("{a=\"b\"}".to_owned()),
        ReadOnlyRequest::Metrics("up".to_owned()),
    ];
    let mut batch = Batch::new();
    for request in &requests {
        if batch.ended() {
            break;
        }
        let result = match context.begin_request(&mut budget, request) {
            Ok(_) => settle_query(QueryOutcome::Committed("evidence-1".to_owned())),
            Err(error) => Err(error),
        };
        batch = batch.take(result);
    }
    assert!(batch.ended());
    assert_eq!(batch.execute_requests(), Err(GrafanaError::QueryBudgetExceeded));
    let batch = Batch::new()
        .take(settle_query(QueryOutcome::Committed("a".to_owned())))
        .take(settle_query(QueryOutcome::Committed("b".to_owned())));
    assert_eq!(batch.execute_requests(), Ok(vec!["a".to_owned(), "b".to_owned()]));
    let batch = Batch::new()
        .take(settle_query(QueryOutcome::Failed(GcxRunError::TimedOut)))
        .take(settle_query(QueryOutcome::Refused(EvidenceError::Refused)));
    assert_eq!(
        batch.execute_requests(),
        Err(GrafanaError::Gcx(GcxRunError::TimedOut))
    );
}
