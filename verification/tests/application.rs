//! Configuration, provider admission, the incident worker, manual repair and operator requests.

use ai_sre::application::manual_repair::{Preparation, PrepareEvent, PrepareStep};
use ai_sre::application::manual_repair_admin::{
    admit_socket_parent, admit_socket_path, authorize, handoff_digest, may_accept, may_execute,
    operator_group, owns_socket, parse_command, request_length, respond, response_length,
    AdminError, ArtifactFacts, AuthenticatedRequest, Inspection, JournalAnswer, JournalCall,
    Request,
};
use ai_sre::application::worker::{
    drain_outbox, IncidentSignal, Investigated, OutboxMessage, ProviderPolicy, WorkEvent, WorkStep,
    Worker,
};
use ai_sre::application::{
    delivery_id, gated_api_provider, global_cost_limits, listener_address, reserve_paid_budget,
    run_id, serve_outcome, valid_price_catalog, ApplicationError, BudgetPlan, CostSettings,
    PriceCatalog, ProviderSettings, ServeEnd,
};
use ai_sre::bootstrap::{build, validate_reasoning, BootstrapError, CoreVerdict};
use ai_sre::config::{reasoning_config, AppConfig, ConfigError, ConfigLoadError};
use ai_sre::digest::digest;
use ai_sre::files::FileFacts;
use ai_sre::gitops::sandbox::SandboxError;
use ai_sre::reasoning::contracts::InvestigationResult;
use ai_sre::reasoning::budget::BudgetConfig;
use ai_sre::reasoning::router::{ProviderKind, ProviderOrder};

fn parse_catalog(raw: &str) -> Option<PriceCatalog> {
    let value: serde_json::Value = serde_json::from_str(raw).ok()?;
    Some(PriceCatalog {
        provider: value.get("provider")?.as_str()?.to_owned(),
        model: value.get("model")?.as_str()?.to_owned(),
        version: value.get("version")?.as_str()?.to_owned(),
        valid_until_ms: value.get("valid_until_ms")?.as_u64()?,
        micro_usd_per_1k_tokens: value.get("micro_usd_per_1k_tokens")?.as_u64()?,
    })
}

const CATALOG: &str = r#"{
            "provider":"gemini",
            "model":"gemini-2.5-flash",
            "version":"2026-08-11",
            "valid_until_ms":2000,
            "micro_usd_per_1k_tokens":40
        }"#;

#[test]
fn price_catalog_requires_provider_identity_price_and_freshness() {
    let valid = |provider: &str, model: &str, now: u64| {
        valid_price_catalog(parse_catalog(CATALOG).as_ref(), provider, model, now)
    };
    let accepted = valid("gemini", "gemini-2.5-flash", 1000);
    let wrong_provider = valid("deepseek", "gemini-2.5-flash", 1000);
    let wrong_model = valid("gemini", "gemini-2.0-flash", 1000);
    let expired = valid("gemini", "gemini-2.5-flash", 3000);
    assert!(accepted);
    assert!(!wrong_provider);
    assert!(!wrong_model);
    assert!(!expired);
}

#[test]
fn price_catalogs_fail_closed() {
    assert!(!valid_price_catalog(None, "gemini", "gemini-2.5-flash", 1000));
    for (from, to) in [
        ("\"2026-08-11\"", "\" \""),
        ("\"micro_usd_per_1k_tokens\":40", "\"micro_usd_per_1k_tokens\":0"),
        ("\"valid_until_ms\":2000", "\"valid_until_ms\":1000"),
    ] {
        let changed = parse_catalog(&CATALOG.replace(from, to));
        assert!(!valid_price_catalog(changed.as_ref(), "gemini", "gemini-2.5-flash", 1000));
    }
}

fn costs() -> CostSettings {
    CostSettings {
        daily: Some("1000000".to_owned()),
        monthly: Some("+5000000".to_owned()),
        day: Some("2026-08-11".to_owned()),
        month: Some("2026-08".to_owned()),
    }
}

#[test]
fn cost_limits_need_all_four_settings() {
    let limits = global_cost_limits(&costs()).unwrap();
    assert_eq!((limits.daily, limits.monthly), (1000000, 5000000));
    assert_eq!((limits.day.as_str(), limits.month.as_str()), ("2026-08-11", "2026-08"));
    let changes: [fn(&mut CostSettings); 8] = [
        |c| c.daily = None,
        |c| c.daily = Some("0".into()),
        |c| c.daily = Some("-1".into()),
        |c| c.daily = Some("18446744073709551616".into()),
        |c| c.monthly = Some(" 1".into()),
        |c| c.monthly = Some(String::new()),
        |c| c.day = Some(" ".into()),
        |c| c.month = None,
    ];
    for change in changes {
        let mut settings = costs();
        change(&mut settings);
        assert!(global_cost_limits(&settings).is_none());
    }
}

#[test]
fn paid_providers_are_gated() {
    let settings = || ProviderSettings {
        api_key: Some("key".to_owned()),
        gate: Some("accepted".to_owned()),
        catalog: parse_catalog(CATALOG),
    };
    let gated = |settings: ProviderSettings, costs: CostSettings| {
        gated_api_provider(&settings, &costs, "gemini", "gemini-2.5-flash", 1000)
    };
    assert_eq!(gated(settings(), costs()).as_deref(), Some("key"));
    assert!(gated(ProviderSettings { api_key: None, ..settings() }, costs()).is_none());
    assert!(gated(ProviderSettings { gate: None, ..settings() }, costs()).is_none());
    let open = Some("open".to_owned());
    assert!(gated(ProviderSettings { gate: open, ..settings() }, costs()).is_none());
    assert!(gated(ProviderSettings { catalog: None, ..settings() }, costs()).is_none());
    assert!(gated(settings(), CostSettings { day: None, ..costs() }).is_none());
}

#[test]
fn paid_runs_reserve_under_three_scopes() {
    let limits = global_cost_limits(&costs()).unwrap();
    match reserve_paid_budget(Some(&limits), "run", Some(9), 2) {
        BudgetPlan::Reserve(amount, scopes) => {
            assert_eq!(amount, 500000);
            assert_eq!(
                scopes,
                vec![
                    ("incident:run".to_owned(), 9),
                    ("day:2026-08-11".to_owned(), 1000000),
                    ("month:2026-08".to_owned(), 5000000),
                ]
            );
        }
        _ => panic!("a paid run is reserved"),
    }
    match reserve_paid_budget(Some(&limits), "run", Some(9), u64::MAX) {
        BudgetPlan::Reserve(amount, _) => assert_eq!(amount, u64::MAX),
        _ => panic!("a paid run is reserved"),
    }
    assert!(matches!(reserve_paid_budget(None, "r", Some(9), 0), BudgetPlan::Admit));
    assert!(matches!(reserve_paid_budget(None, "r", Some(9), 1), BudgetPlan::Refuse));
    assert!(matches!(reserve_paid_budget(Some(&limits), "r", None, 0), BudgetPlan::Refuse));
    assert!(matches!(reserve_paid_budget(Some(&limits), "r", Some(9), 0), BudgetPlan::Admit));
}

#[test]
fn identities_and_outcomes_are_fixed() {
    assert_eq!(run_id("incident", 12), "incident-12");
    assert_eq!(delivery_id("incident"), "incident:report");
    assert_eq!(listener_address(None), "127.0.0.1:8080");
    assert_eq!(listener_address(Some("0.0.0.0:1".to_owned())), "0.0.0.0:1");
    assert_eq!(serve_outcome(ServeEnd::Intake(false)), Ok(()));
    assert_eq!(serve_outcome(ServeEnd::Intake(true)), Err(ApplicationError::Intake));
    assert_eq!(serve_outcome(ServeEnd::WorkerExited), Err(ApplicationError::WorkerFailed));
    assert_eq!(serve_outcome(ServeEnd::WorkerSignalled), Err(ApplicationError::WorkerFailed));
}

fn configuration() -> AppConfig {
    let order = ProviderOrder {
        providers: vec![ProviderKind::OpenAi, ProviderKind::Deterministic],
    };
    let budget = BudgetConfig {
        max_cost_micro_usd: Some(7),
    };
    AppConfig::with_reasoning(reasoning_config(order, budget))
}

#[test]
fn default_configurations_are_valid() {
    let config = configuration();
    assert_eq!(config.validate(true), Ok(()));
    assert_eq!(config.validate(false), Err(ConfigError::InvalidProviderOrder));
    assert_eq!(config.reasoning.max_tool_turns, 4);
    assert_eq!(config.reasoning.admitted_providers.len(), 4);
    assert_eq!(config.gcx_timeout_secs, 30);
    assert_eq!(
        AppConfig::from_json(Some(config.clone()), true),
        Ok(config.clone())
    );
    assert_eq!(AppConfig::from_json(None, true), Err(ConfigLoadError::Parse));
    assert_eq!(
        AppConfig::from_json(Some(config), false),
        Err(ConfigLoadError::Validation(ConfigError::InvalidProviderOrder))
    );
}

#[test]
fn unsafe_configurations_are_refused() {
    let changes: [(fn(&mut AppConfig), ConfigError); 12] = [
        (|c| c.openai_cache_path = String::new(), ConfigError::EmptyValue),
        (|c| c.gcx_binary = String::new(), ConfigError::EmptyValue),
        (|c| c.grafana.logs_datasource = " ".into(), ConfigError::EmptyValue),
        (|c| c.grafana.metrics_datasource = String::new(), ConfigError::EmptyValue),
        (|c| c.gcx_binary = "gcx".into(), ConfigError::RelativeGcxPath),
        (|c| c.read_only.git_binary = "git".into(), ConfigError::RelativeReadOnlyPath),
        (|c| c.read_only.health_binary = String::new(), ConfigError::RelativeReadOnlyPath),
        (|c| c.read_only.git_repository = " /srv".into(), ConfigError::RelativeReadOnlyPath),
        (|c| c.gcx_timeout_secs = 0, ConfigError::ZeroLimit),
        (|c| c.gcx_max_output_bytes = 0, ConfigError::ZeroLimit),
        (|c| c.gcx_max_query_bytes = 0, ConfigError::ZeroLimit),
        (|c| c.gcx_max_concurrency = 0, ConfigError::ZeroLimit),
    ];
    for (change, error) in changes {
        let mut config = configuration();
        change(&mut config);
        assert_eq!(config.validate(true), Err(error));
    }
}

#[test]
fn applications_are_assembled_from_their_configuration() {
    let core = CoreVerdict {
        provider_order_valid: true,
        runtime_assembled: true,
        read_only_accepted: true,
    };
    let application = build(configuration(), core).ok().unwrap();
    assert_eq!(application.read_only.max_output_bytes, 65536);
    assert_eq!(application.read_only.max_concurrency, 4);
    assert_eq!(application.grafana.runner().max_output_bytes(), 1048576);
    assert_eq!(application.grafana.runner().timeout_seconds(), 30);
    assert_eq!(application.grafana.logs("{a=\"b\"}").argv()[4], "loki");
    assert_eq!(application.openai_cache.path(), "/var/lib/ai-sre/openai/auth.json");
    let failed = |core| build(configuration(), core).err();
    assert_eq!(
        failed(CoreVerdict { runtime_assembled: false, ..core }),
        Some(BootstrapError::Reasoning)
    );
    assert_eq!(
        failed(CoreVerdict { read_only_accepted: false, ..core }),
        Some(BootstrapError::Configuration(ConfigError::RelativeReadOnlyPath))
    );
    assert_eq!(
        failed(CoreVerdict { provider_order_valid: false, runtime_assembled: false, ..core }),
        Some(BootstrapError::Configuration(ConfigError::InvalidProviderOrder))
    );
    assert_eq!(validate_reasoning(true), Ok(()));
    assert_eq!(validate_reasoning(false), Err(BootstrapError::Reasoning));
}

fn signal(incident_id: &str, firing: bool) -> IncidentSignal {
    IncidentSignal {
        incident_id: incident_id.to_owned(),
        firing,
        service: None,
    }
}

fn policy() -> ProviderPolicy {
    ProviderPolicy {
        openai: true,
        gemini: true,
        deepseek: false,
    }
}

fn investigated(ok: bool, unknown: u32) -> WorkEvent {
    let result = InvestigationResult {
        incident_id: "b".to_owned(),
        redacted_summary: "s".to_owned(),
        evidence_ids: Vec::new(),
        terminal_provider: None,
    };
    WorkEvent::Investigated(Investigated {
        result: if ok { Some(result) } else { None },
        unknown_cost_attempts: unknown,
        known_cost_micro_usd: 11,
    })
}

fn step(worker: Worker, event: WorkEvent, expected: WorkStep) -> Worker {
    let next = worker.advance(&policy(), event);
    assert_eq!(next.step(), expected);
    next
}

fn ready() -> Worker {
    let worker = Worker::start();
    assert_eq!(worker.step(), WorkStep::StartupDrain);
    let worker = step(worker, WorkEvent::Done, WorkStep::StartupMetrics);
    let worker = step(worker, WorkEvent::Done, WorkStep::ListPending);
    step(worker, WorkEvent::Incidents(Vec::new()), WorkStep::Receive)
}

#[test]
fn workers_investigate_firing_incidents_in_order() {
    let worker = step(ready(), WorkEvent::Done, WorkStep::Commit);
    let batch = vec![signal("a", false), signal("b", true), signal("c", false), signal("d", true)];
    let worker = step(worker, WorkEvent::Incidents(batch), WorkStep::Acknowledge);
    let worker = step(worker, WorkEvent::Done, WorkStep::BatchMetrics);
    let worker = step(worker, WorkEvent::Done, WorkStep::SelectQueries);
    assert_eq!(worker.incident().unwrap().incident_id, "b");
    assert_eq!(worker.service(), "unknown");
    let worker = step(worker, WorkEvent::Done, WorkStep::Assemble);
    let worker = step(worker, WorkEvent::Done, WorkStep::Reserve);
    let worker = step(worker, WorkEvent::Budget(true), WorkStep::Investigate);
    assert_eq!(worker.providers(&policy()), policy());
    let worker = step(worker, investigated(true, 0), WorkStep::Reconcile);
    assert_eq!(worker.cost(), Some(11));
    let worker = step(worker, WorkEvent::Done, WorkStep::Complete);
    let (delivery, body) = worker.report().unwrap();
    assert_eq!(delivery, "b:report");
    assert!(body.starts_with("Incident: b\n"));
    let worker = step(worker, WorkEvent::Done, WorkStep::Drain);
    let worker = step(worker, WorkEvent::Done, WorkStep::Metrics);
    let worker = step(worker, WorkEvent::Done, WorkStep::SelectQueries);
    assert_eq!(worker.incident().unwrap().incident_id, "d");
    assert!(worker.report().is_none());
    // An incident without queries is passed over.
    let worker = step(worker, WorkEvent::Failed, WorkStep::Receive);
    assert!(worker.incident().is_none());
    let worker = step(worker, WorkEvent::Closed, WorkStep::Stopped);
    assert!(!worker.failed());
}

#[test]
fn workers_resume_interrupted_investigations_first() {
    let worker = step(Worker::start(), WorkEvent::Done, WorkStep::StartupMetrics);
    let worker = step(worker, WorkEvent::Done, WorkStep::ListPending);
    let pending = vec![signal("p", true)];
    let worker = step(worker, WorkEvent::Incidents(pending), WorkStep::BatchMetrics);
    let worker = step(worker, WorkEvent::Done, WorkStep::SelectQueries);
    assert_eq!(worker.incident().unwrap().incident_id, "p");
}

fn investigating(admitted: bool) -> Worker {
    let worker = step(ready(), WorkEvent::Done, WorkStep::Commit);
    let worker =
        step(worker, WorkEvent::Incidents(vec![signal("b", true)]), WorkStep::Acknowledge);
    let worker = step(worker, WorkEvent::Done, WorkStep::BatchMetrics);
    let worker = step(worker, WorkEvent::Done, WorkStep::SelectQueries);
    let worker = step(worker, WorkEvent::Done, WorkStep::Assemble);
    let worker = step(worker, WorkEvent::Done, WorkStep::Reserve);
    step(worker, WorkEvent::Budget(admitted), WorkStep::Investigate)
}

#[test]
fn paid_providers_need_an_admitted_reservation() {
    let worker = investigating(false);
    let usable = worker.providers(&policy());
    assert!(usable.openai);
    assert!(!usable.gemini);
    let reservation = worker.reservation();
    assert_eq!(reservation.provider_calls, 1);
    assert_eq!(reservation.tokens, 4000);
    assert_eq!(reservation.evidence_queries, 0);
    assert_eq!(reservation.cost_micro_usd, 250000);
    // Without an admitted budget there is nothing to reconcile.
    let worker = step(worker, investigated(true, 0), WorkStep::Complete);
    assert_eq!(worker.cost(), Some(11));
    let unknown = step(investigating(true), investigated(true, 1), WorkStep::Reconcile);
    assert_eq!(unknown.cost(), None);
}

#[test]
fn failed_investigations_are_not_completed() {
    let worker = step(investigating(true), investigated(false, 0), WorkStep::Reconcile);
    assert!(worker.report().is_none());
    step(worker, WorkEvent::Done, WorkStep::Drain);
    step(investigating(false), investigated(false, 0), WorkStep::Drain);
}

#[test]
fn durable_failures_stop_the_worker() {
    let commit = step(ready(), WorkEvent::Done, WorkStep::Commit);
    let refuse = step(commit, WorkEvent::Failed, WorkStep::Refuse);
    let reconcile = step(investigating(true), investigated(true, 0), WorkStep::Reconcile);
    let unreconciled = step(reconcile, WorkEvent::Failed, WorkStep::Signal);
    let complete = step(investigating(false), investigated(true, 0), WorkStep::Complete);
    let incomplete = step(complete, WorkEvent::Failed, WorkStep::Signal);
    for worker in [refuse, unreconciled, incomplete] {
        let stopped = step(worker, WorkEvent::Done, WorkStep::Stopped);
        assert!(stopped.failed());
        let still = step(stopped, WorkEvent::Done, WorkStep::Stopped);
        assert!(still.failed());
    }
}

#[test]
fn only_published_deliveries_are_marked() {
    let message = |id: &str| OutboxMessage {
        delivery_id: id.to_owned(),
        body: "b".to_owned(),
    };
    let messages = vec![message("1"), message("2"), message("3")];
    assert_eq!(drain_outbox(&messages, &vec![true, false, true]), vec!["1", "3"]);
    assert!(drain_outbox(&messages, &Vec::new()).is_empty());
}

#[test]
fn preparation_stops_without_qualification_or_evidence() {
    let start = Preparation::prepare_incident_repair;
    assert_eq!(start().step(), PrepareStep::Qualify);
    let none = start().advance(PrepareEvent::Qualified(None));
    assert_eq!(none.step(), PrepareStep::Ended);
    assert!(matches!(none.result(), Ok(None)));
    assert!(matches!(
        start().advance(PrepareEvent::ClockFailed).result(),
        Err(SandboxError::Unavailable)
    ));
    assert!(matches!(
        start().advance(PrepareEvent::Failed).result(),
        Err(SandboxError::Failed)
    ));
    // Evidence before qualification answers no question.
    let early = start().advance(PrepareEvent::Evidence(Some("d".into())));
    assert_eq!(early.step(), PrepareStep::Qualify);
}

#[test]
fn operators_are_root_or_the_primary_group() {
    assert_eq!(authorize(0, 5, None), Ok(()));
    assert_eq!(authorize(501, 20, Some(20)), Ok(()));
    for (uid, gid, group) in [(501, 20, None), (501, 20, Some(21)), (20, 501, Some(20))] {
        assert_eq!(authorize(uid, gid, group), Err(AdminError::PermissionDenied));
    }
    assert_eq!(operator_group(None), Ok(None));
    assert_eq!(operator_group(Some("501")), Ok(Some(501)));
    for bad in ["", "-1", "4294967296", "x"] {
        assert_eq!(operator_group(Some(bad)), Err(AdminError::InvalidInput));
    }
}

#[test]
fn changes_carry_the_peers_identity() {
    let recover = || Request::Recover {
        artifact: "candidate".into(),
        expected_request_digest: "d".into(),
        reason: "uid 0".into(),
    };
    let peer = AuthenticatedRequest::read_request(501, 20, Some(20), Some(recover())).ok().unwrap();
    assert_eq!((peer.uid(), peer.gid()), (501, 20));
    match peer.execute(Some(7)) {
        Ok(JournalCall::Recover { uid, gid, now, reason, .. }) => {
            assert_eq!((uid, gid, now), (501, 20, 7));
            assert_eq!(reason, "uid 0");
        }
        _ => panic!("a recovery is asked of the journal"),
    }
    assert!(matches!(peer.execute(None), Err(AdminError::Clock)));
    let look = Request::Inspect { artifact: "candidate".into() };
    let peer = AuthenticatedRequest::read_request(0, 0, None, Some(look)).ok().unwrap();
    assert!(matches!(peer.execute(None), Ok(JournalCall::Inspect { .. })));
    let pickup = Request::Acknowledge { handoff_digest: "h".into() };
    let peer = AuthenticatedRequest::read_request(0, 3, None, Some(pickup)).ok().unwrap();
    assert!(matches!(
        peer.execute(Some(9)),
        Ok(JournalCall::Acknowledge { uid: 0, gid: 3, now: 9, .. })
    ));
    assert!(matches!(
        AuthenticatedRequest::read_request(501, 20, Some(20), None),
        Err(AdminError::InvalidData)
    ));
    assert!(matches!(
        AuthenticatedRequest::read_request(501, 20, None, Some(recover())),
        Err(AdminError::PermissionDenied)
    ));
}

#[test]
fn answers_neither_approve_nor_dispatch() {
    assert_eq!(
        respond(&JournalAnswer::Acknowledged(true)).unwrap(),
        b"{\"acknowledged\":true,\"approved\":false,\"dispatched\":false,\"readiness\":\"not_assessed\"}".to_vec()
    );
    assert_eq!(
        respond(&JournalAnswer::Recovered(false)).unwrap(),
        b"{\"dispatched\":false,\"readiness\":\"not_assessed\",\"recovered\":false}".to_vec()
    );
    assert_eq!(respond(&JournalAnswer::Failed), Err(AdminError::Storage));
    let found = Inspection {
        artifact: Some(ArtifactFacts {
            json: "{\"x\":1}".into(),
            handoff_json: Some("wire".into()),
            cleanup_status: Some("unknown".into()),
        }),
        attempt_request: Some("request".into()),
        acknowledgement: None,
        history: "[]".into(),
    };
    assert_eq!(handoff_digest(&found.artifact), Some(digest(b"wire")));
    let bytes = respond(&JournalAnswer::Inspected(found)).unwrap();
    let value: serde_json::Value = serde_json::from_slice(&bytes).unwrap();
    assert_eq!(serde_json::to_vec(&value).unwrap(), bytes);
    assert_eq!(value["artifact"]["x"], 1);
    assert_eq!(value["handoff_digest"], digest(b"wire"));
    assert_eq!(value["expected_request_digest"], digest(b"request"));
    assert!(value["acknowledgement"].is_null());
    assert_eq!(value["readiness"], "not_assessed");
    let empty = Inspection {
        artifact: None,
        attempt_request: None,
        acknowledgement: None,
        history: "[]".into(),
    };
    assert_eq!(
        respond(&JournalAnswer::Inspected(empty)).unwrap(),
        b"{\"acknowledgement\":null,\"artifact\":null,\"cleanup_status\":\"unknown\",\"dispatched\":false,\"expected_request_digest\":null,\"handoff_digest\":null,\"history\":[],\"readiness\":\"not_assessed\"}".to_vec()
    );
    let large = Inspection {
        artifact: None,
        attempt_request: None,
        acknowledgement: None,
        history: format!("\"{}\"", "x".repeat(4194304)),
    };
    assert_eq!(
        respond(&JournalAnswer::Inspected(large)),
        Err(AdminError::InvalidData)
    );
}

#[test]
fn frames_of_operators_are_bounded() {
    let length = |n: u32| request_length(&n.to_be_bytes());
    assert_eq!(length(0), Err(AdminError::InvalidData));
    assert_eq!(length(4096), Ok(4096));
    assert_eq!(length(4097), Err(AdminError::InvalidData));
    let reply = |n: u32| response_length(&n.to_be_bytes());
    assert_eq!(reply(0), Err(AdminError::InvalidData));
    assert_eq!(reply(4194304), Ok(4194304));
    assert_eq!(reply(4194305), Err(AdminError::InvalidData));
    assert!(may_execute(4, 5, true));
    assert!(!may_execute(5, 5, true));
    assert!(!may_execute(4, 5, false));
    assert!(may_accept(3));
    assert!(!may_accept(4));
}

fn directory(uid: u32, mode: u32) -> FileFacts {
    FileFacts {
        uid,
        mode,
        is_dir: true,
        is_file: false,
        is_symlink: false,
        len: 0,
        nlink: 2,
        dev: 1,
        ino: 2,
    }
}

#[test]
fn sockets_stand_in_protected_directories() {
    assert_eq!(admit_socket_path("/run/ai-sre/admin.sock"), Ok(()));
    for path in ["admin.sock", "/run/../admin.sock", ""] {
        assert_eq!(admit_socket_path(path), Err(AdminError::InvalidInput));
    }
    let ancestors = vec![directory(1000, 0o700), directory(0, 0o1777), directory(0, 0o755)];
    assert_eq!(admit_socket_parent(&ancestors, &directory(1000, 0o700), 1000), Ok(()));
    // A sticky shared directory is acceptable above, but never directly.
    let shared = vec![directory(0, 0o1777), directory(0, 0o755)];
    assert_eq!(
        admit_socket_parent(&shared, &directory(0, 0o1777), 1000),
        Err(AdminError::PermissionDenied)
    );
    for bad in [directory(1001, 0o700), directory(1000, 0o770)] {
        assert_eq!(
            admit_socket_parent(&vec![bad], &directory(1000, 0o700), 1000),
            Err(AdminError::PermissionDenied)
        );
    }
    let mut file = directory(0, 0o755);
    file.is_dir = false;
    assert!(admit_socket_parent(&vec![file], &directory(0, 0o755), 0).is_err());
    assert!(owns_socket(1, 2, Some(&directory(0, 0o755))));
    assert!(!owns_socket(1, 3, Some(&directory(0, 0o755))));
    assert!(!owns_socket(1, 2, None));
}

fn arguments(list: &[&str]) -> Vec<String> {
    list.iter().map(|argument| argument.to_string()).collect()
}

#[test]
fn commands_become_framed_requests() {
    let (socket, request) =
        parse_command(&arguments(&["recover", "/s", "a", "d", "why \"x\""])).unwrap();
    assert_eq!(socket, "/s");
    let text = "{\"artifact\":\"a\",\"expected_request_digest\":\"d\",\"operation\":\"recover\",\"reason\":\"why \\\"x\\\"\"}";
    assert_eq!(request.json_text(), text);
    let sent = request.frame().unwrap();
    assert_eq!(sent[..4], (text.len() as u32).to_be_bytes());
    assert_eq!(sent[4..], *text.as_bytes());
    let (_, look) = parse_command(&arguments(&["inspect", "/s", "a"])).unwrap();
    assert_eq!(look.json_text(), "{\"artifact\":\"a\",\"operation\":\"inspect\"}");
    let (_, pickup) = parse_command(&arguments(&["acknowledge", "/s", "h"])).unwrap();
    assert_eq!(pickup.json_text(), "{\"handoff_digest\":\"h\",\"operation\":\"acknowledge\"}");
    for bad in [
        &[][..],
        &["inspect", "/s"][..],
        &["inspect", "/s", "a", "b"][..],
        &["recover", "/s", "a"][..],
        &["approve", "/s", "a"][..],
    ] {
        assert!(parse_command(&arguments(bad)).is_none());
    }
    let huge = Request::Inspect { artifact: "a".repeat(4096) };
    assert_eq!(huge.frame(), Err(AdminError::InvalidInput));
}

#[test]
fn changes_are_confirmed_only_by_true() {
    let pickup = Request::Acknowledge { handoff_digest: "h".into() };
    assert_eq!(pickup.confirm(b"{\"acknowledged\":true}"), Ok(()));
    for response in [
        &b"{\"acknowledged\":false}"[..],
        &b"{\"acknowledged\":\"true\"}"[..],
        &b"{\"recovered\":true}"[..],
        &b"[true]"[..],
        &b"nonsense"[..],
    ] {
        assert_eq!(pickup.confirm(response), Err(AdminError::Unconfirmed));
    }
    let recover = Request::Recover {
        artifact: "a".into(),
        expected_request_digest: "d".into(),
        reason: "r".into(),
    };
    assert_eq!(recover.confirm(b"{\"recovered\":true}"), Ok(()));
    assert_eq!(recover.confirm(b"{\"acknowledged\":true}"), Err(AdminError::Unconfirmed));
    let look = Request::Inspect { artifact: "a".into() };
    assert_eq!(look.confirm(b"{}"), Ok(()));
}
