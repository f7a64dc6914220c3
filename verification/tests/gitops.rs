//! Repair rendering, receipts, candidates, handoffs and snapshots.

use ai_sre::application::manual_repair::{
    IncidentRepairRequest, ManualValidationRequest, Preparation, PrepareEvent, PrepareStep,
    ValidateEvent, ValidateStep, Validation,
};
use ai_sre::digest::{digest, valid_digest};
use ai_sre::files::FileFacts;
use ai_sre::gitops::artifact::{EvidenceCitation, ManualRepairCandidate, ManualRepairRequest};
use ai_sre::gitops::handoff::{HandoffPolicy, ManualHandoffRequest, ManualRepairHandoff};
use ai_sre::gitops::it_tools_image::{render, valid_image, RenderError};
use ai_sre::gitops::qualified_deployment::{
    assess_health, HealthSample, ObservationPolicy, QualificationError, QualifiedDeployment,
};
use ai_sre::gitops::receipt::{ProtectedReceipt, ReceiptError, ReceiptObservation, ReceiptWire};
use ai_sre::gitops::sandbox::runner::dispatch::{Dispatch, DispatchEvent, DispatchStep, Reply};
use ai_sre::gitops::sandbox::runner::remote::{import_response, Response, WireReceipt};
use ai_sre::gitops::sandbox::runner::run::{Run, RunEvent, RunStep};
use ai_sre::gitops::sandbox::runner::worker::{Worker, WorkerEvent, WorkerStep};
use ai_sre::gitops::sandbox::runner::{ExitState, Output};
use ai_sre::gitops::sandbox::{
    PreparedSandbox, RemoteJob, SandboxError, SandboxLimits, SandboxPlan, ValidationReceipt,
};
use ai_sre::gitops::snapshot::{
    batch_request, parse_tree, private_directory_name, safe_path, source_directories, unpack,
    GitOutput, GitQuery, RepositorySnapshot, SnapshotError,
};
use ai_sre::gitops::validate::{valid_sha, validate_change, ScopeError};
use ai_sre::reasoning::evidence::EvidenceSource;
use ai_sre::reasoning::journal::JournalContext;

const SOURCE: &str = "services:\n  it-tools:\n    image: ghcr.io/corentinth/it-tools:latest\n";

fn image(letter: &str) -> String {
    format!("ghcr.io/corentinth/it-tools@sha256:{}", letter.repeat(64))
}

fn base() -> String {
    "b".repeat(40)
}

fn wire() -> ReceiptWire {
    ReceiptWire {
        schema: "ai-sre/deployment-receipt/v1".into(),
        repository: "bodhispace-xyz/bodhispace-homelab".into(),
        service: "utility/it-tools".into(),
        deployment_id: "deployment-123-1".into(),
        commit: base(),
        image: image("a"),
        observed_commit: base(),
        observed_image: image("a"),
        completed_at: 100,
        policy_declared_at: 90,
        policy: policy(),
        samples: samples(&[101, 161, 221]),
        deployment_succeeded: true,
        revoked: false,
    }
}

fn policy() -> ObservationPolicy {
    ObservationPolicy {
        window_seconds: 120,
        max_gap_seconds: 60,
        max_age_seconds: 600,
    }
}

fn samples(times: &[u64]) -> Vec<HealthSample> {
    times
        .iter()
        .map(|observed_at| HealthSample {
            observed_at: *observed_at,
            gatus_healthy: true,
            prometheus_healthy: true,
        })
        .collect()
}

fn request<'a>(source: &'a str, base: &'a str, evidence: &'a str) -> ManualRepairRequest<'a> {
    ManualRepairRequest {
        deployment_id: "deployment-123-1",
        incident_id: "incident",
        run_id: "run",
        expected_base: base,
        current_base: base,
        evidence_digest: evidence,
        source,
        now: 222,
    }
}

fn citations() -> Vec<EvidenceCitation> {
    vec![EvidenceCitation {
        evidence_id: "evidence-0001".into(),
        source: EvidenceSource::Health,
        content_digest: digest(b"content"),
    }]
}

fn candidate() -> ManualRepairCandidate {
    let evidence = digest(b"evidence");
    ManualRepairCandidate::build(
        &request(SOURCE, &base(), &evidence),
        &QualifiedDeployment::from_receipt(wire()),
        citations(),
    )
    .unwrap()
}

fn blob(oid: &str, content: &str) -> String {
    format!("{oid} blob {}\n{content}\n", content.len())
}

fn git() -> GitOutput {
    let (first, second) = ("1".repeat(40), "2".repeat(40));
    GitOutput {
        head: format!("{}\n", base()).into_bytes(),
        tree: format!(
            "100644 blob {first}\tREADME.md\0100644 blob {second}\tstacks/utility/compose.yml\0"
        )
        .into_bytes(),
        data: format!("{}{}", blob(&first, "hello"), blob(&second, SOURCE)).into_bytes(),
        head_after: format!("{}\n", base()).into_bytes(),
    }
}

fn capture(output: &GitOutput) -> Result<RepositorySnapshot, SnapshotError> {
    RepositorySnapshot::capture("/srv/git", &base(), &image("a"), output, "/tmp/s".into(), (7, 9))
}

#[test]
fn digests_are_sha256_in_lower_case() {
    assert_eq!(
        digest(b"abc"),
        "sha256:ba7816bf8f01cfea414140de5dae2223b00361a396177a9cb410ff61f20015ad"
    );
    assert!(valid_digest(&digest(b"")));
    assert!(!valid_digest("sha256:abc"));
    assert!(!valid_digest(&digest(b"").to_uppercase()));
    assert!(!valid_digest(&"a".repeat(64)));
}

#[test]
fn repairs_replace_one_scalar_and_keep_every_other_byte() {
    let source = "# head\nservices:\n  other:\n    image: nginx:1 # keep\n  it-tools:\n    image:   ghcr.io/corentinth/it-tools:latest # note\n    ports: [80]\n";
    let out = render(source, &image("a")).unwrap();
    assert_eq!(out, source.replace("ghcr.io/corentinth/it-tools:latest", &image("a")));
    assert_eq!(render(&out, &image("a")), Err(RenderError::NoChange));
    assert!(render(&out, &image("b")).is_ok());
}

#[test]
fn repaired_sources_are_not_repaired_again() {
    let mut source = String::from(SOURCE);
    for name in 0..31 {
        source.push_str(&format!("  s{name}:\n    image: x{name}\n"));
    }
    let crlf = "services:\r\n  it-tools:\r\n    image: ghcr.io/corentinth/it-tools:latest\r\n";
    let last = "services:\n  it-tools:\n    image: ghcr.io/corentinth/it-tools:latest";
    for source in [source.as_str(), crlf, last] {
        let out = render(source, &image("a")).unwrap();
        assert_eq!(render(&out, &image("a")), Err(RenderError::NoChange));
    }
    // Only growth beyond the size bound is refused as unsupported.
    let padding = "#".repeat(262144 - SOURCE.len() - 1);
    let full = format!("{SOURCE}{padding}\n");
    let out = render(&full, &image("a")).unwrap();
    assert!(out.len() > 262144);
    assert_eq!(render(&out, &image("a")), Err(RenderError::UnsupportedSource));
}

#[test]
fn repairs_refuse_what_they_cannot_rewrite() {
    assert_eq!(render(SOURCE, "nginx:latest"), Err(RenderError::InvalidImage));
    assert_eq!(
        render(SOURCE, "ghcr.io/corentinth/it-tools:latest"),
        Err(RenderError::InvalidImage)
    );
    for source in [
        "",
        "services: [",
        "services:\n  other:\n    image: x\n",
        "services:\n  it-tools:\n    image: [x]\n",
        "services:\n  it-tools: {image: \"ghcr.io/corentinth/it-tools:latest\"}\n",
        "services:\n  it-tools:\n    image: >\n      ghcr.io/corentinth/it-tools:latest\n",
    ] {
        assert_eq!(
            render(source, &image("a")),
            Err(RenderError::UnsupportedSource),
            "{source}"
        );
    }
    let large = format!("{SOURCE}# {}\n", "x".repeat(262144));
    assert_eq!(render(&large, &image("a")), Err(RenderError::UnsupportedSource));
    assert!(valid_image(&image("a")));
    assert!(!valid_image(&image("g")));
    assert!(!valid_image(&format!("{}0", image("a"))));
}

#[test]
fn changes_are_scoped_to_the_pilot_file() {
    let after = render(SOURCE, &image("a")).unwrap();
    let paths = ["stacks/utility/compose.yml"];
    let check = |expected: &str, current: &str, candidate: &str, paths: &[&str]| {
        validate_change(expected, current, SOURCE, candidate, &image("a"), paths)
    };
    assert_eq!(check(&base(), &base(), &after, &paths), Ok(()));
    assert_eq!(
        check(&base(), &"c".repeat(40), &after, &paths),
        Err(ScopeError::BaseChanged)
    );
    assert_eq!(check("main", "main", &after, &paths), Err(ScopeError::BaseChanged));
    for other in [&[][..], &["README.md"][..], &["stacks/utility/compose.yml", "README.md"][..]] {
        assert_eq!(check(&base(), &base(), &after, other), Err(ScopeError::OutsideScope));
    }
    let wider = format!("{after}# extra\n");
    assert_eq!(
        check(&base(), &base(), &wider, &paths),
        Err(ScopeError::OutsideScope)
    );
    assert!(valid_sha(&base()));
    assert!(!valid_sha(&"B".repeat(40)));
    assert!(!valid_sha(&"b".repeat(39)));
}

#[test]
fn health_windows_need_complete_strict_samples() {
    let now = 222;
    let check = |times: &[u64]| assess_health(&policy(), 100, now, &samples(times));
    assert_eq!(check(&[101, 161, 221]), Ok(()));
    for times in [
        &[][..],
        &[101, 161][..],
        &[101, 162][..],
        &[161, 221][..],
        &[101, 101, 161, 221][..],
        &[101, 161, 221, 223][..],
    ] {
        assert_eq!(check(times), Err(QualificationError::IncompleteHealth), "{times:?}");
    }
    for change in [0, 1] {
        let mut list = samples(&[101, 161, 221]);
        if change == 0 {
            list[1].gatus_healthy = false;
        } else {
            list[2].prometheus_healthy = false;
        }
        assert_eq!(
            assess_health(&policy(), 100, now, &list),
            Err(QualificationError::IncompleteHealth)
        );
    }
    for bad in [
        ObservationPolicy { window_seconds: 59, ..policy() },
        ObservationPolicy { window_seconds: 86401, ..policy() },
        ObservationPolicy { max_gap_seconds: 0, ..policy() },
        ObservationPolicy { max_gap_seconds: 121, ..policy() },
        ObservationPolicy { max_age_seconds: 0, ..policy() },
        ObservationPolicy { max_age_seconds: 604801, ..policy() },
    ] {
        assert_eq!(
            assess_health(&bad, 100, now, &samples(&[101, 161, 221])),
            Err(QualificationError::InvalidPolicy)
        );
    }
}

#[test]
fn receipts_are_shaped_and_named_by_their_content() {
    assert_eq!(wire().validate_shape(), Ok(()));
    let changes: [fn(&mut ReceiptWire); 8] = [
        |w| w.schema = "v2".into(),
        |w| w.repository = "other".into(),
        |w| w.service = "other".into(),
        |w| w.deployment_id = String::new(),
        |w| w.deployment_id = "a b".into(),
        |w| w.commit = "main".into(),
        |w| w.observed_image = "nginx".into(),
        |w| w.completed_at = i64::MAX as u64 + 1,
    ];
    for change in changes {
        let mut changed = wire();
        change(&mut changed);
        assert_eq!(changed.validate_shape(), Err(ReceiptError::InvalidFields));
        assert_ne!(changed.digest(), wire().digest());
    }
    let text = wire().json_text();
    let value: serde_json::Value = serde_json::from_str(&text).unwrap();
    assert_eq!(value["samples"][2]["observed_at"], 221);
    assert_eq!(value["policy"]["max_gap_seconds"], 60);
    assert_eq!(value["revoked"], false);
    assert_eq!(wire().digest(), digest(text.as_bytes()));
    let mut long = wire();
    long.deployment_id = "d".repeat(128);
    assert_eq!(long.validate_shape(), Ok(()));
    long.deployment_id = "d".repeat(129);
    assert_eq!(long.validate_shape(), Err(ReceiptError::InvalidFields));
}

fn facts(uid: u32, mode: u32, is_dir: bool) -> FileFacts {
    FileFacts {
        uid,
        mode,
        is_dir,
        is_file: !is_dir,
        is_symlink: false,
        len: 10,
        nlink: 1,
        dev: 1,
        ino: 2,
    }
}

fn seen() -> ReceiptObservation {
    ReceiptObservation {
        linux: true,
        path: "/inbox/receipt.json".into(),
        ancestors: vec![facts(0, 0o644, false), facts(0, 0o755, true), facts(0, 0o755, true)],
        before: facts(0, 0o644, false),
        opened: facts(0, 0o644, false),
        length: 10,
    }
}

#[test]
fn receipts_are_read_only_from_protected_files() {
    let receipt = ProtectedReceipt::read(&seen(), Some(wire())).ok().unwrap();
    assert_eq!(receipt.deployment_id(), "deployment-123-1");
    assert_eq!(receipt.wire().digest(), wire().digest());
    let changes: [fn(&mut ReceiptObservation); 7] = [
        |s| s.linux = false,
        |s| s.path = "inbox/receipt.json".into(),
        |s| s.ancestors[1].mode = 0o777,
        |s| s.ancestors[2].uid = 1000,
        |s| s.before.nlink = 2,
        |s| s.opened.ino = 3,
        |s| s.length = 1048577,
    ];
    for change in changes {
        let mut other = seen();
        change(&mut other);
        assert!(matches!(
            ProtectedReceipt::read(&other, Some(wire())),
            Err(ReceiptError::Unprotected)
        ));
    }
    assert!(matches!(
        ProtectedReceipt::read(&seen(), None),
        Err(ReceiptError::InvalidFields)
    ));
    let mut bad = wire();
    bad.service = "other".into();
    assert!(matches!(
        ProtectedReceipt::read(&seen(), Some(bad)),
        Err(ReceiptError::InvalidFields)
    ));
}

#[test]
fn candidates_hold_one_line_patches_and_their_bindings() {
    let candidate = candidate();
    assert_eq!(
        candidate.patch(),
        format!(
            "--- a/stacks/utility/compose.yml\n+++ b/stacks/utility/compose.yml\n@@ -3,1 +3,1 @@\n-    image: ghcr.io/corentinth/it-tools:latest\n+    image: {}\n",
            image("a")
        )
    );
    assert_eq!(candidate.image(), image("a"));
    assert!(candidate.description().starts_with("Manual repair candidate — not publish-ready."));
    assert!(candidate.description().contains("Sandbox validation: not run."));
    let text = candidate.json();
    assert_eq!(candidate.artifact_digest(), digest(text.as_bytes()));
    let value: serde_json::Value = serde_json::from_str(&text).unwrap();
    assert_eq!(value["schema"], "ai-sre/manual-repair-candidate/v1");
    assert_eq!(value["title"], "fix(utility): restore qualified it-tools image");
    assert_eq!(value["incident_path"], "/incidents/incident");
    assert_eq!(value["incident_digest"], digest(b"incident"));
    assert_eq!(value["run_digest"], digest(b"run"));
    assert_eq!(value["base_sha"], base());
    assert_eq!(value["source_digest"], digest(SOURCE.as_bytes()));
    assert_eq!(value["qualification_digest"], wire().digest());
    assert_eq!(value["evidence_citations"][0]["evidence_id"], "evidence-0001");
    assert_eq!(value["patch"], candidate.patch());
    assert_eq!(candidate.qualification_digest(), wire().digest());
    assert_eq!(candidate.evidence_digest(), digest(b"evidence"));
}

#[test]
fn candidates_are_refused_without_exact_inputs() {
    let evidence = digest(b"evidence");
    let base = base();
    let qualified = || QualifiedDeployment::from_receipt(wire());
    let build = |request: &ManualRepairRequest<'_>| {
        ManualRepairCandidate::build(request, &qualified(), citations()).is_some()
    };
    let good = || request(SOURCE, &base, &evidence);
    assert!(build(&good()));
    let other = "c".repeat(40);
    assert!(!build(&ManualRepairRequest { current_base: &other, ..good() }));
    assert!(!build(&ManualRepairRequest { incident_id: "a b", ..good() }));
    assert!(!build(&ManualRepairRequest { run_id: "", ..good() }));
    assert!(!build(&ManualRepairRequest { evidence_digest: "none", ..good() }));
    let repaired = render(SOURCE, &image("a")).unwrap();
    assert!(!build(&ManualRepairRequest { source: &repaired, ..good() }));
}

#[test]
fn snapshots_hold_the_repair_of_their_base() {
    let snapshot = capture(&git()).unwrap();
    assert_eq!(snapshot.base_sha(), base());
    assert_eq!(snapshot.original_source(), SOURCE);
    assert_eq!(snapshot.pilot_source(), render(SOURCE, &image("a")).unwrap());
    assert!(candidate().binds_snapshot(&snapshot));
    assert_eq!(snapshot.root(), "/tmp/s");
    assert_eq!(snapshot.source_directory(), "/tmp/s/source");
    assert!(snapshot.owns(true, 7, 9));
    assert!(!snapshot.owns(false, 7, 9));
    assert!(!snapshot.owns(true, 7, 8));
    let again = capture(&git()).unwrap();
    assert_eq!(again.digest(), snapshot.digest());
    assert!(valid_digest(snapshot.digest()));
}

#[test]
fn snapshots_are_refused_when_git_disagrees() {
    let changes: [fn(&mut GitOutput); 6] = [
        |g| g.head = b"other\n".to_vec(),
        |g| g.head_after = format!("{}\n", "c".repeat(40)).into_bytes(),
        |g| g.tree = b"120000 blob 1111111111111111111111111111111111111111\tlink\0".to_vec(),
        |g| g.tree.extend_from_slice(b"100644 blob 3333333333333333333333333333333333333333\t../x\0"),
        |g| g.data.truncate(20),
        |g| g.data.extend_from_slice(b"trailing"),
    ];
    for change in changes {
        let mut output = git();
        change(&mut output);
        assert!(capture(&output).is_err());
    }
    assert!(RepositorySnapshot::capture(
        "srv/git",
        &base(),
        &image("a"),
        &git(),
        "/tmp/s".into(),
        (7, 9)
    )
    .is_err());
    assert!(RepositorySnapshot::capture(
        "/srv/git",
        "main",
        &image("a"),
        &git(),
        "/tmp/s".into(),
        (7, 9)
    )
    .is_err());
}

#[test]
fn trees_are_parsed_and_batched_in_order() {
    let entries = parse_tree(&git().tree).unwrap();
    assert_eq!(
        batch_request(&entries),
        format!("{}\n{}\n", "1".repeat(40), "2".repeat(40)).into_bytes()
    );
    let unpacked = unpack(&entries, &git().data, &image("a")).unwrap();
    assert_eq!(unpacked.files.len(), 2);
    assert_eq!(unpacked.files[0].contents, b"hello".to_vec());
    assert_eq!(
        source_directories(&unpacked.files),
        vec!["source", "source/stacks", "source/stacks/utility"]
    );
    for name in ["/a", "a/../b", "a//b", ".git/config", "a\\b", ""] {
        assert!(!safe_path(name), "{name}");
    }
    assert!(safe_path("stacks/utility/compose.yml"));
}

#[test]
fn git_runs_without_configuration_or_network() {
    let plan = GitQuery::Tree.plan("/srv/git", &base());
    assert_eq!(plan.program, "/usr/bin/git");
    assert_eq!(
        plan.arguments,
        vec!["-C", "/srv/git", "ls-tree", "-r", "-z", "--full-tree", &base()]
    );
    assert!(plan.environment.contains(&("GIT_ALLOW_PROTOCOL".to_owned(), String::new())));
    assert!(plan.environment.contains(&("GIT_CONFIG_GLOBAL".to_owned(), "/dev/null".to_owned())));
    assert_eq!(
        GitQuery::Head.accept(false, Vec::new()),
        Err(SnapshotError::Unavailable)
    );
    assert_eq!(GitQuery::Head.accept(true, b"x".to_vec()), Ok(b"x".to_vec()));
    let over = vec![0; GitQuery::Head.limit() + 1];
    assert_eq!(GitQuery::Head.accept(true, over), Err(SnapshotError::Unavailable));
}

#[test]
fn snapshots_created_in_the_same_clock_tick_get_distinct_private_directories() {
    let tick = 1_700_000_000_000_000_000_u128;
    let first = private_directory_name(42, tick, 0);
    let second = private_directory_name(42, tick, 1);
    assert_ne!(first, second);
    assert_eq!(first, "ai-sre-u9-snapshot-42-1700000000000000000-0");
}

fn handoff_policy() -> HandoffPolicy {
    HandoffPolicy {
        max_validation_age_seconds: 300,
        validator_image: format!(
            "ghcr.io/bodhispace-xyz/ai-sre-validator@sha256:{}",
            "b".repeat(64)
        ),
        runtime_digest: digest(b"runtime"),
        sandbox_limits: SandboxLimits::default(),
    }
}

fn receipt(candidate: &ManualRepairCandidate, snapshot: &RepositorySnapshot) -> ValidationReceipt {
    let policy = handoff_policy();
    let job = RemoteJob::new(candidate, snapshot, &policy, 1000, Some(b"entropy".as_slice())).unwrap();
    let response = Response {
        schema: "ai-sre/worker-response/v1".into(),
        nonce: job.nonce.clone(),
        receipt: WireReceipt {
            schema: "ai-sre/sandbox-validation/v1".into(),
            artifact_digest: job.artifact.clone(),
            snapshot_digest: job.snapshot.clone(),
            validator_image: policy.validator_image.clone(),
            runtime_digest: policy.runtime_digest.clone(),
            policy_digest: policy.sandbox_limits.digest(),
            output_digest: digest(b"output"),
            output_bytes: 8,
            completed_at: 1010,
        },
    };
    import_response(Some(response), &job, &policy, 1020).unwrap()
}

#[test]
fn handoffs_are_sorted_json_bound_to_candidate_and_receipt() {
    let (candidate, snapshot) = (candidate(), capture(&git()).unwrap());
    let receipt = receipt(&candidate, &snapshot);
    let scope = JournalContext {
        incident_id: "incident".into(),
        run_id: "run".into(),
    };
    let (base, policy) = (base(), handoff_policy());
    let request = || ManualHandoffRequest {
        candidate: &candidate,
        validation: &receipt,
        context: &scope,
        current_base: &base,
        now: 1010,
        policy: &policy,
    };
    let handoff = ManualRepairHandoff::build(&request()).unwrap();
    let value: serde_json::Value = serde_json::from_str(handoff.json()).unwrap();
    assert_eq!(serde_json::to_string(&value).unwrap(), handoff.json());
    assert_eq!(value["status"], "operator_review_required");
    assert_eq!(value["remote_checks"], "not_run");
    assert_eq!(value["candidate_digest"], candidate.artifact_digest());
    assert_eq!(value["validation"]["completed_at"], 1010);
    assert_eq!(value["max_validation_age_seconds"], 300);
    assert!(value["description"].as_str().unwrap().starts_with("Validated repair artifact"));
    assert_eq!(handoff.digest(), digest(handoff.json().as_bytes()));
    assert_eq!(ManualRepairHandoff::build(&request()).unwrap().digest(), handoff.digest());
    // Another scope, another base, a stale or a future receipt give no handoff.
    let foreign = JournalContext {
        incident_id: "other-incident".into(),
        run_id: "run".into(),
    };
    let moved = "f".repeat(40);
    for refused in [
        ManualHandoffRequest { context: &foreign, ..request() },
        ManualHandoffRequest { current_base: &moved, ..request() },
        ManualHandoffRequest { now: 1311, ..request() },
        ManualHandoffRequest { now: 1009, ..request() },
    ] {
        assert!(ManualRepairHandoff::build(&refused).is_none());
    }
    assert!(ManualRepairHandoff::build(&ManualHandoffRequest { now: 1310, ..request() }).is_some());
    // Neither does another enrolled image, runtime or ceiling.
    let mut wrong_image = handoff_policy();
    wrong_image.validator_image =
        format!("ghcr.io/bodhispace-xyz/ai-sre-validator@sha256:{}", "c".repeat(64));
    let mut wrong_runtime = handoff_policy();
    wrong_runtime.runtime_digest = format!("sha256:{}", "c".repeat(64));
    let mut wrong_limits = handoff_policy();
    wrong_limits.sandbox_limits.memory_mib = 1024;
    for policy in [&wrong_image, &wrong_runtime, &wrong_limits] {
        let refused = ManualHandoffRequest { policy, ..request() };
        assert!(ManualRepairHandoff::build(&refused).is_none());
    }
}

#[test]
fn jobs_are_formed_only_for_bound_snapshots() {
    let (candidate, snapshot) = (candidate(), capture(&git()).unwrap());
    let policy = handoff_policy();
    let entropy: Option<&[u8]> = Some(b"entropy");
    let job = RemoteJob::new(&candidate, &snapshot, &policy, 1000, entropy).unwrap();
    assert_eq!(job.nonce, digest(b"entropy"));
    assert_eq!(job.artifact, candidate.artifact_digest());
    assert_eq!(job.snapshot, snapshot.digest());
    assert_eq!((job.issued_at, job.expires_at), (1000, 1180));
    assert_eq!(job.check(&policy, 1000), Ok(()));
    assert_eq!(job.check(&policy, 1179), Ok(()));
    for now in [999, 1180] {
        assert_eq!(job.check(&policy, now), Err(SandboxError::InvalidConfiguration));
    }
    assert_eq!(job.remaining(1100), 80);
    assert_eq!(job.remaining(2000), 0);
    assert!(matches!(
        RemoteJob::new(&candidate, &snapshot, &policy, 1000, None),
        Err(SandboxError::Unavailable)
    ));
    assert!(matches!(
        RemoteJob::new(&candidate, &snapshot, &policy, u64::MAX - 100, entropy),
        Err(SandboxError::InvalidConfiguration)
    ));
    let mut other = git();
    other.data = String::from_utf8(other.data)
        .unwrap()
        .replace(&format!("blob {}", SOURCE.len()), &format!("blob {}", SOURCE.len() + 2))
        .replace("services:\n  it-tools", "# \nservices:\n  it-tools")
        .replace("# \nservices", "#\nservices")
        .into_bytes();
    let changed = capture(&other).unwrap();
    assert!(!candidate.binds_snapshot(&changed));
    assert!(matches!(
        RemoteJob::new(&candidate, &changed, &policy, 1000, entropy),
        Err(SandboxError::InvalidConfiguration)
    ));
}

fn scope() -> JournalContext {
    JournalContext {
        incident_id: "incident".into(),
        run_id: "run".into(),
    }
}

#[test]
fn preparation_rebuilds_the_same_candidate() {
    let (scope, base) = (scope(), base());
    let incident = IncidentRepairRequest {
        deployment_id: "deployment-123-1",
        context: &scope,
        repository: "/srv/git",
        base: &base,
    };
    let preparation = Preparation::prepare_incident_repair();
    let deployment = QualifiedDeployment::from_receipt(wire());
    let preparation = preparation.advance(PrepareEvent::Qualified(Some(deployment)));
    assert_eq!(preparation.step(), PrepareStep::Evidence);
    let expected = image("a");
    assert_eq!(preparation.image(), Some(expected.as_str()));
    assert!(preparation.candidate_request(&incident, 222).is_none());
    let preparation = preparation.advance(PrepareEvent::Evidence(Some(digest(b"evidence"))));
    assert_eq!(preparation.step(), PrepareStep::Capture);
    let preparation = preparation.advance(PrepareEvent::Captured(capture(&git()).unwrap()));
    assert_eq!(preparation.step(), PrepareStep::Prepare);
    let wanted = preparation.candidate_request(&incident, 222).unwrap();
    assert_eq!(wanted.source, SOURCE);
    assert_eq!(wanted.current_base, base);
    let qualified = QualifiedDeployment::from_receipt(wire());
    let built = ManualRepairCandidate::build(&wanted, &qualified, citations()).unwrap();
    assert_eq!(built.artifact_digest(), candidate().artifact_digest());
    let preparation = preparation.advance(PrepareEvent::Prepared(Some(built)));
    let result = preparation.result().ok().unwrap().unwrap();
    assert_eq!(result.artifact_digest(), candidate().artifact_digest());
}

#[test]
fn preparation_without_evidence_captures_nothing() {
    let deployment = QualifiedDeployment::from_receipt(wire());
    let preparation = Preparation::prepare_incident_repair()
        .advance(PrepareEvent::Qualified(Some(deployment)))
        .advance(PrepareEvent::Evidence(None));
    assert_eq!(preparation.step(), PrepareStep::Ended);
    assert!(matches!(preparation.result(), Ok(None)));
}

fn reserved() -> (ManualRepairCandidate, HandoffPolicy, Validation) {
    let (candidate, policy) = (candidate(), handoff_policy());
    let validation = Validation::validate_manual_repair()
        .advance(&candidate, &policy, ValidateEvent::Attempted(false))
        .advance(&candidate, &policy, ValidateEvent::Captured(capture(&git()).unwrap()))
        .advance(&candidate, &policy, ValidateEvent::Issued(1000, Some(b"entropy".to_vec())));
    assert_eq!(validation.step(), ValidateStep::Reserve);
    (candidate, policy, validation)
}

#[test]
fn validation_reserves_dispatches_records_and_rechecks_in_order() {
    let (candidate, policy, validation) = reserved();
    let job = validation.job().unwrap();
    assert_eq!(job.nonce, digest(b"entropy"));
    assert_eq!(validation.wire(), Some(job.json_text()));
    let validation = validation.advance(&candidate, &policy, ValidateEvent::Reserved(true));
    assert_eq!(validation.step(), ValidateStep::Dispatch);
    let given = receipt(&candidate, &capture(&git()).unwrap());
    let validation = validation.advance(&candidate, &policy, ValidateEvent::Dispatched(Ok(given)));
    assert_eq!(validation.step(), ValidateStep::Record);
    let validation = validation.advance(&candidate, &policy, ValidateEvent::Recorded);
    assert_eq!(validation.step(), ValidateStep::Recapture);
    let again = ValidateEvent::Captured(capture(&git()).unwrap());
    let validation = validation.advance(&candidate, &policy, again);
    assert_eq!(validation.step(), ValidateStep::Finalize);
    let (scope, base) = (scope(), base());
    let request = ManualValidationRequest {
        candidate: &candidate,
        context: &scope,
        repository: "/srv/git",
        base: &base,
        policy: &policy,
    };
    let wanted = validation.handoff_request(&request, 1015).unwrap();
    assert_eq!(wanted.current_base, base);
    let handoff = ManualRepairHandoff::build(&wanted).unwrap();
    let identity = handoff.digest();
    let validation = validation.advance(&candidate, &policy, ValidateEvent::Finalized(Some(handoff)));
    assert_eq!(validation.result().ok().unwrap().unwrap().digest(), identity);
}

#[test]
fn validation_stops_before_dispatch_when_an_attempt_exists() {
    let (candidate, policy) = (candidate(), handoff_policy());
    let validation = Validation::validate_manual_repair();
    assert_eq!(validation.step(), ValidateStep::Attempt);
    let validation = validation.advance(&candidate, &policy, ValidateEvent::Attempted(true));
    assert_eq!(validation.step(), ValidateStep::Ended);
    assert!(validation.job().is_none());
    assert!(matches!(validation.result(), Err(SandboxError::AttemptExists)));
    let (candidate, policy, validation) = reserved();
    let validation = validation.advance(&candidate, &policy, ValidateEvent::Reserved(false));
    assert!(matches!(validation.result(), Err(SandboxError::AttemptExists)));
}

#[test]
fn validation_records_failures_and_refuses_moved_sources() {
    let (candidate, policy, validation) = reserved();
    let failed = validation
        .advance(&candidate, &policy, ValidateEvent::Reserved(true))
        .advance(&candidate, &policy, ValidateEvent::Dispatched(Err(SandboxError::Unavailable)));
    assert_eq!(failed.step(), ValidateStep::RecordFailure);
    let failed = failed.advance(&candidate, &policy, ValidateEvent::Recorded);
    assert!(matches!(failed.result(), Err(SandboxError::Unavailable)));
    let (candidate, policy, validation) = reserved();
    let given = receipt(&candidate, &capture(&git()).unwrap());
    let mut moved = git();
    moved.data = String::from_utf8(moved.data).unwrap().replace("hello", "hullo").into_bytes();
    let validation = validation
        .advance(&candidate, &policy, ValidateEvent::Reserved(true))
        .advance(&candidate, &policy, ValidateEvent::Dispatched(Ok(given)))
        .advance(&candidate, &policy, ValidateEvent::Recorded)
        .advance(&candidate, &policy, ValidateEvent::Captured(capture(&moved).unwrap()));
    assert_eq!(validation.step(), ValidateStep::Ended);
    assert!(matches!(validation.result(), Err(SandboxError::Failed)));
    let (candidate, policy) = (self::candidate(), handoff_policy());
    let no_entropy = Validation::validate_manual_repair()
        .advance(&candidate, &policy, ValidateEvent::Attempted(false))
        .advance(&candidate, &policy, ValidateEvent::Captured(capture(&git()).unwrap()))
        .advance(&candidate, &policy, ValidateEvent::Issued(1000, None));
    assert!(matches!(no_entropy.result(), Err(SandboxError::Unavailable)));
}

fn prepared() -> PreparedSandbox {
    let policy = handoff_policy();
    let plan = SandboxPlan::new(&policy.validator_image, policy.sandbox_limits).ok().unwrap();
    plan.prepare("u9-fixture", &candidate(), capture(&git()).unwrap()).ok().unwrap()
}

fn workload(code: i32, stdout: &[u8]) -> Output {
    Output {
        stdout: stdout.to_vec(),
        stderr: Vec::new(),
        success: code == 0,
        code: Some(code),
    }
}

fn clean_exit() -> ExitState {
    ExitState {
        status: "exited".into(),
        running: false,
        paused: false,
        restarting: false,
        oom_killed: false,
        dead: false,
        exit_code: 0,
        error: String::new(),
    }
}

fn collecting() -> Run {
    let mut run = Run::start(prepared(), &digest(b"runtime"), false);
    for expected in [RunStep::CleanBefore, RunStep::Verify, RunStep::Mounts, RunStep::Probe] {
        assert_eq!(run.step(), expected);
        run = run.advance(RunEvent::Done);
    }
    assert_eq!(run.step(), RunStep::Begin);
    let run = run.advance(RunEvent::Named("u9-1-2-3".into(), None));
    assert!(run.arguments().contains(&"--name=u9-1-2-3".to_owned()));
    assert!(!run.arguments().contains(&"--name=u9-fixture".to_owned()));
    let run = run.advance(RunEvent::Done);
    assert_eq!(run.step(), RunStep::Collect);
    run
}

#[test]
fn receipts_name_exact_inputs_and_wait_for_cleanup() {
    let run = collecting().advance(RunEvent::Ran(workload(0, b"validated")));
    assert_eq!(run.step(), RunStep::Inspect);
    let run = run.advance(RunEvent::Inspected(true, Some(clean_exit()), Some(1010)));
    assert_eq!(run.step(), RunStep::CleanAfter);
    let receipt = run.advance(RunEvent::Done).result().ok().unwrap();
    assert_eq!(receipt.artifact_digest(), candidate().artifact_digest());
    assert_eq!(receipt.snapshot_digest(), capture(&git()).unwrap().digest());
    assert_eq!(receipt.completed_at(), 1010);
    let value: serde_json::Value = serde_json::from_str(&receipt.json()).unwrap();
    assert_eq!(value["output_bytes"], 9);
    let policy = handoff_policy();
    assert!(receipt.matches_enrollment(
        &policy.validator_image,
        &policy.runtime_digest,
        &policy.sandbox_limits
    ));
}

#[test]
fn failed_workloads_and_cleanups_yield_no_receipt() {
    let failed = collecting().advance(RunEvent::Ran(workload(7, b"")));
    assert_eq!(failed.step(), RunStep::CleanAfter);
    assert!(failed.advance(RunEvent::Done).result().is_err());
    let excessive = collecting().advance(RunEvent::Failed(SandboxError::Failed));
    assert!(excessive.advance(RunEvent::Done).result().is_err());
    let inspected = || {
        collecting()
            .advance(RunEvent::Ran(workload(0, b"validated")))
            .advance(RunEvent::Inspected(true, Some(clean_exit()), Some(1010)))
    };
    assert!(inspected().advance(RunEvent::Failed(SandboxError::Failed)).result().is_err());
    assert!(inspected().result().is_err());
    let mut killed = clean_exit();
    killed.oom_killed = true;
    let killed = collecting()
        .advance(RunEvent::Ran(workload(0, b"validated")))
        .advance(RunEvent::Inspected(true, Some(killed), Some(1010)));
    assert!(killed.advance(RunEvent::Done).result().is_err());
}

#[test]
fn failed_starts_abandon_their_durable_record() {
    let mut run = Run::start(prepared(), &digest(b"runtime"), true);
    for _ in 0..4 {
        run = run.advance(RunEvent::Done);
    }
    let run = run.advance(RunEvent::Named("job".into(), Some("token".into())));
    assert!(run
        .arguments()
        .contains(&"--label=io.bodhispace.ai-sre.job=token".to_owned()));
    let run = run.advance(RunEvent::Failed(SandboxError::Failed));
    assert_eq!(run.step(), RunStep::AbandonSnapshot);
    let run = run.advance(RunEvent::Done);
    assert_eq!(run.step(), RunStep::AbandonRecord);
    let run = run.advance(RunEvent::Done);
    assert!(matches!(run.result(), Err(SandboxError::Unavailable)));
}

fn job() -> (RemoteJob, HandoffPolicy) {
    let policy = handoff_policy();
    let snapshot = capture(&git()).unwrap();
    let job =
        RemoteJob::new(&candidate(), &snapshot, &policy, 1000, Some(b"entropy".as_slice())).unwrap();
    (job, policy)
}

fn answer(job: &RemoteJob, policy: &HandoffPolicy) -> Response {
    Response {
        schema: "ai-sre/worker-response/v1".into(),
        nonce: job.nonce.clone(),
        receipt: WireReceipt {
            schema: "ai-sre/sandbox-validation/v1".into(),
            artifact_digest: job.artifact.clone(),
            snapshot_digest: job.snapshot.clone(),
            validator_image: policy.validator_image.clone(),
            runtime_digest: policy.runtime_digest.clone(),
            policy_digest: policy.sandbox_limits.digest(),
            output_digest: digest(b"output"),
            output_bytes: 8,
            completed_at: 1010,
        },
    }
}

#[test]
fn exchanges_import_only_exact_answers() {
    let (job, policy) = job();
    let exchange = || {
        let dispatch = Dispatch::start(&job, &policy, Some(1001));
        assert_eq!(dispatch.step(), DispatchStep::Trust);
        let dispatch = dispatch.advance(&job, &policy, DispatchEvent::Done);
        assert_eq!(dispatch.step(), DispatchStep::Spawn);
        dispatch.advance(&job, &policy, DispatchEvent::Spawned(Some(1002)))
    };
    let reply = |response, trailing, success, now| {
        DispatchEvent::Replied(Reply { response, trailing, success, now })
    };
    let good = || Some(answer(&job, &policy));
    let done = exchange().advance(&job, &policy, reply(good(), false, true, Some(1020)));
    assert_eq!(done.step(), DispatchStep::Ended);
    assert_eq!(done.result().ok().unwrap().artifact_digest(), job.artifact);
    for event in [
        reply(None, false, true, Some(1020)),
        reply(good(), true, true, Some(1020)),
        reply(good(), false, false, Some(1020)),
        reply(good(), false, true, None),
        reply(good(), false, true, Some(1180)),
    ] {
        let killed = exchange().advance(&job, &policy, event);
        assert_eq!(killed.step(), DispatchStep::Kill);
        assert!(killed.advance(&job, &policy, DispatchEvent::Done).result().is_err());
    }
    assert!(Dispatch::start(&job, &policy, None).result().is_err());
    assert!(Dispatch::start(&job, &policy, Some(1180)).result().is_err());
}

#[test]
fn workers_answer_with_the_receipt_of_the_requested_snapshot() {
    let (job, policy) = job();
    let nonce = job.nonce.clone();
    let worker = Worker::start()
        .advance(&policy, WorkerEvent::Received(Some(job), Some(1001)))
        .advance(&policy, WorkerEvent::Done)
        .advance(&policy, WorkerEvent::Done);
    assert_eq!(worker.step(), WorkerStep::Capture);
    let captured = WorkerEvent::Captured(Some(capture(&git()).unwrap()), Some(1003));
    let worker = worker.advance(&policy, captured);
    assert_eq!(worker.step(), WorkerStep::Validate);
    let (worker, prepared) = worker.take_prepared();
    let prepared = prepared.unwrap();
    assert_eq!(prepared.artifact_digest(), candidate().artifact_digest());
    assert_eq!(prepared.snapshot().root(), "/tmp/s");
    assert!(prepared.snapshot().owns(true, 7, 9));
    let given = receipt(&candidate(), &capture(&git()).unwrap());
    let expected = given.json();
    let worker = worker.advance(&policy, WorkerEvent::Validated(Ok(given), Some(1020)));
    assert_eq!(worker.step(), WorkerStep::Respond);
    let value: serde_json::Value = serde_json::from_str(worker.response().unwrap()).unwrap();
    assert_eq!(value["nonce"], nonce);
    assert_eq!(value["receipt"], serde_json::from_str::<serde_json::Value>(&expected).unwrap());
    let worker = worker.advance(&policy, WorkerEvent::Done);
    assert_eq!(worker.result(), Ok(()));
}
