//! Sandbox plans, runtime claims, remote requests, recovery and worker admission.

use ai_sre::digest::digest;
use ai_sre::files::FileFacts;
use ai_sre::gitops::handoff::HandoffPolicy;
use ai_sre::gitops::sandbox::jobs::{
    admit_database, admit_request, admit_state_directory, bind_runtime, changed_one, next_job,
    nonce, Binding, Found, LeaseLocation, PendingJob, Removal, SnapshotLease,
};
use ai_sre::gitops::sandbox::runner::entry::{
    admit_command, admit_config, admit_config_size, EntryError,
};
use ai_sre::gitops::sandbox::runner::recovery::{Recovery, RecoveryEvent, RecoveryStep};
use ai_sre::gitops::sandbox::runner::remote::{
    frame_length, import_response, read_frame, trusted_ssh_file, write_frame, Response,
    WireReceipt, WIRE_LIMIT,
};
use ai_sre::gitops::sandbox::runner::run::{
    advance_cleanup, begin_cleanup, conclude_with_shutdown, local_job_name, removal_by_name,
    runtime_plan, CleanupEvent, CleanupStep,
};
use ai_sre::gitops::sandbox::runner::worker::{Worker, WorkerEvent, WorkerStep};
use ai_sre::gitops::sandbox::runner::{
    admit_runtime, chain_protected, check_mounts, check_mounts_file, owned_container_id,
    valid_exit, valid_host, verify_binary, Collector, ExitState, Host, Output, RuntimeStorage,
    Security, StorageFacts, Stream, CONTROL_LIMIT,
};
use ai_sre::gitops::sandbox::{
    valid_job_name, valid_mount_source, RemoteJob, SandboxError, SandboxLimits, SandboxPlan,
    SshValidator, SshWorkerConfig,
};

const HOST: &str = r#"{"os":"linux","cgroupVersion":"v2","cgroupControllers":["cpu","memory","pids"],"serviceIsRemote":false,"security":{"rootless":true,"seccompEnabled":true}}"#;
const EXIT: &str = r#"{"Status":"exited","Running":false,"Paused":false,"Restarting":false,"OOMKilled":false,"Dead":false,"ExitCode":0,"Error":""}"#;

fn parse_host(text: &str) -> Option<Host> {
    let value: serde_json::Value = serde_json::from_str(text).ok()?;
    let controllers = value.get("cgroupControllers")?.as_array()?;
    let names: Option<Vec<String>> =
        controllers.iter().map(|name| name.as_str().map(str::to_owned)).collect();
    let security = value.get("security")?;
    Some(Host {
        os: value.get("os")?.as_str()?.to_owned(),
        cgroup_version: value.get("cgroupVersion")?.as_str()?.to_owned(),
        cgroup_controllers: names?,
        service_is_remote: value.get("serviceIsRemote")?.as_bool()?,
        security: Security {
            rootless: security.get("rootless")?.as_bool()?,
            seccomp_enabled: security.get("seccompEnabled")?.as_bool()?,
        },
    })
}

fn parse_exit(text: &str) -> Option<ExitState> {
    let value: serde_json::Value = serde_json::from_str(text).ok()?;
    let flag = |name: &str| value.get(name)?.as_bool();
    Some(ExitState {
        status: value.get("Status")?.as_str()?.to_owned(),
        running: flag("Running")?,
        paused: flag("Paused")?,
        restarting: flag("Restarting")?,
        oom_killed: flag("OOMKilled")?,
        dead: flag("Dead")?,
        exit_code: value.get("ExitCode")?.as_i64()?,
        error: value.get("Error")?.as_str()?.to_owned(),
    })
}

#[test]
fn host_and_exit_claims_require_every_enforcement_field() {
    let host = |text: &str| valid_host(parse_host(text).as_ref());
    let exit = |text: &str| valid_exit(parse_exit(text).as_ref());
    assert!(host(HOST));
    assert!(exit(EXIT));
    for bad in [
        "{}".to_owned(),
        HOST.replace("\"rootless\":true", "\"rootless\":false"),
        HOST.replace("\"memory\",", ""),
        HOST.replace("\"serviceIsRemote\":false", "\"serviceIsRemote\":true"),
    ] {
        assert!(!host(&bad));
    }
    assert!(!exit(&EXIT.replace("\"OOMKilled\":false", "\"OOMKilled\":true")));
    assert!(!exit("{}"));
}

#[test]
fn every_host_and_exit_field_counts() {
    for (from, to) in [
        ("\"os\":\"linux\"", "\"os\":\"darwin\""),
        ("\"v2\"", "\"v1\""),
        ("\"cpu\",", ""),
        (",\"pids\"", ""),
        ("\"seccompEnabled\":true", "\"seccompEnabled\":false"),
    ] {
        assert!(!valid_host(parse_host(&HOST.replace(from, to)).as_ref()), "{to}");
    }
    for (from, to) in [
        ("\"exited\"", "\"running\""),
        ("\"Running\":false", "\"Running\":true"),
        ("\"Paused\":false", "\"Paused\":true"),
        ("\"Restarting\":false", "\"Restarting\":true"),
        ("\"Dead\":false", "\"Dead\":true"),
        ("\"ExitCode\":0", "\"ExitCode\":1"),
        ("\"Error\":\"\"", "\"Error\":\"x\""),
    ] {
        assert!(!valid_exit(parse_exit(&EXIT.replace(from, to)).as_ref()), "{to}");
    }
}

fn fixture() -> (RemoteJob, HandoffPolicy) {
    let policy = HandoffPolicy {
        max_validation_age_seconds: 300,
        validator_image: format!(
            "ghcr.io/bodhispace-xyz/ai-sre-validator@sha256:{}",
            "a".repeat(64)
        ),
        runtime_digest: digest(b"runtime"),
        sandbox_limits: SandboxLimits::default(),
    };
    let job = RemoteJob {
        schema: "ai-sre/worker-request/v1".into(),
        nonce: digest(b"nonce"),
        artifact: digest(b"artifact"),
        snapshot: digest(b"snapshot"),
        base: "a".repeat(40),
        replacement: format!("ghcr.io/corentinth/it-tools@sha256:{}", "b".repeat(64)),
        validator_image: policy.validator_image.clone(),
        runtime_digest: policy.runtime_digest.clone(),
        limits: policy.sandbox_limits,
        issued_at: 100,
        expires_at: 280,
    };
    (job, policy)
}

fn response() -> Response {
    let (job, policy) = fixture();
    Response {
        schema: "ai-sre/worker-response/v1".into(),
        nonce: job.nonce,
        receipt: WireReceipt {
            schema: "ai-sre/sandbox-validation/v1".into(),
            artifact_digest: job.artifact,
            snapshot_digest: job.snapshot,
            validator_image: policy.validator_image.clone(),
            runtime_digest: policy.runtime_digest.clone(),
            policy_digest: policy.sandbox_limits.digest(),
            output_digest: digest(b"output"),
            output_bytes: 8,
            completed_at: 110,
        },
    }
}

#[test]
fn authenticated_response_still_requires_exact_job_and_policy_binding() {
    let (job, policy) = fixture();
    assert!(import_response(Some(response()), &job, &policy, 120).is_ok());
    let foreign: [fn(&mut WireReceipt); 7] = [
        |r| r.artifact_digest = "foreign".into(),
        |r| r.snapshot_digest = "foreign".into(),
        |r| r.validator_image = "foreign".into(),
        |r| r.runtime_digest = "foreign".into(),
        |r| r.policy_digest = "foreign".into(),
        |r| r.schema = "foreign".into(),
        |r| r.output_digest = "foreign".into(),
    ];
    for change in foreign {
        let mut changed = response();
        change(&mut changed.receipt);
        assert!(import_response(Some(changed), &job, &policy, 120).is_err());
    }
    let mut changed = response();
    changed.nonce = digest(b"another-request");
    assert!(import_response(Some(changed), &job, &policy, 120).is_err());
    assert!(import_response(Some(response()), &job, &policy, 280).is_err());
    assert!(import_response(None, &job, &policy, 120).is_err());
}

#[test]
fn worker_rejects_expired_requests_before_opening_runtime_or_state() {
    let (job, policy) = fixture();
    let now = 1_700_000_000;
    let worker = Worker::start();
    assert_eq!(worker.step(), WorkerStep::Receive);
    let worker = worker.advance(&policy, WorkerEvent::Received(Some(job), Some(now)));
    assert_eq!(worker.step(), WorkerStep::Ended);
    assert_eq!(worker.result(), Err(SandboxError::InvalidConfiguration));
    assert!(worker.response().is_none());
}

#[test]
fn workers_connect_only_for_current_requests() {
    let (job, policy) = fixture();
    let worker = Worker::start().advance(&policy, WorkerEvent::Received(Some(job), Some(150)));
    assert_eq!(worker.step(), WorkerStep::Connect);
    let worker = worker.advance(&policy, WorkerEvent::Done);
    assert_eq!(worker.step(), WorkerStep::Claim);
    let worker = worker.advance(&policy, WorkerEvent::Failed(SandboxError::Unavailable));
    assert_eq!(worker.result(), Err(SandboxError::Unavailable));
    let worker = Worker::start().advance(&policy, WorkerEvent::Received(None, Some(150)));
    assert_eq!(worker.result(), Err(SandboxError::InvalidConfiguration));
    let (job, _) = fixture();
    let worker = Worker::start().advance(&policy, WorkerEvent::Received(Some(job), None));
    assert_eq!(worker.result(), Err(SandboxError::Unavailable));
}

#[test]
fn ssh_routing_cannot_inject_options_or_expand_credential_paths() {
    for (host, path) in [
        ("-oProxyCommand=evil", "/keys/worker"),
        ("worker", "/keys/%h"),
        ("worker;evil", "/keys/worker"),
        ("worker", "/keys/with space"),
    ] {
        let config = SshWorkerConfig {
            host: host.into(),
            user: "validator".into(),
            port: 22,
            identity_file: path.into(),
            known_hosts: "/keys/known_hosts".into(),
        };
        assert!(SshValidator::new(config).is_err());
    }
}

#[test]
fn ssh_runs_with_fixed_options_only() {
    let validator = SshValidator::new(SshWorkerConfig {
        host: "worker.example".into(),
        user: "validator".into(),
        port: 2222,
        identity_file: "/keys/worker".into(),
        known_hosts: "/keys/known_hosts".into(),
    })
    .ok()
    .unwrap();
    let plan = validator.plan();
    assert_eq!(plan.program, "/usr/bin/ssh");
    assert!(plan.environment.is_empty());
    assert_eq!(plan.arguments[..5], ["-F", "/dev/null", "-T", "-a", "-x"]);
    let count = plan.arguments.len();
    assert_eq!(
        plan.arguments[count - 10..],
        [
            "-o",
            "UserKnownHostsFile=/keys/known_hosts",
            "-i",
            "/keys/worker",
            "-p",
            "2222",
            "-l",
            "validator",
            "worker.example",
            "ai-sre-validator-v1"
        ]
    );
    assert!(plan.arguments.contains(&"StrictHostKeyChecking=yes".to_owned()));
}

#[test]
fn frame_rejects_oversized_lengths_before_reading_payload() {
    let wire = ((WIRE_LIMIT + 1) as u32).to_be_bytes();
    assert!(read_frame(&wire, WIRE_LIMIT).is_err());
    assert_eq!(frame_length(&wire, WIRE_LIMIT), Err(SandboxError::Failed));
}

#[test]
fn frames_round_trip_and_stay_bounded() {
    let sent = write_frame(b"payload", WIRE_LIMIT).unwrap();
    assert_eq!(sent[..4], [0, 0, 0, 7]);
    assert_eq!(read_frame(&sent, WIRE_LIMIT), Ok(b"payload".to_vec()));
    let mut longer = sent.clone();
    longer.extend_from_slice(b"rest");
    assert_eq!(read_frame(&longer, WIRE_LIMIT), Ok(b"payload".to_vec()));
    assert!(read_frame(&sent[..10], WIRE_LIMIT).is_err());
    assert!(read_frame(&sent[..3], WIRE_LIMIT).is_err());
    assert!(write_frame(b"", WIRE_LIMIT).is_err());
    assert!(write_frame(&vec![0; WIRE_LIMIT], WIRE_LIMIT).is_ok());
    assert!(write_frame(&vec![0; WIRE_LIMIT + 1], WIRE_LIMIT).is_err());
}

#[test]
fn requests_are_json_in_declaration_order() {
    let (job, _) = fixture();
    let text = job.json_text();
    assert!(text.starts_with("{\"schema\":\"ai-sre/worker-request/v1\",\"nonce\":\"sha256:"));
    let value: serde_json::Value = serde_json::from_str(&text).unwrap();
    assert_eq!(value["limits"]["memory_mib"], 512);
    assert_eq!(value["expires_at"], 280);
}

fn facts(uid: u32, mode: u32, is_dir: bool) -> FileFacts {
    FileFacts {
        uid,
        mode,
        is_dir,
        is_file: !is_dir,
        is_symlink: false,
        len: 14,
        nlink: 1,
        dev: 1,
        ino: 2,
    }
}

#[test]
fn credential_paths_reject_symlinked_and_writable_parents() {
    let chain = |directory_mode: u32| {
        vec![
            facts(1000, 0o600, false),
            facts(1000, directory_mode, true),
            facts(1000, 0o700, true),
            facts(0, 0o1777, true),
            facts(0, 0o755, true),
        ]
    };
    let path = "/tmp/root/credentials/key";
    assert!(trusted_ssh_file(path, &chain(0o700), 1000, true).is_ok());
    let mut linked = chain(0o700);
    linked[1].is_dir = false;
    linked[1].is_symlink = true;
    assert!(trusted_ssh_file("/tmp/root/alias/key", &linked, 1000, true).is_err());
    assert!(trusted_ssh_file(path, &chain(0o777), 1000, true).is_err());
    assert!(trusted_ssh_file(path, &chain(0o700), 1000, true).is_ok());
    // A key that others can read is no private key, and a foreign one is not trusted.
    let mut readable = chain(0o700);
    readable[0].mode = 0o644;
    assert!(trusted_ssh_file(path, &readable, 1000, true).is_err());
    assert!(trusted_ssh_file(path, &readable, 1000, false).is_ok());
    assert!(trusted_ssh_file(path, &chain(0o700), 1001, true).is_err());
    assert!(trusted_ssh_file("key", &chain(0o700), 1000, true).is_err());
}

#[test]
fn sandboxes_are_isolated_and_bounded() {
    let image = format!("ghcr.io/bodhispace-xyz/ai-sre-validator@sha256:{}", "b".repeat(64));
    let plan = SandboxPlan::new(&image, SandboxLimits::default()).ok().unwrap();
    let arguments = plan.arguments("u9-fixture", "/tmp/source").unwrap();
    for expected in [
        "--remote=false",
        "--name=u9-fixture",
        "--network=none",
        "--read-only",
        "--cap-drop=ALL",
        "--timeout=120",
        "--memory=512m",
        "--memory-swap=512m",
        "--cpus=1",
        "--pids-limit=128",
        "/work:rw,nosuid,nodev,exec,size=224m,mode=1777",
        "type=bind,src=/tmp/source,dst=/source,ro=true",
    ] {
        assert!(arguments.contains(&expected.to_owned()), "{expected}");
    }
    assert_eq!(arguments.last(), Some(&image));
    assert_eq!(arguments.len(), 32);
    for (name, source) in [("", "/tmp/s"), ("a b", "/tmp/s"), ("ok", "tmp/s"), ("ok", "/a,b")] {
        assert_eq!(
            plan.arguments(name, source),
            Err(SandboxError::InvalidConfiguration)
        );
    }
    assert!(valid_job_name("u9-1"));
    assert!(!valid_job_name("-u9\n"));
    assert!(valid_mount_source("/tmp/a/source"));
    assert!(!valid_mount_source("/tmp/../source"));
    for image in ["validator:latest", "ghcr.io/other@sha256:abc"] {
        assert!(matches!(
            SandboxPlan::new(image, SandboxLimits::default()),
            Err(SandboxError::InvalidConfiguration)
        ));
    }
    for limits in [
        SandboxLimits { timeout_seconds: 0, ..SandboxLimits::default() },
        SandboxLimits { timeout_seconds: 601, ..SandboxLimits::default() },
        SandboxLimits { memory_mib: 127, ..SandboxLimits::default() },
        SandboxLimits { pids: 513, ..SandboxLimits::default() },
        SandboxLimits { cpus: 5, ..SandboxLimits::default() },
        SandboxLimits { scratch_mib: 63, ..SandboxLimits::default() },
        SandboxLimits { output_bytes: 1023, ..SandboxLimits::default() },
    ] {
        assert!(SandboxPlan::new(&image, limits).is_err());
    }
}

#[test]
fn ceilings_have_exact_json_and_identity() {
    let limits = SandboxLimits::default();
    let text = "{\"timeout_seconds\":120,\"memory_mib\":512,\"pids\":128,\"cpus\":1,\"scratch_mib\":256,\"output_bytes\":65536}";
    assert_eq!(limits.json_text(), text);
    assert_eq!(limits.digest(), digest(text.as_bytes()));
    let other = SandboxLimits { cpus: 2, ..SandboxLimits::default() };
    assert_ne!(other.digest(), limits.digest());
    assert_ne!(other.json_text(), limits.json_text());
}

fn inspected(id: &str, name: &str, label: &str) -> Vec<u8> {
    format!(
        "{{\"Id\":\"{id}\",\"Name\":\"{name}\",\"Config\":{{\"Labels\":{{\"io.bodhispace.ai-sre.job\":\"{label}\"}}}}}}"
    )
    .into_bytes()
}

#[test]
fn containers_are_owned_by_name_and_label() {
    let id = "a".repeat(64);
    assert_eq!(
        owned_container_id(&inspected(&id, "job", "token"), "job", "token"),
        Some(id.clone())
    );
    assert_eq!(owned_container_id(&inspected(&id, "other", "token"), "job", "token"), None);
    assert_eq!(owned_container_id(&inspected(&id, "job", "foreign"), "job", "token"), None);
    assert_eq!(owned_container_id(&inspected("short", "job", "token"), "job", "token"), None);
    assert_eq!(owned_container_id(b"{}", "job", "token"), None);
    assert_eq!(owned_container_id(b"not json", "job", "token"), None);
}

fn pending(container_id: Option<String>) -> PendingJob {
    PendingJob {
        name: "job".into(),
        token: "token".into(),
        snapshot: SnapshotLease {
            root: "/tmp/ai-sre-u9-snapshot-1".into(),
            device: 1,
            inode: 2,
            uid: 1000,
        },
        container_id,
    }
}

fn output(code: i32, stdout: Vec<u8>) -> Output {
    Output {
        stdout,
        stderr: Vec::new(),
        success: code == 0,
        code: Some(code),
    }
}

#[test]
fn recovery_requires_recorded_ownership_and_removes_by_immutable_id() {
    let id = "a".repeat(64);
    for (exists_code, matching_label, known_id, recoverable) in [
        (0, true, false, true),
        (0, false, false, false),
        (1, false, false, false),
        (1, false, true, true),
        (125, false, false, false),
    ] {
        let known = if known_id { Some(id.clone()) } else { None };
        let mut recovery = Recovery::start(true);
        let mut removed: Option<Vec<String>> = None;
        let mut cleared = false;
        for _ in 0..20 {
            let event = match recovery.step() {
                RecoveryStep::Identify => RecoveryEvent::Identity("storage".into()),
                RecoveryStep::Load => RecoveryEvent::Pending(Some(pending(known.clone()))),
                RecoveryStep::Exists => RecoveryEvent::Ran(output(exists_code, Vec::new())),
                RecoveryStep::Inspect => {
                    let label = if matching_label { "token" } else { "foreign" };
                    RecoveryEvent::Ran(output(0, inspected(&id, "job", label)))
                }
                RecoveryStep::RemoveContainer => {
                    removed = recovery.command();
                    RecoveryEvent::Ran(output(0, Vec::new()))
                }
                RecoveryStep::Clear => {
                    cleared = true;
                    RecoveryEvent::Done
                }
                RecoveryStep::Finished | RecoveryStep::Failed(_) => break,
                _ => RecoveryEvent::Done,
            };
            recovery = recovery.advance(event);
        }
        assert_eq!(recovery.step() == RecoveryStep::Finished, recoverable);
        assert_eq!(cleared, recoverable);
        if exists_code == 0 && matching_label {
            let arguments = removed.unwrap();
            assert!(arguments.contains(&id));
            assert!(!arguments.contains(&"job".to_owned()));
        } else {
            assert!(removed.is_none());
        }
    }
}

#[test]
fn recovery_does_nothing_without_a_recorded_launch() {
    let recovery = Recovery::start(true)
        .advance(RecoveryEvent::Done)
        .advance(RecoveryEvent::Identity("storage".into()))
        .advance(RecoveryEvent::Done)
        .advance(RecoveryEvent::Pending(None));
    assert_eq!(recovery.identity(), Some("storage"));
    assert_eq!(recovery.step(), RecoveryStep::Finished);
    let refused = Recovery::start(true).advance(RecoveryEvent::Failed(SandboxError::Unavailable));
    assert_eq!(refused.step(), RecoveryStep::Failed(SandboxError::Unavailable));
    assert_eq!(Recovery::start(false).step(), RecoveryStep::Finished);
}

#[test]
fn cleanup_keeps_what_it_could_not_remove() {
    let step = begin_cleanup(true);
    assert_eq!(step, CleanupStep::Kill);
    let by_name = advance_cleanup(step, false, "job", CleanupEvent::Done);
    assert_eq!(by_name, CleanupStep::RemoveByName);
    assert_eq!(removal_by_name("job"), vec!["rm", "--force", "--ignore", "--time=0", "job"]);
    assert_eq!(
        advance_cleanup(by_name, false, "job", CleanupEvent::Done),
        CleanupStep::Released
    );
    assert_eq!(
        advance_cleanup(by_name, false, "job", CleanupEvent::Failed(SandboxError::Failed)),
        CleanupStep::Kept(SandboxError::Failed)
    );
    let durable = advance_cleanup(step, true, "job", CleanupEvent::Done);
    assert_eq!(durable, CleanupStep::LoadPending);
    assert_eq!(
        advance_cleanup(durable, true, "job", CleanupEvent::Pending(Some("other".into()))),
        CleanupStep::Kept(SandboxError::Failed)
    );
    assert_eq!(
        advance_cleanup(durable, true, "job", CleanupEvent::Pending(Some("job".into()))),
        CleanupStep::Recover
    );
    assert!(matches!(
        conclude_with_shutdown(None, Ok(())),
        Err(SandboxError::Failed)
    ));
    assert!(matches!(
        conclude_with_shutdown(None, Err(SandboxError::Unavailable)),
        Err(SandboxError::Unavailable)
    ));
}

#[test]
fn outputs_share_one_bound() {
    let collector = Collector::new(4);
    let collector = collector.take(Stream::Stdout, b"ab").ok().unwrap();
    let collector = collector.take(Stream::Stderr, b"cd").ok().unwrap();
    let done = collector.finish(true, Some(0));
    assert_eq!(done.stdout, b"ab".to_vec());
    assert_eq!(done.stderr, b"cd".to_vec());
    let full = Collector::new(4).take(Stream::Stdout, b"abcd").ok().unwrap();
    assert!(matches!(full.take(Stream::Stderr, b"e"), Err(SandboxError::Failed)));
}

#[test]
fn runtimes_are_admitted_only_from_protected_paths() {
    let chain = vec![facts(0, 0o755, false), facts(0, 0o755, true)];
    assert!(chain_protected(&chain));
    assert_eq!(
        admit_runtime(true, "/usr/bin/podman", &chain, Some("/home/w"), Some("/run/user/1")),
        Ok(())
    );
    assert!(admit_runtime(false, "/usr/bin/podman", &chain, Some("/h"), Some("/r")).is_err());
    assert!(admit_runtime(true, "podman", &chain, Some("/h"), Some("/r")).is_err());
    assert!(admit_runtime(true, "/usr/bin/podman", &chain, None, Some("/r")).is_err());
    assert!(admit_runtime(true, "/usr/bin/podman", &chain, Some("/h"), None).is_err());
    let shared = vec![facts(0, 0o777, false), facts(0, 0o755, true)];
    assert!(admit_runtime(true, "/usr/bin/podman", &shared, Some("/h"), Some("/r")).is_err());
    assert_eq!(verify_binary(&facts(0, 0o755, false), b"podman", &digest(b"podman")), Ok(()));
    assert!(verify_binary(&facts(0, 0o755, false), b"other", &digest(b"podman")).is_err());
    let plan = runtime_plan("/usr/bin/podman", "/h", "/r", &vec!["info".to_owned()]);
    assert_eq!(plan.arguments, vec!["--remote=false", "info"]);
    assert_eq!(plan.environment.len(), 4);
    assert_eq!(local_job_name(1, 2, 3), "u9-1-2-3");
}

#[test]
fn default_mounts_are_refused() {
    assert_eq!(check_mounts("# comment\n\n   # more\n"), Ok(()));
    assert!(check_mounts("/host:/container\n").is_err());
    assert!(check_mounts_file(&facts(0, 0o644, false)).is_ok());
    let mut large = facts(0, 0o644, false);
    large.len = CONTROL_LIMIT as u64 + 1;
    assert!(check_mounts_file(&large).is_err());
    let mut linked = facts(0, 0o644, false);
    linked.is_file = false;
    linked.is_symlink = true;
    assert!(check_mounts_file(&linked).is_err());
}

fn storage() -> StorageFacts {
    StorageFacts {
        graph_root: "/g".into(),
        run_root: "/r".into(),
        home: "/h".into(),
        runtime_directory: "/x".into(),
        root: facts(1000, 0o700, true),
        directories: true,
        graph_driver_name: "overlay".into(),
    }
}

#[test]
fn storage_identities_cover_every_path() {
    let expected = digest(b"[[\"/g\",\"/r\",\"/h\",\"/x\"],1,2,1000,\"overlay\"]");
    assert_eq!(storage().identity(), Ok(expected.clone()));
    let mut other = storage();
    other.graph_root = "/other".into();
    assert_ne!(other.identity(), Ok(expected));
    let mut missing = storage();
    missing.directories = false;
    assert!(missing.identity().is_err());
    let good = || RuntimeStorage {
        graph_root: "/g".into(),
        run_root: "/r".into(),
        graph_driver_name: "overlay".into(),
        transient_store: false,
    };
    assert_eq!(good().check(), Ok(()));
    assert!(RuntimeStorage { transient_store: true, ..good() }.check().is_err());
    assert!(RuntimeStorage { graph_root: "g".into(), ..good() }.check().is_err());
}

fn location() -> LeaseLocation {
    LeaseLocation {
        parent: Some("/tmp".into()),
        file_name: Some("ai-sre-u9-snapshot-1".into()),
        temporary: "/tmp".into(),
    }
}

#[test]
fn leases_remove_only_the_leased_inode() {
    let directory = facts(1000, 0o700, true);
    let lease =
        SnapshotLease::capture(&directory, "/tmp/ai-sre-u9-snapshot-1".into(), &location())
            .ok()
            .unwrap();
    assert_eq!(
        lease.json_text(),
        "{\"root\":\"/tmp/ai-sre-u9-snapshot-1\",\"device\":1,\"inode\":2,\"uid\":1000}"
    );
    assert_eq!(lease.removal(&location(), Found::Absent), Ok(Removal::SyncParent));
    assert_eq!(lease.removal(&location(), Found::Present(directory)), Ok(Removal::Remove));
    let mut replaced = directory;
    replaced.ino = 3;
    assert!(lease.removal(&location(), Found::Present(replaced)).is_err());
    assert!(lease.removal(&location(), Found::Unreadable).is_err());
    let mut elsewhere = location();
    elsewhere.parent = Some("/srv".into());
    assert!(lease.removal(&elsewhere, Found::Absent).is_err());
    let shared = facts(1000, 0o755, true);
    assert!(SnapshotLease::capture(&shared, "/tmp/x".into(), &location()).is_err());
}

#[test]
fn durable_state_is_private_and_bound() {
    let ancestors = vec![facts(1000, 0o700, true), facts(0, 0o755, true)];
    assert_eq!(
        admit_state_directory("/var/lib/w", &facts(1000, 0o700, true), &ancestors),
        Ok(())
    );
    assert!(admit_state_directory("lib/w", &facts(1000, 0o700, true), &ancestors).is_err());
    assert!(admit_state_directory("/w", &facts(1000, 0o750, true), &ancestors).is_err());
    assert_eq!(admit_database(&facts(1000, 0o600, false), 1000), Ok(()));
    let mut linked = facts(1000, 0o600, false);
    linked.nlink = 2;
    assert!(admit_database(&linked, 1000).is_err());
    assert!(admit_database(&facts(1001, 0o600, false), 1000).is_err());
    assert_eq!(admit_request(4095), Ok(()));
    assert!(admit_request(4096).is_err());
    assert_eq!(changed_one(1), Ok(()));
    assert!(changed_one(0).is_err());
    assert_eq!(bind_runtime(None, "original-store", false), Ok(Binding::Record));
    assert_eq!(bind_runtime(Some("original-store"), "original-store", true), Ok(Binding::Keep));
    assert!(bind_runtime(Some("original-store"), "different-store", false).is_err());
    assert!(bind_runtime(None, "original-store", true).is_err());
    let (first, name) = next_job("n", 0).unwrap();
    let (_, other) = next_job("n", first).unwrap();
    assert_ne!(name, other);
    assert!(next_job("n", i64::MAX).is_err());
    assert_eq!(
        nonce(b"abc"),
        "ba7816bf8f01cfea414140de5dae2223b00361a396177a9cb410ff61f20015ad"
    );
}

#[test]
fn invocations_are_admitted_by_command_and_protected_configuration() {
    assert_eq!(admit_command(Some("ai-sre-validator-v1")), Ok(()));
    for command in [None, Some(""), Some("sh"), Some("ai-sre-validator-v1 x")] {
        assert_eq!(admit_command(command), Err(EntryError::UnsupportedCommand));
    }
    let chain = vec![facts(0, 0o644, false), facts(0, 0o755, true)];
    assert_eq!(admit_config("/etc/w.json", &chain), Ok(()));
    assert_eq!(admit_config("w.json", &chain), Err(EntryError::InvalidPath));
    let mut linked = chain.clone();
    linked[0].is_symlink = true;
    let mut shared = chain.clone();
    shared[1].mode = 0o775;
    let mut foreign = chain;
    foreign[0].uid = 1;
    for chain in [linked, shared, foreign] {
        assert_eq!(admit_config("/etc/w.json", &chain), Err(EntryError::NotProtected));
    }
    assert_eq!(admit_config_size(16384), Ok(()));
    assert_eq!(admit_config_size(16385), Err(EntryError::ExceedsLimit));
}
