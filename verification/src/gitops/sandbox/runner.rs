//! Runs bounded local rootless validation and retains cancelled jobs until explicit cleanup.
//!
//! The application must own one validator and run cleanup during shutdown.
//! Runtime helpers, the host, and the pinned validator image are deployment-trusted.
//! Abandoning a run is no cleanup guarantee: the container deadline bounds a surviving
//! workload, but crash recovery must remove stale jobs. No caller-provided success flag can
//! construct a validation receipt.

/// One exchange with a remote worker.
pub mod dispatch;
/// Admission of one forced-command invocation.
pub mod entry;
/// Reconciliation of interrupted launches.
pub mod recovery;
/// Validation over SSH.
pub mod remote;
/// One attempt and its cleanup.
pub mod run;
/// One request served by a worker.
pub mod worker;

use super::{PreparedSandbox, SandboxError, SandboxLimits};
use crate::digest;
use crate::files;
use crate::files::FileFacts;
use crate::json;
use crate::text;
use crate::text::number;
use crate::text::split;
use crate::text::trim;
use vstd::prelude::*;

verus! {

/// Largest output of a runtime control command, in bytes.
pub const CONTROL_LIMIT: usize = 65536;

/// Largest runtime binary, in bytes.
pub const MAX_BINARY_BYTES: u64 = 134217728;

/// Evidence of one successful bounded validator run, not permission to publish or deploy.
pub struct ValidationReceipt {
    artifact_digest: String,
    snapshot_digest: String,
    validator_image: String,
    runtime_digest: String,
    policy_digest: String,
    output_digest: String,
    output_bytes: usize,
    completed_at: u64,
}

/// The data of a validation receipt.
pub struct ReceiptView {
    /// Identity of the candidate.
    pub artifact_digest: Seq<char>,
    /// Identity of the snapshot.
    pub snapshot_digest: Seq<char>,
    /// Validator image.
    pub validator_image: Seq<char>,
    /// Identity of the runtime binary.
    pub runtime_digest: Seq<char>,
    /// Identity of the ceilings.
    pub policy_digest: Seq<char>,
    /// Identity of the output.
    pub output_digest: Seq<char>,
    /// Bytes of output.
    pub output_bytes: nat,
    /// Unix second of completion.
    pub completed_at: nat,
}

/// A receipt as JSON, members in alphabetical order.
pub open spec fn receipt_json(r: ReceiptView) -> Seq<char> {
    json::object_text(
        seq![
            json::member("artifact_digest"@, json::json_string(r.artifact_digest)),
            json::member("completed_at"@, number::decimal(r.completed_at)),
            json::member("output_bytes"@, number::decimal(r.output_bytes)),
            json::member("output_digest"@, json::json_string(r.output_digest)),
            json::member("policy_digest"@, json::json_string(r.policy_digest)),
            json::member("runtime_digest"@, json::json_string(r.runtime_digest)),
            json::member("schema"@, json::json_string("ai-sre/sandbox-validation/v1"@)),
            json::member("snapshot_digest"@, json::json_string(r.snapshot_digest)),
            json::member("validator_image"@, json::json_string(r.validator_image)),
        ],
    )
}

impl ValidationReceipt {
    /// The data of the receipt.
    pub closed spec fn data(self) -> ReceiptView {
        ReceiptView {
            artifact_digest: self.artifact_digest@,
            snapshot_digest: self.snapshot_digest@,
            validator_image: self.validator_image@,
            runtime_digest: self.runtime_digest@,
            policy_digest: self.policy_digest@,
            output_digest: self.output_digest@,
            output_bytes: self.output_bytes as nat,
            completed_at: self.completed_at as nat,
        }
    }

    /// Whether the receipt is of an enrolled image, runtime and ceilings.
    pub open spec fn enrolled(
        self,
        image: Seq<char>,
        runtime_digest: Seq<char>,
        limits: SandboxLimits,
    ) -> bool {
        &&& self.data().validator_image == image
        &&& self.data().runtime_digest == runtime_digest
        &&& self.data().policy_digest == limits.identity()
    }

    /// Candidate identity checked before execution.
    pub fn artifact_digest(&self) -> (r: &str)
        ensures
            r@ == self.data().artifact_digest,
    {
        self.artifact_digest.as_str()
    }

    /// Identity of the exact captured source and repair.
    pub fn snapshot_digest(&self) -> (r: &str)
        ensures
            r@ == self.data().snapshot_digest,
    {
        self.snapshot_digest.as_str()
    }

    /// Completion time from the application host's wall clock.
    pub fn completed_at(&self) -> (r: u64)
        ensures
            r as nat == self.data().completed_at,
    {
        self.completed_at
    }

    /// Decides [`ValidationReceipt::enrolled`].
    pub fn matches_enrollment(
        &self,
        image: &str,
        runtime_digest: &str,
        limits: &SandboxLimits,
    ) -> (r: bool)
        ensures
            r == self.enrolled(image@, runtime_digest@, *limits),
    {
        let policy = limits.digest();
        text::text_eq(self.validator_image.as_str(), image) && text::text_eq(
            self.runtime_digest.as_str(),
            runtime_digest,
        ) && text::text_eq(self.policy_digest.as_str(), policy.as_str())
    }

    /// Writes the receipt as JSON.
    pub fn json(&self) -> (r: String)
        ensures
            r@ == receipt_json(self.data()),
    {
        let m = vec![
            json::text_member("artifact_digest", self.artifact_digest.as_str()),
            json::number_member("completed_at", self.completed_at),
            json::number_member("output_bytes", self.output_bytes as u64),
            json::text_member("output_digest", self.output_digest.as_str()),
            json::text_member("policy_digest", self.policy_digest.as_str()),
            json::text_member("runtime_digest", self.runtime_digest.as_str()),
            json::text_member("schema", "ai-sre/sandbox-validation/v1"),
            json::text_member("snapshot_digest", self.snapshot_digest.as_str()),
            json::text_member("validator_image", self.validator_image.as_str()),
        ];
        let out = json::object(&m);
        assert(text::texts(m@) =~= seq![
            m@[0]@,
            m@[1]@,
            m@[2]@,
            m@[3]@,
            m@[4]@,
            m@[5]@,
            m@[6]@,
            m@[7]@,
            m@[8]@,
        ]);
        out
    }

    /// A receipt that an authenticated worker sent and that was found bound to its job.
    pub(crate) fn imported(
        artifact_digest: String,
        snapshot_digest: String,
        validator_image: String,
        runtime_digest: String,
        policy_digest: String,
        output_digest: String,
        output_bytes: usize,
        completed_at: u64,
    ) -> (r: Self)
        ensures
            r.data() == (ReceiptView {
                artifact_digest: artifact_digest@,
                snapshot_digest: snapshot_digest@,
                validator_image: validator_image@,
                runtime_digest: runtime_digest@,
                policy_digest: policy_digest@,
                output_digest: output_digest@,
                output_bytes: output_bytes as nat,
                completed_at: completed_at as nat,
            }),
    {
        ValidationReceipt {
            artifact_digest,
            snapshot_digest,
            validator_image,
            runtime_digest,
            policy_digest,
            output_digest,
            output_bytes,
            completed_at,
        }
    }
}

/// Isolation that the runtime reports.
pub struct Security {
    /// Whether the runtime is rootless.
    pub rootless: bool,
    /// Whether seccomp is enabled.
    pub seccomp_enabled: bool,
}

/// Host facts that the runtime reports.
pub struct Host {
    /// Operating system.
    pub os: String,
    /// Control group version.
    pub cgroup_version: String,
    /// Delegated control group controllers.
    pub cgroup_controllers: Vec<String>,
    /// Whether a remote service would run the workload.
    pub service_is_remote: bool,
    /// Reported isolation.
    pub security: Security,
}

impl Host {
    /// A local rootless Linux runtime with seccomp and the needed controllers.
    pub open spec fn enforces(self) -> bool {
        &&& self.os@ == "linux"@
        &&& self.cgroup_version@ == "v2"@
        &&& !self.service_is_remote
        &&& self.security.rootless
        &&& self.security.seccomp_enabled
        &&& text::texts(self.cgroup_controllers@).contains("cpu"@)
        &&& text::texts(self.cgroup_controllers@).contains("memory"@)
        &&& text::texts(self.cgroup_controllers@).contains("pids"@)
    }
}

/// Decides whether reported host facts are a local rootless runtime that enforces every
/// limit; facts that could not be read are not.
pub fn valid_host(host: Option<&Host>) -> (r: bool)
    ensures
        r == (match host {
            Some(host) => host.enforces(),
            None => false,
        }),
{
    match host {
        Some(host) => text::text_eq(host.os.as_str(), "linux") && text::text_eq(
            host.cgroup_version.as_str(),
            "v2",
        ) && !host.service_is_remote && host.security.rootless && host.security.seccomp_enabled
            && text::listed(&host.cgroup_controllers, "cpu") && text::listed(
            &host.cgroup_controllers,
            "memory",
        ) && text::listed(&host.cgroup_controllers, "pids"),
        None => false,
    }
}

/// Final state that the runtime reports of a container.
pub struct ExitState {
    /// Status word.
    pub status: String,
    /// Whether it still runs.
    pub running: bool,
    /// Whether it is paused.
    pub paused: bool,
    /// Whether it restarts.
    pub restarting: bool,
    /// Whether the kernel killed it for its memory.
    pub oom_killed: bool,
    /// Whether it is dead.
    pub dead: bool,
    /// Exit code.
    pub exit_code: i64,
    /// Error text.
    pub error: String,
}

impl ExitState {
    /// A container that ended by itself with success.
    pub open spec fn clean(self) -> bool {
        &&& self.status@ == "exited"@
        &&& !self.running
        &&& !self.paused
        &&& !self.restarting
        &&& !self.oom_killed
        &&& !self.dead
        &&& self.exit_code == 0
        &&& self.error@.len() == 0
    }
}

/// Decides whether a reported final state is a clean exit; a state that could not be read
/// is not.
pub fn valid_exit(state: Option<&ExitState>) -> (r: bool)
    ensures
        r == (match state {
            Some(state) => state.clean(),
            None => false,
        }),
{
    match state {
        Some(state) => text::text_eq(state.status.as_str(), "exited") && !state.running
            && !state.paused && !state.restarting && !state.oom_killed && !state.dead
            && state.exit_code == 0 && state.error.as_str().is_empty(),
        None => false,
    }
}

/// The container that an inspection attributes to a job: 64 hexadecimal digits, where name
/// and label are those of the job.
pub open spec fn owned_container(
    inspected: Seq<u8>,
    name: Seq<char>,
    token: Seq<char>,
) -> Option<Seq<char>> {
    match json::json_text_at(inspected, "/Id"@) {
        Some(id) => if id.len() == 64 && text::Alphabet::Hex.spells(id) && json::json_text_at(
            inspected,
            "/Name"@,
        ) == Some(name) && json::json_text_at(
            inspected,
            "/Config/Labels/io.bodhispace.ai-sre.job"@,
        ) == Some(token) {
            Some(id)
        } else {
            None
        },
        None => None,
    }
}

/// The identity of an inspected container, where found strings are those of the job.
pub fn owned_id(
    id: Option<String>,
    name: Option<String>,
    label: Option<String>,
    job_name: &str,
    job_token: &str,
) -> (r: Option<String>)
    ensures
        match r {
            Some(owned) => id matches Some(found) && owned@ == found@ && found@.len() == 64
                && text::Alphabet::Hex.spells(found@) && (name matches Some(n) && n@ == job_name@)
                && (label matches Some(l) && l@ == job_token@),
            None => !(id matches Some(found) && found@.len() == 64 && text::Alphabet::Hex.spells(
                found@,
            ) && (name matches Some(n) && n@ == job_name@) && (label matches Some(l) && l@
                == job_token@)),
        },
{
    match (id, name, label) {
        (Some(id), Some(name), Some(label)) => {
            if text::chars_of(id.as_str()).len() == 64 && text::Alphabet::Hex.spelled(id.as_str())
                && text::text_eq(name.as_str(), job_name) && text::text_eq(
                label.as_str(),
                job_token,
            ) {
                Some(id)
            } else {
                None
            }
        },
        _ => None,
    }
}

/// Finds the container that an inspection attributes to a job.
pub fn owned_container_id(inspected: &[u8], name: &str, token: &str) -> (r: Option<String>)
    ensures
        match r {
            Some(id) => owned_container(inspected@, name@, token@) == Some(id@),
            None => owned_container(inspected@, name@, token@) is None,
        },
{
    owned_id(
        json::find_text(inspected, "/Id"),
        json::find_text(inspected, "/Name"),
        json::find_text(inspected, "/Config/Labels/io.bodhispace.ai-sre.job"),
        name,
        token,
    )
}

/// What a finished child process printed and how it ended.
pub struct Output {
    /// Bytes on standard output.
    pub stdout: Vec<u8>,
    /// Bytes on standard error.
    pub stderr: Vec<u8>,
    /// Whether it exited successfully.
    pub success: bool,
    /// Exit code, where it has one.
    pub code: Option<i32>,
}

/// Which stream a chunk was read from.
#[derive(Debug, Clone, Copy, PartialEq, Eq, Structural)]
pub enum Stream {
    /// Standard output.
    Stdout,
    /// Standard error.
    Stderr,
}

/// Output of a running child, bounded over both streams together.
pub struct Collector {
    stdout: Vec<u8>,
    stderr: Vec<u8>,
    limit: usize,
}

impl Collector {
    /// Bytes read from standard output.
    pub closed spec fn out(self) -> Seq<u8> {
        self.stdout@
    }

    /// Bytes read from standard error.
    pub closed spec fn err(self) -> Seq<u8> {
        self.stderr@
    }

    /// Largest number of bytes over both streams.
    pub closed spec fn bound(self) -> usize {
        self.limit
    }

    /// What was collected never exceeds the bound.
    #[verifier::type_invariant]
    spec fn bounded(self) -> bool {
        self.stdout@.len() + self.stderr@.len() <= self.limit
    }

    /// Starts with nothing collected.
    pub fn new(limit: usize) -> (r: Self)
        ensures
            r.out() == Seq::<u8>::empty(),
            r.err() == Seq::<u8>::empty(),
            r.bound() == limit,
    {
        Collector { stdout: Vec::new(), stderr: Vec::new(), limit }
    }

    /// Takes one chunk, or fails where both streams together would exceed the bound.
    pub fn take(self, stream: Stream, chunk: &[u8]) -> (r: Result<Self, SandboxError>)
        ensures
            match r {
                Ok(next) => self.out().len() + self.err().len() + chunk@.len() <= self.bound()
                    && next.bound() == self.bound() && (match stream {
                    Stream::Stdout => next.out() == self.out() + chunk@ && next.err()
                        == self.err(),
                    Stream::Stderr => next.out() == self.out() && next.err() == self.err()
                        + chunk@,
                }),
                Err(error) => self.out().len() + self.err().len() + chunk@.len() > self.bound()
                    && error == SandboxError::Failed,
            },
    {
        proof {
            use_type_invariant(&self);
        }
        let used: usize = self.stdout.len() + self.stderr.len();
        if chunk.len() > self.limit - used {
            return Err(SandboxError::Failed);
        }
        let limit = self.limit;
        let mut stdout = self.stdout;
        let mut stderr = self.stderr;
        match stream {
            Stream::Stdout => {
                let ghost before = stdout@;
                stdout.extend_from_slice(chunk);
                assert(stdout@ =~= before + chunk@);
            },
            Stream::Stderr => {
                let ghost before = stderr@;
                stderr.extend_from_slice(chunk);
                assert(stderr@ =~= before + chunk@);
            },
        }
        Ok(Collector { stdout, stderr, limit })
    }

    /// Ends the collection with the status of the child.
    pub fn finish(self, success: bool, code: Option<i32>) -> (r: Output)
        ensures
            r.stdout@ == self.out(),
            r.stderr@ == self.err(),
            r.stdout@.len() + r.stderr@.len() <= self.bound(),
            r.success == success,
            r.code == code,
    {
        proof {
            use_type_invariant(&self);
        }
        Output { stdout: self.stdout, stderr: self.stderr, success, code }
    }
}

/// Identity of what a workload printed.
pub open spec fn output_identity(stdout: Seq<u8>, stderr: Seq<u8>) -> Seq<char> {
    digest::text_digest(digest::digest_of(stdout) + ":"@ + digest::digest_of(stderr))
}

/// The receipt that a finished workload earns.
pub open spec fn earned_receipt(
    prepared: PreparedSandbox,
    runtime_digest: Seq<char>,
    output: Output,
    completed_at: nat,
) -> ReceiptView {
    ReceiptView {
        artifact_digest: prepared.candidate_identity(),
        snapshot_digest: prepared.snapshot_of().captured_view().digest,
        validator_image: prepared.image_of(),
        runtime_digest,
        policy_digest: prepared.limits_of().identity(),
        output_digest: output_identity(output.stdout@, output.stderr@),
        output_bytes: output.stdout@.len() + output.stderr@.len(),
        completed_at,
    }
}

/// Turns a finished workload into a receipt: only a successful exit within the output bound,
/// a readable clean final state and a clock give one.
pub fn conclude(
    prepared: &PreparedSandbox,
    runtime_digest: &str,
    output: &Output,
    inspected: bool,
    state: Option<&ExitState>,
    completed_at: Option<u64>,
) -> (r: Result<ValidationReceipt, SandboxError>)
    ensures
        match r {
            Ok(receipt) => output.success && output.stdout@.len() + output.stderr@.len()
                <= prepared.limits_of().output_bytes && inspected && (state matches Some(s)
                && s.clean()) && (completed_at matches Some(at) && receipt.data()
                == earned_receipt(*prepared, runtime_digest@, *output, at as nat)),
            Err(error) => error == SandboxError::Failed && !(output.success
                && output.stdout@.len() + output.stderr@.len()
                <= prepared.limits_of().output_bytes && inspected && (state matches Some(s)
                && s.clean()) && completed_at is Some),
        },
{
    let limit: usize = prepared.limits().output_bytes;
    if !output.success || output.stdout.len() > limit || output.stderr.len() > limit
        - output.stdout.len() || !inspected || !valid_exit(state) {
        return Err(SandboxError::Failed);
    }
    let completed_at: u64 = match completed_at {
        Some(at) => at,
        None => return Err(SandboxError::Failed),
    };
    let limits = prepared.limits();
    let mut streams = digest::digest(output.stdout.as_slice());
    streams.append(":");
    let errors = digest::digest(output.stderr.as_slice());
    streams.append(errors.as_str());
    Ok(
        ValidationReceipt {
            artifact_digest: prepared.artifact_digest().to_owned(),
            snapshot_digest: prepared.snapshot_digest().to_owned(),
            validator_image: prepared.image().to_owned(),
            runtime_digest: runtime_digest.to_owned(),
            policy_digest: limits.digest(),
            output_digest: digest::digest(streams.as_str().as_bytes()),
            output_bytes: output.stdout.len() + output.stderr.len(),
            completed_at,
        },
    )
}

/// A line that asks for a host mount: neither blank nor a comment.
pub open spec fn mounts_something(line: Seq<char>) -> bool {
    !trim::is_blank(line) && !"#"@.is_prefix_of(trim::trim_start(line))
}

/// A mount configuration that mounts nothing.
pub open spec fn mounts_nothing(contents: Seq<char>) -> bool {
    let lines = split::lines(contents);
    text::utf8_len(contents) <= CONTROL_LIMIT && forall|i: int|
        0 <= i < lines.len() ==> !mounts_something(#[trigger] lines[i])
}

/// Accepts a mount configuration only where it mounts nothing: `mounts.conf` is independent
/// of `containers.conf` and may expose host secrets.
pub fn check_mounts(contents: &str) -> (r: Result<(), SandboxError>)
    ensures
        mounts_nothing(contents@) ==> r is Ok,
        !mounts_nothing(contents@) ==> r == Err::<(), SandboxError>(SandboxError::Unavailable),
{
    if text::byte_len(contents) > CONTROL_LIMIT {
        return Err(SandboxError::Unavailable);
    }
    let lines = split::split_lines(contents);
    let ghost views = split::lines(contents@);
    assert(text::texts(lines@).len() == lines@.len());
    let mut i: usize = 0;
    while i < lines.len()
        invariant
            i <= lines.len(),
            text::texts(lines@) == views,
            views == split::lines(contents@),
            views.len() == lines.len(),
            forall|j: int| 0 <= j < i ==> !mounts_something(#[trigger] views[j]),
        decreases lines.len() - i,
    {
        assert(views[i as int] == lines@[i as int]@);
        let body = trim::trimmed_start(lines[i].as_str());
        if !trim::blank(lines[i].as_str()) && !text::starts_with(body.as_str(), "#") {
            assert(mounts_something(views[i as int]));
            return Err(SandboxError::Unavailable);
        }
        i += 1;
    }
    Ok(())
}

/// A file that may hold a mount configuration.
pub fn check_mounts_file(facts: &FileFacts) -> (r: Result<(), SandboxError>)
    ensures
        facts.is_file && facts.len <= CONTROL_LIMIT ==> r is Ok,
        !(facts.is_file && facts.len <= CONTROL_LIMIT) ==> r == Err::<(), SandboxError>(
            SandboxError::Unavailable,
        ),
{
    if !facts.is_file || facts.len > CONTROL_LIMIT as u64 {
        return Err(SandboxError::Unavailable);
    }
    Ok(())
}

/// A runtime path whose every ancestor is root's and writable by root alone.
pub open spec fn protected_chain(ancestors: Seq<FileFacts>) -> bool {
    forall|i: int|
        0 <= i < ancestors.len() ==> (#[trigger] ancestors[i]).uid == 0 && ancestors[i].unshared()
}

/// Decides [`protected_chain`].
pub fn chain_protected(ancestors: &Vec<FileFacts>) -> (r: bool)
    ensures
        r == protected_chain(ancestors@),
{
    let mut i: usize = 0;
    while i < ancestors.len()
        invariant
            i <= ancestors.len(),
            forall|j: int|
                0 <= j < i ==> (#[trigger] ancestors@[j]).uid == 0 && ancestors@[j].unshared(),
        decreases ancestors.len() - i,
    {
        if ancestors[i].uid != 0 || !ancestors[i].is_unshared() {
            assert(!(ancestors@[i as int].uid == 0 && ancestors@[i as int].unshared()));
            return false;
        }
        i += 1;
    }
    true
}

/// Admits a runtime: Linux, an absolute canonical binary below root-controlled directories,
/// and absolute home and runtime directories.
pub fn admit_runtime(
    linux: bool,
    binary: &str,
    ancestors: &Vec<FileFacts>,
    home: Option<&str>,
    runtime_directory: Option<&str>,
) -> (r: Result<(), SandboxError>)
    ensures
        linux && files::is_absolute(binary@) && protected_chain(ancestors@) && (home matches Some(
            h,
        ) && files::is_absolute(h@)) && (runtime_directory matches Some(d) && files::is_absolute(
            d@,
        )) ==> r is Ok,
        !(linux && files::is_absolute(binary@) && protected_chain(ancestors@) && (
        home matches Some(h) && files::is_absolute(h@)) && (runtime_directory matches Some(d)
            && files::is_absolute(d@))) ==> r == Err::<(), SandboxError>(SandboxError::Unavailable),
{
    if !linux || !files::absolute(binary) || !chain_protected(ancestors) {
        return Err(SandboxError::Unavailable);
    }
    match (home, runtime_directory) {
        (Some(home), Some(runtime_directory)) => {
            if files::absolute(home) && files::absolute(runtime_directory) {
                Ok(())
            } else {
                Err(SandboxError::Unavailable)
            }
        },
        _ => Err(SandboxError::Unavailable),
    }
}

/// Accepts the bytes of the runtime binary only where they are the enrolled ones.
pub fn verify_binary(facts: &FileFacts, bytes: &[u8], expected_digest: &str) -> (r: Result<
    (),
    SandboxError,
>)
    ensures
        facts.is_file && facts.len <= MAX_BINARY_BYTES && bytes@.len() <= MAX_BINARY_BYTES
            && digest::digest_of(bytes@) == expected_digest@ ==> r is Ok,
        !(facts.is_file && facts.len <= MAX_BINARY_BYTES && bytes@.len() <= MAX_BINARY_BYTES
            && digest::digest_of(bytes@) == expected_digest@) ==> r == Err::<(), SandboxError>(
            SandboxError::Unavailable,
        ),
{
    if !facts.is_file || facts.len > MAX_BINARY_BYTES || bytes.len() as u64 > MAX_BINARY_BYTES {
        return Err(SandboxError::Unavailable);
    }
    let found = digest::digest(bytes);
    if text::text_eq(found.as_str(), expected_digest) {
        Ok(())
    } else {
        Err(SandboxError::Unavailable)
    }
}

/// Storage that the runtime reports.
pub struct RuntimeStorage {
    /// Persistent storage root.
    pub graph_root: String,
    /// Volatile storage root.
    pub run_root: String,
    /// Storage driver.
    pub graph_driver_name: String,
    /// Whether the store does not survive a restart.
    pub transient_store: bool,
}

impl RuntimeStorage {
    /// Persistent storage below absolute roots.
    pub open spec fn durable(self) -> bool {
        &&& !self.transient_store
        &&& self.graph_driver_name@.len() > 0
        &&& files::is_absolute(self.graph_root@)
        &&& files::is_absolute(self.run_root@)
    }

    /// Decides [`RuntimeStorage::durable`].
    pub fn check(&self) -> (r: Result<(), SandboxError>)
        ensures
            self.durable() ==> r is Ok,
            !self.durable() ==> r == Err::<(), SandboxError>(SandboxError::Unavailable),
    {
        if self.transient_store || self.graph_driver_name.as_str().is_empty() || !files::absolute(
            self.graph_root.as_str(),
        ) || !files::absolute(self.run_root.as_str()) {
            return Err(SandboxError::Unavailable);
        }
        Ok(())
    }
}

/// Canonical storage paths and the persistent root's device, inode and owner.
pub struct StorageFacts {
    /// Canonical persistent storage root.
    pub graph_root: String,
    /// Canonical volatile storage root.
    pub run_root: String,
    /// Canonical home directory.
    pub home: String,
    /// Canonical runtime directory.
    pub runtime_directory: String,
    /// What the persistent root is.
    pub root: FileFacts,
    /// Whether each of the four paths is a directory.
    pub directories: bool,
    /// Storage driver.
    pub graph_driver_name: String,
}

impl StorageFacts {
    /// The facts as a JSON array. The volatile root can be recreated on reboot; only the
    /// persistent root binds device and inode.
    pub open spec fn json(self) -> Seq<char> {
        json::array_text(
            seq![
                json::array_text(
                    seq![
                        json::json_string(self.graph_root@),
                        json::json_string(self.run_root@),
                        json::json_string(self.home@),
                        json::json_string(self.runtime_directory@),
                    ],
                ),
                number::decimal(self.root.dev as nat),
                number::decimal(self.root.ino as nat),
                number::decimal(self.root.uid as nat),
                json::json_string(self.graph_driver_name@),
            ],
        )
    }

    /// Identity of the storage that a worker's jobs are bound to.
    pub fn identity(&self) -> (r: Result<String, SandboxError>)
        ensures
            match r {
                Ok(identity) => self.directories && identity@ == digest::text_digest(self.json()),
                Err(error) => !self.directories && error == SandboxError::Unavailable,
            },
    {
        if !self.directories {
            return Err(SandboxError::Unavailable);
        }
        let paths = vec![
            json::quoted(self.graph_root.as_str()),
            json::quoted(self.run_root.as_str()),
            json::quoted(self.home.as_str()),
            json::quoted(self.runtime_directory.as_str()),
        ];
        let m = vec![
            json::array(&paths),
            number::decimal_text(self.root.dev),
            number::decimal_text(self.root.ino),
            number::decimal_text(self.root.uid as u64),
            json::quoted(self.graph_driver_name.as_str()),
        ];
        proof {
            assert(text::texts(paths@) =~= seq![paths@[0]@, paths@[1]@, paths@[2]@, paths@[3]@]);
            assert(text::texts(m@) =~= seq![m@[0]@, m@[1]@, m@[2]@, m@[3]@, m@[4]@]);
        }
        let wire = json::array(&m);
        Ok(digest::digest(wire.as_str().as_bytes()))
    }
}

/// The JSON of a validation receipt says every field of it.
pub proof fn validation_receipts_say_every_field(r: ReceiptView)
    ensures
        ({
            let text = receipt_json(r);
            &&& text[0] == '{' && text.last() == '}'
            &&& text::has_part(text, "\"artifact_digest\":"@ + json::json_string(r.artifact_digest))
            &&& text::has_part(text, "\"completed_at\":"@ + number::decimal(r.completed_at))
            &&& text::has_part(text, "\"output_bytes\":"@ + number::decimal(r.output_bytes))
            &&& text::has_part(text, "\"output_digest\":"@ + json::json_string(r.output_digest))
            &&& text::has_part(text, "\"policy_digest\":"@ + json::json_string(r.policy_digest))
            &&& text::has_part(text, "\"runtime_digest\":"@ + json::json_string(r.runtime_digest))
            &&& text::has_part(text, "\"schema\":"@ + json::json_string("ai-sre/sandbox-validation/v1"@))
            &&& text::has_part(text, "\"snapshot_digest\":"@ + json::json_string(r.snapshot_digest))
            &&& text::has_part(text, "\"validator_image\":"@ + json::json_string(r.validator_image))
        }),
{
    let items = seq![
        json::member("artifact_digest"@, json::json_string(r.artifact_digest)),
        json::member("completed_at"@, number::decimal(r.completed_at)),
        json::member("output_bytes"@, number::decimal(r.output_bytes)),
        json::member("output_digest"@, json::json_string(r.output_digest)),
        json::member("policy_digest"@, json::json_string(r.policy_digest)),
        json::member("runtime_digest"@, json::json_string(r.runtime_digest)),
        json::member("schema"@, json::json_string("ai-sre/sandbox-validation/v1"@)),
        json::member("snapshot_digest"@, json::json_string(r.snapshot_digest)),
        json::member("validator_image"@, json::json_string(r.validator_image)),
    ];
    json::objects_hold_their_members(items);
    assert(receipt_json(r) == json::object_text(items));
    reveal_strlit("\"");
    reveal_strlit("\":");
    reveal_strlit("artifact_digest");
    reveal_strlit("\"artifact_digest\":");
    assert(items[0] =~= "\"artifact_digest\":"@ + json::json_string(r.artifact_digest));
    reveal_strlit("completed_at");
    reveal_strlit("\"completed_at\":");
    assert(items[1] =~= "\"completed_at\":"@ + number::decimal(r.completed_at));
    reveal_strlit("output_bytes");
    reveal_strlit("\"output_bytes\":");
    assert(items[2] =~= "\"output_bytes\":"@ + number::decimal(r.output_bytes));
    reveal_strlit("output_digest");
    reveal_strlit("\"output_digest\":");
    assert(items[3] =~= "\"output_digest\":"@ + json::json_string(r.output_digest));
    reveal_strlit("policy_digest");
    reveal_strlit("\"policy_digest\":");
    assert(items[4] =~= "\"policy_digest\":"@ + json::json_string(r.policy_digest));
    reveal_strlit("runtime_digest");
    reveal_strlit("\"runtime_digest\":");
    assert(items[5] =~= "\"runtime_digest\":"@ + json::json_string(r.runtime_digest));
    reveal_strlit("schema");
    reveal_strlit("\"schema\":");
    assert(items[6] =~= "\"schema\":"@ + json::json_string("ai-sre/sandbox-validation/v1"@));
    reveal_strlit("snapshot_digest");
    reveal_strlit("\"snapshot_digest\":");
    assert(items[7] =~= "\"snapshot_digest\":"@ + json::json_string(r.snapshot_digest));
    reveal_strlit("validator_image");
    reveal_strlit("\"validator_image\":");
    assert(items[8] =~= "\"validator_image\":"@ + json::json_string(r.validator_image));
}

/// A host enforces isolation exactly where it is local rootless Linux with seccomp, and version 2
/// control groups that limit processors, memory and processes.
pub proof fn hosts_enforce_every_limit(host: Host)
    ensures
        ({
            let names = |name: Seq<char>| exists|i: int|
                0 <= i < host.cgroup_controllers@.len() && (#[trigger] host.cgroup_controllers@[i])@
                    == name;
            host.enforces() <==> host.os@ == "linux"@ && host.cgroup_version@ == "v2"@
                && !host.service_is_remote && host.security.rootless
                && host.security.seccomp_enabled && names("cpu"@) && names("memory"@) && names(
                "pids"@,
            )
        }),
{
    let list = host.cgroup_controllers@;
    lemma_listed(list, "cpu"@);
    lemma_listed(list, "memory"@);
    lemma_listed(list, "pids"@);
}

proof fn lemma_listed(list: Seq<String>, name: Seq<char>)
    ensures
        text::texts(list).contains(name) <==> exists|i: int|
            0 <= i < list.len() && (#[trigger] list[i])@ == name,
{
    let all = text::texts(list);
    if all.contains(name) {
        let i = choose|i: int| 0 <= i < all.len() && all[i] == name;
        assert(list[i]@ == name);
    }
    if exists|i: int| 0 <= i < list.len() && (#[trigger] list[i])@ == name {
        let i = choose|i: int| 0 <= i < list.len() && (#[trigger] list[i])@ == name;
        assert(all[i] == name);
    }
}

/// A workload ended cleanly exactly where it exited by itself with status zero, without an error
/// and without running out of memory.
pub proof fn clean_exits_are_plain_successes(state: ExitState)
    ensures
        state.clean() <==> state.status@ == "exited"@ && state.exit_code == 0 && state.error@.len()
            == 0 && !state.running && !state.paused && !state.restarting && !state.oom_killed
            && !state.dead,
{
}

/// An inspected container is owned exactly where it has the name and the label of the job, and a
/// full identifier, which is then its identity.
pub proof fn containers_are_owned_by_name_label_and_identifier(
    inspected: Seq<u8>,
    name: Seq<char>,
    token: Seq<char>,
    id: Seq<char>,
)
    ensures
        owned_container(inspected, name, token) == Some(id) <==> json::json_at(inspected, "/Id"@)
            == Some(json::ShapeView::Text(id)) && json::json_at(inspected, "/Name"@) == Some(
            json::ShapeView::Text(name),
        ) && json::json_at(inspected, "/Config/Labels/io.bodhispace.ai-sre.job"@) == Some(
            json::ShapeView::Text(token),
        ) && id.len() == 64 && forall|i: int|
            0 <= i < id.len() ==> ('0' <= #[trigger] id[i] <= '9') || ('a' <= id[i] <= 'f') || ('A'
                <= id[i] <= 'F'),
{
    assert(text::Alphabet::Hex.spells(id) == forall|i: int|
        0 <= i < id.len() ==> ('0' <= #[trigger] id[i] <= '9') || ('a' <= id[i] <= 'f') || ('A'
            <= id[i] <= 'F'));
}

/// A receipt names the candidate, the snapshot, the image, the runtime, the ceilings and the output
/// of the run that earned it.
pub proof fn receipts_name_the_run_that_earned_them(
    prepared: PreparedSandbox,
    runtime_digest: Seq<char>,
    output: Output,
    completed_at: nat,
)
    ensures
        ({
            let receipt = earned_receipt(prepared, runtime_digest, output, completed_at);
            &&& receipt.artifact_digest == prepared.candidate_identity()
            &&& receipt.snapshot_digest == prepared.snapshot_of().captured_view().digest
            &&& receipt.validator_image == prepared.image_of()
            &&& receipt.runtime_digest == runtime_digest
            &&& receipt.policy_digest == digest::text_digest(prepared.limits_of().json())
            &&& receipt.output_bytes == output.stdout@.len() + output.stderr@.len()
            &&& receipt.output_digest == digest::text_digest(
                digest::digest_of(output.stdout@) + ":"@ + digest::digest_of(output.stderr@),
            )
            &&& receipt.completed_at == completed_at
        }),
{
}

/// A receipt is enrolled exactly under the image, the runtime and the ceilings that it names.
pub proof fn receipts_are_enrolled_under_what_they_name(
    receipt: ValidationReceipt,
    image: Seq<char>,
    runtime_digest: Seq<char>,
    limits: SandboxLimits,
)
    ensures
        receipt.enrolled(image, runtime_digest, limits) <==> receipt.data().validator_image == image
            && receipt.data().runtime_digest == runtime_digest && receipt.data().policy_digest
            == digest::text_digest(limits.json()),
{
}

/// A mount configuration is accepted exactly within 64 KiB where every line is blank or a comment.
pub proof fn mount_configurations_must_be_empty(contents: Seq<char>)
    ensures
        mounts_nothing(contents) <==> vstd::utf8::encode_utf8(contents).len() <= 65536 && forall|
            i: int,
        |
            0 <= i < split::lines(contents).len() ==> trim::trim_start(
                #[trigger] split::lines(contents)[i],
            ).len() == 0 || trim::trim_start(split::lines(contents)[i])[0] == '#',
{
    let lines = split::lines(contents);
    assert forall|i: int| 0 <= i < lines.len() implies mounts_something(#[trigger] lines[i]) == !(
    trim::trim_start(lines[i]).len() == 0 || trim::trim_start(lines[i])[0] == '#') by {
        lemma_mounting_line(lines[i]);
    }
}

proof fn lemma_mounting_line(line: Seq<char>)
    ensures
        mounts_something(line) == !(trim::trim_start(line).len() == 0 || trim::trim_start(line)[0]
            == '#'),
{
    let body = trim::trim_start(line);
    reveal_strlit("#");
    lemma_blank_line(line);
    if body.len() > 0 {
        if body[0] == '#' {
            assert("#"@ =~= body.subrange(0, 1));
        } else if "#"@.is_prefix_of(body) {
            assert(body.subrange(0, 1)[0] == body[0]);
        }
    }
}

proof fn lemma_blank_line(s: Seq<char>)
    ensures
        trim::is_blank(s) <==> trim::trim_start(s).len() == 0,
    decreases s.len(),
{
    if s.len() > 0 && trim::is_space(s[0]) {
        let rest = s.drop_first();
        lemma_blank_line(rest);
        if trim::is_blank(rest) {
            assert forall|i: int| 0 <= i < s.len() implies trim::is_space(#[trigger] s[i]) by {
                if i > 0 {
                    assert(rest[i - 1] == s[i]);
                }
            }
        }
        if trim::is_blank(s) {
            assert forall|i: int| 0 <= i < rest.len() implies trim::is_space(#[trigger] rest[i]) by {
                assert(rest[i] == s[i + 1]);
            }
        }
    }
}

/// A chain is protected where every part of it is root's and nobody else may write to it.
pub proof fn protected_chains_are_written_by_root_alone(ancestors: Seq<FileFacts>)
    ensures
        protected_chain(ancestors) <==> forall|i: int|
            0 <= i < ancestors.len() ==> (#[trigger] ancestors[i]).uid == 0 && ancestors[i].mode
                & 0o022 == 0,
{
}

/// Storage is durable where it is not transient, has a driver, and both roots are absolute.
pub proof fn durable_storage_is_rooted_and_kept(storage: RuntimeStorage)
    ensures
        storage.durable() <==> !storage.transient_store && storage.graph_driver_name@.len() >= 1
            && storage.graph_root@.len() >= 1 && storage.graph_root@[0] == '/'
            && storage.run_root@.len() >= 1 && storage.run_root@[0] == '/',
{
}

/// What identifies a storage holds every path, the device, inode and owner of its root, and its
/// driver.
pub proof fn storage_identities_hold_every_part(storage: StorageFacts)
    ensures
        text::has_part(storage.json(), json::json_string(storage.graph_root@)),
        text::has_part(storage.json(), json::json_string(storage.run_root@)),
        text::has_part(storage.json(), json::json_string(storage.home@)),
        text::has_part(storage.json(), json::json_string(storage.runtime_directory@)),
        text::has_part(storage.json(), number::decimal(storage.root.dev as nat)),
        text::has_part(storage.json(), number::decimal(storage.root.ino as nat)),
        text::has_part(storage.json(), number::decimal(storage.root.uid as nat)),
        text::has_part(storage.json(), json::json_string(storage.graph_driver_name@)),
{
    let paths = seq![
        json::json_string(storage.graph_root@),
        json::json_string(storage.run_root@),
        json::json_string(storage.home@),
        json::json_string(storage.runtime_directory@),
    ];
    let all = seq![
        json::array_text(paths),
        number::decimal(storage.root.dev as nat),
        number::decimal(storage.root.ino as nat),
        number::decimal(storage.root.uid as nat),
        json::json_string(storage.graph_driver_name@),
    ];
    json::arrays_hold_their_items(paths);
    json::arrays_hold_their_items(all);
    assert(storage.json() == json::array_text(all));
    assert(text::has_part(storage.json(), all[0]));
    assert(text::has_part(json::array_text(paths), paths[0]));
    assert(text::has_part(json::array_text(paths), paths[1]));
    assert(text::has_part(json::array_text(paths), paths[2]));
    assert(text::has_part(json::array_text(paths), paths[3]));
    text::lemma_part_of_part(storage.json(), all[0], paths[0]);
    text::lemma_part_of_part(storage.json(), all[0], paths[1]);
    text::lemma_part_of_part(storage.json(), all[0], paths[2]);
    text::lemma_part_of_part(storage.json(), all[0], paths[3]);
    assert(text::has_part(storage.json(), all[1]));
    assert(text::has_part(storage.json(), all[2]));
    assert(text::has_part(storage.json(), all[3]));
    assert(text::has_part(storage.json(), all[4]));
}

/// How much is read of a control answer and of the runtime binary.
pub proof fn runtime_reads_are_bounded()
    ensures
        CONTROL_LIMIT == 64 * 1024,
        MAX_BINARY_BYTES == 128 * 1024 * 1024,
{
}

} // verus!
