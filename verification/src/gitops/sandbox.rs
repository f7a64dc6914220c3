//! Fixed rootless container policy for offline repository validation, never model-authored commands.

/// What every container invocation has and lacks.
pub mod isolation;
/// Durable launch intent of one worker.
pub mod jobs;
/// Bounded local validation.
pub mod runner;

pub use runner::remote::{RemoteJob, SshValidator, SshWorkerConfig, WorkerConfig};
pub use runner::ValidationReceipt;

use super::artifact::ManualRepairCandidate;
use super::snapshot::{RepositorySnapshot, SnapshotView};
use crate::digest;
use crate::json;
use crate::text;
use crate::text::number;
use crate::text::split;
use vstd::prelude::*;

verus! {

/// Hard ceilings for the untrusted `make ci` workload.
#[derive(Debug, Clone, Copy, PartialEq, Eq, Structural)]
pub struct SandboxLimits {
    /// Container deadline in seconds, from 1 through 600.
    pub timeout_seconds: u64,
    /// Memory ceiling in MiB, from 128 through 2048.
    pub memory_mib: u32,
    /// Maximum processes, from 16 through 512.
    pub pids: u32,
    /// CPU ceiling, from 1 through 4.
    pub cpus: u32,
    /// Total scratch ceiling in MiB (64 through 1024), including 16 MiB each for tmp and shm.
    pub scratch_mib: u32,
    /// Combined stdout/stderr bound in bytes, from 1024 through 1048576.
    pub output_bytes: usize,
}

impl Default for SandboxLimits {
    fn default() -> (r: Self)
        ensures
            r == (SandboxLimits {
                timeout_seconds: 120,
                memory_mib: 512,
                pids: 128,
                cpus: 1,
                scratch_mib: 256,
                output_bytes: 65536,
            }),
            r.in_range(),
    {
        SandboxLimits {
            timeout_seconds: 120,
            memory_mib: 512,
            pids: 128,
            cpus: 1,
            scratch_mib: 256,
            output_bytes: 65536,
        }
    }
}

impl SandboxLimits {
    /// Ceilings within their documented ranges.
    pub open spec fn in_range(self) -> bool {
        &&& 1 <= self.timeout_seconds <= 600
        &&& 128 <= self.memory_mib <= 2048
        &&& 16 <= self.pids <= 512
        &&& 1 <= self.cpus <= 4
        &&& 64 <= self.scratch_mib <= 1024
        &&& 1024 <= self.output_bytes <= 1048576
    }

    /// The members of the ceilings' JSON, in declaration order.
    pub open spec fn members(self) -> Seq<Seq<char>> {
        seq![
            json::member("timeout_seconds"@, number::decimal(self.timeout_seconds as nat)),
            json::member("memory_mib"@, number::decimal(self.memory_mib as nat)),
            json::member("pids"@, number::decimal(self.pids as nat)),
            json::member("cpus"@, number::decimal(self.cpus as nat)),
            json::member("scratch_mib"@, number::decimal(self.scratch_mib as nat)),
            json::member("output_bytes"@, number::decimal(self.output_bytes as nat)),
        ]
    }

    /// The ceilings as JSON.
    pub open spec fn json(self) -> Seq<char> {
        json::object_text(self.members())
    }

    /// The values of the ceilings' JSON, in declaration order.
    spec fn values(self) -> Seq<Seq<char>> {
        seq![
            number::decimal(self.timeout_seconds as nat),
            number::decimal(self.memory_mib as nat),
            number::decimal(self.pids as nat),
            number::decimal(self.cpus as nat),
            number::decimal(self.scratch_mib as nat),
            number::decimal(self.output_bytes as nat),
        ]
    }

    /// The values are numbers.
    proof fn lemma_values(self)
        ensures
            forall|i: int|
                0 <= i < self.values().len() ==> json::is_scalar(#[trigger] self.values()[i]),
    {
        json::lemma_number_token(self.timeout_seconds as int);
        json::lemma_number_token(self.memory_mib as int);
        json::lemma_number_token(self.pids as int);
        json::lemma_number_token(self.cpus as int);
        json::lemma_number_token(self.scratch_mib as int);
        json::lemma_number_token(self.output_bytes as int);
    }

    /// Content identity of the ceilings.
    pub open spec fn identity(self) -> Seq<char> {
        digest::text_digest(self.json())
    }

    /// Writes the ceilings as JSON.
    pub fn json_text(&self) -> (r: String)
        ensures
            r@ == self.json(),
    {
        let m = vec![
            json::number_member("timeout_seconds", self.timeout_seconds),
            json::number_member("memory_mib", self.memory_mib as u64),
            json::number_member("pids", self.pids as u64),
            json::number_member("cpus", self.cpus as u64),
            json::number_member("scratch_mib", self.scratch_mib as u64),
            json::number_member("output_bytes", self.output_bytes as u64),
        ];
        let out = json::object(&m);
        assert(text::texts(m@) =~= seq![m@[0]@, m@[1]@, m@[2]@, m@[3]@, m@[4]@, m@[5]@]);
        out
    }

    /// Content identity of the ceilings.
    pub fn digest(&self) -> (r: String)
        ensures
            r@ == self.identity(),
            digest::is_digest(r@),
    {
        let wire = self.json_text();
        digest::digest(wire.as_str().as_bytes())
    }
}

/// Failure to establish validation never yields an approval or a publish-ready artifact.
#[derive(Debug, Clone, Copy, PartialEq, Eq, Structural)]
pub enum SandboxError {
    /// This candidate already has a durable attempt; explicit recovery is required before revalidation.
    AttemptExists,
    /// Invalid image, path, name, or resource ceiling.
    InvalidConfiguration,
    /// A pinned local Linux rootless runtime could not be established.
    Unavailable,
    /// Validation exited unsuccessfully or exceeded its bounds.
    Failed,
}

/// A deployment-owned pinned validator image and reviewed resource policy.
pub struct SandboxPlan {
    image: String,
    limits: SandboxLimits,
}

/// A digest-pinned image in the dedicated validator repository.
pub open spec fn is_validator_image(image: Seq<char>) -> bool {
    digest::pinned_by(image, "ghcr.io/bodhispace-xyz/ai-sre-validator@sha256:"@)
}

/// An image and ceilings that a plan accepts.
pub open spec fn admits_plan(image: Seq<char>, limits: SandboxLimits) -> bool {
    is_validator_image(image) && limits.in_range()
}

/// A container name of this service, of at most 96 characters.
pub open spec fn is_job_name(name: Seq<char>) -> bool {
    "u9-"@.is_prefix_of(name) && name.len() <= 96 && text::Alphabet::JobName.spells(name)
}

/// A part of a mount path that is refused.
pub open spec fn is_dot_part(part: Seq<char>) -> bool {
    part == ".."@ || part == "."@
}

/// A character of a mount path that is refused.
pub open spec fn breaks_mount(c: char) -> bool {
    c < ' ' || c == ',' || c == '\\'
}

/// An absolute mount path without dots, separators or control characters, of at most 1024 bytes.
pub open spec fn is_mount_source(source: Seq<char>) -> bool {
    let parts = split::fields(source, '/');
    &&& "/"@.is_prefix_of(source)
    &&& text::utf8_len(source) <= 1024
    &&& forall|i: int| 0 <= i < parts.len() ==> !is_dot_part(#[trigger] parts[i])
    &&& forall|i: int| 0 <= i < source.len() ==> !breaks_mount(#[trigger] source[i])
}

/// The fixed container invocation for a name and a source directory.
pub open spec fn container_arguments(
    image: Seq<char>,
    limits: SandboxLimits,
    name: Seq<char>,
    source: Seq<char>,
) -> Seq<Seq<char>> {
    seq![
        "--remote=false"@,
        "run"@,
        "--rm"@,
        "--name="@ + name,
        "--pull=never"@,
        "--image-volume=ignore"@,
        "--network=none"@,
        "--read-only"@,
        "--read-only-tmpfs=false"@,
        "--cap-drop=ALL"@,
        "--security-opt=no-new-privileges"@,
        "--user=65532:65532"@,
        "--pid=private"@,
        "--ipc=private"@,
        "--log-driver=none"@,
        "--timeout="@ + number::decimal(limits.timeout_seconds as nat),
        "--memory="@ + number::decimal(limits.memory_mib as nat) + "m"@,
        "--memory-swap="@ + number::decimal(limits.memory_mib as nat) + "m"@,
        "--cpus="@ + number::decimal(limits.cpus as nat),
        "--pids-limit="@ + number::decimal(limits.pids as nat),
        "--shm-size=16m"@,
        "--tmpfs"@,
        "/work:rw,nosuid,nodev,exec,size="@ + number::decimal((limits.scratch_mib - 32) as nat)
            + "m,mode=1777"@,
        "--tmpfs"@,
        "/tmp:rw,nosuid,nodev,noexec,size=16m,mode=1777"@,
        "--tmpfs"@,
        "/dev/shm:rw,nosuid,nodev,noexec,size=16m,mode=1777"@,
        "--mount"@,
        "type=bind,src="@ + source + ",dst=/source,ro=true"@,
        "--workdir=/work"@,
        "--entrypoint=/usr/local/bin/validate-u9"@,
        image,
    ]
}

/// Decides [`is_job_name`].
pub fn valid_job_name(name: &str) -> (r: bool)
    ensures
        r == is_job_name(name@),
{
    text::starts_with(name, "u9-") && text::chars_of(name).len() <= 96
        && text::Alphabet::JobName.spelled(name)
}

/// Decides [`is_mount_source`].
pub fn valid_mount_source(source: &str) -> (r: bool)
    ensures
        r == is_mount_source(source@),
{
    if !text::starts_with(source, "/") || text::byte_len(source) > 1024 {
        return false;
    }
    let chars = text::chars_of(source);
    let mut i: usize = 0;
    while i < chars.len()
        invariant
            i <= chars.len(),
            chars@ == source@,
            forall|j: int| 0 <= j < i ==> !breaks_mount(#[trigger] source@[j]),
        decreases chars.len() - i,
    {
        let c = chars[i];
        if c < ' ' || c == ',' || c == '\\' {
            assert(breaks_mount(source@[i as int]));
            return false;
        }
        i += 1;
    }
    let parts = split::split_fields(source, '/');
    let ghost views = split::fields(source@, '/');
    assert(text::texts(parts@).len() == parts@.len());
    let mut k: usize = 0;
    while k < parts.len()
        invariant
            k <= parts.len(),
            text::texts(parts@) == views,
            views == split::fields(source@, '/'),
            views.len() == parts.len(),
            forall|j: int| 0 <= j < k ==> !is_dot_part(#[trigger] views[j]),
        decreases parts.len() - k,
    {
        assert(views[k as int] == parts@[k as int]@);
        if text::text_eq(parts[k].as_str(), "..") || text::text_eq(parts[k].as_str(), ".") {
            assert(is_dot_part(views[k as int]));
            return false;
        }
        k += 1;
    }
    true
}

impl SandboxPlan {
    /// Pinned validator image.
    pub closed spec fn pinned_image(self) -> Seq<char> {
        self.image@
    }

    /// Reviewed ceilings.
    pub closed spec fn reviewed_limits(self) -> SandboxLimits {
        self.limits
    }

    /// Only admitted images and ceilings make a plan.
    #[verifier::type_invariant]
    spec fn admitted(self) -> bool {
        admits_plan(self.image@, self.limits)
    }

    /// Accepts only a digest-pinned image in the dedicated validator repository.
    pub fn new(image: &str, limits: SandboxLimits) -> (r: Result<Self, SandboxError>)
        ensures
            match r {
                Ok(plan) => admits_plan(image@, limits) && plan.pinned_image() == image@
                    && plan.reviewed_limits() == limits,
                Err(error) => !admits_plan(image@, limits) && error
                    == SandboxError::InvalidConfiguration,
            },
    {
        if !digest::pinned(image, "ghcr.io/bodhispace-xyz/ai-sre-validator@sha256:") || !(1
            <= limits.timeout_seconds && limits.timeout_seconds <= 600) || !(128
            <= limits.memory_mib && limits.memory_mib <= 2048) || !(16 <= limits.pids
            && limits.pids <= 512) || !(1 <= limits.cpus && limits.cpus <= 4) || !(64
            <= limits.scratch_mib && limits.scratch_mib <= 1024) || !(1024 <= limits.output_bytes
            && limits.output_bytes <= 1048576) {
            return Err(SandboxError::InvalidConfiguration);
        }
        Ok(SandboxPlan { image: image.to_owned(), limits })
    }

    /// Builds fixed argv for a private prepared snapshot; this function does not execute it.
    pub fn arguments(&self, name: &str, source: &str) -> (r: Result<Vec<String>, SandboxError>)
        ensures
            match r {
                Ok(arguments) => is_job_name(name@) && is_mount_source(source@) && text::texts(
                    arguments@,
                ) == container_arguments(
                    self.pinned_image(),
                    self.reviewed_limits(),
                    name@,
                    source@,
                ) && isolation::is_isolated(
                    text::texts(arguments@),
                    self.pinned_image(),
                    self.reviewed_limits(),
                    name@,
                    source@,
                ),
                Err(error) => !(is_job_name(name@) && is_mount_source(source@)) && error
                    == SandboxError::InvalidConfiguration,
            },
    {
        proof {
            use_type_invariant(self);
        }
        if !valid_job_name(name) || !valid_mount_source(source) {
            return Err(SandboxError::InvalidConfiguration);
        }
        let timeout = number::decimal_text(self.limits.timeout_seconds);
        let memory = number::decimal_text(self.limits.memory_mib as u64);
        let cpus = number::decimal_text(self.limits.cpus as u64);
        let pids = number::decimal_text(self.limits.pids as u64);
        let scratch = number::decimal_text((self.limits.scratch_mib - 32) as u64);
        let arguments = vec![
            "--remote=false".to_owned(),
            "run".to_owned(),
            "--rm".to_owned(),
            text::prefixed("--name=", name),
            "--pull=never".to_owned(),
            "--image-volume=ignore".to_owned(),
            "--network=none".to_owned(),
            "--read-only".to_owned(),
            "--read-only-tmpfs=false".to_owned(),
            "--cap-drop=ALL".to_owned(),
            "--security-opt=no-new-privileges".to_owned(),
            "--user=65532:65532".to_owned(),
            "--pid=private".to_owned(),
            "--ipc=private".to_owned(),
            "--log-driver=none".to_owned(),
            text::prefixed("--timeout=", timeout.as_str()),
            text::enclosed("--memory=", memory.as_str(), "m"),
            text::enclosed("--memory-swap=", memory.as_str(), "m"),
            text::prefixed("--cpus=", cpus.as_str()),
            text::prefixed("--pids-limit=", pids.as_str()),
            "--shm-size=16m".to_owned(),
            "--tmpfs".to_owned(),
            // Repository scripts and mirrored provider binaries execute only inside the sandbox.
            text::enclosed("/work:rw,nosuid,nodev,exec,size=", scratch.as_str(), "m,mode=1777"),
            "--tmpfs".to_owned(),
            "/tmp:rw,nosuid,nodev,noexec,size=16m,mode=1777".to_owned(),
            "--tmpfs".to_owned(),
            "/dev/shm:rw,nosuid,nodev,noexec,size=16m,mode=1777".to_owned(),
            "--mount".to_owned(),
            text::enclosed("type=bind,src=", source, ",dst=/source,ro=true"),
            "--workdir=/work".to_owned(),
            "--entrypoint=/usr/local/bin/validate-u9".to_owned(),
            self.image.clone(),
        ];
        proof {
            let wanted = container_arguments(self.image@, self.limits, name@, source@);
            let written = text::texts(arguments@);
            assert(written.len() == wanted.len());
            assert forall|i: int| 0 <= i < wanted.len() implies written[i] == wanted[i] by {
                assert(written[i] == arguments@[i]@);
            }
            assert(written =~= wanted);
            isolation::accepted_arguments_isolate_the_validator(
                self.image@,
                self.limits,
                name@,
                source@,
            );
        }
        Ok(arguments)
    }

    /// Binds a candidate to an owned snapshot before constructing a container invocation.
    /// Does not start a process, establish runtime isolation, or grant handoff readiness.
    pub fn prepare(
        &self,
        name: &str,
        candidate: &ManualRepairCandidate,
        snapshot: RepositorySnapshot,
    ) -> (r: Result<PreparedSandbox, SandboxError>)
        ensures
            match r {
                Ok(prepared) => candidate.binds(snapshot.captured_view()) && is_job_name(name@)
                    && is_mount_source(snapshot.root_path() + "/source"@)
                    && prepared.snapshot_of() == snapshot && prepared.candidate_identity()
                    == candidate.identity() && prepared.argument_list() == container_arguments(
                    self.pinned_image(),
                    self.reviewed_limits(),
                    name@,
                    snapshot.root_path() + "/source"@,
                ) && prepared.limits_of() == self.reviewed_limits() && prepared.image_of()
                    == self.pinned_image(),
                Err(error) => !(candidate.binds(snapshot.captured_view()) && is_job_name(name@)
                    && is_mount_source(snapshot.root_path() + "/source"@)) && error
                    == SandboxError::InvalidConfiguration,
            },
    {
        if !candidate.binds_snapshot(&snapshot) {
            return Err(SandboxError::InvalidConfiguration);
        }
        let source = snapshot.source_directory();
        match self.arguments(name, source.as_str()) {
            Ok(arguments) => {
                proof {
                    use_type_invariant(self);
                    let written = text::texts(arguments@);
                    assert(written[written.len() - 1] == arguments@.last()@);
                }
                Ok(
                    PreparedSandbox {
                        snapshot,
                        artifact_digest: candidate.artifact_digest(),
                        arguments,
                        limits: self.limits,
                        image: self.image.clone(),
                    },
                )
            },
            Err(error) => Err(error),
        }
    }
}

/// An owned validation input bound to one candidate. This is not a validation result.
/// Keep it alive while the container uses its source mount.
pub struct PreparedSandbox {
    snapshot: RepositorySnapshot,
    artifact_digest: String,
    arguments: Vec<String>,
    limits: SandboxLimits,
    image: String,
}

/// The data of a prepared sandbox.
pub struct PreparedView {
    /// The snapshot to validate.
    pub snapshot: SnapshotView,
    /// Identity of the candidate.
    pub artifact_digest: Seq<char>,
    /// Container arguments.
    pub arguments: Seq<Seq<char>>,
    /// Ceilings of the workload.
    pub limits: SandboxLimits,
    /// Validator image.
    pub image: Seq<char>,
}

impl PreparedSandbox {
    /// The data of the prepared sandbox.
    pub open spec fn data(self) -> PreparedView {
        PreparedView {
            snapshot: self.snapshot_of().captured_view(),
            artifact_digest: self.candidate_identity(),
            arguments: self.argument_list(),
            limits: self.limits_of(),
            image: self.image_of(),
        }
    }

    /// The snapshot to validate.
    pub closed spec fn snapshot_of(self) -> RepositorySnapshot {
        self.snapshot
    }

    /// Identity of the candidate.
    pub closed spec fn candidate_identity(self) -> Seq<char> {
        self.artifact_digest@
    }

    /// Container arguments.
    pub closed spec fn argument_list(self) -> Seq<Seq<char>> {
        text::texts(self.arguments@)
    }

    /// Ceilings of the workload.
    pub closed spec fn limits_of(self) -> SandboxLimits {
        self.limits
    }

    /// Validator image.
    pub closed spec fn image_of(self) -> Seq<char> {
        self.image@
    }

    /// The last argument is the pinned validator image.
    #[verifier::type_invariant]
    spec fn names_image(self) -> bool {
        &&& self.arguments@.len() > 0
        &&& self.arguments@.last()@ == self.image@
        &&& is_validator_image(self.image@)
    }

    /// Binds an artifact identity received from an authenticated peer to a snapshot captured
    /// here, under an admitted plan.
    pub(crate) fn bound(
        snapshot: RepositorySnapshot,
        artifact_digest: String,
        arguments: Vec<String>,
        limits: SandboxLimits,
        image: String,
    ) -> (r: Self)
        requires
            arguments@.len() > 0,
            arguments@.last()@ == image@,
            is_validator_image(image@),
        ensures
            r.snapshot_of() == snapshot,
            r.candidate_identity() == artifact_digest@,
            r.argument_list() == text::texts(arguments@),
            r.limits_of() == limits,
            r.image_of() == image@,
    {
        PreparedSandbox { snapshot, artifact_digest, arguments, limits, image }
    }

    /// Fixed container arguments, including the owned read-only source mount.
    pub fn arguments(&self) -> (r: &Vec<String>)
        ensures
            text::texts(r@) == self.argument_list(),
            self.argument_list().len() > 0,
            self.argument_list().last() == self.image_of(),
            is_validator_image(self.image_of()),
    {
        proof {
            use_type_invariant(self);
        }
        &self.arguments
    }

    /// Identity of the exact candidate authorized for this validation attempt.
    pub fn artifact_digest(&self) -> (r: &str)
        ensures
            r@ == self.candidate_identity(),
    {
        self.artifact_digest.as_str()
    }

    /// Identity of the committed tree and deterministic replacement.
    pub fn snapshot_digest(&self) -> (r: &str)
        ensures
            r@ == self.snapshot_of().captured_view().digest,
    {
        self.snapshot.digest()
    }

    /// The snapshot to validate.
    pub fn snapshot(&self) -> (r: &RepositorySnapshot)
        ensures
            *r == self.snapshot_of(),
    {
        &self.snapshot
    }

    /// Ceilings of the workload.
    pub fn limits(&self) -> (r: SandboxLimits)
        ensures
            r == self.limits_of(),
    {
        self.limits
    }

    /// Validator image.
    pub fn image(&self) -> (r: &str)
        ensures
            r@ == self.image_of(),
    {
        self.image.as_str()
    }
}

/// Ceilings can be told apart by their JSON: what a policy digest is taken of names one set of
/// ceilings.
pub proof fn ceilings_are_named_by_their_json(a: SandboxLimits, b: SandboxLimits)
    requires
        a.json() == b.json(),
    ensures
        a == b,
{
    let keys = seq![
        "timeout_seconds"@,
        "memory_mib"@,
        "pids"@,
        "cpus"@,
        "scratch_mib"@,
        "output_bytes"@,
    ];
    assert(json::members(keys, a.values()) =~= a.members());
    assert(json::members(keys, b.values()) =~= b.members());
    a.lemma_values();
    b.lemma_values();
    json::lemma_object_reads_back(keys, a.values(), b.values());
    let x = a.values();
    let y = b.values();
    assert(x[0] == y[0] && x[1] == y[1] && x[2] == y[2] && x[3] == y[3] && x[4] == y[4] && x[5]
        == y[5]);
    number::lemma_signed_reads_back(a.timeout_seconds as int, b.timeout_seconds as int);
    number::lemma_signed_reads_back(a.memory_mib as int, b.memory_mib as int);
    number::lemma_signed_reads_back(a.pids as int, b.pids as int);
    number::lemma_signed_reads_back(a.cpus as int, b.cpus as int);
    number::lemma_signed_reads_back(a.scratch_mib as int, b.scratch_mib as int);
    number::lemma_signed_reads_back(a.output_bytes as int, b.output_bytes as int);
}

/// A plan is accepted exactly of a pinned validator image and ceilings within their ranges.
pub proof fn plans_are_accepted_within_their_ranges(image: Seq<char>, limits: SandboxLimits)
    ensures
        admits_plan(image, limits) <==> digest::pinned_by(
            image,
            "ghcr.io/bodhispace-xyz/ai-sre-validator@sha256:"@,
        ) && 1 <= limits.timeout_seconds && limits.timeout_seconds <= 600 && 128 <= limits.memory_mib
            && limits.memory_mib <= 2048 && 16 <= limits.pids && limits.pids <= 512 && 1
            <= limits.cpus && limits.cpus <= 4 && 64 <= limits.scratch_mib && limits.scratch_mib
            <= 1024 && 1024 <= limits.output_bytes && limits.output_bytes <= 1048576,
{
}

/// A container name is `u9-` and letters, digits and hyphens, of at most 96 characters.
pub proof fn job_names_are_plain(rest: Seq<char>, name: Seq<char>)
    ensures
        is_job_name("u9-"@ + rest) <==> rest.len() <= 93 && forall|i: int|
            0 <= i < rest.len() ==> ('0' <= #[trigger] rest[i] <= '9') || ('a' <= rest[i] <= 'z')
                || ('A' <= rest[i] <= 'Z') || rest[i] == '-',
        is_job_name(name) ==> name == "u9-"@ + name.skip(3),
{
    reveal_strlit("u9-");
    let whole = "u9-"@ + rest;
    assert(whole.subrange(0, 3) =~= "u9-"@);
    if is_job_name(whole) {
        assert forall|i: int| 0 <= i < rest.len() implies ('0' <= #[trigger] rest[i] <= '9') || ('a'
            <= rest[i] <= 'z') || ('A' <= rest[i] <= 'Z') || rest[i] == '-' by {
            assert(whole[3 + i] == rest[i]);
            assert(text::Alphabet::JobName.holds(whole[3 + i]));
        }
    }
    if forall|i: int|
        0 <= i < rest.len() ==> ('0' <= #[trigger] rest[i] <= '9') || ('a' <= rest[i] <= 'z') || ('A'
            <= rest[i] <= 'Z') || rest[i] == '-' {
        assert forall|i: int| 0 <= i < whole.len() implies text::Alphabet::JobName.holds(
            #[trigger] whole[i],
        ) by {
            if i >= 3 {
                assert(whole[i] == rest[i - 3]);
            }
        }
    }
    if is_job_name(name) {
        assert(name =~= "u9-"@ + name.skip(3));
    }
}

/// A source is mounted exactly from an absolute path of at most 1024 bytes without dot parts, commas,
/// backslashes and control characters, which would say something else in a mount.
pub proof fn mount_sources_say_one_path(source: Seq<char>)
    ensures
        is_mount_source(source) <==> source.len() >= 1 && source[0] == '/' && vstd::utf8::encode_utf8(
            source,
        ).len() <= 1024 && (forall|i: int|
            0 <= i < split::fields(source, '/').len() ==> #[trigger] split::fields(source, '/')[i]
                != "."@ && split::fields(source, '/')[i] != ".."@) && (forall|i: int|
            0 <= i < source.len() ==> #[trigger] source[i] >= '\u{20}' && source[i] != ',' && source[i]
                != '\\'),
{
    reveal_strlit("/");
    let parts = split::fields(source, '/');
    if source.len() > 0 {
        if source[0] == '/' {
            assert("/"@ =~= source.subrange(0, 1));
        } else if "/"@.is_prefix_of(source) {
            assert(source.subrange(0, 1)[0] == source[0]);
        }
    }
    assert forall|i: int| 0 <= i < parts.len() implies is_dot_part(#[trigger] parts[i]) == !(parts[i]
        != "."@ && parts[i] != ".."@) by {}
    assert forall|i: int| 0 <= i < source.len() implies breaks_mount(#[trigger] source[i]) == !(
    source[i] >= '\u{20}' && source[i] != ',' && source[i] != '\\') by {}
}

} // verus!
