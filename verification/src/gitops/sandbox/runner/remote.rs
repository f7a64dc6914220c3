//! Carries bounded typed validation jobs over a deployment-owned SSH channel.
//!
//! SSH authenticates peers; the fixed worker independently enforces image and resource enrollment.
//! Neither request data nor response data is a command, publication approval, or deployment request.

use super::super::super::artifact::ManualRepairCandidate;
use super::super::super::handoff::HandoffPolicy;
use super::super::super::snapshot::{RepositorySnapshot, SnapshotView};
use super::super::{SandboxError, SandboxLimits, SandboxPlan};
use super::{ReceiptView, ValidationReceipt};
use crate::digest;
use crate::files;
use crate::files::FileFacts;
use crate::json;
use crate::process::{ProcessPlan, ProcessView};
use crate::text;
use crate::text::number;
use vstd::prelude::*;

verus! {

/// Largest frame, in bytes.
pub const WIRE_LIMIT: usize = 16384;

/// A typed, expiring request bound to a locally prepared candidate and snapshot.
pub struct RemoteJob {
    /// Schema identifier.
    pub schema: String,
    /// Unique identity of the request.
    pub nonce: String,
    /// Identity of the candidate.
    pub artifact: String,
    /// Identity of the snapshot.
    pub snapshot: String,
    /// Base revision.
    pub base: String,
    /// Replacement image.
    pub replacement: String,
    /// Validator image.
    pub validator_image: String,
    /// Identity of the runtime binary.
    pub runtime_digest: String,
    /// Ceilings of the workload.
    pub limits: SandboxLimits,
    /// Unix second of issue.
    pub issued_at: u64,
    /// Unix second of expiry.
    pub expires_at: u64,
}

/// A request.
pub struct JobView {
    /// Schema.
    pub schema: Seq<char>,
    /// Nonce.
    pub nonce: Seq<char>,
    /// Identity of the candidate.
    pub artifact: Seq<char>,
    /// Identity of the snapshot.
    pub snapshot: Seq<char>,
    /// Base revision.
    pub base: Seq<char>,
    /// Replacement image.
    pub replacement: Seq<char>,
    /// Validator image.
    pub validator_image: Seq<char>,
    /// Identity of the runtime binary.
    pub runtime_digest: Seq<char>,
    /// Ceilings of the workload.
    pub limits: SandboxLimits,
    /// Unix second of issue.
    pub issued_at: u64,
    /// Unix second of expiry.
    pub expires_at: u64,
}

impl View for RemoteJob {
    type V = JobView;

    open spec fn view(&self) -> JobView {
        JobView {
            schema: self.schema@,
            nonce: self.nonce@,
            artifact: self.artifact@,
            snapshot: self.snapshot@,
            base: self.base@,
            replacement: self.replacement@,
            validator_image: self.validator_image@,
            runtime_digest: self.runtime_digest@,
            limits: self.limits,
            issued_at: self.issued_at,
            expires_at: self.expires_at,
        }
    }
}

/// A request as JSON, members in declaration order.
pub open spec fn job_json(job: JobView) -> Seq<char> {
    json::object_text(
        seq![
            json::member("schema"@, json::json_string(job.schema)),
            json::member("nonce"@, json::json_string(job.nonce)),
            json::member("artifact"@, json::json_string(job.artifact)),
            json::member("snapshot"@, json::json_string(job.snapshot)),
            json::member("base"@, json::json_string(job.base)),
            json::member("replacement"@, json::json_string(job.replacement)),
            json::member("validator_image"@, json::json_string(job.validator_image)),
            json::member("runtime_digest"@, json::json_string(job.runtime_digest)),
            json::member("limits"@, job.limits.json()),
            json::member("issued_at"@, number::decimal(job.issued_at as nat)),
            json::member("expires_at"@, number::decimal(job.expires_at as nat)),
        ],
    )
}

/// The fresh request for a candidate and a snapshot of it, or why there is none.
pub open spec fn fresh_job(
    candidate: ManualRepairCandidate,
    snapshot: SnapshotView,
    policy: HandoffPolicy,
    now: u64,
    entropy: Option<Seq<u8>>,
) -> Result<JobView, SandboxError> {
    if !candidate.binds(snapshot) || !super::super::admits_plan(
        policy.validator_image@,
        policy.sandbox_limits,
    ) {
        Err(SandboxError::InvalidConfiguration)
    } else {
        match entropy {
            None => Err(SandboxError::Unavailable),
            Some(bytes) => if now + policy.sandbox_limits.timeout_seconds + 60 > u64::MAX {
                Err(SandboxError::InvalidConfiguration)
            } else {
                Ok(
                    JobView {
                        schema: "ai-sre/worker-request/v1"@,
                        nonce: digest::digest_of(bytes),
                        artifact: candidate.identity(),
                        snapshot: snapshot.digest,
                        base: snapshot.base,
                        replacement: candidate.data().image,
                        validator_image: policy.validator_image@,
                        runtime_digest: policy.runtime_digest@,
                        limits: policy.sandbox_limits,
                        issued_at: now,
                        expires_at: (now + policy.sandbox_limits.timeout_seconds + 60) as u64,
                    },
                )
            },
        }
    }
}

impl RemoteJob {
    /// The request as JSON.
    pub open spec fn json(self) -> Seq<char> {
        job_json(self@)
    }

    /// Writes the request as JSON.
    pub fn json_text(&self) -> (r: String)
        ensures
            r@ == self.json(),
    {
        let limits = self.limits.json_text();
        let m = vec![
            json::text_member("schema", self.schema.as_str()),
            json::text_member("nonce", self.nonce.as_str()),
            json::text_member("artifact", self.artifact.as_str()),
            json::text_member("snapshot", self.snapshot.as_str()),
            json::text_member("base", self.base.as_str()),
            json::text_member("replacement", self.replacement.as_str()),
            json::text_member("validator_image", self.validator_image.as_str()),
            json::text_member("runtime_digest", self.runtime_digest.as_str()),
            json::raw_member("limits", limits.as_str()),
            json::number_member("issued_at", self.issued_at),
            json::number_member("expires_at", self.expires_at),
        ];
        let out = json::object(&m);
        assert(text::texts(m@) =~= seq![
            m@[0]@,
            m@[1]@,
            m@[2]@,
            m@[3]@,
            m@[4]@,
            m@[5]@,
            m@[6]@,
            m@[7]@,
            m@[8]@,
            m@[9]@,
            m@[10]@,
        ]);
        out
    }

    /// A current request under an enrolled policy: well-formed identities, the enrolled
    /// image, runtime and ceilings, and exactly the lifetime that its ceilings give it.
    pub open spec fn admitted(self, policy: HandoffPolicy, now: u64) -> bool {
        &&& policy.enrollable()
        &&& self.schema@ == "ai-sre/worker-request/v1"@
        &&& digest::is_digest(self.nonce@)
        &&& digest::is_digest(self.artifact@)
        &&& digest::is_digest(self.snapshot@)
        &&& self.validator_image@ == policy.validator_image@
        &&& self.runtime_digest@ == policy.runtime_digest@
        &&& self.limits == policy.sandbox_limits
        &&& self.issued_at <= now < self.expires_at
        &&& self.expires_at - self.issued_at == self.limits.timeout_seconds + 60
    }

    /// Creates a fresh request only after local candidate/snapshot binding succeeds.
    pub fn new(
        candidate: &ManualRepairCandidate,
        snapshot: &RepositorySnapshot,
        policy: &HandoffPolicy,
        now: u64,
        entropy: Option<&[u8]>,
    ) -> (r: Result<Self, SandboxError>)
        ensures
            ({
                let wanted = fresh_job(
                    *candidate,
                    snapshot.captured_view(),
                    *policy,
                    now,
                    match entropy {
                        Some(bytes) => Some(bytes@),
                        None => None,
                    },
                );
                match r {
                    Ok(job) => wanted == Ok::<JobView, SandboxError>(job@),
                    Err(error) => wanted == Err::<JobView, SandboxError>(error),
                }
            }),
    {
        if !candidate.binds_snapshot(snapshot) {
            return Err(SandboxError::InvalidConfiguration);
        }
        if SandboxPlan::new(policy.validator_image.as_str(), policy.sandbox_limits).is_err() {
            return Err(SandboxError::InvalidConfiguration);
        }
        let entropy = match entropy {
            Some(entropy) => entropy,
            None => return Err(SandboxError::Unavailable),
        };
        let expires_at: u64 = match now.checked_add(policy.sandbox_limits.timeout_seconds + 60) {
            Some(expires_at) => expires_at,
            None => return Err(SandboxError::InvalidConfiguration),
        };
        Ok(
            RemoteJob {
                schema: "ai-sre/worker-request/v1".to_owned(),
                nonce: digest::digest(entropy),
                artifact: candidate.artifact_digest(),
                snapshot: snapshot.digest().to_owned(),
                base: snapshot.base_sha().to_owned(),
                replacement: candidate.image().to_owned(),
                validator_image: policy.validator_image.clone(),
                runtime_digest: policy.runtime_digest.clone(),
                limits: policy.sandbox_limits,
                issued_at: now,
                expires_at,
            },
        )
    }

    /// Decides [`RemoteJob::admitted`].
    pub fn check(&self, policy: &HandoffPolicy, now: u64) -> (r: Result<(), SandboxError>)
        ensures
            self.admitted(*policy, now) ==> r is Ok,
            !self.admitted(*policy, now) ==> r == Err::<(), SandboxError>(
                SandboxError::InvalidConfiguration,
            ),
    {
        if SandboxPlan::new(policy.validator_image.as_str(), policy.sandbox_limits).is_err() || !(1
            <= policy.max_validation_age_seconds && policy.max_validation_age_seconds <= 3600) {
            return Err(SandboxError::InvalidConfiguration);
        }
        if !text::text_eq(self.schema.as_str(), "ai-sre/worker-request/v1")
            || !digest::valid_digest(self.nonce.as_str()) || !digest::valid_digest(
            self.artifact.as_str(),
        ) || !digest::valid_digest(self.snapshot.as_str()) || !text::text_eq(
            self.validator_image.as_str(),
            policy.validator_image.as_str(),
        ) || !text::text_eq(self.runtime_digest.as_str(), policy.runtime_digest.as_str())
            || self.limits != policy.sandbox_limits || now < self.issued_at || now
            >= self.expires_at {
            return Err(SandboxError::InvalidConfiguration);
        }
        if self.expires_at - self.issued_at != self.limits.timeout_seconds + 60 {
            return Err(SandboxError::InvalidConfiguration);
        }
        Ok(())
    }

    /// Seconds that are left before the request expires.
    pub fn remaining(&self, now: u64) -> (r: u64)
        ensures
            r == (if now < self.expires_at {
                self.expires_at - now
            } else {
                0
            }),
    {
        if now < self.expires_at {
            self.expires_at - now
        } else {
            0
        }
    }
}

/// A fresh request is admitted under its policy from its issue until its expiry.
pub proof fn fresh_requests_are_admitted(job: RemoteJob, policy: HandoffPolicy, now: u64)
    requires
        policy.enrollable(),
        job.schema@ == "ai-sre/worker-request/v1"@,
        digest::is_digest(job.nonce@),
        digest::is_digest(job.artifact@),
        digest::is_digest(job.snapshot@),
        job.validator_image@ == policy.validator_image@,
        job.runtime_digest@ == policy.runtime_digest@,
        job.limits == policy.sandbox_limits,
        job.expires_at == job.issued_at + policy.sandbox_limits.timeout_seconds + 60,
    ensures
        job.admitted(policy, now) <==> job.issued_at <= now < job.issued_at
            + policy.sandbox_limits.timeout_seconds + 60,
{
}

/// Independently provisioned worker paths and validation enrollment, never request-selected.
pub struct WorkerConfig {
    /// Read-only, pre-provisioned Git mirror with the requested HEAD; no fetch is performed.
    pub repository: String,
    /// Protected digest-pinned Podman executable.
    pub runtime: String,
    /// Private durable worker directory, shared by all forced-command invocations.
    pub state: String,
    /// Deployment-owned substantive image, runtime digest, and resource limits.
    pub policy: HandoffPolicy,
}

/// A 32-bit length, most significant byte first.
pub open spec fn length_bytes(n: nat) -> Seq<u8> {
    seq![
        (n / 16777216) as u8,
        ((n / 65536) % 256) as u8,
        ((n / 256) % 256) as u8,
        (n % 256) as u8,
    ]
}

/// The length that four bytes denote.
pub open spec fn length_value(bytes: Seq<u8>) -> nat {
    bytes[0] as nat * 16777216 + bytes[1] as nat * 65536 + bytes[2] as nat * 256 + bytes[3] as nat
}

/// A payload behind its length.
pub open spec fn framed(payload: Seq<u8>) -> Seq<u8> {
    length_bytes(payload.len()) + payload
}

/// A length that a frame may announce.
pub open spec fn is_frame_length(n: nat, limit: nat) -> bool {
    1 <= n <= limit
}

/// Reads the announced length of a frame, before any payload is read.
pub fn frame_length(header: &[u8], limit: usize) -> (r: Result<usize, SandboxError>)
    requires
        header@.len() == 4,
        limit <= u32::MAX,
    ensures
        match r {
            Ok(n) => n == length_value(header@) && is_frame_length(n as nat, limit as nat),
            Err(error) => !is_frame_length(length_value(header@), limit as nat) && error
                == SandboxError::Failed,
        },
{
    let length: u64 = header[0] as u64 * 16777216 + header[1] as u64 * 65536 + header[2] as u64
        * 256 + header[3] as u64;
    if length == 0 || length > limit as u64 {
        return Err(SandboxError::Failed);
    }
    Ok(length as usize)
}

/// The payload of a frame at the start of what was read.
pub open spec fn frame_payload(wire: Seq<u8>, limit: nat) -> Option<Seq<u8>> {
    if wire.len() < 4 || !is_frame_length(length_value(wire.take(4)), limit) || wire.len() < 4
        + length_value(wire.take(4)) {
        None
    } else {
        Some(wire.subrange(4, 4 + length_value(wire.take(4)) as int))
    }
}

/// Reads a frame from the start of what was read.
pub fn read_frame(wire: &[u8], limit: usize) -> (r: Result<Vec<u8>, SandboxError>)
    requires
        limit <= u32::MAX,
    ensures
        match r {
            Ok(payload) => frame_payload(wire@, limit as nat) == Some(payload@),
            Err(error) => frame_payload(wire@, limit as nat) is None && error
                == SandboxError::Failed,
        },
{
    if wire.len() < 4 {
        return Err(SandboxError::Failed);
    }
    let header = vstd::slice::slice_subrange(wire, 0, 4);
    assert(header@ =~= wire@.take(4));
    let length = match frame_length(header, limit) {
        Ok(length) => length,
        Err(error) => return Err(error),
    };
    if length > wire.len() - 4 {
        return Err(SandboxError::Failed);
    }
    let payload = vstd::slice::slice_subrange(wire, 4, 4 + length);
    Ok(vstd::slice::slice_to_vec(payload))
}

/// Writes a frame; an empty or oversized payload is refused.
pub fn write_frame(payload: &[u8], limit: usize) -> (r: Result<Vec<u8>, SandboxError>)
    requires
        limit <= u32::MAX,
    ensures
        match r {
            Ok(wire) => is_frame_length(payload@.len(), limit as nat) && wire@ == framed(payload@),
            Err(error) => !is_frame_length(payload@.len(), limit as nat) && error
                == SandboxError::Failed,
        },
{
    let length: usize = payload.len();
    if length == 0 || length > limit {
        return Err(SandboxError::Failed);
    }
    let mut wire: Vec<u8> = vec![
        (length / 16777216) as u8,
        ((length / 65536) % 256) as u8,
        ((length / 256) % 256) as u8,
        (length % 256) as u8,
    ];
    assert(wire@ =~= length_bytes(length as nat));
    wire.extend_from_slice(payload);
    assert(wire@ =~= framed(payload@));
    Ok(wire)
}

/// Reading a written frame gives back its payload, whatever follows on the wire.
pub proof fn frames_round_trip(payload: Seq<u8>, rest: Seq<u8>, limit: nat)
    requires
        is_frame_length(payload.len(), limit),
        limit <= u32::MAX,
    ensures
        frame_payload(framed(payload) + rest, limit) == Some(payload),
{
    let n = payload.len();
    let wire = framed(payload) + rest;
    assert(wire.take(4) =~= length_bytes(n));
    assert(length_value(length_bytes(n)) == n) by {
        let a = n / 16777216;
        let b = (n / 65536) % 256;
        let c = (n / 256) % 256;
        let d = n % 256;
        assert(a < 256);
        assert(n == a * 16777216 + b * 65536 + c * 256 + d);
    }
    assert(wire.subrange(4, 4 + n as int) =~= payload);
}

/// Deployment-owned SSH identity and host enrollment; never populated by model output.
pub struct SshWorkerConfig {
    /// Dedicated worker DNS name or IPv4 address.
    pub host: String,
    /// Dedicated forced-command account.
    pub user: String,
    /// Explicit SSH port.
    pub port: u16,
    /// Dedicated service key, not an operator key or SSH agent.
    pub identity_file: String,
    /// Independently enrolled host key file; unknown keys are rejected.
    pub known_hosts: String,
}

/// A host or account name: letters, digits, `.`, `-` and `_`, beginning with a letter or
/// digit, of at most 253 characters.
pub open spec fn is_route_name(s: Seq<char>) -> bool {
    1 <= s.len() <= 253 && text::is_alphanumeric(s[0]) && text::Alphabet::Host.spells(s)
}

/// A character that SSH or a shell would expand or split at.
pub open spec fn is_expanding(c: char) -> bool {
    c <= ' ' || c == '%' || c == '$' || c == '~' || c == '"' || c == '\\'
}

/// An absolute path that SSH takes literally.
pub open spec fn is_literal_path(path: Seq<char>) -> bool {
    files::is_absolute(path) && forall|i: int|
        0 <= i < path.len() ==> !is_expanding(#[trigger] path[i])
}

/// Decides [`is_route_name`].
fn route_name(s: &str) -> (r: bool)
    ensures
        r == is_route_name(s@),
{
    let chars = text::chars_of(s);
    if chars.len() == 0 || chars.len() > 253 {
        return false;
    }
    let c = chars[0];
    (('0' <= c && c <= '9') || ('a' <= c && c <= 'z') || ('A' <= c && c <= 'Z'))
        && text::Alphabet::Host.spelled(s)
}

/// Decides [`is_literal_path`].
fn literal_path(path: &str) -> (r: bool)
    ensures
        r == is_literal_path(path@),
{
    if !files::absolute(path) {
        return false;
    }
    let chars = text::chars_of(path);
    let mut i: usize = 0;
    while i < chars.len()
        invariant
            i <= chars.len(),
            chars@ == path@,
            forall|j: int| 0 <= j < i ==> !is_expanding(#[trigger] path@[j]),
        decreases chars.len() - i,
    {
        let c = chars[i];
        if c <= ' ' || c == '%' || c == '$' || c == '~' || c == '"' || c == '\\' {
            assert(is_expanding(path@[i as int]));
            return false;
        }
        i += 1;
    }
    true
}

impl SshWorkerConfig {
    /// Routing that cannot inject options, and credential paths that expand to nothing else.
    pub open spec fn literal(self) -> bool {
        &&& is_route_name(self.host@)
        &&& is_route_name(self.user@)
        &&& self.port != 0
        &&& is_literal_path(self.identity_file@)
        &&& is_literal_path(self.known_hosts@)
    }
}

/// Serialized authenticated client; no retry occurs after an uncertain remote launch.
pub struct SshValidator {
    config: SshWorkerConfig,
}

/// The options of every connection.
pub open spec fn ssh_options() -> Seq<Seq<char>> {
    seq![
        "BatchMode=yes"@,
        "StrictHostKeyChecking=yes"@,
        "IdentitiesOnly=yes"@,
        "IdentityAgent=none"@,
        "ForwardAgent=no"@,
        "ClearAllForwardings=yes"@,
        "ControlMaster=no"@,
        "ControlPath=none"@,
        "ProxyCommand=none"@,
        "ProxyJump=none"@,
        "PermitLocalCommand=no"@,
        "PasswordAuthentication=no"@,
        "KbdInteractiveAuthentication=no"@,
        "PreferredAuthentications=publickey"@,
        "GlobalKnownHostsFile=/dev/null"@,
        "UpdateHostKeys=no"@,
        "ConnectTimeout=10"@,
        "ConnectionAttempts=1"@,
        "ServerAliveInterval=5"@,
        "ServerAliveCountMax=2"@,
    ]
}

/// Each option behind its own `-o`.
pub open spec fn option_arguments(options: Seq<Seq<char>>) -> Seq<Seq<char>>
    decreases options.len(),
{
    if options.len() == 0 {
        Seq::empty()
    } else {
        option_arguments(options.drop_last()).push("-o"@).push(options.last())
    }
}

/// The connection to a worker: a fixed program, no configuration file, no environment.
pub open spec fn ssh_process(config: SshWorkerConfig) -> ProcessView {
    ProcessView {
        program: "/usr/bin/ssh"@,
        arguments: seq!["-F"@, "/dev/null"@, "-T"@, "-a"@, "-x"@] + option_arguments(
            ssh_options(),
        ) + seq![
            "-o"@,
            "UserKnownHostsFile="@ + config.known_hosts@,
            "-i"@,
            config.identity_file@,
            "-p"@,
            number::decimal(config.port as nat),
            "-l"@,
            config.user@,
            config.host@,
            "ai-sre-validator-v1"@,
        ],
        environment: Seq::empty(),
    }
}

fn option_list(options: &Vec<String>) -> (r: Vec<String>)
    ensures
        text::texts(r@) == option_arguments(text::texts(options@)),
{
    let ghost all = text::texts(options@);
    let mut out: Vec<String> = Vec::new();
    let mut i: usize = 0;
    assert(text::texts(out@) =~= option_arguments(all.take(0)));
    while i < options.len()
        invariant
            i <= options.len(),
            all == text::texts(options@),
            text::texts(out@) == option_arguments(all.take(i as int)),
        decreases options.len() - i,
    {
        let ghost before = text::texts(out@);
        out.push("-o".to_owned());
        out.push(options[i].clone());
        proof {
            assert(all.take(i as int + 1).drop_last() =~= all.take(i as int));
            assert(text::texts(out@) =~= before.push("-o"@).push(options@[i as int]@));
        }
        i += 1;
    }
    assert(all.take(i as int) =~= all);
    out
}

fn fixed_options() -> (r: Vec<String>)
    ensures
        text::texts(r@) == ssh_options(),
{
    let m = vec![
        "BatchMode=yes".to_owned(),
        "StrictHostKeyChecking=yes".to_owned(),
        "IdentitiesOnly=yes".to_owned(),
        "IdentityAgent=none".to_owned(),
        "ForwardAgent=no".to_owned(),
        "ClearAllForwardings=yes".to_owned(),
        "ControlMaster=no".to_owned(),
        "ControlPath=none".to_owned(),
        "ProxyCommand=none".to_owned(),
        "ProxyJump=none".to_owned(),
        "PermitLocalCommand=no".to_owned(),
        "PasswordAuthentication=no".to_owned(),
        "KbdInteractiveAuthentication=no".to_owned(),
        "PreferredAuthentications=publickey".to_owned(),
        "GlobalKnownHostsFile=/dev/null".to_owned(),
        "UpdateHostKeys=no".to_owned(),
        "ConnectTimeout=10".to_owned(),
        "ConnectionAttempts=1".to_owned(),
        "ServerAliveInterval=5".to_owned(),
        "ServerAliveCountMax=2".to_owned(),
    ];
    assert(text::texts(m@) =~= ssh_options()) by {
        assert forall|i: int| 0 <= i < ssh_options().len() implies text::texts(m@)[i]
            == ssh_options()[i] by {
            assert(text::texts(m@)[i] == m@[i]@);
        }
    }
    m
}

impl SshValidator {
    /// Enrolled routing.
    pub closed spec fn route(self) -> SshWorkerConfig {
        self.config
    }

    /// Validates fixed deployment routing and credential paths without opening a connection.
    pub fn new(config: SshWorkerConfig) -> (r: Result<Self, SandboxError>)
        ensures
            match r {
                Ok(validator) => config.literal() && validator.route() == config,
                Err(error) => !config.literal() && error == SandboxError::InvalidConfiguration,
            },
    {
        if !route_name(config.host.as_str()) || !route_name(config.user.as_str()) || config.port
            == 0 || !literal_path(config.identity_file.as_str()) || !literal_path(
            config.known_hosts.as_str(),
        ) {
            return Err(SandboxError::InvalidConfiguration);
        }
        Ok(SshValidator { config })
    }

    /// Path of the service key.
    pub fn identity_file(&self) -> (r: &str)
        ensures
            r@ == self.route().identity_file@,
    {
        self.config.identity_file.as_str()
    }

    /// Path of the enrolled host keys.
    pub fn known_hosts(&self) -> (r: &str)
        ensures
            r@ == self.route().known_hosts@,
    {
        self.config.known_hosts.as_str()
    }

    /// Plans the connection.
    pub fn plan(&self) -> (r: ProcessPlan)
        ensures
            r@ == ssh_process(self.route()),
    {
        let config = &self.config;
        let mut arguments = vec![
            "-F".to_owned(),
            "/dev/null".to_owned(),
            "-T".to_owned(),
            "-a".to_owned(),
            "-x".to_owned(),
        ];
        assert(text::texts(arguments@) =~= seq!["-F"@, "/dev/null"@, "-T"@, "-a"@, "-x"@]);
        let fixed = fixed_options();
        let options = option_list(&fixed);
        crate::process::extend(&mut arguments, &options);
        let route = vec![
            "-o".to_owned(),
            text::prefixed("UserKnownHostsFile=", config.known_hosts.as_str()),
            "-i".to_owned(),
            config.identity_file.clone(),
            "-p".to_owned(),
            number::decimal_text(config.port as u64),
            "-l".to_owned(),
            config.user.clone(),
            config.host.clone(),
            "ai-sre-validator-v1".to_owned(),
        ];
        assert(text::texts(route@) =~= seq![
            route@[0]@,
            route@[1]@,
            route@[2]@,
            route@[3]@,
            route@[4]@,
            route@[5]@,
            route@[6]@,
            route@[7]@,
            route@[8]@,
            route@[9]@,
        ]);
        crate::process::extend(&mut arguments, &route);
        let plan = ProcessPlan {
            program: "/usr/bin/ssh".to_owned(),
            arguments,
            environment: Vec::new(),
        };
        assert(plan@.environment =~= Seq::empty());
        plan
    }
}

/// A credential file: owned here or by root, with one link, not writable by others and, if it
/// is private, not readable either; below directories that protect it.
pub open spec fn is_trusted_file(
    path: Seq<char>,
    ancestors: Seq<FileFacts>,
    uid: u32,
    private: bool,
) -> bool {
    &&& files::is_absolute(path)
    &&& forall|i: int|
        0 <= i < ancestors.len() ==> is_trusted_part(#[trigger] ancestors[i], i == 0, uid, private)
}

/// One path of the chain from a credential file to the root.
pub open spec fn is_trusted_part(
    facts: FileFacts,
    leaf: bool,
    uid: u32,
    private: bool,
) -> bool {
    &&& facts.uid == 0 || facts.uid == uid
    &&& if leaf {
        facts.is_file && facts.nlink == 1 && facts.unshared() && (private ==> facts.private())
    } else {
        // Root-owned sticky directories (such as /tmp) protect their owned child entries.
        facts.is_dir && (facts.unshared() || facts.root_sticky())
    }
}

/// Decides [`is_trusted_file`] from what was observed of the file and of each directory above it.
pub fn trusted_ssh_file(path: &str, ancestors: &Vec<FileFacts>, uid: u32, private: bool) -> (r:
    Result<(), SandboxError>)
    ensures
        is_trusted_file(path@, ancestors@, uid, private) ==> r is Ok,
        !is_trusted_file(path@, ancestors@, uid, private) ==> r == Err::<(), SandboxError>(
            SandboxError::Unavailable,
        ),
{
    if !files::absolute(path) {
        return Err(SandboxError::Unavailable);
    }
    let mut i: usize = 0;
    while i < ancestors.len()
        invariant
            i <= ancestors.len(),
            forall|j: int|
                0 <= j < i ==> is_trusted_part(#[trigger] ancestors@[j], j == 0, uid, private),
        decreases ancestors.len() - i,
    {
        let facts = ancestors[i];
        let trusted = (facts.uid == 0 || facts.uid == uid) && (if i == 0 {
            facts.is_file && facts.nlink == 1 && facts.is_unshared() && (!private
                || facts.is_private())
        } else {
            facts.is_dir && (facts.is_unshared() || facts.is_root_sticky())
        });
        if !trusted {
            assert(!is_trusted_part(ancestors@[i as int], i == 0, uid, private));
            return Err(SandboxError::Unavailable);
        }
        i += 1;
    }
    Ok(())
}

/// A receipt as a worker sent it.
pub struct WireReceipt {
    /// Schema identifier.
    pub schema: String,
    /// Identity of the candidate.
    pub artifact_digest: String,
    /// Identity of the snapshot.
    pub snapshot_digest: String,
    /// Validator image.
    pub validator_image: String,
    /// Identity of the runtime binary.
    pub runtime_digest: String,
    /// Identity of the ceilings.
    pub policy_digest: String,
    /// Identity of the output.
    pub output_digest: String,
    /// Bytes of output.
    pub output_bytes: usize,
    /// Unix second of completion.
    pub completed_at: u64,
}

/// A response as a worker sent it.
pub struct Response {
    /// Schema identifier.
    pub schema: String,
    /// Identity of the answered request.
    pub nonce: String,
    /// The receipt.
    pub receipt: WireReceipt,
}

impl Response {
    /// A fresh response to exactly this request under exactly this policy.
    pub open spec fn answers(self, job: RemoteJob, policy: HandoffPolicy, now: u64) -> bool {
        &&& self.schema@ == "ai-sre/worker-response/v1"@
        &&& self.nonce@ == job.nonce@
        &&& self.receipt.schema@ == "ai-sre/sandbox-validation/v1"@
        &&& self.receipt.artifact_digest@ == job.artifact@
        &&& self.receipt.snapshot_digest@ == job.snapshot@
        &&& self.receipt.validator_image@ == policy.validator_image@
        &&& self.receipt.runtime_digest@ == policy.runtime_digest@
        &&& self.receipt.policy_digest@ == policy.sandbox_limits.identity()
        &&& self.receipt.output_bytes <= policy.sandbox_limits.output_bytes
        &&& digest::is_digest(self.receipt.output_digest@)
        &&& job.issued_at <= self.receipt.completed_at <= now
        &&& now - self.receipt.completed_at <= policy.max_validation_age_seconds
    }
}

/// The receipt of a response.
pub open spec fn imported_receipt(receipt: WireReceipt) -> ReceiptView {
    ReceiptView {
        artifact_digest: receipt.artifact_digest@,
        snapshot_digest: receipt.snapshot_digest@,
        validator_image: receipt.validator_image@,
        runtime_digest: receipt.runtime_digest@,
        policy_digest: receipt.policy_digest@,
        output_digest: receipt.output_digest@,
        output_bytes: receipt.output_bytes as nat,
        completed_at: receipt.completed_at as nat,
    }
}

/// Imports a response of an authenticated worker: only a fresh, exactly bound one gives a
/// receipt; authenticated transport alone does not. One that could not be read fails.
pub fn import_response(
    response: Option<Response>,
    job: &RemoteJob,
    policy: &HandoffPolicy,
    now: u64,
) -> (r: Result<ValidationReceipt, SandboxError>)
    ensures
        match r {
            Ok(receipt) => job.admitted(*policy, now) && (response matches Some(sent)
                && sent.answers(*job, *policy, now) && receipt.data() == imported_receipt(
                sent.receipt,
            )),
            Err(error) => if !job.admitted(*policy, now) {
                error == SandboxError::InvalidConfiguration
            } else {
                error == SandboxError::Failed && !(response matches Some(sent) && sent.answers(
                    *job,
                    *policy,
                    now,
                ))
            },
        },
{
    match job.check(policy, now) {
        Ok(()) => {},
        Err(error) => return Err(error),
    }
    let response = match response {
        Some(response) => response,
        None => return Err(SandboxError::Failed),
    };
    let receipt = response.receipt;
    let policy_digest = policy.sandbox_limits.digest();
    if !text::text_eq(response.schema.as_str(), "ai-sre/worker-response/v1") || !text::text_eq(
        response.nonce.as_str(),
        job.nonce.as_str(),
    ) || !text::text_eq(receipt.schema.as_str(), "ai-sre/sandbox-validation/v1") || !text::text_eq(
        receipt.artifact_digest.as_str(),
        job.artifact.as_str(),
    ) || !text::text_eq(receipt.snapshot_digest.as_str(), job.snapshot.as_str())
        || !text::text_eq(receipt.validator_image.as_str(), policy.validator_image.as_str())
        || !text::text_eq(receipt.runtime_digest.as_str(), policy.runtime_digest.as_str())
        || !text::text_eq(receipt.policy_digest.as_str(), policy_digest.as_str())
        || receipt.output_bytes > policy.sandbox_limits.output_bytes || !digest::valid_digest(
        receipt.output_digest.as_str(),
    ) || receipt.completed_at < job.issued_at || receipt.completed_at > now || now
        - receipt.completed_at > policy.max_validation_age_seconds {
        return Err(SandboxError::Failed);
    }
    Ok(
        ValidationReceipt::imported(
            receipt.artifact_digest,
            receipt.snapshot_digest,
            receipt.validator_image,
            receipt.runtime_digest,
            receipt.policy_digest,
            receipt.output_digest,
            receipt.output_bytes,
            receipt.completed_at,
        ),
    )
}

/// A response as JSON, members in alphabetical order.
pub open spec fn response_json(nonce: Seq<char>, receipt: ReceiptView) -> Seq<char> {
    json::object_text(
        seq![
            json::member("nonce"@, json::json_string(nonce)),
            json::member("receipt"@, super::receipt_json(receipt)),
            json::member("schema"@, json::json_string("ai-sre/worker-response/v1"@)),
        ],
    )
}

/// Writes a response as JSON.
pub fn response_text(nonce: &str, receipt: &ValidationReceipt) -> (r: String)
    ensures
        r@ == response_json(nonce@, receipt.data()),
{
    let receipt = receipt.json();
    let m = vec![
        json::text_member("nonce", nonce),
        json::raw_member("receipt", receipt.as_str()),
        json::text_member("schema", "ai-sre/worker-response/v1"),
    ];
    let out = json::object(&m);
    assert(text::texts(m@) =~= seq![m@[0]@, m@[1]@, m@[2]@]);
    out
}

/// The JSON of a validation request says every field of it.
pub proof fn requests_say_every_field(job: JobView)
    ensures
        ({
            let text = job_json(job);
            &&& text[0] == '{' && text.last() == '}'
            &&& text::has_part(text, "\"schema\":"@ + json::json_string(job.schema))
            &&& text::has_part(text, "\"nonce\":"@ + json::json_string(job.nonce))
            &&& text::has_part(text, "\"artifact\":"@ + json::json_string(job.artifact))
            &&& text::has_part(text, "\"snapshot\":"@ + json::json_string(job.snapshot))
            &&& text::has_part(text, "\"base\":"@ + json::json_string(job.base))
            &&& text::has_part(text, "\"replacement\":"@ + json::json_string(job.replacement))
            &&& text::has_part(text, "\"validator_image\":"@ + json::json_string(job.validator_image))
            &&& text::has_part(text, "\"runtime_digest\":"@ + json::json_string(job.runtime_digest))
            &&& text::has_part(text, "\"limits\":"@ + job.limits.json())
            &&& text::has_part(text, "\"issued_at\":"@ + number::decimal(job.issued_at as nat))
            &&& text::has_part(text, "\"expires_at\":"@ + number::decimal(job.expires_at as nat))
        }),
{
    let items = seq![
        json::member("schema"@, json::json_string(job.schema)),
        json::member("nonce"@, json::json_string(job.nonce)),
        json::member("artifact"@, json::json_string(job.artifact)),
        json::member("snapshot"@, json::json_string(job.snapshot)),
        json::member("base"@, json::json_string(job.base)),
        json::member("replacement"@, json::json_string(job.replacement)),
        json::member("validator_image"@, json::json_string(job.validator_image)),
        json::member("runtime_digest"@, json::json_string(job.runtime_digest)),
        json::member("limits"@, job.limits.json()),
        json::member("issued_at"@, number::decimal(job.issued_at as nat)),
        json::member("expires_at"@, number::decimal(job.expires_at as nat)),
    ];
    json::objects_hold_their_members(items);
    assert(job_json(job) == json::object_text(items));
    reveal_strlit("\"");
    reveal_strlit("\":");
    reveal_strlit("schema");
    reveal_strlit("\"schema\":");
    assert(items[0] =~= "\"schema\":"@ + json::json_string(job.schema));
    reveal_strlit("nonce");
    reveal_strlit("\"nonce\":");
    assert(items[1] =~= "\"nonce\":"@ + json::json_string(job.nonce));
    reveal_strlit("artifact");
    reveal_strlit("\"artifact\":");
    assert(items[2] =~= "\"artifact\":"@ + json::json_string(job.artifact));
    reveal_strlit("snapshot");
    reveal_strlit("\"snapshot\":");
    assert(items[3] =~= "\"snapshot\":"@ + json::json_string(job.snapshot));
    reveal_strlit("base");
    reveal_strlit("\"base\":");
    assert(items[4] =~= "\"base\":"@ + json::json_string(job.base));
    reveal_strlit("replacement");
    reveal_strlit("\"replacement\":");
    assert(items[5] =~= "\"replacement\":"@ + json::json_string(job.replacement));
    reveal_strlit("validator_image");
    reveal_strlit("\"validator_image\":");
    assert(items[6] =~= "\"validator_image\":"@ + json::json_string(job.validator_image));
    reveal_strlit("runtime_digest");
    reveal_strlit("\"runtime_digest\":");
    assert(items[7] =~= "\"runtime_digest\":"@ + json::json_string(job.runtime_digest));
    reveal_strlit("limits");
    reveal_strlit("\"limits\":");
    assert(items[8] =~= "\"limits\":"@ + job.limits.json());
    reveal_strlit("issued_at");
    reveal_strlit("\"issued_at\":");
    assert(items[9] =~= "\"issued_at\":"@ + number::decimal(job.issued_at as nat));
    reveal_strlit("expires_at");
    reveal_strlit("\"expires_at\":");
    assert(items[10] =~= "\"expires_at\":"@ + number::decimal(job.expires_at as nat));
}

/// The JSON of a response says the nonce and the receipt.
pub proof fn responses_say_nonce_and_receipt(nonce: Seq<char>, receipt: ReceiptView)
    ensures
        ({
            let text = response_json(nonce, receipt);
            &&& text[0] == '{' && text.last() == '}'
            &&& text::has_part(text, "\"nonce\":"@ + json::json_string(nonce))
            &&& text::has_part(text, "\"receipt\":"@ + super::receipt_json(receipt))
            &&& text::has_part(text, "\"schema\":"@ + json::json_string("ai-sre/worker-response/v1"@))
        }),
{
    let items = seq![
        json::member("nonce"@, json::json_string(nonce)),
        json::member("receipt"@, super::receipt_json(receipt)),
        json::member("schema"@, json::json_string("ai-sre/worker-response/v1"@)),
    ];
    json::objects_hold_their_members(items);
    assert(response_json(nonce, receipt) == json::object_text(items));
    reveal_strlit("\"");
    reveal_strlit("\":");
    reveal_strlit("nonce");
    reveal_strlit("\"nonce\":");
    assert(items[0] =~= "\"nonce\":"@ + json::json_string(nonce));
    reveal_strlit("receipt");
    reveal_strlit("\"receipt\":");
    assert(items[1] =~= "\"receipt\":"@ + super::receipt_json(receipt));
    reveal_strlit("schema");
    reveal_strlit("\"schema\":");
    assert(items[2] =~= "\"schema\":"@ + json::json_string("ai-sre/worker-response/v1"@));
}

/// A request is admitted exactly where it is of this protocol, names digests, matches the enrolled
/// image, runtime and ceilings, is current, and lives one minute longer than its workload may run.
pub proof fn requests_are_admitted_exactly_while_current(
    job: RemoteJob,
    policy: HandoffPolicy,
    now: u64,
)
    ensures
        job.admitted(policy, now) <==> 1 <= policy.max_validation_age_seconds
            && policy.max_validation_age_seconds <= 3600 && super::super::is_validator_image(
            policy.validator_image@,
        ) && policy.sandbox_limits.in_range() && job.schema@ == "ai-sre/worker-request/v1"@
            && digest::is_digest(job.nonce@) && digest::is_digest(job.artifact@)
            && digest::is_digest(job.snapshot@) && job.validator_image@ == policy.validator_image@
            && job.runtime_digest@ == policy.runtime_digest@ && job.limits == policy.sandbox_limits
            && job.issued_at <= now && now < job.expires_at && job.expires_at == job.issued_at
            + job.limits.timeout_seconds + 60,
{
}

/// A fresh request names the candidate, the snapshot, its base and the replacement, the enrolled
/// image, runtime and ceilings, a nonce of the entropy, and the time it was issued.
pub proof fn fresh_requests_name_what_is_validated(
    candidate: ManualRepairCandidate,
    snapshot: SnapshotView,
    policy: HandoffPolicy,
    now: u64,
    entropy: Option<Seq<u8>>,
)
    ensures
        ({
            let outcome = fresh_job(candidate, snapshot, policy, now, entropy);
            let bound = candidate.data().base_sha == snapshot.base && candidate.binds(snapshot);
            let planned = super::super::is_validator_image(policy.validator_image@)
                && policy.sandbox_limits.in_range();
            let fits = now + policy.sandbox_limits.timeout_seconds + 60 <= u64::MAX;
            &&& outcome is Ok <==> bound && planned && entropy is Some && fits
            &&& bound && planned && entropy is None ==> outcome == Err::<JobView, SandboxError>(
                SandboxError::Unavailable,
            )
            &&& !(bound && planned) || (entropy is Some && !fits) ==> outcome == Err::<
                JobView,
                SandboxError,
            >(SandboxError::InvalidConfiguration)
            &&& outcome matches Ok(job) ==> {
                &&& job.schema == "ai-sre/worker-request/v1"@
                &&& job.nonce == digest::digest_of(entropy->0)
                &&& job.artifact == candidate.identity()
                &&& job.snapshot == snapshot.digest
                &&& job.base == snapshot.base
                &&& job.replacement == candidate.data().image
                &&& job.validator_image == policy.validator_image@
                &&& job.runtime_digest == policy.runtime_digest@
                &&& job.limits == policy.sandbox_limits
                &&& job.issued_at == now
                &&& job.expires_at == now + policy.sandbox_limits.timeout_seconds + 60
            }
        }),
{
}

/// A response answers a request exactly where it carries its nonce, and a receipt for its artifact
/// and snapshot under the enrolled image, runtime and ceilings, within the output ceiling, completed
/// after the request was issued, and fresh.
pub proof fn responses_answer_exactly_their_request(
    response: Response,
    job: RemoteJob,
    policy: HandoffPolicy,
    now: u64,
)
    ensures
        response.answers(job, policy, now) <==> response.schema@ == "ai-sre/worker-response/v1"@
            && response.nonce@ == job.nonce@ && response.receipt.schema@
            == "ai-sre/sandbox-validation/v1"@ && response.receipt.artifact_digest@ == job.artifact@
            && response.receipt.snapshot_digest@ == job.snapshot@
            && response.receipt.validator_image@ == policy.validator_image@
            && response.receipt.runtime_digest@ == policy.runtime_digest@
            && response.receipt.policy_digest@ == digest::text_digest(policy.sandbox_limits.json())
            && response.receipt.output_bytes <= policy.sandbox_limits.output_bytes
            && digest::is_digest(response.receipt.output_digest@) && job.issued_at
            <= response.receipt.completed_at && response.receipt.completed_at <= now && now
            <= response.receipt.completed_at + policy.max_validation_age_seconds,
        ({
            let kept = imported_receipt(response.receipt);
            &&& kept.artifact_digest == response.receipt.artifact_digest@
            &&& kept.snapshot_digest == response.receipt.snapshot_digest@
            &&& kept.validator_image == response.receipt.validator_image@
            &&& kept.runtime_digest == response.receipt.runtime_digest@
            &&& kept.policy_digest == response.receipt.policy_digest@
            &&& kept.output_digest == response.receipt.output_digest@
            &&& kept.output_bytes == response.receipt.output_bytes
            &&& kept.completed_at == response.receipt.completed_at
        }),
{
}

/// A route is literal: names begin with a letter or digit, so that none is an option, and no path
/// holds a character that the client would expand.
pub proof fn routes_are_taken_literally(config: SshWorkerConfig)
    ensures
        config.literal() ==> {
            &&& 1 <= config.host@.len() <= 253 && 1 <= config.user@.len() <= 253
            &&& config.host@[0] != '-' && config.user@[0] != '-'
            &&& config.port >= 1
            &&& config.identity_file@[0] == '/' && config.known_hosts@[0] == '/'
            &&& forall|i: int|
                0 <= i < config.identity_file@.len() ==> #[trigger] config.identity_file@[i] > ' '
                    && config.identity_file@[i] != '%' && config.identity_file@[i] != '$'
                    && config.identity_file@[i] != '~' && config.identity_file@[i] != '"'
                    && config.identity_file@[i] != '\\'
            &&& forall|i: int|
                0 <= i < config.known_hosts@.len() ==> #[trigger] config.known_hosts@[i] > ' '
                    && config.known_hosts@[i] != '%' && config.known_hosts@[i] != '$'
                    && config.known_hosts@[i] != '~' && config.known_hosts@[i] != '"'
                    && config.known_hosts@[i] != '\\'
        },
{
    if config.literal() {
        assert forall|i: int| 0 <= i < config.identity_file@.len() implies !is_expanding(
            #[trigger] config.identity_file@[i],
        ) by {}
        assert forall|i: int| 0 <= i < config.known_hosts@.len() implies !is_expanding(
            #[trigger] config.known_hosts@[i],
        ) by {}
    }
}

/// Which names and paths a route takes: all of those, and no others.
pub proof fn routes_take_every_plain_name_and_path(name: Seq<char>, path: Seq<char>)
    ensures
        is_route_name(name) <==> 1 <= name.len() <= 253 && name[0] != '.' && name[0] != '-'
            && name[0] != '_' && forall|i: int|
            0 <= i < name.len() ==> ('0' <= #[trigger] name[i] <= '9') || ('a' <= name[i] <= 'z')
                || ('A' <= name[i] <= 'Z') || name[i] == '.' || name[i] == '-' || name[i] == '_',
        is_literal_path(path) <==> path.len() >= 1 && path[0] == '/' && forall|i: int|
            0 <= i < path.len() ==> #[trigger] path[i] > ' ' && path[i] != '%' && path[i] != '$'
                && path[i] != '~' && path[i] != '"' && path[i] != '\\',
{
    assert(text::Alphabet::Host.spells(name) == forall|i: int|
        0 <= i < name.len() ==> ('0' <= #[trigger] name[i] <= '9') || ('a' <= name[i] <= 'z') || (
        'A' <= name[i] <= 'Z') || name[i] == '.' || name[i] == '-' || name[i] == '_');
    assert forall|i: int| 0 <= i < path.len() implies is_expanding(#[trigger] path[i]) == !(path[i]
        > ' ' && path[i] != '%' && path[i] != '$' && path[i] != '~' && path[i] != '"' && path[i]
        != '\\') by {}
}

/// Every option is written behind its own `-o`.
proof fn lemma_option_arguments(options: Seq<Seq<char>>, i: int)
    requires
        0 <= i < options.len(),
    ensures
        option_arguments(options).len() == 2 * options.len(),
        option_arguments(options)[2 * i] == "-o"@,
        option_arguments(options)[2 * i + 1] == options[i],
    decreases options.len(),
{
    let front = options.drop_last();
    if front.len() > 0 {
        lemma_option_arguments(front, if i < front.len() { i } else { 0 });
    }
    assert(option_arguments(front).len() == 2 * front.len());
}

/// The client is the system's, reads no configuration, forwards nothing, asks nobody, checks the host
/// against the enrolled key alone, and asks for one fixed command of the routed host.
pub proof fn ssh_runs_one_fixed_command(config: SshWorkerConfig)
    ensures
        ({
            let plan = ssh_process(config);
            let args = plan.arguments;
            &&& plan.program == "/usr/bin/ssh"@
            &&& plan.environment.len() == 0
            &&& args.len() == 55
            &&& args[0] == "-F"@ && args[1] == "/dev/null"@
            &&& args[2] == "-T"@ && args[3] == "-a"@ && args[4] == "-x"@
            &&& args[45] == "-o"@ && args[46] == "UserKnownHostsFile="@ + config.known_hosts@
            &&& args[47] == "-i"@ && args[48] == config.identity_file@
            &&& args[49] == "-p"@ && args[50] == number::decimal(config.port as nat)
            &&& args[51] == "-l"@ && args[52] == config.user@
            &&& args[53] == config.host@
            &&& args[54] == "ai-sre-validator-v1"@
            &&& args[5] == "-o"@ && args[6] == "BatchMode=yes"@
            &&& args[7] == "-o"@ && args[8] == "StrictHostKeyChecking=yes"@
            &&& args[9] == "-o"@ && args[10] == "IdentitiesOnly=yes"@
            &&& args[11] == "-o"@ && args[12] == "IdentityAgent=none"@
            &&& args[13] == "-o"@ && args[14] == "ForwardAgent=no"@
            &&& args[15] == "-o"@ && args[16] == "ClearAllForwardings=yes"@
            &&& args[17] == "-o"@ && args[18] == "ControlMaster=no"@
            &&& args[19] == "-o"@ && args[20] == "ControlPath=none"@
            &&& args[21] == "-o"@ && args[22] == "ProxyCommand=none"@
            &&& args[23] == "-o"@ && args[24] == "ProxyJump=none"@
            &&& args[25] == "-o"@ && args[26] == "PermitLocalCommand=no"@
            &&& args[27] == "-o"@ && args[28] == "PasswordAuthentication=no"@
            &&& args[29] == "-o"@ && args[30] == "KbdInteractiveAuthentication=no"@
            &&& args[31] == "-o"@ && args[32] == "PreferredAuthentications=publickey"@
            &&& args[33] == "-o"@ && args[34] == "GlobalKnownHostsFile=/dev/null"@
            &&& args[35] == "-o"@ && args[36] == "UpdateHostKeys=no"@
            &&& args[37] == "-o"@ && args[38] == "ConnectTimeout=10"@
            &&& args[39] == "-o"@ && args[40] == "ConnectionAttempts=1"@
            &&& args[41] == "-o"@ && args[42] == "ServerAliveInterval=5"@
            &&& args[43] == "-o"@ && args[44] == "ServerAliveCountMax=2"@
        }),
{
    let options = ssh_options();
    lemma_option_arguments(options, 0);
    lemma_option_arguments(options, 1);
    lemma_option_arguments(options, 2);
    lemma_option_arguments(options, 3);
    lemma_option_arguments(options, 4);
    lemma_option_arguments(options, 5);
    lemma_option_arguments(options, 6);
    lemma_option_arguments(options, 7);
    lemma_option_arguments(options, 8);
    lemma_option_arguments(options, 9);
    lemma_option_arguments(options, 10);
    lemma_option_arguments(options, 11);
    lemma_option_arguments(options, 12);
    lemma_option_arguments(options, 13);
    lemma_option_arguments(options, 14);
    lemma_option_arguments(options, 15);
    lemma_option_arguments(options, 16);
    lemma_option_arguments(options, 17);
    lemma_option_arguments(options, 18);
    lemma_option_arguments(options, 19);
}

/// A credential file is trusted where it is a plain single file of root or the user that nobody else
/// may write, and, where private, read, below directories that are as safe or sticky ones of root.
pub proof fn trusted_files_are_the_users_or_roots(facts: FileFacts, uid: u32, private: bool)
    ensures
        is_trusted_part(facts, true, uid, private) <==> (facts.uid == 0 || facts.uid == uid)
            && facts.is_file && facts.nlink == 1 && facts.mode & 0o022 == 0 && (private ==> facts.mode
            & 0o077 == 0),
        is_trusted_part(facts, false, uid, private) <==> (facts.uid == 0 || facts.uid == uid)
            && facts.is_dir && (facts.mode & 0o022 == 0 || (facts.uid == 0 && facts.mode & 0o1000
            != 0)),
{
}

/// A frame is its length in four bytes, most significant first, and as many bytes.
pub proof fn frames_carry_their_length(payload: Seq<u8>)
    requires
        payload.len() <= u32::MAX,
    ensures
        framed(payload).len() == payload.len() + 4,
        framed(payload).skip(4) == payload,
        framed(payload)[0] as nat * 16777216 + framed(payload)[1] as nat * 65536
            + framed(payload)[2] as nat * 256 + framed(payload)[3] as nat == payload.len(),
{
    let n = payload.len();
    assert(framed(payload).skip(4) =~= payload);
    assert(n / 16777216 < 256);
    assert((n / 16777216) * 16777216 + ((n / 65536) % 256) * 65536 + ((n / 256) % 256) * 256 + n
        % 256 == n);
}

/// A credential file is trusted exactly where every part of its absolute path is.
pub proof fn trusted_paths_have_trusted_parts(
    path: Seq<char>,
    ancestors: Seq<FileFacts>,
    uid: u32,
    private: bool,
)
    ensures
        is_trusted_file(path, ancestors, uid, private) <==> path.len() >= 1 && path[0] == '/'
            && forall|i: int|
            0 <= i < ancestors.len() ==> is_trusted_part(
                #[trigger] ancestors[i],
                i == 0,
                uid,
                private,
            ),
        WIRE_LIMIT == 16384,
{
}

/// A frame is read exactly where its length is at least one and within the limit and all of it is there.
pub proof fn frames_are_read_whole_and_bounded(wire: Seq<u8>, limit: nat)
    ensures
        ({
            let n = wire[0] as nat * 16777216 + wire[1] as nat * 65536 + wire[2] as nat * 256
                + wire[3] as nat;
            &&& frame_payload(wire, limit) is Some <==> wire.len() >= 4 && 1 <= n && n <= limit
                && wire.len() >= 4 + n
            &&& frame_payload(wire, limit) matches Some(payload) ==> payload == wire.subrange(
                4,
                (4 + n) as int,
            )
        }),
{
    if wire.len() >= 4 {
        let head = wire.take(4);
        assert(head[0] == wire[0] && head[1] == wire[1] && head[2] == wire[2] && head[3] == wire[3]);
    }
}

} // verus!
