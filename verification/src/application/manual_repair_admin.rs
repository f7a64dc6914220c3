//! Handles bounded local operator requests using kernel peer credentials, never caller-supplied identity.

use crate::digest;
use crate::files;
use crate::files::FileFacts;
use crate::gitops::sandbox::runner::remote;
use crate::gitops::sandbox::runner::remote::{frame_length, write_frame};
use crate::json;
use crate::json::JsonShape;
use crate::text;
use crate::text::number;
use vstd::prelude::*;

verus! {

/// Largest request, in bytes.
pub const MAX_REQUEST_BYTES: usize = 4096;

/// Largest response, in bytes.
pub const MAX_RESPONSE_BYTES: usize = 4194304;

/// Number of clients at a time.
pub const MAX_CLIENTS: usize = 4;

/// Why an operator request is not answered.
#[derive(Debug, Clone, Copy, PartialEq, Eq, Structural)]
pub enum AdminError {
    /// The peer is no operator, or the socket's directory is not protected.
    PermissionDenied,
    /// A frame or a document is out of bounds or malformed.
    InvalidData,
    /// A setting, a path or an argument is unusable.
    InvalidInput,
    /// The clock could not be read.
    Clock,
    /// The journal operation failed.
    Storage,
    /// The operator's intent was not confirmed.
    Unconfirmed,
}

/// An operator request.
#[derive(Debug, Clone, PartialEq, Eq)]
pub enum Request {
    /// Acknowledge the pickup of a handoff.
    Acknowledge {
        /// Identity of the handoff.
        handoff_digest: String,
    },
    /// Inspect a repair artifact.
    Inspect {
        /// Identity of the candidate.
        artifact: String,
    },
    /// Reopen validation eligibility after an uncertain attempt.
    Recover {
        /// Identity of the candidate.
        artifact: String,
        /// Identity of the attempt's request.
        expected_request_digest: String,
        /// Operator's reason.
        reason: String,
    },
}

/// An operator request.
pub enum RequestView {
    /// Acknowledge the pickup of a handoff.
    Acknowledge {
        /// Identity of the handoff.
        handoff_digest: Seq<char>,
    },
    /// Inspect a repair artifact.
    Inspect {
        /// Identity of the candidate.
        artifact: Seq<char>,
    },
    /// Reopen validation eligibility after an uncertain attempt.
    Recover {
        /// Identity of the candidate.
        artifact: Seq<char>,
        /// Identity of the attempt's request.
        expected_request_digest: Seq<char>,
        /// Operator's reason.
        reason: Seq<char>,
    },
}

impl View for Request {
    type V = RequestView;

    open spec fn view(&self) -> RequestView {
        match *self {
            Request::Acknowledge { handoff_digest } => RequestView::Acknowledge {
                handoff_digest: handoff_digest@,
            },
            Request::Inspect { artifact } => RequestView::Inspect { artifact: artifact@ },
            Request::Recover { artifact, expected_request_digest, reason } => RequestView::Recover {
                artifact: artifact@,
                expected_request_digest: expected_request_digest@,
                reason: reason@,
            },
        }
    }
}

/// A peer that may act as an operator: root, or one whose primary group is the operators'.
pub open spec fn is_operator(uid: u32, gid: u32, operator_gid: Option<u32>) -> bool {
    uid == 0 || operator_gid == Some(gid)
}

/// Admits a peer by its kernel credentials, before any of its input is read.
pub fn authorize(uid: u32, gid: u32, operator_gid: Option<u32>) -> (r: Result<(), AdminError>)
    ensures
        is_operator(uid, gid, operator_gid) ==> r is Ok,
        !is_operator(uid, gid, operator_gid) ==> r == Err::<(), AdminError>(
            AdminError::PermissionDenied,
        ),
{
    let member = match operator_gid {
        Some(group) => group == gid,
        None => false,
    };
    if uid != 0 && !member {
        Err(AdminError::PermissionDenied)
    } else {
        Ok(())
    }
}

/// The length of a request that a header announces.
pub fn request_length(header: &[u8]) -> (r: Result<usize, AdminError>)
    requires
        header@.len() == 4,
    ensures
        match r {
            Ok(n) => n == remote::length_value(header@) && 1 <= n <= MAX_REQUEST_BYTES,
            Err(error) => !(1 <= remote::length_value(header@) <= MAX_REQUEST_BYTES) && error
                == AdminError::InvalidData,
        },
{
    match frame_length(header, MAX_REQUEST_BYTES) {
        Ok(n) => Ok(n),
        Err(_) => Err(AdminError::InvalidData),
    }
}

/// A request with the kernel credentials of its peer.
pub struct AuthenticatedRequest {
    request: Request,
    uid: u32,
    gid: u32,
}

/// What the journal is asked.
pub enum JournalCall {
    /// Acknowledge a handoff.
    Acknowledge {
        /// Identity of the handoff.
        handoff_digest: String,
        /// Operator.
        uid: u32,
        /// Operator's primary group.
        gid: u32,
        /// Unix second.
        now: u64,
    },
    /// Inspect an artifact.
    Inspect {
        /// Identity of the candidate.
        artifact: String,
    },
    /// Recover an uncertain attempt.
    Recover {
        /// Identity of the candidate.
        artifact: String,
        /// Identity of the attempt's request.
        expected_request_digest: String,
        /// Operator.
        uid: u32,
        /// Operator's primary group.
        gid: u32,
        /// Operator's reason.
        reason: String,
        /// Unix second.
        now: u64,
    },
}

/// What the journal is asked.
pub enum CallView {
    /// Acknowledge a handoff.
    Acknowledge {
        /// Identity of the handoff.
        handoff_digest: Seq<char>,
        /// Operator.
        uid: u32,
        /// Operator's primary group.
        gid: u32,
        /// Unix second.
        now: u64,
    },
    /// Inspect an artifact.
    Inspect {
        /// Identity of the candidate.
        artifact: Seq<char>,
    },
    /// Recover an uncertain attempt.
    Recover {
        /// Identity of the candidate.
        artifact: Seq<char>,
        /// Identity of the attempt's request.
        expected_request_digest: Seq<char>,
        /// Operator.
        uid: u32,
        /// Operator's primary group.
        gid: u32,
        /// Operator's reason.
        reason: Seq<char>,
        /// Unix second.
        now: u64,
    },
}

impl View for JournalCall {
    type V = CallView;

    open spec fn view(&self) -> CallView {
        match *self {
            JournalCall::Acknowledge { handoff_digest, uid, gid, now } => CallView::Acknowledge {
                handoff_digest: handoff_digest@,
                uid,
                gid,
                now,
            },
            JournalCall::Inspect { artifact } => CallView::Inspect { artifact: artifact@ },
            JournalCall::Recover { artifact, expected_request_digest, uid, gid, reason, now } =>
                CallView::Recover {
                artifact: artifact@,
                expected_request_digest: expected_request_digest@,
                uid,
                gid,
                reason: reason@,
                now,
            },
        }
    }
}

/// The journal call of a request by a peer. A change needs the time; a look does not.
pub open spec fn journal_call(request: RequestView, uid: u32, gid: u32, now: Option<u64>) -> Result<
    CallView,
    AdminError,
> {
    match (request, now) {
        (RequestView::Inspect { artifact }, _) => Ok(CallView::Inspect { artifact }),
        (_, None) => Err(AdminError::Clock),
        (RequestView::Acknowledge { handoff_digest }, Some(now)) => Ok(
            CallView::Acknowledge { handoff_digest, uid, gid, now },
        ),
        (RequestView::Recover { artifact, expected_request_digest, reason }, Some(now)) => Ok(
            CallView::Recover { artifact, expected_request_digest, uid, gid, reason, now },
        ),
    }
}

impl AuthenticatedRequest {
    /// The request.
    pub closed spec fn asked(self) -> RequestView {
        self.request@
    }

    /// The peer's user.
    pub closed spec fn peer_uid(self) -> u32 {
        self.uid
    }

    /// The peer's primary group.
    pub closed spec fn peer_gid(self) -> u32 {
        self.gid
    }

    /// Admits a parsed request of a peer; one that could not be parsed is refused.
    pub fn read_request(
        uid: u32,
        gid: u32,
        operator_gid: Option<u32>,
        request: Option<Request>,
    ) -> (r: Result<Self, AdminError>)
        ensures
            match r {
                Ok(authenticated) => is_operator(uid, gid, operator_gid) && (request matches Some(
                    request,
                ) && authenticated.asked() == request@) && authenticated.peer_uid() == uid
                    && authenticated.peer_gid() == gid,
                Err(error) => error == (if !is_operator(uid, gid, operator_gid) {
                    AdminError::PermissionDenied
                } else {
                    AdminError::InvalidData
                }) && (is_operator(uid, gid, operator_gid) ==> request is None),
            },
    {
        match authorize(uid, gid, operator_gid) {
            Ok(()) => {},
            Err(error) => return Err(error),
        }
        match request {
            Some(request) => Ok(AuthenticatedRequest { request, uid, gid }),
            None => Err(AdminError::InvalidData),
        }
    }

    /// The peer's user.
    pub fn uid(&self) -> (r: u32)
        ensures
            r == self.peer_uid(),
    {
        self.uid
    }

    /// The peer's primary group.
    pub fn gid(&self) -> (r: u32)
        ensures
            r == self.peer_gid(),
    {
        self.gid
    }

    /// What the journal is asked: under the identity of the peer, never one from the request.
    pub fn execute(&self, now: Option<u64>) -> (r: Result<JournalCall, AdminError>)
        ensures
            ({
                let wanted = journal_call(self.asked(), self.peer_uid(), self.peer_gid(), now);
                match r {
                    Ok(call) => wanted == Ok::<CallView, AdminError>(call@),
                    Err(error) => wanted == Err::<CallView, AdminError>(error),
                }
            }),
    {
        match (&self.request, now) {
            (Request::Inspect { artifact }, _) => Ok(
                JournalCall::Inspect { artifact: artifact.clone() },
            ),
            (_, None) => Err(AdminError::Clock),
            (Request::Acknowledge { handoff_digest }, Some(now)) => Ok(
                JournalCall::Acknowledge {
                    handoff_digest: handoff_digest.clone(),
                    uid: self.uid,
                    gid: self.gid,
                    now,
                },
            ),
            (Request::Recover { artifact, expected_request_digest, reason }, Some(now)) => Ok(
                JournalCall::Recover {
                    artifact: artifact.clone(),
                    expected_request_digest: expected_request_digest.clone(),
                    uid: self.uid,
                    gid: self.gid,
                    reason: reason.clone(),
                    now,
                },
            ),
        }
    }
}

/// Whatever a request holds, a change is recorded under the peer's kernel credentials.
pub proof fn changes_are_recorded_under_the_peer(
    request: RequestView,
    uid: u32,
    gid: u32,
    now: Option<u64>,
)
    ensures
        match journal_call(request, uid, gid, now) {
            Ok(CallView::Acknowledge { uid: by, gid: group, .. }) => by == uid && group == gid,
            Ok(CallView::Recover { uid: by, gid: group, .. }) => by == uid && group == gid,
            Ok(CallView::Inspect { .. }) => request is Inspect,
            Err(_) => now is None && !(request is Inspect),
        },
{
}

/// What the journal holds of an artifact.
pub struct ArtifactFacts {
    /// The artifact as JSON.
    pub json: String,
    /// The handoff, if there is one.
    pub handoff_json: Option<String>,
    /// The cleanup status of its attempt, if there is an attempt.
    pub cleanup_status: Option<String>,
}

/// What the journal holds for an inspection.
pub struct Inspection {
    /// The artifact, if there is one.
    pub artifact: Option<ArtifactFacts>,
    /// The request of the active attempt, if there is one.
    pub attempt_request: Option<String>,
    /// The acknowledgement of the handoff as JSON, if there is one.
    pub acknowledgement: Option<String>,
    /// The history of attempts as JSON.
    pub history: String,
}

/// What the journal answered.
pub enum JournalAnswer {
    /// The operation failed.
    Failed,
    /// Whether the handoff is acknowledged.
    Acknowledged(bool),
    /// What it holds.
    Inspected(Inspection),
    /// Whether the attempt is recovered.
    Recovered(bool),
}

/// The identity of a text that may be missing.
pub open spec fn optional_digest(s: Option<String>) -> Option<Seq<char>> {
    match s {
        Some(s) => Some(digest::text_digest(s@)),
        None => None,
    }
}

/// The identity of an artifact's handoff.
pub open spec fn handoff_identity(artifact: Option<ArtifactFacts>) -> Option<Seq<char>> {
    match artifact {
        Some(artifact) => optional_digest(artifact.handoff_json),
        None => None,
    }
}

/// An acknowledgement, or `null`.
pub open spec fn acknowledgement_json(acknowledgement: Option<String>) -> Seq<char> {
    match acknowledgement {
        Some(wire) => wire@,
        None => "null"@,
    }
}

/// An artifact, or `null`.
pub open spec fn artifact_json(artifact: Option<ArtifactFacts>) -> Seq<char> {
    match artifact {
        Some(artifact) => artifact.json@,
        None => "null"@,
    }
}

/// The cleanup status of an artifact's attempt.
pub open spec fn cleanup_of(artifact: Option<ArtifactFacts>) -> Seq<char> {
    match artifact {
        Some(artifact) => match artifact.cleanup_status {
            Some(status) => status@,
            None => "unknown"@,
        },
        None => "unknown"@,
    }
}

/// The answer to an acknowledgement.
pub open spec fn acknowledged_json(acknowledged: bool) -> Seq<char> {
    json::object_text(
        seq![
            json::member("acknowledged"@, json::bool_text(acknowledged)),
            json::member("approved"@, json::bool_text(false)),
            json::member("dispatched"@, json::bool_text(false)),
            json::member("readiness"@, json::json_string("not_assessed"@)),
        ],
    )
}

/// The answer to a recovery.
pub open spec fn recovered_json(recovered: bool) -> Seq<char> {
    json::object_text(
        seq![
            json::member("dispatched"@, json::bool_text(false)),
            json::member("readiness"@, json::json_string("not_assessed"@)),
            json::member("recovered"@, json::bool_text(recovered)),
        ],
    )
}

/// The answer to an inspection.
pub open spec fn inspected_json(found: Inspection) -> Seq<char> {
    json::object_text(
        seq![
            json::member("acknowledgement"@, acknowledgement_json(found.acknowledgement)),
            json::member("artifact"@, artifact_json(found.artifact)),
            json::member("cleanup_status"@, json::json_string(cleanup_of(found.artifact))),
            json::member("dispatched"@, json::bool_text(false)),
            json::member(
                "expected_request_digest"@,
                json::optional_string(optional_digest(found.attempt_request)),
            ),
            json::member(
                "handoff_digest"@,
                json::optional_string(handoff_identity(found.artifact)),
            ),
            json::member("history"@, found.history@),
            json::member("readiness"@, json::json_string("not_assessed"@)),
        ],
    )
}

/// The answer to a request, or why there is none.
pub open spec fn answer_json(answer: JournalAnswer) -> Result<Seq<char>, AdminError> {
    match answer {
        JournalAnswer::Failed => Err(AdminError::Storage),
        JournalAnswer::Acknowledged(acknowledged) => Ok(acknowledged_json(acknowledged)),
        JournalAnswer::Inspected(found) => Ok(inspected_json(found)),
        JournalAnswer::Recovered(recovered) => Ok(recovered_json(recovered)),
    }
}

fn digest_text(s: &Option<String>) -> (r: Option<String>)
    ensures
        match r {
            Some(identity) => optional_digest(*s) == Some(identity@),
            None => optional_digest(*s) is None,
        },
{
    match s {
        Some(s) => Some(digest::digest(s.as_str().as_bytes())),
        None => None,
    }
}

/// The identity of an artifact's handoff, whose acknowledgement is looked up.
pub fn handoff_digest(artifact: &Option<ArtifactFacts>) -> (r: Option<String>)
    ensures
        match r {
            Some(identity) => handoff_identity(*artifact) == Some(identity@),
            None => handoff_identity(*artifact) is None,
        },
{
    match artifact {
        Some(artifact) => digest_text(&artifact.handoff_json),
        None => None,
    }
}

fn acknowledged_text(acknowledged: bool) -> (r: String)
    ensures
        r@ == acknowledged_json(acknowledged),
{
    let m = vec![
        json::bool_member("acknowledged", acknowledged),
        json::bool_member("approved", false),
        json::bool_member("dispatched", false),
        json::text_member("readiness", "not_assessed"),
    ];
    assert(text::texts(m@) =~= seq![m@[0]@, m@[1]@, m@[2]@, m@[3]@]);
    json::object(&m)
}

fn recovered_text(recovered: bool) -> (r: String)
    ensures
        r@ == recovered_json(recovered),
{
    let m = vec![
        json::bool_member("dispatched", false),
        json::text_member("readiness", "not_assessed"),
        json::bool_member("recovered", recovered),
    ];
    assert(text::texts(m@) =~= seq![m@[0]@, m@[1]@, m@[2]@]);
    json::object(&m)
}

fn cleanup_text(artifact: &Option<ArtifactFacts>) -> (r: String)
    ensures
        r@ == cleanup_of(*artifact),
{
    match artifact {
        Some(artifact) => match &artifact.cleanup_status {
            Some(status) => status.clone(),
            None => "unknown".to_owned(),
        },
        None => "unknown".to_owned(),
    }
}

fn inspected_text(found: &Inspection) -> (r: String)
    ensures
        r@ == inspected_json(*found),
{
    let acknowledgement = match &found.acknowledgement {
        Some(wire) => json::raw_member("acknowledgement", wire.as_str()),
        None => json::raw_member("acknowledgement", "null"),
    };
    let artifact = match &found.artifact {
        Some(artifact) => json::raw_member("artifact", artifact.json.as_str()),
        None => json::raw_member("artifact", "null"),
    };
    let cleanup = cleanup_text(&found.artifact);
    let expected = digest_text(&found.attempt_request);
    let handoff = handoff_digest(&found.artifact);
    let m = vec![
        acknowledgement,
        artifact,
        json::text_member("cleanup_status", cleanup.as_str()),
        json::bool_member("dispatched", false),
        json::optional_member("expected_request_digest", &expected),
        json::optional_member("handoff_digest", &handoff),
        json::raw_member("history", found.history.as_str()),
        json::text_member("readiness", "not_assessed"),
    ];
    proof {
        assert(m@[0]@ == json::member(
            "acknowledgement"@,
            acknowledgement_json(found.acknowledgement),
        ));
        assert(m@[1]@ == json::member("artifact"@, artifact_json(found.artifact)));
        assert(m@[4]@ == json::member(
            "expected_request_digest"@,
            json::optional_string(optional_digest(found.attempt_request)),
        ));
        assert(m@[5]@ == json::member(
            "handoff_digest"@,
            json::optional_string(handoff_identity(found.artifact)),
        ));
        assert(text::texts(m@) =~= seq![
            m@[0]@,
            m@[1]@,
            m@[2]@,
            m@[3]@,
            m@[4]@,
            m@[5]@,
            m@[6]@,
            m@[7]@,
        ]);
    }
    json::object(&m)
}

/// Writes the answer to a request, unless it is too large.
pub fn respond(answer: &JournalAnswer) -> (r: Result<Vec<u8>, AdminError>)
    ensures
        match answer_json(*answer) {
            Err(error) => r == Err::<Vec<u8>, AdminError>(error),
            Ok(wire) => if text::utf8_len(wire) > MAX_RESPONSE_BYTES {
                r == Err::<Vec<u8>, AdminError>(AdminError::InvalidData)
            } else {
                r matches Ok(bytes) && bytes@ == vstd::utf8::encode_utf8(wire)
            },
        },
{
    let wire = match answer {
        JournalAnswer::Failed => return Err(AdminError::Storage),
        JournalAnswer::Acknowledged(acknowledged) => acknowledged_text(*acknowledged),
        JournalAnswer::Inspected(found) => inspected_text(found),
        JournalAnswer::Recovered(recovered) => recovered_text(*recovered),
    };
    if text::byte_len(wire.as_str()) > MAX_RESPONSE_BYTES {
        return Err(AdminError::InvalidData);
    }
    Ok(vstd::slice::slice_to_vec(wire.as_str().as_bytes()))
}

/// A path on which the socket may be bound: absolute and without parts that climb.
pub open spec fn is_socket_path(path: Seq<char>) -> bool {
    files::is_absolute(path) && !files::climbs(path)
}

/// Admits the path of the socket.
pub fn admit_socket_path(path: &str) -> (r: Result<(), AdminError>)
    ensures
        is_socket_path(path@) ==> r is Ok,
        !is_socket_path(path@) ==> r == Err::<(), AdminError>(AdminError::InvalidInput),
{
    if !files::absolute(path) || files::climbing(path) {
        Err(AdminError::InvalidInput)
    } else {
        Ok(())
    }
}

/// A directory above the socket that only root or this user can change, or a sticky one of root.
pub open spec fn is_protected_ancestor(ancestor: FileFacts, uid: u32) -> bool {
    ancestor.is_dir && (ancestor.uid == 0 || ancestor.uid == uid) && (ancestor.unshared()
        || ancestor.root_sticky())
}

/// Every directory above the socket is protected, and its direct parent is not shared at all.
pub open spec fn is_protected_parent(
    ancestors: Seq<FileFacts>,
    parent: FileFacts,
    uid: u32,
) -> bool {
    &&& forall|i: int|
        0 <= i < ancestors.len() ==> is_protected_ancestor(#[trigger] ancestors[i], uid)
    &&& parent.unshared()
}

/// Admits the directories above the socket. A sticky shared directory is acceptable above, but
/// never as the socket's direct parent.
pub fn admit_socket_parent(ancestors: &Vec<FileFacts>, parent: &FileFacts, uid: u32) -> (r: Result<
    (),
    AdminError,
>)
    ensures
        is_protected_parent(ancestors@, *parent, uid) ==> r is Ok,
        !is_protected_parent(ancestors@, *parent, uid) ==> r == Err::<(), AdminError>(
            AdminError::PermissionDenied,
        ),
{
    let mut i: usize = 0;
    while i < ancestors.len()
        invariant
            i <= ancestors.len(),
            forall|j: int|
                0 <= j < i ==> is_protected_ancestor(#[trigger] ancestors@[j], uid),
        decreases ancestors.len() - i,
    {
        let ancestor = &ancestors[i];
        if !ancestor.is_dir || (ancestor.uid != 0 && ancestor.uid != uid) || (
        !ancestor.is_unshared() && !ancestor.is_root_sticky()) {
            assert(!is_protected_ancestor(ancestors@[i as int], uid));
            return Err(AdminError::PermissionDenied);
        }
        i += 1;
    }
    if !parent.is_unshared() {
        return Err(AdminError::PermissionDenied);
    }
    Ok(())
}

/// Whether what is found at the socket's path is the inode that this process created, and may
/// be removed.
pub fn owns_socket(device: u64, inode: u64, found: Option<&FileFacts>) -> (r: bool)
    ensures
        r == (found matches Some(facts) && facts.dev == device && facts.ino == inode),
{
    match found {
        Some(facts) => facts.dev == device && facts.ino == inode,
        None => false,
    }
}

/// The operators' group, where one is set.
pub fn operator_group(setting: Option<&str>) -> (r: Result<Option<u32>, AdminError>)
    ensures
        match setting {
            None => r == Ok::<Option<u32>, AdminError>(None),
            Some(digits) => match number::parsed(digits@, u32::MAX as nat) {
                Some(gid) => r matches Ok(Some(group)) && group == gid,
                None => r == Err::<Option<u32>, AdminError>(AdminError::InvalidInput),
            },
        },
{
    match setting {
        None => Ok(None),
        Some(digits) => match number::parse_unsigned(digits, u32::MAX as u64) {
            Some(gid) => Ok(Some(gid as u32)),
            None => Err(AdminError::InvalidInput),
        },
    }
}

/// Whether a queued command may still run: before its deadline, and while its reply is awaited.
/// A timed-out queued request does not gain authority later.
pub fn may_execute(now_ms: u64, deadline_ms: u64, reply_open: bool) -> (r: bool)
    ensures
        r == (now_ms < deadline_ms && reply_open),
{
    now_ms < deadline_ms && reply_open
}

/// Whether another client is accepted.
pub fn may_accept(clients: usize) -> (r: bool)
    ensures
        r == (clients < MAX_CLIENTS),
{
    clients < MAX_CLIENTS
}

/// The socket and the request that command-line arguments name.
pub open spec fn command(arguments: Seq<Seq<char>>) -> Option<(Seq<char>, RequestView)> {
    if arguments.len() == 3 && arguments[0] == "acknowledge"@ {
        Some((arguments[1], RequestView::Acknowledge { handoff_digest: arguments[2] }))
    } else if arguments.len() == 3 && arguments[0] == "inspect"@ {
        Some((arguments[1], RequestView::Inspect { artifact: arguments[2] }))
    } else if arguments.len() == 5 && arguments[0] == "recover"@ {
        Some(
            (
                arguments[1],
                RequestView::Recover {
                    artifact: arguments[2],
                    expected_request_digest: arguments[3],
                    reason: arguments[4],
                },
            ),
        )
    } else {
        None
    }
}

/// Reads command-line arguments.
pub fn parse_command(arguments: &Vec<String>) -> (r: Option<(String, Request)>)
    ensures
        match r {
            Some(found) => command(text::texts(arguments@)) == Some((found.0@, found.1@)),
            None => command(text::texts(arguments@)) is None,
        },
{
    let ghost views = text::texts(arguments@);
    assert(views.len() == arguments@.len());
    proof {
        assert forall|i: int| 0 <= i < views.len() implies views[i] == arguments@[i]@ by {}
    }
    if arguments.len() == 3 && text::text_eq(arguments[0].as_str(), "acknowledge") {
        return Some(
            (
                arguments[1].clone(),
                Request::Acknowledge { handoff_digest: arguments[2].clone() },
            ),
        );
    }
    if arguments.len() == 3 && text::text_eq(arguments[0].as_str(), "inspect") {
        return Some((arguments[1].clone(), Request::Inspect { artifact: arguments[2].clone() }));
    }
    if arguments.len() == 5 && text::text_eq(arguments[0].as_str(), "recover") {
        return Some(
            (
                arguments[1].clone(),
                Request::Recover {
                    artifact: arguments[2].clone(),
                    expected_request_digest: arguments[3].clone(),
                    reason: arguments[4].clone(),
                },
            ),
        );
    }
    None
}

/// A request as JSON, members in alphabetical order.
pub open spec fn request_json(request: RequestView) -> Seq<char> {
    match request {
        RequestView::Acknowledge { handoff_digest } => json::object_text(
            seq![
                json::member("handoff_digest"@, json::json_string(handoff_digest)),
                json::member("operation"@, json::json_string("acknowledge"@)),
            ],
        ),
        RequestView::Inspect { artifact } => json::object_text(
            seq![
                json::member("artifact"@, json::json_string(artifact)),
                json::member("operation"@, json::json_string("inspect"@)),
            ],
        ),
        RequestView::Recover { artifact, expected_request_digest, reason } => json::object_text(
            seq![
                json::member("artifact"@, json::json_string(artifact)),
                json::member(
                    "expected_request_digest"@,
                    json::json_string(expected_request_digest),
                ),
                json::member("operation"@, json::json_string("recover"@)),
                json::member("reason"@, json::json_string(reason)),
            ],
        ),
    }
}

impl Request {
    /// Writes the request as JSON.
    pub fn json_text(&self) -> (r: String)
        ensures
            r@ == request_json(self@),
    {
        match self {
            Request::Acknowledge { handoff_digest } => {
                let m = vec![
                    json::text_member("handoff_digest", handoff_digest.as_str()),
                    json::text_member("operation", "acknowledge"),
                ];
                assert(text::texts(m@) =~= seq![m@[0]@, m@[1]@]);
                json::object(&m)
            },
            Request::Inspect { artifact } => {
                let m = vec![
                    json::text_member("artifact", artifact.as_str()),
                    json::text_member("operation", "inspect"),
                ];
                assert(text::texts(m@) =~= seq![m@[0]@, m@[1]@]);
                json::object(&m)
            },
            Request::Recover { artifact, expected_request_digest, reason } => {
                let m = vec![
                    json::text_member("artifact", artifact.as_str()),
                    json::text_member("expected_request_digest", expected_request_digest.as_str()),
                    json::text_member("operation", "recover"),
                    json::text_member("reason", reason.as_str()),
                ];
                assert(text::texts(m@) =~= seq![m@[0]@, m@[1]@, m@[2]@, m@[3]@]);
                json::object(&m)
            },
        }
    }

    /// The frame that a client sends, unless the request is too large.
    pub fn frame(&self) -> (r: Result<Vec<u8>, AdminError>)
        ensures
            ({
                let wire = vstd::utf8::encode_utf8(request_json(self@));
                match r {
                    Ok(sent) => 1 <= wire.len() <= MAX_REQUEST_BYTES && sent@ == remote::framed(
                        wire,
                    ),
                    Err(error) => !(1 <= wire.len() <= MAX_REQUEST_BYTES) && error
                        == AdminError::InvalidInput,
                }
            }),
    {
        let wire = self.json_text();
        match write_frame(wire.as_str().as_bytes(), MAX_REQUEST_BYTES) {
            Ok(sent) => Ok(sent),
            Err(_) => Err(AdminError::InvalidInput),
        }
    }

    /// Whether a response confirms the request, given what its two confirming members hold.
    pub fn confirmed_by(&self, acknowledged: Option<&JsonShape>, recovered: Option<&JsonShape>)
        -> (r: Result<(), AdminError>)
        ensures
            r == (if is_confirmed(
                self@,
                match acknowledged {
                    Some(shape) => Some(shape@),
                    None => None,
                },
                match recovered {
                    Some(shape) => Some(shape@),
                    None => None,
                },
            ) {
                Ok(())
            } else {
                Err(AdminError::Unconfirmed)
            }),
    {
        let confirmed = match self {
            Request::Acknowledge { .. } => is_true(acknowledged),
            Request::Inspect { .. } => true,
            Request::Recover { .. } => is_true(recovered),
        };
        if confirmed {
            Ok(())
        } else {
            Err(AdminError::Unconfirmed)
        }
    }

    /// Whether a response confirms the request.
    pub fn confirm(&self, response: &[u8]) -> (r: Result<(), AdminError>)
        ensures
            r == (if is_confirmed(
                self@,
                json::json_at(response@, "/acknowledged"@),
                json::json_at(response@, "/recovered"@),
            ) {
                Ok(())
            } else {
                Err(AdminError::Unconfirmed)
            }),
    {
        let acknowledged = json::find(response, "/acknowledged");
        let recovered = json::find(response, "/recovered");
        self.confirmed_by(acknowledged.as_ref(), recovered.as_ref())
    }
}

/// A change is confirmed only by the value `true` of its own member.
pub open spec fn is_confirmed(
    request: RequestView,
    acknowledged: Option<json::ShapeView>,
    recovered: Option<json::ShapeView>,
) -> bool {
    match request {
        RequestView::Acknowledge { .. } => acknowledged == Some(json::ShapeView::Bool(true)),
        RequestView::Inspect { .. } => true,
        RequestView::Recover { .. } => recovered == Some(json::ShapeView::Bool(true)),
    }
}

fn is_true(shape: Option<&JsonShape>) -> (r: bool)
    ensures
        r == (match shape {
            Some(shape) => shape@ == json::ShapeView::Bool(true),
            None => false,
        }),
{
    match shape {
        Some(JsonShape::Bool(value)) => *value,
        _ => false,
    }
}

/// The length of a response that a header announces.
pub fn response_length(header: &[u8]) -> (r: Result<usize, AdminError>)
    requires
        header@.len() == 4,
    ensures
        match r {
            Ok(n) => n == remote::length_value(header@) && 1 <= n <= MAX_RESPONSE_BYTES,
            Err(error) => !(1 <= remote::length_value(header@) <= MAX_RESPONSE_BYTES) && error
                == AdminError::InvalidData,
        },
{
    match frame_length(header, MAX_RESPONSE_BYTES) {
        Ok(n) => Ok(n),
        Err(_) => Err(AdminError::InvalidData),
    }
}

/// No answer approves or dispatches anything, or says that anything is ready.
pub proof fn answers_grant_nothing(answer: JournalAnswer)
    requires
        answer_json(answer) is Ok,
    ensures
        ({
            let wire = answer_json(answer)->Ok_0;
            exists|members: Seq<Seq<char>>|
                {
                    &&& wire == #[trigger] json::object_text(members)
                    &&& members.contains(json::member("dispatched"@, json::bool_text(false)))
                    &&& members.contains(
                        json::member("readiness"@, json::json_string("not_assessed"@)),
                    )
                    &&& answer is Acknowledged ==> members.contains(
                        json::member("approved"@, json::bool_text(false)),
                    )
                }
        }),
{
    let dispatched = json::member("dispatched"@, json::bool_text(false));
    let readiness = json::member("readiness"@, json::json_string("not_assessed"@));
    match answer {
        JournalAnswer::Acknowledged(acknowledged) => {
            let approved = json::member("approved"@, json::bool_text(false));
            let members = seq![
                json::member("acknowledged"@, json::bool_text(acknowledged)),
                approved,
                dispatched,
                readiness,
            ];
            assert(members[1] == approved && members[2] == dispatched && members[3] == readiness);
            assert(acknowledged_json(acknowledged) == json::object_text(members));
        },
        JournalAnswer::Recovered(recovered) => {
            let members = seq![
                dispatched,
                readiness,
                json::member("recovered"@, json::bool_text(recovered)),
            ];
            assert(members[0] == dispatched && members[1] == readiness);
            assert(recovered_json(recovered) == json::object_text(members));
        },
        JournalAnswer::Inspected(found) => {
            let members = seq![
                json::member("acknowledgement"@, acknowledgement_json(found.acknowledgement)),
                json::member("artifact"@, artifact_json(found.artifact)),
                json::member("cleanup_status"@, json::json_string(cleanup_of(found.artifact))),
                dispatched,
                json::member(
                    "expected_request_digest"@,
                    json::optional_string(optional_digest(found.attempt_request)),
                ),
                json::member(
                    "handoff_digest"@,
                    json::optional_string(handoff_identity(found.artifact)),
                ),
                json::member("history"@, found.history@),
                readiness,
            ];
            assert(members[3] == dispatched && members[7] == readiness);
            assert(inspected_json(found) == json::object_text(members));
        },
        JournalAnswer::Failed => {},
    }
}

/// The answer to an acknowledgement says its outcome, and that nothing is approved, dispatched or assessed.
pub proof fn acknowledgements_say_their_outcome(acknowledged: bool)
    ensures
        ({
            let text = acknowledged_json(acknowledged);
            &&& text[0] == '{' && text.last() == '}'
            &&& text::has_part(text, "\"acknowledged\":"@ + json::bool_text(acknowledged))
            &&& text::has_part(text, "\"approved\":"@ + json::bool_text(false))
            &&& text::has_part(text, "\"dispatched\":"@ + json::bool_text(false))
            &&& text::has_part(text, "\"readiness\":"@ + json::json_string("not_assessed"@))
        }),
{
    let items = seq![
        json::member("acknowledged"@, json::bool_text(acknowledged)),
        json::member("approved"@, json::bool_text(false)),
        json::member("dispatched"@, json::bool_text(false)),
        json::member("readiness"@, json::json_string("not_assessed"@)),
    ];
    json::objects_hold_their_members(items);
    assert(acknowledged_json(acknowledged) == json::object_text(items));
    reveal_strlit("\"");
    reveal_strlit("\":");
    reveal_strlit("acknowledged");
    reveal_strlit("\"acknowledged\":");
    assert(items[0] =~= "\"acknowledged\":"@ + json::bool_text(acknowledged));
    reveal_strlit("approved");
    reveal_strlit("\"approved\":");
    assert(items[1] =~= "\"approved\":"@ + json::bool_text(false));
    reveal_strlit("dispatched");
    reveal_strlit("\"dispatched\":");
    assert(items[2] =~= "\"dispatched\":"@ + json::bool_text(false));
    reveal_strlit("readiness");
    reveal_strlit("\"readiness\":");
    assert(items[3] =~= "\"readiness\":"@ + json::json_string("not_assessed"@));
}

/// The answer to a recovery says its outcome, and that nothing is dispatched or assessed.
pub proof fn recoveries_say_their_outcome(recovered: bool)
    ensures
        ({
            let text = recovered_json(recovered);
            &&& text[0] == '{' && text.last() == '}'
            &&& text::has_part(text, "\"dispatched\":"@ + json::bool_text(false))
            &&& text::has_part(text, "\"readiness\":"@ + json::json_string("not_assessed"@))
            &&& text::has_part(text, "\"recovered\":"@ + json::bool_text(recovered))
        }),
{
    let items = seq![
        json::member("dispatched"@, json::bool_text(false)),
        json::member("readiness"@, json::json_string("not_assessed"@)),
        json::member("recovered"@, json::bool_text(recovered)),
    ];
    json::objects_hold_their_members(items);
    assert(recovered_json(recovered) == json::object_text(items));
    reveal_strlit("\"");
    reveal_strlit("\":");
    reveal_strlit("dispatched");
    reveal_strlit("\"dispatched\":");
    assert(items[0] =~= "\"dispatched\":"@ + json::bool_text(false));
    reveal_strlit("readiness");
    reveal_strlit("\"readiness\":");
    assert(items[1] =~= "\"readiness\":"@ + json::json_string("not_assessed"@));
    reveal_strlit("recovered");
    reveal_strlit("\"recovered\":");
    assert(items[2] =~= "\"recovered\":"@ + json::bool_text(recovered));
}

/// The answer to an inspection says what the journal holds of the artifact.
pub proof fn inspections_say_what_was_found(found: Inspection)
    ensures
        ({
            let text = inspected_json(found);
            &&& text[0] == '{' && text.last() == '}'
            &&& text::has_part(text, "\"acknowledgement\":"@ + acknowledgement_json(found.acknowledgement))
            &&& text::has_part(text, "\"artifact\":"@ + artifact_json(found.artifact))
            &&& text::has_part(text, "\"cleanup_status\":"@ + json::json_string(cleanup_of(found.artifact)))
            &&& text::has_part(text, "\"dispatched\":"@ + json::bool_text(false))
            &&& text::has_part(text, "\"expected_request_digest\":"@ + json::optional_string(optional_digest(found.attempt_request)))
            &&& text::has_part(text, "\"handoff_digest\":"@ + json::optional_string(handoff_identity(found.artifact)))
            &&& text::has_part(text, "\"history\":"@ + found.history@)
            &&& text::has_part(text, "\"readiness\":"@ + json::json_string("not_assessed"@))
        }),
{
    let items = seq![
        json::member("acknowledgement"@, acknowledgement_json(found.acknowledgement)),
        json::member("artifact"@, artifact_json(found.artifact)),
        json::member("cleanup_status"@, json::json_string(cleanup_of(found.artifact))),
        json::member("dispatched"@, json::bool_text(false)),
        json::member("expected_request_digest"@, json::optional_string(optional_digest(found.attempt_request))),
        json::member("handoff_digest"@, json::optional_string(handoff_identity(found.artifact))),
        json::member("history"@, found.history@),
        json::member("readiness"@, json::json_string("not_assessed"@)),
    ];
    json::objects_hold_their_members(items);
    assert(inspected_json(found) == json::object_text(items));
    reveal_strlit("\"");
    reveal_strlit("\":");
    reveal_strlit("acknowledgement");
    reveal_strlit("\"acknowledgement\":");
    assert(items[0] =~= "\"acknowledgement\":"@ + acknowledgement_json(found.acknowledgement));
    reveal_strlit("artifact");
    reveal_strlit("\"artifact\":");
    assert(items[1] =~= "\"artifact\":"@ + artifact_json(found.artifact));
    reveal_strlit("cleanup_status");
    reveal_strlit("\"cleanup_status\":");
    assert(items[2] =~= "\"cleanup_status\":"@ + json::json_string(cleanup_of(found.artifact)));
    reveal_strlit("dispatched");
    reveal_strlit("\"dispatched\":");
    assert(items[3] =~= "\"dispatched\":"@ + json::bool_text(false));
    reveal_strlit("expected_request_digest");
    reveal_strlit("\"expected_request_digest\":");
    assert(items[4] =~= "\"expected_request_digest\":"@ + json::optional_string(optional_digest(found.attempt_request)));
    reveal_strlit("handoff_digest");
    reveal_strlit("\"handoff_digest\":");
    assert(items[5] =~= "\"handoff_digest\":"@ + json::optional_string(handoff_identity(found.artifact)));
    reveal_strlit("history");
    reveal_strlit("\"history\":");
    assert(items[6] =~= "\"history\":"@ + found.history@);
    reveal_strlit("readiness");
    reveal_strlit("\"readiness\":");
    assert(items[7] =~= "\"readiness\":"@ + json::json_string("not_assessed"@));
}

/// The JSON of this request says its operation and every argument.
pub proof fn acknowledge_requests_say_every_field(handoff_digest: Seq<char>)
    ensures
        ({
            let text = request_json(RequestView::Acknowledge { handoff_digest });
            &&& text[0] == '{' && text.last() == '}'
            &&& text::has_part(text, "\"handoff_digest\":"@ + json::json_string(handoff_digest))
            &&& text::has_part(text, "\"operation\":"@ + json::json_string("acknowledge"@))
        }),
{
    let items = seq![
        json::member("handoff_digest"@, json::json_string(handoff_digest)),
        json::member("operation"@, json::json_string("acknowledge"@)),
    ];
    json::objects_hold_their_members(items);
    assert(request_json(RequestView::Acknowledge { handoff_digest }) == json::object_text(items));
    reveal_strlit("\"");
    reveal_strlit("\":");
    reveal_strlit("handoff_digest");
    reveal_strlit("\"handoff_digest\":");
    assert(items[0] =~= "\"handoff_digest\":"@ + json::json_string(handoff_digest));
    reveal_strlit("operation");
    reveal_strlit("\"operation\":");
    assert(items[1] =~= "\"operation\":"@ + json::json_string("acknowledge"@));
}

/// The JSON of this request says its operation and every argument.
pub proof fn inspect_requests_say_every_field(artifact: Seq<char>)
    ensures
        ({
            let text = request_json(RequestView::Inspect { artifact });
            &&& text[0] == '{' && text.last() == '}'
            &&& text::has_part(text, "\"artifact\":"@ + json::json_string(artifact))
            &&& text::has_part(text, "\"operation\":"@ + json::json_string("inspect"@))
        }),
{
    let items = seq![
        json::member("artifact"@, json::json_string(artifact)),
        json::member("operation"@, json::json_string("inspect"@)),
    ];
    json::objects_hold_their_members(items);
    assert(request_json(RequestView::Inspect { artifact }) == json::object_text(items));
    reveal_strlit("\"");
    reveal_strlit("\":");
    reveal_strlit("artifact");
    reveal_strlit("\"artifact\":");
    assert(items[0] =~= "\"artifact\":"@ + json::json_string(artifact));
    reveal_strlit("operation");
    reveal_strlit("\"operation\":");
    assert(items[1] =~= "\"operation\":"@ + json::json_string("inspect"@));
}

/// The JSON of this request says its operation and every argument.
pub proof fn recover_requests_say_every_field(artifact: Seq<char>, expected_request_digest: Seq<char>, reason: Seq<char>)
    ensures
        ({
            let text = request_json(RequestView::Recover { artifact, expected_request_digest, reason });
            &&& text[0] == '{' && text.last() == '}'
            &&& text::has_part(text, "\"artifact\":"@ + json::json_string(artifact))
            &&& text::has_part(text, "\"expected_request_digest\":"@ + json::json_string(expected_request_digest))
            &&& text::has_part(text, "\"operation\":"@ + json::json_string("recover"@))
            &&& text::has_part(text, "\"reason\":"@ + json::json_string(reason))
        }),
{
    let items = seq![
        json::member("artifact"@, json::json_string(artifact)),
        json::member("expected_request_digest"@, json::json_string(expected_request_digest)),
        json::member("operation"@, json::json_string("recover"@)),
        json::member("reason"@, json::json_string(reason)),
    ];
    json::objects_hold_their_members(items);
    assert(request_json(RequestView::Recover { artifact, expected_request_digest, reason }) == json::object_text(items));
    reveal_strlit("\"");
    reveal_strlit("\":");
    reveal_strlit("artifact");
    reveal_strlit("\"artifact\":");
    assert(items[0] =~= "\"artifact\":"@ + json::json_string(artifact));
    reveal_strlit("expected_request_digest");
    reveal_strlit("\"expected_request_digest\":");
    assert(items[1] =~= "\"expected_request_digest\":"@ + json::json_string(expected_request_digest));
    reveal_strlit("operation");
    reveal_strlit("\"operation\":");
    assert(items[2] =~= "\"operation\":"@ + json::json_string("recover"@));
    reveal_strlit("reason");
    reveal_strlit("\"reason\":");
    assert(items[3] =~= "\"reason\":"@ + json::json_string(reason));
}

/// A peer is an operator exactly as root or in the operators' group.
pub proof fn operators_are_root_or_in_the_group(uid: u32, gid: u32, operator_gid: Option<u32>)
    ensures
        is_operator(uid, gid, operator_gid) <==> uid == 0 || (operator_gid is Some && operator_gid->0
            == gid),
{
}

/// A request becomes the journal call of the same arguments under the peer; a look needs no time, and a
/// change without a clock is refused.
pub proof fn requests_become_calls_under_the_peer(
    uid: u32,
    gid: u32,
    now: u64,
    first: Seq<char>,
    second: Seq<char>,
    third: Seq<char>,
    clock: Option<u64>,
)
    ensures
        journal_call(RequestView::Inspect { artifact: first }, uid, gid, clock) == Ok::<
            CallView,
            AdminError,
        >(CallView::Inspect { artifact: first }),
        journal_call(RequestView::Acknowledge { handoff_digest: first }, uid, gid, Some(now)) == Ok::<
            CallView,
            AdminError,
        >(CallView::Acknowledge { handoff_digest: first, uid, gid, now }),
        journal_call(
            RequestView::Recover {
                artifact: first,
                expected_request_digest: second,
                reason: third,
            },
            uid,
            gid,
            Some(now),
        ) == Ok::<CallView, AdminError>(
            CallView::Recover {
                artifact: first,
                expected_request_digest: second,
                uid,
                gid,
                reason: third,
                now,
            },
        ),
        journal_call(RequestView::Acknowledge { handoff_digest: first }, uid, gid, None) == Err::<
            CallView,
            AdminError,
        >(AdminError::Clock),
        journal_call(
            RequestView::Recover {
                artifact: first,
                expected_request_digest: second,
                reason: third,
            },
            uid,
            gid,
            None,
        ) == Err::<CallView, AdminError>(AdminError::Clock),
{
}

/// A command line is read exactly as one of the three operations with all its arguments, the socket
/// first.
pub proof fn command_lines_are_three_operations(arguments: Seq<Seq<char>>)
    ensures
        ({
            let n = arguments.len();
            let word = arguments[0];
            &&& command(arguments) is Some <==> (n == 3 && (word == "acknowledge"@ || word
                == "inspect"@)) || (n == 5 && word == "recover"@)
            &&& n == 3 && word == "acknowledge"@ ==> command(arguments) == Some(
                (arguments[1], RequestView::Acknowledge { handoff_digest: arguments[2] }),
            )
            &&& n == 3 && word == "inspect"@ ==> command(arguments) == Some(
                (arguments[1], RequestView::Inspect { artifact: arguments[2] }),
            )
            &&& n == 5 && word == "recover"@ ==> command(arguments) == Some(
                (
                    arguments[1],
                    RequestView::Recover {
                        artifact: arguments[2],
                        expected_request_digest: arguments[3],
                        reason: arguments[4],
                    },
                ),
            )
        }),
{
    reveal_strlit("acknowledge");
    reveal_strlit("inspect");
    assert("acknowledge"@.len() != "inspect"@.len());
}

/// A change is confirmed by `true` alone; a look needs no confirmation.
pub proof fn changes_are_confirmed_by_true_alone(
    text: Seq<char>,
    other: Seq<char>,
    reason: Seq<char>,
    acknowledged: Option<json::ShapeView>,
    recovered: Option<json::ShapeView>,
)
    ensures
        is_confirmed(RequestView::Inspect { artifact: text }, acknowledged, recovered),
        is_confirmed(RequestView::Acknowledge { handoff_digest: text }, acknowledged, recovered)
            <==> acknowledged == Some(json::ShapeView::Bool(true)),
        is_confirmed(
            RequestView::Recover { artifact: text, expected_request_digest: other, reason },
            acknowledged,
            recovered,
        ) <==> recovered == Some(json::ShapeView::Bool(true)),
{
}

/// What an inspection tells of an artifact: the digests of the request and the handoff that the journal
/// holds, the recorded cleanup status, and `null` or `unknown` where it holds none.
pub proof fn inspections_tell_digests_and_status(artifact: ArtifactFacts, request: Option<String>)
    ensures
        request matches Some(s) ==> optional_digest(request) == Some(digest::text_digest(s@)),
        request is None ==> optional_digest(request) is None,
        artifact.handoff_json matches Some(s) ==> handoff_identity(Some(artifact)) == Some(
            digest::text_digest(s@),
        ),
        artifact.handoff_json is None ==> handoff_identity(Some(artifact)) is None,
        handoff_identity(None) is None,
        artifact.cleanup_status matches Some(s) ==> cleanup_of(Some(artifact)) == s@,
        artifact.cleanup_status is None ==> cleanup_of(Some(artifact)) == "unknown"@,
        cleanup_of(None) == "unknown"@,
        artifact_json(Some(artifact)) == artifact.json@,
        artifact_json(None) == "null"@,
        request matches Some(s) ==> acknowledgement_json(request) == s@,
        request is None ==> acknowledgement_json(request) == "null"@,
{
}

/// Each answer of the journal is answered in its own words, and a failure of it as such.
pub proof fn answers_are_given_in_their_own_words(flag: bool, found: Inspection)
    ensures
        answer_json(JournalAnswer::Acknowledged(flag)) == Ok::<Seq<char>, AdminError>(
            acknowledged_json(flag),
        ),
        answer_json(JournalAnswer::Recovered(flag)) == Ok::<Seq<char>, AdminError>(
            recovered_json(flag),
        ),
        answer_json(JournalAnswer::Inspected(found)) == Ok::<Seq<char>, AdminError>(
            inspected_json(found),
        ),
        answer_json(JournalAnswer::Failed) == Err::<Seq<char>, AdminError>(AdminError::Storage),
{
}

/// The socket stands at an absolute path that does not climb, below directories of root or the service
/// that others may not write, unless they are sticky ones of root, which the direct parent may not be.
pub proof fn sockets_stand_below_protected_directories(
    path: Seq<char>,
    ancestors: Seq<FileFacts>,
    parent: FileFacts,
    uid: u32,
)
    ensures
        is_socket_path(path) <==> path.len() >= 1 && path[0] == '/' && !files::climbs(path),
        is_protected_parent(ancestors, parent, uid) <==> parent.mode & 0o022 == 0 && forall|i: int|
            0 <= i < ancestors.len() ==> (#[trigger] ancestors[i]).is_dir && (ancestors[i].uid == 0
                || ancestors[i].uid == uid) && (ancestors[i].mode & 0o022 == 0 || (ancestors[i].uid
                == 0 && ancestors[i].mode & 0o1000 != 0)),
{
    assert forall|i: int| 0 <= i < ancestors.len() implies is_protected_ancestor(
        #[trigger] ancestors[i],
        uid,
    ) == (ancestors[i].is_dir && (ancestors[i].uid == 0 || ancestors[i].uid == uid) && (
    ancestors[i].mode & 0o022 == 0 || (ancestors[i].uid == 0 && ancestors[i].mode & 0o1000 != 0))) by {}
}

/// The bounds of the operator's channel.
pub proof fn operator_channel_is_bounded()
    ensures
        MAX_REQUEST_BYTES == 4096,
        MAX_RESPONSE_BYTES == 4 * 1024 * 1024,
        MAX_CLIENTS == 4,
{
}

} // verus!
