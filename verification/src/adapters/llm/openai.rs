//! Secret-safe OpenAI OAuth refresh-session primitives.
//!
//! This module owns session credentials at the adapter boundary. Core reports
//! never receive access tokens, refresh tokens, or vendor-specific error text.

use crate::json;
use crate::process;
use crate::reasoning::coordinator::FailureClass;
use crate::text;
use crate::text::number;
use crate::text::trim;
use vstd::prelude::*;

verus! {

/// Where tokens are refreshed.
pub const DEFAULT_TOKEN_ENDPOINT: &'static str = "https://auth.openai.com/oauth/token";

/// The public client identity.
pub const CHATGPT_CLIENT_ID: &'static str = "app_EMoamEEZ73f0CkXaXp7hrann";

/// A refreshable OpenAI session without exposing its token in diagnostics.
#[derive(Clone, PartialEq, Eq)]
pub struct RefreshSession {
    refresh_token: String,
}

impl RefreshSession {
    /// The refresh token.
    pub closed spec fn token(self) -> Seq<char> {
        self.refresh_token@
    }

    /// Creates a session from a deployment-projected refresh token.
    pub fn new(refresh_token: &str) -> (r: Self)
        ensures
            r.token() == refresh_token@,
    {
        RefreshSession { refresh_token: refresh_token.to_owned() }
    }

    /// Replaces the session after a successful provider rotation.
    pub fn rotate(&mut self, next_refresh_token: &str)
        ensures
            final(self).token() == next_refresh_token@,
    {
        self.refresh_token = next_refresh_token.to_owned();
    }

    /// What diagnostics show in place of the session, whatever its token is.
    pub fn redacted(&self) -> (r: String)
        ensures
            r@ == "RefreshSession { .. }"@,
    {
        "RefreshSession { .. }".to_owned()
    }

    /// The cache record of the session.
    pub fn record(&self) -> (r: String)
        ensures
            r@ == cache_record(self.token()),
    {
        let m = vec![json::text_member("refresh_token", self.refresh_token.as_str())];
        assert(text::texts(m@) =~= seq![m@[0]@]);
        json::object(&m)
    }
}

/// The cache record of a token.
pub open spec fn cache_record(token: Seq<char>) -> Seq<char> {
    json::object_text(seq![json::member("refresh_token"@, json::json_string(token))])
}

/// Safe classifications for failed non-interactive refresh.
#[derive(Debug, Clone, Copy, PartialEq, Eq, Structural)]
pub enum RefreshFailure {
    /// The provider rejected the refresh token and interactive login is needed.
    ReauthenticationRequired,
    /// The provider or transport was temporarily unavailable.
    TemporarilyUnavailable,
}

/// A short-lived access token and its rotated refresh token.
#[derive(Debug, Clone, PartialEq, Eq)]
pub struct RefreshedTokens {
    /// Access token passed to the provider client, never journaled.
    pub access_token: String,
    /// Replacement refresh token, or the previous one when omitted by OpenAI.
    pub refresh_token: String,
    /// Optional UNIX expiry supplied by the provider.
    pub expires_at: Option<i64>,
}

/// Errors raised while reading or atomically replacing the OAuth cache.
#[derive(Debug, Clone, Copy, PartialEq, Eq, Structural)]
pub enum CacheError {
    /// The cache file is malformed or does not contain a refresh token.
    Invalid,
    /// The cache could not be read or replaced.
    Io,
}

/// Atomic, secret-only persistence for the rotating OpenAI refresh token.
#[derive(Debug, Clone)]
pub struct AuthCache {
    path: String,
}

/// What came of reading the cache file.
pub enum CacheRead {
    /// There is no such file.
    Missing,
    /// It could not be read.
    Unreadable,
    /// It was read, and held a record with this token or no record at all.
    Read(Option<String>),
}

/// What is done next to replace the cache file.
#[derive(Debug, Clone, Copy, PartialEq, Eq, Structural)]
pub enum StoreStep {
    /// Create the parent directory.
    CreateParent,
    /// Give the parent directory mode 0700.
    ProtectParent,
    /// Create the temporary file.
    CreateTemporary,
    /// Give the temporary file mode 0600.
    ProtectTemporary,
    /// Write the record.
    Write,
    /// Synchronize the temporary file.
    Synchronize,
    /// Rename the temporary file to the cache file.
    Rename,
    /// Remove the temporary file.
    RemoveTemporary,
    /// The cache file is replaced.
    Stored,
    /// The cache file is as it was.
    Failed,
}

/// The step after one that succeeded or failed.
pub open spec fn store_next(step: StoreStep, done: bool) -> StoreStep {
    match (step, done) {
        (StoreStep::CreateParent, true) => StoreStep::ProtectParent,
        (StoreStep::ProtectParent, true) => StoreStep::CreateTemporary,
        (StoreStep::CreateTemporary, true) => StoreStep::ProtectTemporary,
        (StoreStep::ProtectTemporary, true) => StoreStep::Write,
        (StoreStep::Write, true) => StoreStep::Synchronize,
        (StoreStep::Synchronize, true) => StoreStep::Rename,
        (StoreStep::Rename, true) => StoreStep::Stored,
        (StoreStep::CreateParent, false) => StoreStep::Failed,
        (StoreStep::ProtectParent, false) => StoreStep::Failed,
        (StoreStep::CreateTemporary, false) => StoreStep::RemoveTemporary,
        (StoreStep::ProtectTemporary, false) => StoreStep::RemoveTemporary,
        (StoreStep::Write, false) => StoreStep::RemoveTemporary,
        (StoreStep::Synchronize, false) => StoreStep::RemoveTemporary,
        (StoreStep::Rename, false) => StoreStep::RemoveTemporary,
        (StoreStep::RemoveTemporary, _) => StoreStep::Failed,
        (StoreStep::Stored, _) => StoreStep::Stored,
        (StoreStep::Failed, _) => StoreStep::Failed,
    }
}

/// Where the replacement of a cache file has come to after some steps.
pub open spec fn store_after(outcomes: Seq<bool>) -> StoreStep
    decreases outcomes.len(),
{
    if outcomes.len() == 0 {
        StoreStep::CreateParent
    } else {
        store_next(store_after(outcomes.drop_last()), outcomes.last())
    }
}

/// The steps before one, on the way that succeeds.
pub open spec fn store_rank(step: StoreStep) -> nat {
    match step {
        StoreStep::CreateParent => 0,
        StoreStep::ProtectParent => 1,
        StoreStep::CreateTemporary => 2,
        StoreStep::ProtectTemporary => 3,
        StoreStep::Write => 4,
        StoreStep::Synchronize => 5,
        StoreStep::Rename => 6,
        StoreStep::Stored => 7,
        StoreStep::RemoveTemporary => 0,
        StoreStep::Failed => 0,
    }
}

/// The name of the temporary file beside a cache file.
pub open spec fn temporary_file(file_name: Option<Seq<char>>, suffix: nat) -> Seq<char> {
    "."@ + match file_name {
        Some(name) => name,
        None => "auth"@,
    } + "."@ + number::decimal(suffix) + ".tmp"@
}

impl AuthCache {
    /// The path of the cache file.
    pub closed spec fn location(self) -> Seq<char> {
        self.path@
    }

    /// Creates a cache at the deployment-owned path.
    pub fn new(path: &str) -> (r: Self)
        ensures
            r.location() == path@,
    {
        AuthCache { path: path.to_owned() }
    }

    /// The path of the cache file.
    pub fn path(&self) -> (r: &str)
        ensures
            r@ == self.location(),
    {
        self.path.as_str()
    }

    /// The current session, or why there is none, without exposing file contents in errors.
    pub fn load(&self, read: CacheRead) -> (r: Result<Option<RefreshSession>, CacheError>)
        ensures
            match read {
                CacheRead::Missing => r == Ok::<Option<RefreshSession>, CacheError>(None),
                CacheRead::Unreadable => r == Err::<Option<RefreshSession>, CacheError>(
                    CacheError::Io,
                ),
                CacheRead::Read(None) => r == Err::<Option<RefreshSession>, CacheError>(
                    CacheError::Invalid,
                ),
                CacheRead::Read(Some(token)) => if trim::is_blank(token@) {
                    r == Err::<Option<RefreshSession>, CacheError>(CacheError::Invalid)
                } else {
                    r matches Ok(Some(session)) && session.token() == token@
                },
            },
    {
        match read {
            CacheRead::Missing => Ok(None),
            CacheRead::Unreadable => Err(CacheError::Io),
            CacheRead::Read(None) => Err(CacheError::Invalid),
            CacheRead::Read(Some(token)) => {
                if trim::blank(token.as_str()) {
                    Err(CacheError::Invalid)
                } else {
                    Ok(Some(RefreshSession::new(token.as_str())))
                }
            },
        }
    }

    /// The name of the temporary file, from the name of the cache file and the time.
    pub fn temporary_name(&self, file_name: Option<&str>, suffix: u128) -> (r: String)
        ensures
            r@ == temporary_file(
                match file_name {
                    Some(name) => Some(name@),
                    None => None,
                },
                suffix as nat,
            ),
    {
        let mut out = ".".to_owned();
        match file_name {
            Some(name) => out.append(name),
            None => out.append("auth"),
        }
        out.append(".");
        number::push_decimal(&mut out, suffix);
        out.append(".tmp");
        out
    }

    /// The first step to replace the cache file.
    pub fn store(&self) -> (r: StoreStep)
        ensures
            r == store_after(Seq::empty()),
    {
        StoreStep::CreateParent
    }
}

impl StoreStep {
    /// The step after this one.
    pub fn next(self, done: bool) -> (r: StoreStep)
        ensures
            r == store_next(self, done),
    {
        match (self, done) {
            (StoreStep::CreateParent, true) => StoreStep::ProtectParent,
            (StoreStep::ProtectParent, true) => StoreStep::CreateTemporary,
            (StoreStep::CreateTemporary, true) => StoreStep::ProtectTemporary,
            (StoreStep::ProtectTemporary, true) => StoreStep::Write,
            (StoreStep::Write, true) => StoreStep::Synchronize,
            (StoreStep::Synchronize, true) => StoreStep::Rename,
            (StoreStep::Rename, true) => StoreStep::Stored,
            (StoreStep::CreateParent, false) => StoreStep::Failed,
            (StoreStep::ProtectParent, false) => StoreStep::Failed,
            (StoreStep::CreateTemporary, false) => StoreStep::RemoveTemporary,
            (StoreStep::ProtectTemporary, false) => StoreStep::RemoveTemporary,
            (StoreStep::Write, false) => StoreStep::RemoveTemporary,
            (StoreStep::Synchronize, false) => StoreStep::RemoveTemporary,
            (StoreStep::Rename, false) => StoreStep::RemoveTemporary,
            (StoreStep::RemoveTemporary, _) => StoreStep::Failed,
            (StoreStep::Stored, _) => StoreStep::Stored,
            (StoreStep::Failed, _) => StoreStep::Failed,
        }
    }

    /// Whether the replacement is over, and how.
    pub fn outcome(self) -> (r: Option<Result<(), CacheError>>)
        ensures
            r == (match self {
                StoreStep::Stored => Some(Ok::<(), CacheError>(())),
                StoreStep::Failed => Some(Err::<(), CacheError>(CacheError::Io)),
                _ => None,
            }),
    {
        match self {
            StoreStep::Stored => Some(Ok(())),
            StoreStep::Failed => Some(Err(CacheError::Io)),
            _ => None,
        }
    }
}

/// The cache file is renamed into place only after every step before has succeeded, so that no
/// partial token is ever left there.
pub proof fn rename_follows_a_complete_write(outcomes: Seq<bool>)
    requires
        store_after(outcomes) == StoreStep::Rename,
    ensures
        outcomes =~= Seq::new(6, |i: int| true),
{
    lemma_store_rank(outcomes);
}

/// On the way that succeeds, the rank is the number of steps, and all of them succeeded.
proof fn lemma_store_rank(outcomes: Seq<bool>)
    ensures
        ({
            let step = store_after(outcomes);
            step != StoreStep::RemoveTemporary && step != StoreStep::Failed && step
                != StoreStep::Stored ==> outcomes.len() == store_rank(step) && forall|i: int|
                0 <= i < outcomes.len() ==> #[trigger] outcomes[i]
        }),
    decreases outcomes.len(),
{
    if outcomes.len() > 0 {
        lemma_store_rank(outcomes.drop_last());
        assert forall|i: int| 0 <= i < outcomes.len() - 1 implies outcomes[i]
            == outcomes.drop_last()[i] by {}
    }
}

/// A failure once the temporary file may exist is followed by its removal, and by nothing else.
pub proof fn failed_writes_are_removed(outcomes: Seq<bool>)
    requires
        outcomes.len() > 0,
        !outcomes.last(),
        2 <= store_rank(store_after(outcomes.drop_last())) <= 6,
    ensures
        store_after(outcomes) == StoreStep::RemoveTemporary,
        forall|done: bool| store_next(store_after(outcomes), done) == StoreStep::Failed,
{
}

/// Performs OpenAI refresh-token rotation without enabling device login.
#[derive(Debug, Clone)]
pub struct OpenAiOAuth {
    token_endpoint: String,
}

/// A parsed token response.
pub struct RefreshResponse {
    /// Access token.
    pub access_token: String,
    /// Replacement refresh token, if there is one.
    pub refresh_token: Option<String>,
    /// Expiry, if there is one.
    pub expires_at: Option<i64>,
}

/// What came of a refresh request.
pub enum RefreshReply {
    /// The endpoint was not reached.
    Unreachable,
    /// It answered with this status and, where it could be parsed, this body.
    Answered(u16, Option<RefreshResponse>),
}

/// A status that announces success.
pub open spec fn is_success(status: u16) -> bool {
    200 <= status < 300
}

/// The tokens of a response; the refresh token stays as it is where none is given.
pub open spec fn rotated(body: RefreshResponse, token: Seq<char>) -> Seq<char> {
    match body.refresh_token {
        Some(next) => next@,
        None => token,
    }
}

impl OpenAiOAuth {
    /// Where tokens are refreshed.
    pub closed spec fn address(self) -> Seq<char> {
        self.token_endpoint@
    }

    /// Creates a production client using OpenAI's OAuth token endpoint.
    pub fn new() -> (r: Self)
        ensures
            r.address() == "https://auth.openai.com/oauth/token"@,
    {
        OpenAiOAuth::with_endpoint(DEFAULT_TOKEN_ENDPOINT)
    }

    /// Creates a client with an explicit endpoint for recorded contract tests.
    pub fn with_endpoint(endpoint: &str) -> (r: Self)
        ensures
            r.address() == endpoint@,
    {
        OpenAiOAuth { token_endpoint: endpoint.to_owned() }
    }

    /// Where tokens are refreshed.
    pub fn endpoint(&self) -> (r: &str)
        ensures
            r@ == self.address(),
    {
        self.token_endpoint.as_str()
    }

    /// The form of a refresh request.
    pub fn form(&self, session: &RefreshSession) -> (r: Vec<(String, String)>)
        ensures
            process::pairs(r@) == seq![
                ("client_id"@, "app_EMoamEEZ73f0CkXaXp7hrann"@),
                ("grant_type"@, "refresh_token"@),
                ("refresh_token"@, session.token()),
                ("scope"@, "openid profile email"@),
            ],
    {
        let form = vec![
            process::variable("client_id", CHATGPT_CLIENT_ID),
            process::variable("grant_type", "refresh_token"),
            process::variable("refresh_token", session.refresh_token.as_str()),
            process::variable("scope", "openid profile email"),
        ];
        assert(process::pairs(form@) =~= seq![
            ("client_id"@, "app_EMoamEEZ73f0CkXaXp7hrann"@),
            ("grant_type"@, "refresh_token"@),
            ("refresh_token"@, session.token()),
            ("scope"@, "openid profile email"@),
        ]);
        form
    }

    /// The tokens of a reply, or its failure without provider text.
    pub fn refresh(&self, session: &RefreshSession, reply: RefreshReply) -> (r: Result<
        RefreshedTokens,
        RefreshFailure,
    >)
        ensures
            match reply {
                RefreshReply::Unreachable => r == Err::<RefreshedTokens, RefreshFailure>(
                    RefreshFailure::TemporarilyUnavailable,
                ),
                RefreshReply::Answered(status, body) => if is_success(status) {
                    match body {
                        Some(body) => {
                            &&& r matches Ok(tokens)
                            &&& tokens.access_token@ == body.access_token@
                            &&& tokens.refresh_token@ == rotated(body, session.token())
                            &&& tokens.expires_at == body.expires_at
                        },
                        None => r == Err::<RefreshedTokens, RefreshFailure>(
                            RefreshFailure::TemporarilyUnavailable,
                        ),
                    }
                } else if status == 400 || status == 401 {
                    r == Err::<RefreshedTokens, RefreshFailure>(
                        RefreshFailure::ReauthenticationRequired,
                    )
                } else {
                    r == Err::<RefreshedTokens, RefreshFailure>(
                        RefreshFailure::TemporarilyUnavailable,
                    )
                },
            },
    {
        match reply {
            RefreshReply::Unreachable => Err(RefreshFailure::TemporarilyUnavailable),
            RefreshReply::Answered(status, body) => {
                if 200 <= status && status < 300 {
                    match body {
                        Some(body) => {
                            let refresh_token = match body.refresh_token {
                                Some(next) => next,
                                None => session.refresh_token.clone(),
                            };
                            Ok(
                                RefreshedTokens {
                                    access_token: body.access_token,
                                    refresh_token,
                                    expires_at: body.expires_at,
                                },
                            )
                        },
                        None => Err(RefreshFailure::TemporarilyUnavailable),
                    }
                } else if status == 400 || status == 401 {
                    Err(RefreshFailure::ReauthenticationRequired)
                } else {
                    Err(RefreshFailure::TemporarilyUnavailable)
                }
            },
        }
    }
}

impl Default for OpenAiOAuth {
    fn default() -> (r: Self)
        ensures
            r.address() == "https://auth.openai.com/oauth/token"@,
    {
        OpenAiOAuth::new()
    }
}

/// One part of a completion.
pub enum AssistantPart {
    /// Text.
    Text(String),
    /// Anything else.
    Other,
}

/// The text parts of a completion, one after the other.
pub open spec fn part_texts(parts: Seq<AssistantPart>) -> Seq<char>
    decreases parts.len(),
{
    if parts.len() == 0 {
        Seq::empty()
    } else {
        match parts.last() {
            AssistantPart::Text(t) => part_texts(parts.drop_last()) + t@,
            AssistantPart::Other => part_texts(parts.drop_last()),
        }
    }
}

/// The report text of a completion.
pub fn completion_text(parts: &Vec<AssistantPart>) -> (r: String)
    ensures
        r@ == part_texts(parts@),
{
    let mut out = String::new();
    let mut i: usize = 0;
    assert(parts@.take(0) =~= Seq::empty());
    while i < parts.len()
        invariant
            i <= parts.len(),
            out@ == part_texts(parts@.take(i as int)),
        decreases parts.len() - i,
    {
        assert(parts@.take(i as int + 1).drop_last() =~= parts@.take(i as int));
        match &parts[i] {
            AssistantPart::Text(t) => out.append(t.as_str()),
            AssistantPart::Other => {},
        }
        i += 1;
    }
    assert(parts@.take(i as int) =~= parts@);
    out
}

/// The class of a failed completion.
pub open spec fn rig_class(status: Option<u16>) -> FailureClass {
    match status {
        Some(status) => if status == 401 || status == 403 {
            FailureClass::AuthenticationRequired
        } else if status == 429 {
            FailureClass::RateLimited
        } else {
            FailureClass::TemporarilyUnavailable
        },
        None => FailureClass::TemporarilyUnavailable,
    }
}

/// Classifies a Rig HTTP status without retaining vendor response text.
pub fn classify_rig_status(status: Option<u16>) -> (r: FailureClass)
    ensures
        r == rig_class(status),
{
    match status {
        Some(status) => {
            if status == 401 || status == 403 {
                FailureClass::AuthenticationRequired
            } else if status == 429 {
                FailureClass::RateLimited
            } else {
                FailureClass::TemporarilyUnavailable
            }
        },
        None => FailureClass::TemporarilyUnavailable,
    }
}

/// What came of one completion request.
pub enum RigReply {
    /// No client could be built.
    NoClient,
    /// The request failed with this status, if there was one.
    Refused(Option<u16>),
    /// The provider answered with these parts, and used this many tokens.
    Answered(Vec<AssistantPart>, u64),
}

/// The report text and the tokens of one OpenAI reasoning request, or its safe classification.
pub fn complete_with_rig(reply: RigReply) -> (r: Result<(String, Option<u64>), FailureClass>)
    ensures
        match reply {
            RigReply::NoClient => r == Err::<(String, Option<u64>), FailureClass>(
                FailureClass::TemporarilyUnavailable,
            ),
            RigReply::Refused(status) => r == Err::<(String, Option<u64>), FailureClass>(
                rig_class(status),
            ),
            RigReply::Answered(parts, tokens) => r matches Ok(answer) && answer.0@ == part_texts(
                parts@,
            ) && answer.1 == Some(tokens),
        },
{
    match reply {
        RigReply::NoClient => Err(FailureClass::TemporarilyUnavailable),
        RigReply::Refused(status) => Err(classify_rig_status(status)),
        RigReply::Answered(parts, tokens) => Ok((completion_text(&parts), Some(tokens))),
    }
}

/// What the unattended path does next.
#[derive(Debug, Clone, Copy, PartialEq, Eq, Structural)]
pub enum UnattendedStep {
    /// Load the cached session.
    Load,
    /// Refresh it.
    Refresh,
    /// Store the rotated session.
    Store,
    /// Request the completion.
    Complete,
    /// The path is over.
    Ended,
}

/// What came of an action.
pub enum UnattendedEvent {
    /// The cache was loaded.
    Loaded(Result<Option<RefreshSession>, CacheError>),
    /// The session was refreshed.
    Refreshed(Result<RefreshedTokens, RefreshFailure>),
    /// The rotated session was stored.
    Stored(Result<(), CacheError>),
    /// The completion came back.
    Completed(Result<(), FailureClass>),
}

/// The state of the unattended path.
pub struct UnattendedView {
    /// What is done next.
    pub step: UnattendedStep,
    /// The session that is refreshed, and after that the session that is stored.
    pub token: Option<Seq<char>>,
    /// The access token of the completion.
    pub access_token: Option<Seq<char>>,
    /// The outcome of a path that is over.
    pub result: Result<(), FailureClass>,
}

/// The first state of the unattended path.
pub open spec fn unattended_start() -> UnattendedView {
    UnattendedView {
        step: UnattendedStep::Load,
        token: None,
        access_token: None,
        result: Err(FailureClass::TemporarilyUnavailable),
    }
}

/// The class of a cache failure.
pub open spec fn cache_class(error: CacheError) -> FailureClass {
    match error {
        CacheError::Invalid => FailureClass::AuthenticationRequired,
        CacheError::Io => FailureClass::TemporarilyUnavailable,
    }
}

/// The class of a refresh failure.
pub open spec fn refresh_class(failure: RefreshFailure) -> FailureClass {
    match failure {
        RefreshFailure::ReauthenticationRequired => FailureClass::AuthenticationRequired,
        RefreshFailure::TemporarilyUnavailable => FailureClass::TemporarilyUnavailable,
    }
}

/// The path is over with a failure.
pub open spec fn unattended_failed(state: UnattendedView, class: FailureClass) -> UnattendedView {
    UnattendedView { step: UnattendedStep::Ended, result: Err(class), ..state }
}

/// The next state of the unattended path. An event that does not answer the action changes
/// nothing.
pub open spec fn unattended_next(
    state: UnattendedView,
    event: UnattendedEvent,
) -> UnattendedView {
    match (state.step, event) {
        (UnattendedStep::Load, UnattendedEvent::Loaded(Ok(Some(session)))) => UnattendedView {
            step: UnattendedStep::Refresh,
            token: Some(session.token()),
            ..state
        },
        (UnattendedStep::Load, UnattendedEvent::Loaded(Ok(None))) => unattended_failed(
            state,
            FailureClass::AuthenticationRequired,
        ),
        (UnattendedStep::Load, UnattendedEvent::Loaded(Err(error))) => unattended_failed(
            state,
            cache_class(error),
        ),
        (UnattendedStep::Refresh, UnattendedEvent::Refreshed(Ok(tokens))) => UnattendedView {
            step: UnattendedStep::Store,
            token: Some(tokens.refresh_token@),
            access_token: Some(tokens.access_token@),
            ..state
        },
        (UnattendedStep::Refresh, UnattendedEvent::Refreshed(Err(failure))) => unattended_failed(
            state,
            refresh_class(failure),
        ),
        (UnattendedStep::Store, UnattendedEvent::Stored(Ok(()))) => UnattendedView {
            step: UnattendedStep::Complete,
            ..state
        },
        (UnattendedStep::Store, UnattendedEvent::Stored(Err(error))) => unattended_failed(
            state,
            cache_class(error),
        ),
        (UnattendedStep::Complete, UnattendedEvent::Completed(Ok(()))) => UnattendedView {
            step: UnattendedStep::Ended,
            result: Ok(()),
            ..state
        },
        (UnattendedStep::Complete, UnattendedEvent::Completed(Err(class))) => unattended_failed(
            state,
            class,
        ),
        _ => state,
    }
}

/// The state of the unattended path after some events.
pub open spec fn unattended_after(events: Seq<UnattendedEvent>) -> UnattendedView
    decreases events.len(),
{
    if events.len() == 0 {
        unattended_start()
    } else {
        unattended_next(unattended_after(events.drop_last()), events.last())
    }
}

/// Refreshes the cached session, persists rotation, then completes, as steps that a caller
/// performs in order. It never invokes device flow.
pub struct Unattended {
    step: UnattendedStep,
    session: Option<RefreshSession>,
    access_token: Option<String>,
    result: Result<(), FailureClass>,
}

impl View for Unattended {
    type V = UnattendedView;

    closed spec fn view(&self) -> UnattendedView {
        UnattendedView {
            step: self.step,
            token: match self.session {
                Some(session) => Some(session.token()),
                None => None,
            },
            access_token: match self.access_token {
                Some(token) => Some(token@),
                None => None,
            },
            result: self.result,
        }
    }
}

fn class_of_cache(error: CacheError) -> (r: FailureClass)
    ensures
        r == cache_class(error),
{
    match error {
        CacheError::Invalid => FailureClass::AuthenticationRequired,
        CacheError::Io => FailureClass::TemporarilyUnavailable,
    }
}

fn class_of_refresh(failure: RefreshFailure) -> (r: FailureClass)
    ensures
        r == refresh_class(failure),
{
    match failure {
        RefreshFailure::ReauthenticationRequired => FailureClass::AuthenticationRequired,
        RefreshFailure::TemporarilyUnavailable => FailureClass::TemporarilyUnavailable,
    }
}

impl Unattended {
    /// Starts the unattended path.
    pub fn refresh_and_complete() -> (r: Self)
        ensures
            r@ == unattended_start(),
    {
        Unattended {
            step: UnattendedStep::Load,
            session: None,
            access_token: None,
            result: Err(FailureClass::TemporarilyUnavailable),
        }
    }

    /// What is done next.
    pub fn step(&self) -> (r: UnattendedStep)
        ensures
            r == self@.step,
    {
        self.step
    }

    /// The session to refresh or to store.
    pub fn session(&self) -> (r: Option<&RefreshSession>)
        ensures
            match r {
                Some(session) => self@.token == Some(session.token()),
                None => self@.token is None,
            },
    {
        self.session.as_ref()
    }

    /// The access token of the completion.
    pub fn access_token(&self) -> (r: Option<&str>)
        ensures
            match r {
                Some(token) => self@.access_token == Some(token@),
                None => self@.access_token is None,
            },
    {
        match &self.access_token {
            Some(token) => Some(token.as_str()),
            None => None,
        }
    }

    /// The outcome of a path that is over.
    pub fn result(&self) -> (r: Result<(), FailureClass>)
        ensures
            r == self@.result,
    {
        self.result
    }

    fn fail(self, class: FailureClass) -> (r: Self)
        ensures
            r@ == unattended_failed(self@, class),
    {
        let mut next = self;
        next.step = UnattendedStep::Ended;
        next.result = Err(class);
        next
    }

    /// Takes what came of the action.
    pub fn advance(self, event: UnattendedEvent) -> (r: Self)
        ensures
            r@ == unattended_next(self@, event),
    {
        let mut next = self;
        match (next.step, event) {
            (UnattendedStep::Load, UnattendedEvent::Loaded(Ok(Some(session)))) => {
                next.step = UnattendedStep::Refresh;
                next.session = Some(session);
                next
            },
            (UnattendedStep::Load, UnattendedEvent::Loaded(Ok(None))) => next.fail(
                FailureClass::AuthenticationRequired,
            ),
            (UnattendedStep::Load, UnattendedEvent::Loaded(Err(error))) => next.fail(
                class_of_cache(error),
            ),
            (UnattendedStep::Refresh, UnattendedEvent::Refreshed(Ok(tokens))) => {
                next.step = UnattendedStep::Store;
                next.session = Some(RefreshSession::new(tokens.refresh_token.as_str()));
                next.access_token = Some(tokens.access_token);
                next
            },
            (UnattendedStep::Refresh, UnattendedEvent::Refreshed(Err(failure))) => next.fail(
                class_of_refresh(failure),
            ),
            (UnattendedStep::Store, UnattendedEvent::Stored(Ok(()))) => {
                next.step = UnattendedStep::Complete;
                next
            },
            (UnattendedStep::Store, UnattendedEvent::Stored(Err(error))) => next.fail(
                class_of_cache(error),
            ),
            (UnattendedStep::Complete, UnattendedEvent::Completed(Ok(()))) => {
                next.step = UnattendedStep::Ended;
                next.result = Ok(());
                next
            },
            (UnattendedStep::Complete, UnattendedEvent::Completed(Err(class))) => next.fail(class),
            _ => next,
        }
    }
}

/// A refresh that gave the tokens of a state.
pub open spec fn is_rotation(event: UnattendedEvent, state: UnattendedView) -> bool {
    match event {
        UnattendedEvent::Refreshed(Ok(tokens)) => state.token == Some(tokens.refresh_token@)
            && state.access_token == Some(tokens.access_token@),
        _ => false,
    }
}

/// The rotated session was stored.
pub open spec fn is_stored(event: UnattendedEvent) -> bool {
    event matches UnattendedEvent::Stored(Ok(()))
}

/// A completion is requested only after the rotated session was stored, and with the access
/// token of that rotation.
pub proof fn completion_follows_a_stored_rotation(events: Seq<UnattendedEvent>)
    requires
        unattended_after(events).step == UnattendedStep::Complete,
    ensures
        exists|i: int| 0 <= i < events.len() && #[trigger] is_stored(events[i]),
        exists|i: int|
            0 <= i < events.len() && #[trigger] is_rotation(events[i], unattended_after(events)),
{
    lemma_unattended(events);
}

/// What the states after the refresh rest on.
proof fn lemma_unattended(events: Seq<UnattendedEvent>)
    ensures
        unattended_after(events).step == UnattendedStep::Store || unattended_after(events).step
            == UnattendedStep::Complete ==> (exists|i: int|
            0 <= i < events.len() && #[trigger] is_rotation(events[i], unattended_after(events))),
        unattended_after(events).step == UnattendedStep::Complete ==> (exists|i: int|
            0 <= i < events.len() && #[trigger] is_stored(events[i])),
    decreases events.len(),
{
    if events.len() > 0 {
        let before = events.drop_last();
        let state = unattended_after(events);
        let earlier = unattended_after(before);
        lemma_unattended(before);
        assert(events[events.len() - 1] == events.last());
        if earlier.step == UnattendedStep::Refresh && state.step == UnattendedStep::Store {
            assert(is_rotation(events[events.len() - 1], state));
        }
        if earlier.step == UnattendedStep::Store && state.step == UnattendedStep::Complete {
            assert(is_stored(events[events.len() - 1]));
        }
        if earlier.step == UnattendedStep::Store || earlier.step == UnattendedStep::Complete {
            let i = choose|i: int|
                0 <= i < before.len() && #[trigger] is_rotation(before[i], earlier);
            assert(events[i] == before[i]);
            assert(is_rotation(events[i], earlier));
            if state.step == UnattendedStep::Store || state.step == UnattendedStep::Complete {
                assert(is_rotation(events[i], state));
            }
        }
        if earlier.step == UnattendedStep::Complete {
            let j = choose|j: int| 0 <= j < before.len() && #[trigger] is_stored(before[j]);
            assert(is_stored(events[j]));
        }
    }
}

/// Which statuses mean what to the unattended path.
pub proof fn statuses_are_classified(status: u16)
    ensures
        rig_class(Some(status)) == FailureClass::AuthenticationRequired <==> status == 401 || status
            == 403,
        rig_class(Some(status)) == FailureClass::RateLimited <==> status == 429,
        rig_class(Some(status)) == FailureClass::TemporarilyUnavailable <==> status != 401 && status
            != 403 && status != 429,
        rig_class(None) == FailureClass::TemporarilyUnavailable,
        is_success(status) <==> status / 100 == 2,
        cache_class(CacheError::Invalid) == FailureClass::AuthenticationRequired,
        cache_class(CacheError::Io) == FailureClass::TemporarilyUnavailable,
        refresh_class(RefreshFailure::ReauthenticationRequired)
            == FailureClass::AuthenticationRequired,
        refresh_class(RefreshFailure::TemporarilyUnavailable)
            == FailureClass::TemporarilyUnavailable,
{
}

/// A completion is its texts in order; other parts leave no trace.
pub proof fn completions_are_their_texts_in_order(parts: Seq<AssistantPart>, part: AssistantPart)
    ensures
        part_texts(Seq::empty()).len() == 0,
        part_texts(parts.push(part)) == (match part {
            AssistantPart::Text(t) => part_texts(parts) + t@,
            AssistantPart::Other => part_texts(parts),
        }),
{
    assert(parts.push(part).drop_last() =~= parts);
}

/// The token that a refresh leaves is the one that was given, and else the one that was used.
pub proof fn refreshes_leave_the_newest_token(body: RefreshResponse, token: Seq<char>)
    ensures
        body.refresh_token matches Some(next) ==> rotated(body, token) == next@,
        body.refresh_token is None ==> rotated(body, token) == token,
{
}

/// The unattended path loads, refreshes, stores and completes, in this order, and stops at the
/// first failure with its class.
pub proof fn unattended_path_takes_its_steps_in_order(
    state: UnattendedView,
    loaded: Result<Option<RefreshSession>, CacheError>,
    refreshed: Result<RefreshedTokens, RefreshFailure>,
    stored: Result<(), CacheError>,
    completed: Result<(), FailureClass>,
)
    ensures
        ({
            let load = unattended_next(state, UnattendedEvent::Loaded(loaded));
            let refresh = unattended_next(state, UnattendedEvent::Refreshed(refreshed));
            let store = unattended_next(state, UnattendedEvent::Stored(stored));
            let complete = unattended_next(state, UnattendedEvent::Completed(completed));
            &&& state.step == UnattendedStep::Load ==> match loaded {
                Ok(Some(session)) => load.step == UnattendedStep::Refresh && load.token == Some(
                    session.token(),
                ),
                Ok(None) => load.step == UnattendedStep::Ended && load.result == Err::<
                    (),
                    FailureClass,
                >(FailureClass::AuthenticationRequired),
                Err(CacheError::Invalid) => load.step == UnattendedStep::Ended && load.result
                    == Err::<(), FailureClass>(FailureClass::AuthenticationRequired),
                Err(CacheError::Io) => load.step == UnattendedStep::Ended && load.result == Err::<
                    (),
                    FailureClass,
                >(FailureClass::TemporarilyUnavailable),
            }
            &&& state.step == UnattendedStep::Refresh ==> match refreshed {
                Ok(tokens) => refresh.step == UnattendedStep::Store && refresh.token == Some(
                    tokens.refresh_token@,
                ) && refresh.access_token == Some(tokens.access_token@),
                Err(RefreshFailure::ReauthenticationRequired) => refresh.step
                    == UnattendedStep::Ended && refresh.result == Err::<(), FailureClass>(
                    FailureClass::AuthenticationRequired,
                ),
                Err(RefreshFailure::TemporarilyUnavailable) => refresh.step
                    == UnattendedStep::Ended && refresh.result == Err::<(), FailureClass>(
                    FailureClass::TemporarilyUnavailable,
                ),
            }
            &&& state.step == UnattendedStep::Store ==> match stored {
                Ok(()) => store == (UnattendedView { step: UnattendedStep::Complete, ..state }),
                Err(CacheError::Invalid) => store.step == UnattendedStep::Ended && store.result
                    == Err::<(), FailureClass>(FailureClass::AuthenticationRequired),
                Err(CacheError::Io) => store.step == UnattendedStep::Ended && store.result == Err::<
                    (),
                    FailureClass,
                >(FailureClass::TemporarilyUnavailable),
            }
            &&& state.step == UnattendedStep::Complete ==> complete.step == UnattendedStep::Ended
                && complete.result is Ok == completed is Ok && (completed matches Err(class)
                ==> complete.result == Err::<(), FailureClass>(class))
        }),
{
}

/// A cache record reads back as its token, and a temporary file is hidden, beside the cache file and
/// named by the suffix alone.
pub proof fn cache_records_name_their_token(
    token: Seq<char>,
    other: Seq<char>,
    name: Seq<char>,
    suffix: nat,
    next: nat,
)
    ensures
        cache_record(token) == cache_record(other) ==> token == other,
        temporary_file(Some(name), suffix) == "."@ + name + "."@ + number::decimal(suffix)
            + ".tmp"@,
        temporary_file(None, suffix) == temporary_file(Some("auth"@), suffix),
        temporary_file(Some(name), suffix) == temporary_file(Some(name), next) ==> suffix == next,
{
    let keys = seq!["refresh_token"@];
    let a = seq![json::json_string(token)];
    let b = seq![json::json_string(other)];
    assert(json::members(keys, a) =~= seq![json::member("refresh_token"@, a[0])]);
    assert(json::members(keys, b) =~= seq![json::member("refresh_token"@, b[0])]);
    if cache_record(token) == cache_record(other) {
        json::lemma_object_reads_back(keys, a, b);
        assert(a[0] == b[0]);
        json::lemma_string_reads_back(token, other);
    }
    let front = "."@ + name + "."@;
    let x = number::decimal(suffix);
    let y = number::decimal(next);
    if temporary_file(Some(name), suffix) == temporary_file(Some(name), next) {
        let whole = temporary_file(Some(name), suffix);
        reveal_strlit(".tmp");
        assert(whole =~= front + x + ".tmp"@);
        assert(whole =~= front + y + ".tmp"@);
        assert(x.len() == y.len());
        assert(x =~= whole.subrange(front.len() as int, front.len() as int + x.len()));
        assert(y =~= whole.subrange(front.len() as int, front.len() as int + y.len()));
        number::lemma_decimal_value(suffix);
        number::lemma_decimal_value(next);
    }
}

/// A cache is replaced step by step: directory, temporary file, record, synchronization, rename. Every
/// step of it private before the record is written; a failure before the temporary file ends it, and one
/// after that removes the file.
pub proof fn caches_are_replaced_step_by_step()
    ensures
        store_after(Seq::empty()) == StoreStep::CreateParent,
        store_next(StoreStep::CreateParent, true) == StoreStep::ProtectParent,
        store_next(StoreStep::ProtectParent, true) == StoreStep::CreateTemporary,
        store_next(StoreStep::CreateTemporary, true) == StoreStep::ProtectTemporary,
        store_next(StoreStep::ProtectTemporary, true) == StoreStep::Write,
        store_next(StoreStep::Write, true) == StoreStep::Synchronize,
        store_next(StoreStep::Synchronize, true) == StoreStep::Rename,
        store_next(StoreStep::Rename, true) == StoreStep::Stored,
        store_next(StoreStep::CreateParent, false) == StoreStep::Failed,
        store_next(StoreStep::ProtectParent, false) == StoreStep::Failed,
        store_next(StoreStep::CreateTemporary, false) == StoreStep::RemoveTemporary,
        store_next(StoreStep::ProtectTemporary, false) == StoreStep::RemoveTemporary,
        store_next(StoreStep::Write, false) == StoreStep::RemoveTemporary,
        store_next(StoreStep::Synchronize, false) == StoreStep::RemoveTemporary,
        store_next(StoreStep::Rename, false) == StoreStep::RemoveTemporary,
        forall|done: bool| store_next(StoreStep::RemoveTemporary, done) == StoreStep::Failed,
        unattended_after(Seq::empty()).step == UnattendedStep::Load,
        unattended_after(Seq::empty()).result is Err,
{
}

} // verus!
