//! Coordinates remote validation and durable manual handoff without granting GitHub write authority.
//!
//! The caller supplies journal-derived qualification and deployment-owned repository/worker policy.
//! Missing qualification, changed source, transport failure, and stale evidence remain non-ready.

use crate::gitops::artifact::{CandidateView, ManualRepairCandidate, ManualRepairRequest};
use crate::gitops::handoff::{HandoffPolicy, ManualHandoffRequest, ManualRepairHandoff};
use crate::gitops::qualified_deployment::QualifiedDeployment;
use crate::gitops::sandbox::runner::remote;
use crate::gitops::sandbox::runner::remote::{JobView, RemoteJob};
use crate::gitops::sandbox::runner::{ReceiptView, ValidationReceipt};
use crate::gitops::sandbox::SandboxError;
use crate::gitops::snapshot::{RepositorySnapshot, SnapshotView};
use crate::reasoning::journal::JournalContext;
use crate::text;
use vstd::prelude::*;

verus! {

/// Trusted incident selection; source, replacement image, and evidence digest are derived internally.
pub struct IncidentRepairRequest<'a> {
    /// Protected deployment completion to resolve in the journal.
    pub deployment_id: &'a str,
    /// Server-owned incident/run scope whose durable evidence must exist.
    pub context: &'a JournalContext,
    /// Deployment-owned read-only local mirror, never a model-selected path.
    pub repository: &'a str,
    /// Immutable base observed by the caller's trusted repository adapter.
    pub base: &'a str,
}

/// Server-owned inputs for one explicit, previously prepared manual repair candidate.
pub struct ManualValidationRequest<'a> {
    /// Candidate already committed to the incident journal.
    pub candidate: &'a ManualRepairCandidate,
    /// Original incident/run binding.
    pub context: &'a JournalContext,
    /// Deployment-owned local read-only mirror, kept fresh by an external trusted synchronizer.
    pub repository: &'a str,
    /// Exact base observed with the candidate's evidence.
    pub base: &'a str,
    /// Independently enrolled validation policy.
    pub policy: &'a HandoffPolicy,
}

/// What preparation does next.
#[derive(Debug, Clone, Copy, PartialEq, Eq, Structural)]
pub enum PrepareStep {
    /// Read the clock, and resolve the qualified deployment in the journal.
    Qualify,
    /// Read the digest of the incident's durable evidence from the journal.
    Evidence,
    /// Capture the repository at its base, with the qualified image.
    Capture,
    /// Read the clock, and prepare the candidate in the journal.
    Prepare,
    /// Preparation is over.
    Ended,
}

/// What came of an action.
pub enum PrepareEvent {
    /// It failed.
    Failed,
    /// The clock could not be read.
    ClockFailed,
    /// The journal holds this qualified deployment.
    Qualified(Option<QualifiedDeployment>),
    /// The journal holds evidence of this digest.
    Evidence(Option<String>),
    /// The capture gave this snapshot.
    Captured(RepositorySnapshot),
    /// The journal prepared this candidate.
    Prepared(Option<ManualRepairCandidate>),
}

/// The state of preparation.
pub struct PrepareView {
    /// What is done next.
    pub step: PrepareStep,
    /// The qualified image.
    pub image: Option<Seq<char>>,
    /// The digest of the evidence.
    pub evidence: Option<Seq<char>>,
    /// The snapshot.
    pub snapshot: Option<SnapshotView>,
    /// The outcome of a preparation that is over.
    pub result: Result<Option<CandidateView>, SandboxError>,
}

/// The first state of preparation.
pub open spec fn prepare_start() -> PrepareView {
    PrepareView {
        step: PrepareStep::Qualify,
        image: None,
        evidence: None,
        snapshot: None,
        result: Err(SandboxError::Failed),
    }
}

/// Preparation is over.
pub open spec fn prepare_ended(
    state: PrepareView,
    result: Result<Option<CandidateView>, SandboxError>,
) -> PrepareView {
    PrepareView { step: PrepareStep::Ended, result, ..state }
}

/// A step before which the clock is read.
pub open spec fn prepare_reads_clock(step: PrepareStep) -> bool {
    step == PrepareStep::Qualify || step == PrepareStep::Prepare
}

/// The next state of preparation. An event that does not answer the action changes nothing.
pub open spec fn prepare_next(state: PrepareView, event: PrepareEvent) -> PrepareView {
    match (state.step, event) {
        (PrepareStep::Ended, _) => state,
        (_, PrepareEvent::Failed) => prepare_ended(state, Err(SandboxError::Failed)),
        (_, PrepareEvent::ClockFailed) => if prepare_reads_clock(state.step) {
            prepare_ended(state, Err(SandboxError::Unavailable))
        } else {
            state
        },
        (PrepareStep::Qualify, PrepareEvent::Qualified(Some(deployment))) => PrepareView {
            step: PrepareStep::Evidence,
            image: Some(deployment.receipt().image@),
            ..state
        },
        (PrepareStep::Qualify, PrepareEvent::Qualified(None)) => prepare_ended(state, Ok(None)),
        (PrepareStep::Evidence, PrepareEvent::Evidence(Some(digest))) => PrepareView {
            step: PrepareStep::Capture,
            evidence: Some(digest@),
            ..state
        },
        (PrepareStep::Evidence, PrepareEvent::Evidence(None)) => prepare_ended(state, Ok(None)),
        (PrepareStep::Capture, PrepareEvent::Captured(snapshot)) => PrepareView {
            step: PrepareStep::Prepare,
            snapshot: Some(snapshot.captured_view()),
            ..state
        },
        (PrepareStep::Prepare, PrepareEvent::Prepared(Some(candidate))) => prepare_ended(
            state,
            Ok(Some(candidate.data())),
        ),
        (PrepareStep::Prepare, PrepareEvent::Prepared(None)) => prepare_ended(state, Ok(None)),
        _ => state,
    }
}

/// Rebuilds a candidate from current qualification, scoped evidence, and committed source, as
/// steps that a caller performs in order. Repeated preparation is idempotent; it never restores
/// authority by deserializing candidate JSON.
pub struct Preparation {
    step: PrepareStep,
    image: Option<String>,
    evidence: Option<String>,
    snapshot: Option<RepositorySnapshot>,
    result: Result<Option<ManualRepairCandidate>, SandboxError>,
}

/// A text that may be missing.
pub open spec fn optional_text(s: Option<String>) -> Option<Seq<char>> {
    match s {
        Some(s) => Some(s@),
        None => None,
    }
}

impl View for Preparation {
    type V = PrepareView;

    closed spec fn view(&self) -> PrepareView {
        PrepareView {
            step: self.step,
            image: optional_text(self.image),
            evidence: optional_text(self.evidence),
            snapshot: match self.snapshot {
                Some(snapshot) => Some(snapshot.captured_view()),
                None => None,
            },
            result: match self.result {
                Ok(Some(candidate)) => Ok(Some(candidate.data())),
                Ok(None) => Ok(None),
                Err(error) => Err(error),
            },
        }
    }
}

impl Preparation {
    /// Starts preparation.
    pub fn prepare_incident_repair() -> (r: Self)
        ensures
            r@ == prepare_start(),
    {
        Preparation {
            step: PrepareStep::Qualify,
            image: None,
            evidence: None,
            snapshot: None,
            result: Err(SandboxError::Failed),
        }
    }

    /// What is done next.
    pub fn step(&self) -> (r: PrepareStep)
        ensures
            r == self@.step,
    {
        self.step
    }

    /// The image to capture the repository with.
    pub fn image(&self) -> (r: Option<&str>)
        ensures
            match r {
                Some(image) => self@.image == Some(image@),
                None => self@.image is None,
            },
    {
        match &self.image {
            Some(image) => Some(image.as_str()),
            None => None,
        }
    }

    /// What is asked of the journal: the request's own identities and base, and what the
    /// snapshot and the journal gave.
    pub fn candidate_request<'a>(&'a self, request: &IncidentRepairRequest<'a>, now: u64) -> (r:
        Option<ManualRepairRequest<'a>>)
        ensures
            match r {
                Some(wanted) => {
                    &&& self@.snapshot matches Some(snapshot) && wanted.current_base@
                        == snapshot.base && wanted.source@ == snapshot.original
                    &&& self@.evidence == Some(wanted.evidence_digest@)
                    &&& wanted.deployment_id@ == request.deployment_id@
                    &&& wanted.incident_id@ == request.context.incident_id@
                    &&& wanted.run_id@ == request.context.run_id@
                    &&& wanted.expected_base@ == request.base@
                    &&& wanted.now == now
                },
                None => self@.snapshot is None || self@.evidence is None,
            },
    {
        match (&self.snapshot, &self.evidence) {
            (Some(snapshot), Some(evidence)) => Some(
                ManualRepairRequest {
                    deployment_id: request.deployment_id,
                    incident_id: request.context.incident_id.as_str(),
                    run_id: request.context.run_id.as_str(),
                    expected_base: request.base,
                    current_base: snapshot.base_sha(),
                    evidence_digest: evidence.as_str(),
                    source: snapshot.original_source(),
                    now,
                },
            ),
            _ => None,
        }
    }

    /// The outcome of a preparation that is over.
    pub fn result(self) -> (r: Result<Option<ManualRepairCandidate>, SandboxError>)
        ensures
            match r {
                Ok(Some(candidate)) => self@.result == Ok::<Option<CandidateView>, SandboxError>(
                    Some(candidate.data()),
                ),
                Ok(None) => self@.result == Ok::<Option<CandidateView>, SandboxError>(None),
                Err(error) => self@.result == Err::<Option<CandidateView>, SandboxError>(error),
            },
    {
        self.result
    }

    fn end(self, result: Result<Option<ManualRepairCandidate>, SandboxError>) -> (r: Self)
        ensures
            r@ == prepare_ended(
                self@,
                match result {
                    Ok(Some(candidate)) => Ok(Some(candidate.data())),
                    Ok(None) => Ok(None),
                    Err(error) => Err(error),
                },
            ),
    {
        let mut next = self;
        next.step = PrepareStep::Ended;
        next.result = result;
        next
    }

    /// Takes what came of the action.
    pub fn advance(self, event: PrepareEvent) -> (r: Self)
        ensures
            r@ == prepare_next(self@, event),
    {
        let mut next = self;
        match (next.step, event) {
            (PrepareStep::Ended, _) => next,
            (_, PrepareEvent::Failed) => next.end(Err(SandboxError::Failed)),
            (step, PrepareEvent::ClockFailed) => {
                if step == PrepareStep::Qualify || step == PrepareStep::Prepare {
                    next.end(Err(SandboxError::Unavailable))
                } else {
                    next
                }
            },
            (PrepareStep::Qualify, PrepareEvent::Qualified(Some(deployment))) => {
                next.image = Some(deployment.image().to_owned());
                next.step = PrepareStep::Evidence;
                next
            },
            (PrepareStep::Qualify, PrepareEvent::Qualified(None)) => next.end(Ok(None)),
            (PrepareStep::Evidence, PrepareEvent::Evidence(Some(digest))) => {
                next.evidence = Some(digest);
                next.step = PrepareStep::Capture;
                next
            },
            (PrepareStep::Evidence, PrepareEvent::Evidence(None)) => next.end(Ok(None)),
            (PrepareStep::Capture, PrepareEvent::Captured(snapshot)) => {
                next.snapshot = Some(snapshot);
                next.step = PrepareStep::Prepare;
                next
            },
            (PrepareStep::Prepare, PrepareEvent::Prepared(candidate)) => next.end(Ok(candidate)),
            _ => next,
        }
    }
}

/// The state of preparation after some events.
pub open spec fn prepare_after(events: Seq<PrepareEvent>) -> PrepareView
    decreases events.len(),
{
    if events.len() == 0 {
        prepare_start()
    } else {
        prepare_next(prepare_after(events.drop_last()), events.last())
    }
}

/// A candidate is asked for only with a qualified image, durable evidence and a captured source;
/// without qualification or evidence nothing is prepared.
pub proof fn candidates_need_qualification_evidence_and_source(events: Seq<PrepareEvent>)
    ensures
        ({
            let state = prepare_after(events);
            &&& state.step == PrepareStep::Prepare ==> state.image is Some && state.evidence is Some
                && state.snapshot is Some
            &&& state.result matches Ok(Some(_)) ==> state.image is Some && state.evidence is Some
                && state.snapshot is Some
        }),
{
    lemma_prepare(events);
}

proof fn lemma_prepare(events: Seq<PrepareEvent>)
    ensures
        ({
            let state = prepare_after(events);
            &&& (state.step == PrepareStep::Evidence || state.step == PrepareStep::Capture
                || state.step == PrepareStep::Prepare) ==> state.image is Some
            &&& (state.step == PrepareStep::Capture || state.step == PrepareStep::Prepare)
                ==> state.evidence is Some
            &&& state.step == PrepareStep::Prepare ==> state.snapshot is Some
            &&& state.step != PrepareStep::Ended ==> state.result is Err
            &&& state.result matches Ok(Some(_)) ==> state.image is Some && state.evidence is Some
                && state.snapshot is Some
        }),
    decreases events.len(),
{
    if events.len() > 0 {
        lemma_prepare(events.drop_last());
    }
}

/// What validation does next.
#[derive(Debug, Clone, Copy, PartialEq, Eq, Structural)]
pub enum ValidateStep {
    /// Look up an earlier attempt for the candidate in the journal.
    Attempt,
    /// Capture the repository.
    Capture,
    /// Read the clock and fresh entropy, and form the request.
    Request,
    /// Reserve the attempt in the journal, before any SSH side effect.
    Reserve,
    /// Send the request to the worker.
    Dispatch,
    /// Record the receipt in the journal.
    Record,
    /// Record the failure in the journal.
    RecordFailure,
    /// Capture the repository again.
    Recapture,
    /// Read the clock, and journal the handoff.
    Finalize,
    /// Validation is over.
    Ended,
}

/// What came of an action.
pub enum ValidateEvent {
    /// It failed.
    Failed,
    /// The clock could not be read.
    ClockFailed,
    /// Whether there is an earlier attempt.
    Attempted(bool),
    /// The capture gave this snapshot.
    Captured(RepositorySnapshot),
    /// The time, and fresh entropy where it could be had.
    Issued(u64, Option<Vec<u8>>),
    /// Whether the attempt is reserved.
    Reserved(bool),
    /// The worker gave this result.
    Dispatched(Result<ValidationReceipt, SandboxError>),
    /// The journal recorded it.
    Recorded,
    /// The journal finalized the repair with this handoff.
    Finalized(Option<ManualRepairHandoff>),
}

/// The state of validation.
pub struct ValidateView {
    /// What is done next.
    pub step: ValidateStep,
    /// The snapshot that is validated.
    pub snapshot: Option<SnapshotView>,
    /// The request.
    pub job: Option<JobView>,
    /// The receipt.
    pub receipt: Option<ReceiptView>,
    /// The snapshot that was captured again.
    pub current: Option<SnapshotView>,
    /// The failure that is recorded.
    pub failure: SandboxError,
    /// The outcome of a validation that is over: the handoff, if there is one.
    pub result: Result<Option<Seq<char>>, SandboxError>,
}

/// The first state of validation.
pub open spec fn validate_start() -> ValidateView {
    ValidateView {
        step: ValidateStep::Attempt,
        snapshot: None,
        job: None,
        receipt: None,
        current: None,
        failure: SandboxError::Failed,
        result: Err(SandboxError::Failed),
    }
}

/// Validation is over with an error.
pub open spec fn validate_failed(state: ValidateView, error: SandboxError) -> ValidateView {
    ValidateView { step: ValidateStep::Ended, result: Err(error), ..state }
}

/// A step before which the clock is read.
pub open spec fn validate_reads_clock(step: ValidateStep) -> bool {
    step == ValidateStep::Request || step == ValidateStep::Finalize
}

/// The next state of validation. An event that does not answer the action changes nothing.
pub open spec fn validate_next(
    state: ValidateView,
    candidate: ManualRepairCandidate,
    policy: HandoffPolicy,
    event: ValidateEvent,
) -> ValidateView {
    match (state.step, event) {
        (ValidateStep::Ended, _) => state,
        (_, ValidateEvent::Failed) => validate_failed(state, SandboxError::Failed),
        (_, ValidateEvent::ClockFailed) => if validate_reads_clock(state.step) {
            validate_failed(state, SandboxError::Unavailable)
        } else {
            state
        },
        (ValidateStep::Attempt, ValidateEvent::Attempted(exists)) => if exists {
            validate_failed(state, SandboxError::AttemptExists)
        } else {
            ValidateView { step: ValidateStep::Capture, ..state }
        },
        (ValidateStep::Capture, ValidateEvent::Captured(snapshot)) => ValidateView {
            step: ValidateStep::Request,
            snapshot: Some(snapshot.captured_view()),
            ..state
        },
        (ValidateStep::Request, ValidateEvent::Issued(now, entropy)) => match state.snapshot {
            Some(snapshot) => match remote::fresh_job(
                candidate,
                snapshot,
                policy,
                now,
                match entropy {
                    Some(bytes) => Some(bytes@),
                    None => None,
                },
            ) {
                Ok(job) => ValidateView { step: ValidateStep::Reserve, job: Some(job), ..state },
                Err(error) => validate_failed(state, error),
            },
            None => validate_failed(state, SandboxError::Failed),
        },
        (ValidateStep::Reserve, ValidateEvent::Reserved(reserved)) => if reserved {
            ValidateView { step: ValidateStep::Dispatch, ..state }
        } else {
            validate_failed(state, SandboxError::AttemptExists)
        },
        (ValidateStep::Dispatch, ValidateEvent::Dispatched(Ok(receipt))) => ValidateView {
            step: ValidateStep::Record,
            receipt: Some(receipt.data()),
            ..state
        },
        (ValidateStep::Dispatch, ValidateEvent::Dispatched(Err(error))) => ValidateView {
            step: ValidateStep::RecordFailure,
            failure: error,
            ..state
        },
        (ValidateStep::Record, ValidateEvent::Recorded) => ValidateView {
            step: ValidateStep::Recapture,
            ..state
        },
        (ValidateStep::RecordFailure, ValidateEvent::Recorded) => validate_failed(
            state,
            state.failure,
        ),
        (ValidateStep::Recapture, ValidateEvent::Captured(current)) => match state.snapshot {
            Some(snapshot) => if current.captured_view().digest == snapshot.digest {
                ValidateView {
                    step: ValidateStep::Finalize,
                    current: Some(current.captured_view()),
                    ..state
                }
            } else {
                validate_failed(state, SandboxError::Failed)
            },
            None => validate_failed(state, SandboxError::Failed),
        },
        (ValidateStep::Finalize, ValidateEvent::Finalized(handoff)) => ValidateView {
            step: ValidateStep::Ended,
            result: Ok(
                match handoff {
                    Some(handoff) => Some(handoff.wire()),
                    None => None,
                },
            ),
            ..state
        },
        _ => state,
    }
}

/// Validates remotely, rechecks the local committed source, then journals operator handoff, as
/// steps that a caller performs in order. It does not fetch Git, publish artifacts, open PRs,
/// or mutate deployment state; stopping at any step never grants artifact readiness.
pub struct Validation {
    step: ValidateStep,
    snapshot: Option<RepositorySnapshot>,
    job: Option<RemoteJob>,
    receipt: Option<ValidationReceipt>,
    current: Option<RepositorySnapshot>,
    failure: SandboxError,
    result: Result<Option<ManualRepairHandoff>, SandboxError>,
}

impl View for Validation {
    type V = ValidateView;

    closed spec fn view(&self) -> ValidateView {
        ValidateView {
            step: self.step,
            snapshot: match self.snapshot {
                Some(snapshot) => Some(snapshot.captured_view()),
                None => None,
            },
            job: match self.job {
                Some(job) => Some(job@),
                None => None,
            },
            receipt: match self.receipt {
                Some(receipt) => Some(receipt.data()),
                None => None,
            },
            current: match self.current {
                Some(current) => Some(current.captured_view()),
                None => None,
            },
            failure: self.failure,
            result: match self.result {
                Ok(Some(handoff)) => Ok(Some(handoff.wire())),
                Ok(None) => Ok(None),
                Err(error) => Err(error),
            },
        }
    }
}

impl Validation {
    /// Starts validation.
    pub fn validate_manual_repair() -> (r: Self)
        ensures
            r@ == validate_start(),
    {
        Validation {
            step: ValidateStep::Attempt,
            snapshot: None,
            job: None,
            receipt: None,
            current: None,
            failure: SandboxError::Failed,
            result: Err(SandboxError::Failed),
        }
    }

    /// What is done next.
    pub fn step(&self) -> (r: ValidateStep)
        ensures
            r == self@.step,
    {
        self.step
    }

    /// The request.
    pub fn job(&self) -> (r: Option<&RemoteJob>)
        ensures
            match r {
                Some(job) => self@.job == Some(job@),
                None => self@.job is None,
            },
    {
        self.job.as_ref()
    }

    /// The request as it is reserved and recorded in the journal.
    pub fn wire(&self) -> (r: Option<String>)
        ensures
            match r {
                Some(wire) => self@.job matches Some(job) && wire@ == remote::job_json(job),
                None => self@.job is None,
            },
    {
        match &self.job {
            Some(job) => Some(job.json_text()),
            None => None,
        }
    }

    /// The receipt.
    pub fn receipt(&self) -> (r: Option<&ValidationReceipt>)
        ensures
            match r {
                Some(receipt) => self@.receipt == Some(receipt.data()),
                None => self@.receipt is None,
            },
    {
        self.receipt.as_ref()
    }

    /// What is asked of the journal: the handoff of this receipt at the base that was captured
    /// again.
    pub fn handoff_request<'a>(&'a self, request: &ManualValidationRequest<'a>, now: u64) -> (r:
        Option<ManualHandoffRequest<'a>>)
        ensures
            match r {
                Some(wanted) => {
                    &&& *wanted.candidate == *request.candidate
                    &&& self@.receipt == Some(wanted.validation.data())
                    &&& *wanted.context == *request.context
                    &&& self@.current matches Some(current) && current.base == wanted.current_base@
                    &&& wanted.now == now
                    &&& *wanted.policy == *request.policy
                },
                None => self@.receipt is None || self@.current is None,
            },
    {
        match (&self.receipt, &self.current) {
            (Some(receipt), Some(current)) => Some(
                ManualHandoffRequest {
                    candidate: request.candidate,
                    validation: receipt,
                    context: request.context,
                    current_base: current.base_sha(),
                    now,
                    policy: request.policy,
                },
            ),
            _ => None,
        }
    }

    /// The outcome of a validation that is over.
    pub fn result(self) -> (r: Result<Option<ManualRepairHandoff>, SandboxError>)
        ensures
            match r {
                Ok(Some(handoff)) => self@.result == Ok::<Option<Seq<char>>, SandboxError>(
                    Some(handoff.wire()),
                ),
                Ok(None) => self@.result == Ok::<Option<Seq<char>>, SandboxError>(None),
                Err(error) => self@.result == Err::<Option<Seq<char>>, SandboxError>(error),
            },
    {
        self.result
    }

    fn fail(self, error: SandboxError) -> (r: Self)
        ensures
            r@ == validate_failed(self@, error),
    {
        let mut next = self;
        next.step = ValidateStep::Ended;
        next.result = Err(error);
        next
    }

    fn issue(
        self,
        candidate: &ManualRepairCandidate,
        policy: &HandoffPolicy,
        now: u64,
        entropy: Option<Vec<u8>>,
    ) -> (r: Self)
        requires
            self@.step == ValidateStep::Request,
        ensures
            r@ == validate_next(
                self@,
                *candidate,
                *policy,
                ValidateEvent::Issued(now, entropy),
            ),
    {
        let formed = match &self.snapshot {
            Some(snapshot) => {
                let bytes: Option<&[u8]> = match &entropy {
                    Some(bytes) => Some(bytes.as_slice()),
                    None => None,
                };
                RemoteJob::new(candidate, snapshot, policy, now, bytes)
            },
            None => Err(SandboxError::Failed),
        };
        match formed {
            Ok(job) => {
                let mut next = self;
                next.step = ValidateStep::Reserve;
                next.job = Some(job);
                next
            },
            Err(error) => self.fail(error),
        }
    }

    fn recaptured(self, current: RepositorySnapshot) -> (r: Self)
        requires
            self@.step == ValidateStep::Recapture,
        ensures
            forall|candidate: ManualRepairCandidate, policy: HandoffPolicy|
                r@ == #[trigger] validate_next(
                    self@,
                    candidate,
                    policy,
                    ValidateEvent::Captured(current),
                ),
    {
        let same = match &self.snapshot {
            Some(snapshot) => text::text_eq(current.digest(), snapshot.digest()),
            None => false,
        };
        if same {
            let mut next = self;
            next.step = ValidateStep::Finalize;
            next.current = Some(current);
            next
        } else {
            self.fail(SandboxError::Failed)
        }
    }

    /// Takes what came of the action.
    pub fn advance(
        self,
        candidate: &ManualRepairCandidate,
        policy: &HandoffPolicy,
        event: ValidateEvent,
    ) -> (r: Self)
        ensures
            r@ == validate_next(self@, *candidate, *policy, event),
    {
        let mut next = self;
        match (next.step, event) {
            (ValidateStep::Ended, _) => next,
            (_, ValidateEvent::Failed) => next.fail(SandboxError::Failed),
            (step, ValidateEvent::ClockFailed) => {
                if step == ValidateStep::Request || step == ValidateStep::Finalize {
                    next.fail(SandboxError::Unavailable)
                } else {
                    next
                }
            },
            (ValidateStep::Attempt, ValidateEvent::Attempted(exists)) => {
                if exists {
                    next.fail(SandboxError::AttemptExists)
                } else {
                    next.step = ValidateStep::Capture;
                    next
                }
            },
            (ValidateStep::Capture, ValidateEvent::Captured(snapshot)) => {
                next.snapshot = Some(snapshot);
                next.step = ValidateStep::Request;
                next
            },
            (ValidateStep::Request, ValidateEvent::Issued(now, entropy)) => next.issue(
                candidate,
                policy,
                now,
                entropy,
            ),
            (ValidateStep::Reserve, ValidateEvent::Reserved(reserved)) => {
                if reserved {
                    next.step = ValidateStep::Dispatch;
                    next
                } else {
                    next.fail(SandboxError::AttemptExists)
                }
            },
            (ValidateStep::Dispatch, ValidateEvent::Dispatched(Ok(receipt))) => {
                next.receipt = Some(receipt);
                next.step = ValidateStep::Record;
                next
            },
            (ValidateStep::Dispatch, ValidateEvent::Dispatched(Err(error))) => {
                next.failure = error;
                next.step = ValidateStep::RecordFailure;
                next
            },
            (ValidateStep::Record, ValidateEvent::Recorded) => {
                next.step = ValidateStep::Recapture;
                next
            },
            (ValidateStep::RecordFailure, ValidateEvent::Recorded) => {
                let error = next.failure;
                next.fail(error)
            },
            (ValidateStep::Recapture, ValidateEvent::Captured(current)) => next.recaptured(
                current,
            ),
            (ValidateStep::Finalize, ValidateEvent::Finalized(handoff)) => {
                next.result = Ok(handoff);
                next.step = ValidateStep::Ended;
                next
            },
            _ => next,
        }
    }
}

/// The state of validation after some events.
pub open spec fn validate_after(
    candidate: ManualRepairCandidate,
    policy: HandoffPolicy,
    events: Seq<ValidateEvent>,
) -> ValidateView
    decreases events.len(),
{
    if events.len() == 0 {
        validate_start()
    } else {
        validate_next(
            validate_after(candidate, policy, events.drop_last()),
            candidate,
            policy,
            events.last(),
        )
    }
}

/// The attempt is reserved.
pub open spec fn is_reservation(event: ValidateEvent) -> bool {
    event matches ValidateEvent::Reserved(reserved) && reserved
}

/// The worker gave this receipt.
pub open spec fn gives_receipt(event: ValidateEvent, receipt: Option<ReceiptView>) -> bool {
    match event {
        ValidateEvent::Dispatched(Ok(given)) => receipt == Some(given.data()),
        _ => false,
    }
}

/// The journal recorded something.
pub open spec fn is_record(event: ValidateEvent) -> bool {
    event is Recorded
}

/// The source was captured with this identity.
pub open spec fn recaptures(event: ValidateEvent, snapshot: Option<SnapshotView>) -> bool {
    match event {
        ValidateEvent::Captured(current) => snapshot matches Some(seen) && current.captured_view().digest
            == seen.digest,
        _ => false,
    }
}

/// A step at or behind the dispatch of a request.
pub open spec fn is_dispatched(step: ValidateStep) -> bool {
    match step {
        ValidateStep::Dispatch => true,
        ValidateStep::Record => true,
        ValidateStep::RecordFailure => true,
        ValidateStep::Recapture => true,
        ValidateStep::Finalize => true,
        _ => false,
    }
}

/// A step behind a receipt.
pub open spec fn is_answered(step: ValidateStep) -> bool {
    step == ValidateStep::Record || step == ValidateStep::Recapture || step
        == ValidateStep::Finalize
}

/// A step behind a recorded receipt.
pub open spec fn is_recorded(step: ValidateStep) -> bool {
    step == ValidateStep::Recapture || step == ValidateStep::Finalize
}

/// What the states of validation rest on.
pub open spec fn validate_sound(state: ValidateView, events: Seq<ValidateEvent>) -> bool {
    &&& is_dispatched(state.step) ==> exists|i: int|
        0 <= i < events.len() && #[trigger] is_reservation(events[i])
    &&& is_answered(state.step) ==> exists|i: int|
        0 <= i < events.len() && #[trigger] gives_receipt(events[i], state.receipt)
    &&& is_recorded(state.step) ==> exists|i: int|
        0 <= i < events.len() && #[trigger] is_record(events[i])
    &&& state.step == ValidateStep::Finalize ==> exists|i: int|
        0 <= i < events.len() && #[trigger] recaptures(events[i], state.snapshot)
    &&& state.step != ValidateStep::Ended ==> state.result is Err
}

proof fn lemma_validate_kept(
    state: ValidateView,
    next: ValidateView,
    before: Seq<ValidateEvent>,
    event: ValidateEvent,
)
    requires
        validate_sound(state, before),
        is_dispatched(next.step) ==> is_dispatched(state.step) || is_reservation(event),
        is_answered(next.step) ==> (is_answered(state.step) && next.receipt == state.receipt)
            || gives_receipt(event, next.receipt),
        is_recorded(next.step) ==> is_recorded(state.step) || is_record(event),
        next.step == ValidateStep::Finalize ==> (state.step == ValidateStep::Finalize
            && next.snapshot == state.snapshot) || recaptures(event, next.snapshot),
        next.step != ValidateStep::Ended ==> next.result is Err,
    ensures
        validate_sound(next, before.push(event)),
{
    let events = before.push(event);
    let last = before.len() as int;
    assert(events[last] == event);
    assert forall|i: int| 0 <= i < before.len() implies events[i] == before[i] by {}
    if is_dispatched(next.step) {
        if is_dispatched(state.step) {
            let i = choose|i: int| 0 <= i < before.len() && #[trigger] is_reservation(before[i]);
            assert(is_reservation(events[i]));
        } else {
            assert(is_reservation(events[last]));
        }
    }
    if is_answered(next.step) {
        if is_answered(state.step) && next.receipt == state.receipt {
            let i = choose|i: int|
                0 <= i < before.len() && #[trigger] gives_receipt(before[i], state.receipt);
            assert(gives_receipt(events[i], next.receipt));
        } else {
            assert(gives_receipt(events[last], next.receipt));
        }
    }
    if is_recorded(next.step) {
        if is_recorded(state.step) {
            let i = choose|i: int| 0 <= i < before.len() && #[trigger] is_record(before[i]);
            assert(is_record(events[i]));
        } else {
            assert(is_record(events[last]));
        }
    }
    if next.step == ValidateStep::Finalize {
        if state.step == ValidateStep::Finalize && next.snapshot == state.snapshot {
            let i = choose|i: int|
                0 <= i < before.len() && #[trigger] recaptures(before[i], state.snapshot);
            assert(recaptures(events[i], next.snapshot));
        } else {
            assert(recaptures(events[last], next.snapshot));
        }
    }
}

proof fn lemma_validate_sound(
    candidate: ManualRepairCandidate,
    policy: HandoffPolicy,
    events: Seq<ValidateEvent>,
)
    ensures
        validate_sound(validate_after(candidate, policy, events), events),
    decreases events.len(),
{
    if events.len() > 0 {
        let before = events.drop_last();
        let state = validate_after(candidate, policy, before);
        lemma_validate_sound(candidate, policy, before);
        lemma_validate_kept(
            state,
            validate_next(state, candidate, policy, events.last()),
            before,
            events.last(),
        );
        assert(before.push(events.last()) =~= events);
    }
}

/// Nothing is sent to a worker before the attempt is reserved in the journal.
pub proof fn dispatch_follows_a_reservation(
    candidate: ManualRepairCandidate,
    policy: HandoffPolicy,
    events: Seq<ValidateEvent>,
)
    requires
        is_dispatched(validate_after(candidate, policy, events).step),
    ensures
        exists|i: int| 0 <= i < events.len() && #[trigger] is_reservation(events[i]),
{
    lemma_validate_sound(candidate, policy, events);
}

/// A repair is finalized only with a receipt that the worker gave and the journal recorded, and
/// over a source that was captured again unchanged.
pub proof fn handoff_follows_a_recorded_receipt_and_unchanged_source(
    candidate: ManualRepairCandidate,
    policy: HandoffPolicy,
    events: Seq<ValidateEvent>,
)
    requires
        validate_after(candidate, policy, events).step == ValidateStep::Finalize,
    ensures
        ({
            let state = validate_after(candidate, policy, events);
            &&& exists|i: int|
                0 <= i < events.len() && #[trigger] gives_receipt(events[i], state.receipt)
            &&& exists|i: int| 0 <= i < events.len() && #[trigger] is_record(events[i])
            &&& exists|i: int|
                0 <= i < events.len() && #[trigger] recaptures(events[i], state.snapshot)
        }),
{
    lemma_validate_sound(candidate, policy, events);
}

/// A validation that stops before its end, for instance while it awaits the worker, has granted
/// nothing.
pub proof fn unfinished_validation_grants_nothing(
    candidate: ManualRepairCandidate,
    policy: HandoffPolicy,
    events: Seq<ValidateEvent>,
)
    requires
        validate_after(candidate, policy, events).step != ValidateStep::Ended,
    ensures
        validate_after(candidate, policy, events).result is Err,
{
    lemma_validate_sound(candidate, policy, events);
}

/// Preparation takes its steps in order: qualification, evidence, source, candidate. Where one of the
/// first two has nothing, it ends without a candidate, and it ends with an error where a step failed.
pub proof fn preparations_take_their_steps_in_order(
    state: PrepareView,
    deployment: QualifiedDeployment,
    digest: String,
    snapshot: RepositorySnapshot,
    candidate: ManualRepairCandidate,
)
    requires
        state.step != PrepareStep::Ended,
    ensures
        ({
            let none = Ok::<Option<CandidateView>, SandboxError>(None);
            let failed = prepare_next(state, PrepareEvent::Failed);
            let timeless = prepare_next(state, PrepareEvent::ClockFailed);
            let qualified = prepare_next(state, PrepareEvent::Qualified(Some(deployment)));
            let unqualified = prepare_next(state, PrepareEvent::Qualified(None));
            let evident = prepare_next(state, PrepareEvent::Evidence(Some(digest)));
            let bare = prepare_next(state, PrepareEvent::Evidence(None));
            let taken = prepare_next(state, PrepareEvent::Captured(snapshot));
            let prepared = prepare_next(state, PrepareEvent::Prepared(Some(candidate)));
            let refused = prepare_next(state, PrepareEvent::Prepared(None));
            &&& failed.step == PrepareStep::Ended && failed.result == Err::<
                Option<CandidateView>,
                SandboxError,
            >(SandboxError::Failed)
            &&& state.step == PrepareStep::Qualify || state.step == PrepareStep::Prepare
                ==> timeless.step == PrepareStep::Ended && timeless.result == Err::<
                Option<CandidateView>,
                SandboxError,
            >(SandboxError::Unavailable)
            &&& state.step == PrepareStep::Qualify ==> {
                &&& qualified.step == PrepareStep::Evidence && qualified.image == Some(
                    deployment.receipt().image@,
                )
                &&& unqualified.step == PrepareStep::Ended && unqualified.result == none
            }
            &&& state.step == PrepareStep::Evidence ==> {
                &&& evident.step == PrepareStep::Capture && evident.evidence == Some(digest@)
                    && evident.image == state.image
                &&& bare.step == PrepareStep::Ended && bare.result == none
            }
            &&& state.step == PrepareStep::Capture ==> taken.step == PrepareStep::Prepare
                && taken.snapshot == Some(snapshot.captured_view()) && taken.image == state.image
                && taken.evidence == state.evidence
            &&& state.step == PrepareStep::Prepare ==> {
                &&& prepared.step == PrepareStep::Ended && prepared.result == Ok::<
                    Option<CandidateView>,
                    SandboxError,
                >(Some(candidate.data()))
                &&& refused.step == PrepareStep::Ended && refused.result == none
            }
        }),
{
}

/// Validation takes its steps in order: no earlier attempt, source, request, reservation, dispatch,
/// record, source again, handoff. A second attempt is refused by name, a failed dispatch is recorded
/// before it is reported, and a moved source grants nothing.
pub proof fn validations_take_their_steps_in_order(
    state: ValidateView,
    candidate: ManualRepairCandidate,
    policy: HandoffPolicy,
    snapshot: RepositorySnapshot,
    now: u64,
    entropy: Vec<u8>,
    receipt: ValidationReceipt,
    error: SandboxError,
    handoff: ManualRepairHandoff,
)
    requires
        state.step != ValidateStep::Ended,
    ensures
        ({
            let next = |event: ValidateEvent| validate_next(state, candidate, policy, event);
            let refusal = |view: ValidateView, e: SandboxError|
                view.step == ValidateStep::Ended && view.result == Err::<
                    Option<Seq<char>>,
                    SandboxError,
                >(e);
            &&& refusal(next(ValidateEvent::Failed), SandboxError::Failed)
            &&& state.step == ValidateStep::Request || state.step == ValidateStep::Finalize
                ==> refusal(next(ValidateEvent::ClockFailed), SandboxError::Unavailable)
            &&& state.step == ValidateStep::Attempt ==> refusal(
                next(ValidateEvent::Attempted(true)),
                SandboxError::AttemptExists,
            ) && next(ValidateEvent::Attempted(false)) == (ValidateView {
                step: ValidateStep::Capture,
                ..state
            })
            &&& state.step == ValidateStep::Capture ==> next(ValidateEvent::Captured(snapshot)) == (
            ValidateView {
                step: ValidateStep::Request,
                snapshot: Some(snapshot.captured_view()),
                ..state
            })
            &&& state.step == ValidateStep::Request && state.snapshot is Some ==> {
                let issued = next(ValidateEvent::Issued(now, Some(entropy)));
                let job = remote::fresh_job(
                    candidate,
                    state.snapshot->0,
                    policy,
                    now,
                    Some(entropy@),
                );
                &&& job matches Ok(request) ==> issued == (ValidateView {
                    step: ValidateStep::Reserve,
                    job: Some(request),
                    ..state
                })
                &&& job matches Err(e) ==> refusal(issued, e)
            }
            &&& state.step == ValidateStep::Reserve ==> next(ValidateEvent::Reserved(true)) == (
            ValidateView { step: ValidateStep::Dispatch, ..state }) && refusal(
                next(ValidateEvent::Reserved(false)),
                SandboxError::AttemptExists,
            )
            &&& state.step == ValidateStep::Dispatch ==> next(
                ValidateEvent::Dispatched(Ok(receipt)),
            ) == (ValidateView {
                step: ValidateStep::Record,
                receipt: Some(receipt.data()),
                ..state
            }) && next(ValidateEvent::Dispatched(Err(error))) == (ValidateView {
                step: ValidateStep::RecordFailure,
                failure: error,
                ..state
            })
            &&& state.step == ValidateStep::Record ==> next(ValidateEvent::Recorded) == (
            ValidateView { step: ValidateStep::Recapture, ..state })
            &&& state.step == ValidateStep::RecordFailure ==> refusal(
                next(ValidateEvent::Recorded),
                state.failure,
            )
            &&& state.step == ValidateStep::Recapture && state.snapshot is Some ==> if (
            snapshot.captured_view().digest == (state.snapshot->0).digest) {
                next(ValidateEvent::Captured(snapshot)) == (ValidateView {
                    step: ValidateStep::Finalize,
                    current: Some(snapshot.captured_view()),
                    ..state
                })
            } else {
                refusal(next(ValidateEvent::Captured(snapshot)), SandboxError::Failed)
            }
            &&& state.step == ValidateStep::Finalize ==> {
                let given = next(ValidateEvent::Finalized(Some(handoff)));
                let none = next(ValidateEvent::Finalized(None));
                &&& given.step == ValidateStep::Ended && given.result == Ok::<
                    Option<Seq<char>>,
                    SandboxError,
                >(Some(handoff.wire()))
                &&& none.step == ValidateStep::Ended && none.result == Ok::<
                    Option<Seq<char>>,
                    SandboxError,
                >(None)
            }
        }),
{
}

/// Preparation begins with qualification and validation with the earlier attempt, both with nothing
/// granted.
pub proof fn repairs_begin_with_nothing_granted(
    candidate: ManualRepairCandidate,
    policy: HandoffPolicy,
)
    ensures
        prepare_after(Seq::empty()).step == PrepareStep::Qualify,
        prepare_after(Seq::empty()).result is Err,
        validate_after(candidate, policy, Seq::empty()).step == ValidateStep::Attempt,
        validate_after(candidate, policy, Seq::empty()).receipt is None,
        validate_after(candidate, policy, Seq::empty()).job is None,
        validate_after(candidate, policy, Seq::empty()).result is Err,
{
}

} // verus!
