//! One request on an already SSH-authenticated forced-command stream, as steps that a caller
//! performs in order. Channel failure never creates a success receipt.

use super::super::super::handoff::HandoffPolicy;
use super::super::super::snapshot::{RepositorySnapshot, SnapshotView};
use super::super::{PreparedSandbox, PreparedView, SandboxError, SandboxPlan};
use super::remote;
use super::remote::{response_text, RemoteJob};
use super::ValidationReceipt;
use crate::text;
use vstd::prelude::*;

verus! {

/// What a worker does next.
#[derive(Debug, Clone, Copy, PartialEq, Eq, Structural)]
pub enum WorkerStep {
    /// Read the request and the clock.
    Receive,
    /// Connect to the runtime and its durable state.
    Connect,
    /// Record the request's nonce.
    Claim,
    /// Capture the requested snapshot, and read the clock.
    Capture,
    /// Run the workload, and read the clock.
    Validate,
    /// Send the response.
    Respond,
    /// The request is answered or refused.
    Ended,
}

/// What came of an action.
pub enum WorkerEvent {
    /// It succeeded.
    Done,
    /// It failed.
    Failed(SandboxError),
    /// A frame was read; it held this request, at this time.
    Received(Option<RemoteJob>, Option<u64>),
    /// The capture gave this snapshot, in the directory of this path, at this time.
    Captured(Option<RepositorySnapshot>, Option<u64>),
    /// The workload gave this result, at this time.
    Validated(Result<ValidationReceipt, SandboxError>, Option<u64>),
}

/// The state of a worker.
pub struct WorkerView {
    /// What is done next.
    pub step: WorkerStep,
    /// The request.
    pub job: Option<RemoteJob>,
    /// What is validated.
    pub prepared: Option<PreparedView>,
    /// The response.
    pub response: Option<Seq<char>>,
    /// The outcome of a request that is over.
    pub result: Result<(), SandboxError>,
}

/// The first state of a worker.
pub open spec fn worker_start() -> WorkerView {
    WorkerView {
        step: WorkerStep::Receive,
        job: None,
        prepared: None,
        response: None,
        result: Err(SandboxError::Failed),
    }
}

/// The request is refused.
pub open spec fn refused(state: WorkerView, error: SandboxError) -> WorkerView {
    WorkerView { step: WorkerStep::Ended, response: None, result: Err(error), ..state }
}

/// What is validated for a request and a captured snapshot.
pub open spec fn remote_sandbox(
    job: RemoteJob,
    policy: HandoffPolicy,
    snapshot: SnapshotView,
    source: Seq<char>,
) -> PreparedView {
    PreparedView {
        snapshot,
        artifact_digest: job.artifact@,
        arguments: super::super::container_arguments(
            policy.validator_image@,
            policy.sandbox_limits,
            "u9-remote"@,
            source,
        ),
        limits: policy.sandbox_limits,
        image: policy.validator_image@,
    }
}

/// The next state of a worker under its own policy.
pub open spec fn worker_next(
    state: WorkerView,
    policy: HandoffPolicy,
    event: WorkerEvent,
) -> WorkerView {
    match (state.step, event, state.job) {
        (WorkerStep::Ended, _, _) => state,
        (_, WorkerEvent::Failed(error), _) => refused(state, error),
        (WorkerStep::Receive, WorkerEvent::Received(job, now), _) => match (job, now) {
            (None, _) => refused(state, SandboxError::InvalidConfiguration),
            (Some(_), None) => refused(state, SandboxError::Unavailable),
            (Some(request), Some(now)) => if request.admitted(policy, now) {
                WorkerView { step: WorkerStep::Connect, job, ..state }
            } else {
                refused(state, SandboxError::InvalidConfiguration)
            },
        },
        (WorkerStep::Connect, WorkerEvent::Done, _) => WorkerView {
            step: WorkerStep::Claim,
            ..state
        },
        (WorkerStep::Claim, WorkerEvent::Done, _) => WorkerView {
            step: WorkerStep::Capture,
            ..state
        },
        (WorkerStep::Capture, WorkerEvent::Captured(Some(snapshot), now), Some(job)) => {
            let source = snapshot.root_path() + "/source"@;
            if snapshot.captured_view().digest != job.snapshot@ {
                refused(state, SandboxError::Failed)
            } else if now is None {
                refused(state, SandboxError::Unavailable)
            } else if !job.admitted(policy, now->0) || !super::super::is_mount_source(source) {
                refused(state, SandboxError::InvalidConfiguration)
            } else {
                WorkerView {
                    step: WorkerStep::Validate,
                    prepared: Some(
                        remote_sandbox(job, policy, snapshot.captured_view(), source),
                    ),
                    ..state
                }
            }
        },
        (WorkerStep::Validate, WorkerEvent::Validated(result, now), Some(job)) => match (
            result,
            now,
        ) {
            (Err(error), _) => refused(state, error),
            (Ok(_), None) => refused(state, SandboxError::Unavailable),
            (Ok(receipt), Some(now)) => if job.admitted(policy, now) {
                WorkerView {
                    step: WorkerStep::Respond,
                    response: Some(remote::response_json(job.nonce@, receipt.data())),
                    ..state
                }
            } else {
                refused(state, SandboxError::InvalidConfiguration)
            },
        },
        (WorkerStep::Respond, WorkerEvent::Done, _) => WorkerView {
            step: WorkerStep::Ended,
            result: Ok(()),
            ..state
        },
        _ => refused(state, SandboxError::Failed),
    }
}

/// A worker serving one request.
pub struct Worker {
    step: WorkerStep,
    job: Option<RemoteJob>,
    prepared: Option<PreparedSandbox>,
    response: Option<String>,
    result: Result<(), SandboxError>,
}

impl View for Worker {
    type V = WorkerView;

    closed spec fn view(&self) -> WorkerView {
        WorkerView {
            step: self.step,
            job: self.job,
            prepared: match self.prepared {
                Some(prepared) => Some(prepared.data()),
                None => None,
            },
            response: match self.response {
                Some(response) => Some(response@),
                None => None,
            },
            result: self.result,
        }
    }
}

impl Worker {
    /// Starts to serve a request.
    pub fn start() -> (r: Self)
        ensures
            r@ == worker_start(),
    {
        Worker {
            step: WorkerStep::Receive,
            job: None,
            prepared: None,
            response: None,
            result: Err(SandboxError::Failed),
        }
    }

    /// What is done next.
    pub fn step(&self) -> (r: WorkerStep)
        ensures
            r == self@.step,
    {
        self.step
    }

    /// The request, once it is admitted.
    pub fn job(&self) -> (r: Option<&RemoteJob>)
        ensures
            match r {
                Some(job) => self@.job == Some(*job),
                None => self@.job is None,
            },
    {
        match &self.job {
            Some(job) => Some(job),
            None => None,
        }
    }

    /// Hands over what is to be validated.
    pub fn take_prepared(self) -> (r: (Self, Option<PreparedSandbox>))
        ensures
            r.0@ == (WorkerView { prepared: None, ..self@ }),
            match r.1 {
                Some(prepared) => self@.prepared == Some(prepared.data()),
                None => self@.prepared is None,
            },
    {
        let mut next = self;
        let prepared = next.prepared;
        next.prepared = None;
        (next, prepared)
    }

    /// The response, once it is due.
    pub fn response(&self) -> (r: Option<&str>)
        ensures
            match r {
                Some(response) => self@.response == Some(response@),
                None => self@.response is None,
            },
    {
        match &self.response {
            Some(response) => Some(response.as_str()),
            None => None,
        }
    }

    /// The outcome of a request that is over.
    pub fn result(&self) -> (r: Result<(), SandboxError>)
        ensures
            r == self@.result,
    {
        self.result
    }

    fn refuse(self, error: SandboxError) -> (r: Self)
        ensures
            r@ == refused(self@, error),
    {
        let mut next = self;
        next.step = WorkerStep::Ended;
        next.response = None;
        next.result = Err(error);
        next
    }

    fn at(self, step: WorkerStep) -> (r: Self)
        ensures
            r@ == (WorkerView { step, ..self@ }),
    {
        let mut next = self;
        next.step = step;
        next
    }

    fn captured(
        self,
        policy: &HandoffPolicy,
        snapshot: RepositorySnapshot,
        now: Option<u64>,
    ) -> (r: Self)
        requires
            self@.step is Capture,
            self@.job is Some,
        ensures
            r@ == worker_next(self@, *policy, WorkerEvent::Captured(Some(snapshot), now)),
    {
        let artifact = match &self.job {
            Some(job) => {
                if !text::text_eq(snapshot.digest(), job.snapshot.as_str()) {
                    return self.refuse(SandboxError::Failed);
                }
                let now: u64 = match now {
                    Some(now) => now,
                    None => return self.refuse(SandboxError::Unavailable),
                };
                if job.check(policy, now).is_err() {
                    return self.refuse(SandboxError::InvalidConfiguration);
                }
                job.artifact.clone()
            },
            None => return self.refuse(SandboxError::Failed),
        };
        let plan = match SandboxPlan::new(policy.validator_image.as_str(), policy.sandbox_limits) {
            Ok(plan) => plan,
            Err(error) => return self.refuse(error),
        };
        proof {
            lemma_remote_name();
        }
        let source = snapshot.source_directory();
        let arguments = match plan.arguments("u9-remote", source.as_str()) {
            Ok(arguments) => arguments,
            Err(error) => return self.refuse(error),
        };
        proof {
            let written = text::texts(arguments@);
            assert(written[written.len() - 1] == arguments@.last()@);
        }
        let prepared = PreparedSandbox::bound(
            snapshot,
            artifact,
            arguments,
            policy.sandbox_limits,
            policy.validator_image.clone(),
        );
        let mut next = self;
        next.step = WorkerStep::Validate;
        next.prepared = Some(prepared);
        next
    }

    /// Takes what came of the last action. An answer to another question refuses the request.
    pub fn advance(self, policy: &HandoffPolicy, event: WorkerEvent) -> (r: Self)
        ensures
            r@ == worker_next(self@, *policy, event),
    {
        if let WorkerStep::Ended = self.step {
            return self;
        }
        match (self.step, event) {
            (_, WorkerEvent::Failed(error)) => self.refuse(error),
            (WorkerStep::Receive, WorkerEvent::Received(job, now)) => match (job, now) {
                (None, _) => self.refuse(SandboxError::InvalidConfiguration),
                (Some(_), None) => self.refuse(SandboxError::Unavailable),
                (Some(job), Some(now)) => {
                    if job.check(policy, now).is_err() {
                        self.refuse(SandboxError::InvalidConfiguration)
                    } else {
                        let mut next = self;
                        next.step = WorkerStep::Connect;
                        next.job = Some(job);
                        next
                    }
                },
            },
            (WorkerStep::Connect, WorkerEvent::Done) => self.at(WorkerStep::Claim),
            (WorkerStep::Claim, WorkerEvent::Done) => self.at(WorkerStep::Capture),
            (WorkerStep::Capture, WorkerEvent::Captured(Some(snapshot), now)) => {
                if self.job.is_none() {
                    return self.refuse(SandboxError::Failed);
                }
                self.captured(policy, snapshot, now)
            },
            (WorkerStep::Validate, WorkerEvent::Validated(result, now)) => {
                let response = match &self.job {
                    None => return self.refuse(SandboxError::Failed),
                    Some(job) => match (result, now) {
                        (Err(error), _) => return self.refuse(error),
                        (Ok(_), None) => return self.refuse(SandboxError::Unavailable),
                        (Ok(receipt), Some(now)) => {
                            if job.check(policy, now).is_err() {
                                return self.refuse(SandboxError::InvalidConfiguration);
                            }
                            response_text(job.nonce.as_str(), &receipt)
                        },
                    },
                };
                let mut next = self;
                next.step = WorkerStep::Respond;
                next.response = Some(response);
                next
            },
            (WorkerStep::Respond, WorkerEvent::Done) => {
                let mut next = self;
                next.step = WorkerStep::Ended;
                next.result = Ok(());
                next
            },
            _ => self.refuse(SandboxError::Failed),
        }
    }
}

proof fn lemma_remote_name()
    ensures
        super::super::is_job_name("u9-remote"@),
{
    reveal_strlit("u9-remote");
    reveal_strlit("u9-");
    let name = "u9-remote"@;
    assert("u9-"@ =~= name.subrange(0, 3));
    assert(name =~= seq!['u', '9', '-', 'r', 'e', 'm', 'o', 't', 'e']);
}

/// Whatever is reported, a worker touches the runtime only for a request that was admitted,
/// runs a workload only for the requested snapshot while the request is current, and sends
/// a response only for a successful run that ended while it still was.
pub proof fn worker_acts_only_on_current_requests(
    state: WorkerView,
    policy: HandoffPolicy,
    event: WorkerEvent,
)
    requires
        !(state.step is Ended),
    ensures
        ({
            let next = worker_next(state, policy, event);
            &&& next.step is Connect ==> state.step is Receive && next.job is Some && (
            event matches WorkerEvent::Received(_, now) && now is Some && next.job->0.admitted(
                policy,
                now->0,
            ))
            &&& next.step is Capture ==> state.step is Claim && event is Done
            &&& next.step is Validate ==> state.step is Capture && state.job is Some && (
            event matches WorkerEvent::Captured(snapshot, now) && snapshot is Some && now is Some
                && snapshot->0.captured_view().digest == state.job->0.snapshot@
                && state.job->0.admitted(policy, now->0))
            &&& next.step is Respond ==> state.step is Validate && state.job is Some && (
            event matches WorkerEvent::Validated(result, now) && result is Ok && now is Some
                && state.job->0.admitted(policy, now->0) && next.response == Some(
                remote::response_json(state.job->0.nonce@, result->Ok_0.data()),
            ))
            &&& next.step is Ended && next.result is Ok ==> state.step is Respond && event is Done
        }),
{
}

/// The worker takes its steps in order, and ends with the error of the first that failed. It asks
/// again whether the request is admitted after each step that takes time.
pub proof fn workers_take_their_steps_in_order(
    state: WorkerView,
    policy: HandoffPolicy,
    request: RemoteJob,
    now: u64,
    snapshot: RepositorySnapshot,
    receipt: ValidationReceipt,
    error: SandboxError,
)
    requires
        state.step != WorkerStep::Ended,
    ensures
        ({
            let failed = worker_next(state, policy, WorkerEvent::Failed(error));
            let done = worker_next(state, policy, WorkerEvent::Done);
            let got = worker_next(state, policy, WorkerEvent::Received(Some(request), Some(now)));
            let taken = worker_next(
                state,
                policy,
                WorkerEvent::Captured(Some(snapshot), Some(now)),
            );
            let valid = worker_next(state, policy, WorkerEvent::Validated(Ok(receipt), Some(now)));
            let invalid = worker_next(
                state,
                policy,
                WorkerEvent::Validated(Err(error), Some(now)),
            );
            &&& failed.step == WorkerStep::Ended && failed.response is None && failed.result
                == Err::<(), SandboxError>(error)
            &&& state.step == WorkerStep::Receive ==> (got.step == WorkerStep::Connect
                <==> request.admitted(policy, now)) && (got.step == WorkerStep::Connect ==> got.job
                == Some(request)) && (got.step != WorkerStep::Connect ==> got.step
                == WorkerStep::Ended && got.result == Err::<(), SandboxError>(
                SandboxError::InvalidConfiguration,
            ))
            &&& state.step == WorkerStep::Connect ==> done == (WorkerView {
                step: WorkerStep::Claim,
                ..state
            })
            &&& state.step == WorkerStep::Claim ==> done == (WorkerView {
                step: WorkerStep::Capture,
                ..state
            })
            &&& state.step == WorkerStep::Capture && state.job is Some ==> {
                let job = state.job->0;
                let source = snapshot.root_path() + "/source"@;
                let same = snapshot.captured_view().digest == job.snapshot@;
                let mountable = super::super::is_mount_source(source);
                &&& taken.step == WorkerStep::Validate <==> same && job.admitted(policy, now)
                    && mountable
                &&& taken.step == WorkerStep::Validate ==> {
                    let prepared = taken.prepared->0;
                    &&& taken.prepared is Some
                    &&& prepared.snapshot == snapshot.captured_view()
                    &&& prepared.artifact_digest == job.artifact@
                    &&& prepared.limits == policy.sandbox_limits
                    &&& prepared.image == policy.validator_image@
                    &&& prepared.arguments == super::super::container_arguments(
                        policy.validator_image@,
                        policy.sandbox_limits,
                        "u9-remote"@,
                        source,
                    )
                }
                &&& !same ==> taken.step == WorkerStep::Ended && taken.result == Err::<
                    (),
                    SandboxError,
                >(SandboxError::Failed)
                &&& same && !(job.admitted(policy, now) && mountable) ==> taken.step
                    == WorkerStep::Ended && taken.result == Err::<(), SandboxError>(
                    SandboxError::InvalidConfiguration,
                )
            }
            &&& state.step == WorkerStep::Validate && state.job is Some ==> {
                let job = state.job->0;
                &&& valid.step == WorkerStep::Respond <==> job.admitted(policy, now)
                &&& valid.step == WorkerStep::Respond ==> valid.response == Some(
                    remote::response_json(job.nonce@, receipt.data()),
                )
                &&& valid.step != WorkerStep::Respond ==> valid.step == WorkerStep::Ended
                    && valid.response is None && valid.result == Err::<(), SandboxError>(
                    SandboxError::InvalidConfiguration,
                )
                &&& invalid.step == WorkerStep::Ended && invalid.response is None && invalid.result
                    == Err::<(), SandboxError>(error)
            }
            &&& state.step == WorkerStep::Respond ==> done.step == WorkerStep::Ended && done.result
                is Ok && done.response == state.response
        }),
{
}

/// A worker begins by receiving, with nothing to answer.
pub proof fn workers_begin_by_receiving()
    ensures
        worker_start().step == WorkerStep::Receive,
        worker_start().job is None,
        worker_start().prepared is None,
        worker_start().response is None,
        worker_start().result is Err,
{
}

} // verus!
