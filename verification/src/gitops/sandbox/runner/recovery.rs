//! Reconciles an interrupted launch before any new one is admitted.
//!
//! Recovery removes only a recorded container and its unchanged, identity-checked snapshot.
//! Interrupted work never becomes a validation result. The caller performs one action after
//! another and reports what came of it.

use super::super::jobs::PendingJob;
use super::super::SandboxError;
use super::{owned_container_id, Output};
use crate::text;
use vstd::prelude::*;

verus! {

/// What recovery asks for next.
#[derive(Debug, Clone, Copy, PartialEq, Eq, Structural)]
pub enum RecoveryStep {
    /// Verify the runtime binary before the storage is read.
    VerifyOwner,
    /// Read the identity of the runtime storage.
    Identify,
    /// Bind durable state to that identity.
    Bind,
    /// Read the recorded launch.
    Load,
    /// Verify the runtime binary before a container is touched.
    VerifyPending,
    /// Ask whether the container exists.
    Exists,
    /// Inspect the container.
    Inspect,
    /// Record the container's identity. A crash after removal then remains recoverable.
    Remember,
    /// Remove the container by its immutable identity.
    RemoveContainer,
    /// Remove the leased snapshot.
    RemoveSnapshot,
    /// Forget the recorded launch.
    Clear,
    /// Nothing is left to reconcile.
    Finished,
    /// Recovery failed; the recorded launch remains.
    Failed(SandboxError),
}

/// What came of an action.
pub enum RecoveryEvent {
    /// It succeeded.
    Done,
    /// It failed.
    Failed(SandboxError),
    /// The storage has this identity.
    Identity(String),
    /// This launch is recorded, or none.
    Pending(Option<PendingJob>),
    /// A control command ran.
    Ran(Output),
}

/// The state of a recovery.
pub struct RecoveryView {
    /// What is asked for next.
    pub step: RecoveryStep,
    /// Identity of the runtime storage.
    pub identity: Option<Seq<char>>,
    /// Recorded launch.
    pub job: Option<PendingJob>,
    /// Identity of the inspected container.
    pub container: Option<Seq<char>>,
}

impl RecoveryStep {
    /// No action is asked for any more.
    pub open spec fn over(self) -> bool {
        self is Finished || self is Failed
    }
}

/// The first state: without durable state there is nothing to reconcile.
pub open spec fn recovery_start(durable: bool) -> RecoveryView {
    RecoveryView {
        step: if durable {
            RecoveryStep::VerifyOwner
        } else {
            RecoveryStep::Finished
        },
        identity: None,
        job: None,
        container: None,
    }
}

/// The container that the job names, if it is known to have one.
pub open spec fn known_container(job: PendingJob) -> Option<Seq<char>> {
    match job.container_id {
        Some(id) => Some(id@),
        None => None,
    }
}

/// The next state.
pub open spec fn recovery_next(state: RecoveryView, event: RecoveryEvent) -> RecoveryView {
    let failed = RecoveryView { step: RecoveryStep::Failed(SandboxError::Failed), ..state };
    match event {
        _ if state.step.over() => state,
        RecoveryEvent::Failed(error) => RecoveryView { step: RecoveryStep::Failed(error), ..state },
        RecoveryEvent::Done => match state.step {
            RecoveryStep::VerifyOwner => RecoveryView { step: RecoveryStep::Identify, ..state },
            RecoveryStep::Bind => RecoveryView { step: RecoveryStep::Load, ..state },
            RecoveryStep::VerifyPending => RecoveryView { step: RecoveryStep::Exists, ..state },
            RecoveryStep::Remember => RecoveryView { step: RecoveryStep::RemoveContainer, ..state },
            RecoveryStep::RemoveSnapshot => RecoveryView { step: RecoveryStep::Clear, ..state },
            RecoveryStep::Clear => RecoveryView { step: RecoveryStep::Finished, ..state },
            _ => failed,
        },
        RecoveryEvent::Identity(identity) => match state.step {
            RecoveryStep::Identify => RecoveryView {
                step: RecoveryStep::Bind,
                identity: Some(identity@),
                ..state
            },
            _ => failed,
        },
        RecoveryEvent::Pending(job) => match (state.step, job) {
            (RecoveryStep::Load, None) => RecoveryView { step: RecoveryStep::Finished, ..state },
            (RecoveryStep::Load, Some(_)) => RecoveryView {
                step: RecoveryStep::VerifyPending,
                job,
                ..state
            },
            _ => failed,
        },
        RecoveryEvent::Ran(output) => match (state.step, state.job) {
            (RecoveryStep::Exists, Some(job)) => if output.code == Some(0i32) {
                RecoveryView { step: RecoveryStep::Inspect, ..state }
            } else if output.code == Some(1i32) && known_container(job) is Some {
                // Absence alone cannot rule out an interrupted launcher creating the job later.
                RecoveryView { step: RecoveryStep::RemoveSnapshot, ..state }
            } else {
                failed
            },
            (RecoveryStep::Inspect, Some(job)) => match super::owned_container(
                output.stdout@,
                job.name@,
                job.token@,
            ) {
                Some(id) if output.success && (known_container(job) is None || known_container(job)
                    == Some(id)) => RecoveryView {
                    step: RecoveryStep::Remember,
                    container: Some(id),
                    ..state
                },
                _ => failed,
            },
            (RecoveryStep::RemoveContainer, _) => if output.success {
                RecoveryView { step: RecoveryStep::RemoveSnapshot, ..state }
            } else {
                failed
            },
            _ => failed,
        },
    }
}

/// The state after a sequence of events.
pub open spec fn recovery_run(state: RecoveryView, events: Seq<RecoveryEvent>) -> RecoveryView
    decreases events.len(),
{
    if events.len() == 0 {
        state
    } else {
        recovery_next(recovery_run(state, events.drop_last()), events.last())
    }
}

/// The container that a control command names: by identity where it is known.
pub open spec fn recovery_target(job: PendingJob) -> Seq<char> {
    match job.container_id {
        Some(id) => id@,
        None => job.name@,
    }
}

/// The control command that a state asks for.
pub open spec fn recovery_command(state: RecoveryView) -> Option<Seq<Seq<char>>> {
    match (state.step, state.job, state.container) {
        (RecoveryStep::Exists, Some(job), _) => Some(
            seq!["container"@, "exists"@, recovery_target(job)],
        ),
        (RecoveryStep::Inspect, Some(job), _) => Some(
            seq![
                "inspect"@,
                "--type=container"@,
                "--format"@,
                "{{json .}}"@,
                recovery_target(job),
            ],
        ),
        (RecoveryStep::RemoveContainer, _, Some(id)) => Some(
            seq!["rm"@, "--force"@, "--ignore"@, "--time=0"@, id],
        ),
        _ => None,
    }
}

/// A recovery in progress.
pub struct Recovery {
    step: RecoveryStep,
    identity: Option<String>,
    job: Option<PendingJob>,
    container: Option<String>,
}

impl View for Recovery {
    type V = RecoveryView;

    closed spec fn view(&self) -> RecoveryView {
        RecoveryView {
            step: self.step,
            identity: match self.identity {
                Some(identity) => Some(identity@),
                None => None,
            },
            job: self.job,
            container: match self.container {
                Some(id) => Some(id@),
                None => None,
            },
        }
    }
}

impl Recovery {
    /// Starts a recovery.
    pub fn start(durable: bool) -> (r: Self)
        ensures
            r@ == recovery_start(durable),
    {
        Recovery {
            step: if durable {
                RecoveryStep::VerifyOwner
            } else {
                RecoveryStep::Finished
            },
            identity: None,
            job: None,
            container: None,
        }
    }

    /// What is asked for next.
    pub fn step(&self) -> (r: RecoveryStep)
        ensures
            r == self@.step,
    {
        self.step
    }

    /// Identity of the runtime storage, once it is known.
    pub fn identity(&self) -> (r: Option<&str>)
        ensures
            match r {
                Some(identity) => self@.identity == Some(identity@),
                None => self@.identity is None,
            },
    {
        match &self.identity {
            Some(identity) => Some(identity.as_str()),
            None => None,
        }
    }

    /// Recorded launch, once it is known.
    pub fn job(&self) -> (r: Option<&PendingJob>)
        ensures
            match r {
                Some(job) => self@.job == Some(*job),
                None => self@.job is None,
            },
    {
        match &self.job {
            Some(job) => Some(job),
            None => None,
        }
    }

    /// Identity of the inspected container, once it is known.
    pub fn container(&self) -> (r: Option<&str>)
        ensures
            match r {
                Some(id) => self@.container == Some(id@),
                None => self@.container is None,
            },
    {
        match &self.container {
            Some(id) => Some(id.as_str()),
            None => None,
        }
    }

    /// The control command to run now, if one is asked for.
    pub fn command(&self) -> (r: Option<Vec<String>>)
        ensures
            match r {
                Some(arguments) => recovery_command(self@) == Some(text::texts(arguments@)),
                None => recovery_command(self@) is None,
            },
    {
        match (self.step, &self.job, &self.container) {
            (RecoveryStep::Exists, Some(job), _) => {
                let target = target_of(job);
                let m = vec!["container".to_owned(), "exists".to_owned(), target];
                assert(text::texts(m@) =~= seq![m@[0]@, m@[1]@, m@[2]@]);
                Some(m)
            },
            (RecoveryStep::Inspect, Some(job), _) => {
                let target = target_of(job);
                let m = vec![
                    "inspect".to_owned(),
                    "--type=container".to_owned(),
                    "--format".to_owned(),
                    "{{json .}}".to_owned(),
                    target,
                ];
                assert(text::texts(m@) =~= seq![m@[0]@, m@[1]@, m@[2]@, m@[3]@, m@[4]@]);
                Some(m)
            },
            (RecoveryStep::RemoveContainer, _, Some(id)) => {
                let m = vec![
                    "rm".to_owned(),
                    "--force".to_owned(),
                    "--ignore".to_owned(),
                    "--time=0".to_owned(),
                    id.clone(),
                ];
                assert(text::texts(m@) =~= seq![m@[0]@, m@[1]@, m@[2]@, m@[3]@, m@[4]@]);
                Some(m)
            },
            _ => None,
        }
    }

    fn at(self, step: RecoveryStep) -> (r: Self)
        ensures
            r@ == (RecoveryView { step, ..self@ }),
    {
        Recovery { step, identity: self.identity, job: self.job, container: self.container }
    }

    fn failed(self) -> (r: Self)
        ensures
            r@ == (RecoveryView { step: RecoveryStep::Failed(SandboxError::Failed), ..self@ }),
    {
        self.at(RecoveryStep::Failed(SandboxError::Failed))
    }

    /// Takes what came of the last action. An answer to another question fails.
    pub fn advance(self, event: RecoveryEvent) -> (r: Self)
        ensures
            r@ == recovery_next(self@, event),
    {
        match self.step {
            RecoveryStep::Finished => return self,
            RecoveryStep::Failed(_) => return self,
            _ => {},
        }
        match event {
            RecoveryEvent::Failed(error) => self.at(RecoveryStep::Failed(error)),
            RecoveryEvent::Done => match self.step {
                RecoveryStep::VerifyOwner => self.at(RecoveryStep::Identify),
                RecoveryStep::Bind => self.at(RecoveryStep::Load),
                RecoveryStep::VerifyPending => self.at(RecoveryStep::Exists),
                RecoveryStep::Remember => self.at(RecoveryStep::RemoveContainer),
                RecoveryStep::RemoveSnapshot => self.at(RecoveryStep::Clear),
                RecoveryStep::Clear => self.at(RecoveryStep::Finished),
                _ => self.failed(),
            },
            RecoveryEvent::Identity(identity) => match self.step {
                RecoveryStep::Identify => Recovery {
                    step: RecoveryStep::Bind,
                    identity: Some(identity),
                    job: self.job,
                    container: self.container,
                },
                _ => self.failed(),
            },
            RecoveryEvent::Pending(job) => match (self.step, job) {
                (RecoveryStep::Load, None) => self.at(RecoveryStep::Finished),
                (RecoveryStep::Load, Some(job)) => Recovery {
                    step: RecoveryStep::VerifyPending,
                    identity: self.identity,
                    job: Some(job),
                    container: self.container,
                },
                _ => self.failed(),
            },
            RecoveryEvent::Ran(output) => self.ran(output),
        }
    }

    fn ran(self, output: Output) -> (r: Self)
        requires
            !self@.step.over(),
        ensures
            r@ == recovery_next(self@, RecoveryEvent::Ran(output)),
    {
        if let RecoveryStep::RemoveContainer = self.step {
            return if output.success {
                self.at(RecoveryStep::RemoveSnapshot)
            } else {
                self.failed()
            };
        }
        let (name, token, known) = match &self.job {
            Some(job) => (job.name.clone(), job.token.clone(), job.container_id.clone()),
            None => return self.failed(),
        };
        match self.step {
            RecoveryStep::Exists => match output.code {
                Some(0) => self.at(RecoveryStep::Inspect),
                Some(1) => {
                    if known.is_some() {
                        self.at(RecoveryStep::RemoveSnapshot)
                    } else {
                        self.failed()
                    }
                },
                _ => self.failed(),
            },
            RecoveryStep::Inspect => {
                if !output.success {
                    return self.failed();
                }
                let id = match owned_container_id(
                    output.stdout.as_slice(),
                    name.as_str(),
                    token.as_str(),
                ) {
                    Some(id) => id,
                    None => return self.failed(),
                };
                if let Some(known) = known {
                    if !text::text_eq(known.as_str(), id.as_str()) {
                        return self.failed();
                    }
                }
                Recovery {
                    step: RecoveryStep::Remember,
                    identity: self.identity,
                    job: self.job,
                    container: Some(id),
                }
            },
            _ => self.failed(),
        }
    }
}

fn target_of(job: &PendingJob) -> (r: String)
    ensures
        r@ == recovery_target(*job),
{
    match &job.container_id {
        Some(id) => id.clone(),
        None => job.name.clone(),
    }
}

/// Event `i` is an inspection that attributes container `id` to the recorded launch.
pub open spec fn inspected_at(
    events: Seq<RecoveryEvent>,
    i: int,
    job: PendingJob,
    id: Seq<char>,
) -> bool {
    &&& 0 <= i < events.len()
    &&& events[i] matches RecoveryEvent::Ran(output) && output.success && super::owned_container(
        output.stdout@,
        job.name@,
        job.token@,
    ) == Some(id)
}

/// Whatever is reported, recovery asks to remove a container only by an identity that an
/// inspection attributed to the recorded launch, and that agrees with the recorded one.
pub proof fn recovery_removes_only_the_inspected_container(
    durable: bool,
    events: Seq<RecoveryEvent>,
)
    ensures
        ({
            let state = recovery_run(recovery_start(durable), events);
            state.step is Remember || state.step is RemoveContainer ==> state.job is Some
                && state.container is Some && (known_container(state.job->0) is None
                || known_container(state.job->0) == state.container) && (exists|i: int|
                inspected_at(events, i, state.job->0, state.container->0))
        }),
    decreases events.len(),
{
    if events.len() > 0 {
        let before = events.drop_last();
        recovery_removes_only_the_inspected_container(durable, before);
        let last = recovery_run(recovery_start(durable), before);
        let state = recovery_run(recovery_start(durable), events);
        if state.step is Remember {
            assert(inspected_at(events, events.len() - 1, state.job->0, state.container->0));
        } else if state.step is RemoveContainer {
            let i = choose|i: int| inspected_at(before, i, last.job->0, last.container->0);
            assert(inspected_at(events, i, state.job->0, state.container->0));
        }
    }
}

/// A launch is forgotten only right after its snapshot was removed, and its snapshot is
/// removed only after its container was removed or, being known, was found absent.
pub proof fn recovery_forgets_only_what_it_removed(state: RecoveryView, event: RecoveryEvent)
    requires
        !state.step.over(),
    ensures
        recovery_next(state, event).step is Clear ==> state.step is RemoveSnapshot
            && event is Done,
        recovery_next(state, event).step is RemoveSnapshot ==> (state.step is RemoveContainer
            && (event matches RecoveryEvent::Ran(output) && output.success)) || (
        state.step is Exists && state.job is Some && known_container(state.job->0) is Some && (
        event matches RecoveryEvent::Ran(output) && output.code == Some(1i32))),
        recovery_next(state, event).step is RemoveContainer ==> state.step is Remember
            && event is Done,
        recovery_next(state, event).step is Finished ==> (state.step is Clear && event is Done)
            || (state.step is Load && (event matches RecoveryEvent::Pending(job) && job is None)),
{
}

/// Recovery takes its steps in order. It finishes without a recorded job; it removes a container only
/// where one was found, inspected and is the one recorded before, if any was; it takes absence for an
/// answer only where the container was known.
pub proof fn recoveries_take_their_steps_in_order(
    state: RecoveryView,
    identity: String,
    pending: PendingJob,
    output: Output,
    error: SandboxError,
)
    requires
        !(state.step is Finished),
        !(state.step is Failed),
    ensures
        recovery_start(true).step == RecoveryStep::VerifyOwner,
        recovery_start(false).step == RecoveryStep::Finished,
        recovery_next(state, RecoveryEvent::Failed(error)).step == RecoveryStep::Failed(error),
        ({
            let done = recovery_next(state, RecoveryEvent::Done);
            let named = recovery_next(state, RecoveryEvent::Identity(identity));
            let none = recovery_next(state, RecoveryEvent::Pending(None));
            let some = recovery_next(state, RecoveryEvent::Pending(Some(pending)));
            let ran = recovery_next(state, RecoveryEvent::Ran(output));
            &&& state.step == RecoveryStep::VerifyOwner ==> done.step == RecoveryStep::Identify
            &&& state.step == RecoveryStep::Identify ==> named.step == RecoveryStep::Bind
                && named.identity == Some(identity@)
            &&& state.step == RecoveryStep::Bind ==> done.step == RecoveryStep::Load
            &&& state.step == RecoveryStep::Load ==> none.step == RecoveryStep::Finished && some.step
                == RecoveryStep::VerifyPending && some.job == Some(pending)
            &&& state.step == RecoveryStep::VerifyPending ==> done.step == RecoveryStep::Exists
            &&& state.step == RecoveryStep::Exists && state.job is Some ==> {
                let known = (state.job->0).container_id is Some;
                &&& ran.step == RecoveryStep::Inspect <==> output.code == Some(0i32)
                &&& ran.step == RecoveryStep::RemoveSnapshot <==> output.code == Some(1i32) && known
                &&& output.code != Some(0i32) && !(output.code == Some(1i32) && known) ==> ran.step
                    == RecoveryStep::Failed(SandboxError::Failed)
            }
            &&& state.step == RecoveryStep::Inspect && state.job is Some ==> {
                let job = state.job->0;
                let owned = super::owned_container(output.stdout@, job.name@, job.token@);
                let same = job.container_id is None || (owned is Some && job.container_id->0@
                    == owned->0);
                &&& ran.step == RecoveryStep::Remember <==> output.success && owned is Some && same
                &&& ran.step == RecoveryStep::Remember ==> ran.container == owned
                &&& ran.step != RecoveryStep::Remember ==> ran.step == RecoveryStep::Failed(
                    SandboxError::Failed,
                )
            }
            &&& state.step == RecoveryStep::Remember ==> done.step == RecoveryStep::RemoveContainer
            &&& state.step == RecoveryStep::RemoveContainer ==> ran.step == (if output.success {
                RecoveryStep::RemoveSnapshot
            } else {
                RecoveryStep::Failed(SandboxError::Failed)
            })
            &&& state.step == RecoveryStep::RemoveSnapshot ==> done.step == RecoveryStep::Clear
            &&& state.step == RecoveryStep::Clear ==> done.step == RecoveryStep::Finished
            &&& done.job == state.job && ran.job == state.job
        }),
{
}

/// What recovery asks of the runtime: whether the recorded container exists, what it is, and to remove
/// the one that was inspected, by its identifier.
pub proof fn recoveries_ask_about_the_recorded_container(state: RecoveryView)
    ensures
        ({
            let target = match (state.job->0).container_id {
                Some(id) => id@,
                None => (state.job->0).name@,
            };
            &&& state.step == RecoveryStep::Exists && state.job is Some ==> recovery_command(state)
                == Some(seq!["container"@, "exists"@, target])
            &&& state.step == RecoveryStep::Inspect && state.job is Some ==> recovery_command(state)
                == Some(
                seq!["inspect"@, "--type=container"@, "--format"@, "{{json .}}"@, target],
            )
            &&& state.step == RecoveryStep::RemoveContainer && state.container is Some
                ==> recovery_command(state) == Some(
                seq!["rm"@, "--force"@, "--ignore"@, "--time=0"@, state.container->0],
            )
            &&& state.step != RecoveryStep::Exists && state.step != RecoveryStep::Inspect
                && state.step != RecoveryStep::RemoveContainer ==> recovery_command(state) is None
        }),
{
}

} // verus!
