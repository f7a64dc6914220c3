//! One authenticated exchange with a remote worker, as steps that a caller performs in order.
//! On a failure the local SSH child is killed and joined; the remote job remains
//! deadline-bounded.

use super::super::super::handoff::HandoffPolicy;
use super::super::SandboxError;
use super::remote;
use super::remote::{import_response, RemoteJob, Response};
use super::{ReceiptView, ValidationReceipt};
use vstd::prelude::*;

verus! {

/// What a client does next.
#[derive(Debug, Clone, Copy, PartialEq, Eq, Structural)]
pub enum DispatchStep {
    /// Check the credential files.
    Trust,
    /// Start the SSH child, and read the clock.
    Spawn,
    /// Send the request, read one frame, and await the child and the clock.
    Exchange,
    /// Kill and await the child.
    Kill,
    /// The exchange is over.
    Ended,
}

/// What came of an action.
pub enum DispatchEvent {
    /// It succeeded.
    Done,
    /// It failed.
    Failed(SandboxError),
    /// The child was started; this is the time.
    Spawned(Option<u64>),
    /// A frame was read.
    Replied(Reply),
}

/// What an exchange gave.
pub struct Reply {
    /// The response, where the frame held one.
    pub response: Option<Response>,
    /// Whether anything followed the frame.
    pub trailing: bool,
    /// Whether the child exited successfully.
    pub success: bool,
    /// The time.
    pub now: Option<u64>,
}

/// The state of an exchange.
pub struct DispatchView {
    /// What is done next.
    pub step: DispatchStep,
    /// The imported receipt.
    pub receipt: Option<ReceiptView>,
    /// Why there is none.
    pub failure: SandboxError,
}

/// The exchange ends without a receipt.
pub open spec fn dispatch_failed(error: SandboxError) -> DispatchView {
    DispatchView { step: DispatchStep::Ended, receipt: None, failure: error }
}

/// The exchange failed; its child is still to be killed.
pub open spec fn dispatch_killing(error: SandboxError) -> DispatchView {
    DispatchView { step: DispatchStep::Kill, receipt: None, failure: error }
}

/// The first state of an exchange: only a current request is sent.
pub open spec fn dispatch_start(
    job: RemoteJob,
    policy: HandoffPolicy,
    now: Option<u64>,
) -> DispatchView {
    match now {
        None => dispatch_failed(SandboxError::Unavailable),
        Some(now) => if job.admitted(policy, now) {
            DispatchView {
                step: DispatchStep::Trust,
                receipt: None,
                failure: SandboxError::Failed,
            }
        } else {
            dispatch_failed(SandboxError::InvalidConfiguration)
        },
    }
}

/// What a reply gives: only one frame from a child that succeeded, answering the request.
pub open spec fn dispatch_replied(
    job: RemoteJob,
    policy: HandoffPolicy,
    reply: Reply,
) -> DispatchView {
    if reply.trailing || !reply.success {
        dispatch_killing(SandboxError::Failed)
    } else {
        match reply.now {
            None => dispatch_killing(SandboxError::Unavailable),
            Some(now) => if !job.admitted(policy, now) {
                dispatch_killing(SandboxError::InvalidConfiguration)
            } else if (reply.response matches Some(sent) && sent.answers(job, policy, now)) {
                DispatchView {
                    step: DispatchStep::Ended,
                    receipt: Some(remote::imported_receipt(reply.response->0.receipt)),
                    failure: SandboxError::Failed,
                }
            } else {
                dispatch_killing(SandboxError::Failed)
            },
        }
    }
}

/// The next state of an exchange.
pub open spec fn dispatch_next(
    state: DispatchView,
    job: RemoteJob,
    policy: HandoffPolicy,
    event: DispatchEvent,
) -> DispatchView {
    match (state.step, event) {
        (DispatchStep::Ended, _) => state,
        (DispatchStep::Trust, DispatchEvent::Done) => DispatchView {
            step: DispatchStep::Spawn,
            ..state
        },
        (DispatchStep::Trust, DispatchEvent::Failed(error)) => dispatch_failed(error),
        (DispatchStep::Spawn, DispatchEvent::Spawned(now)) => match now {
            Some(_) => DispatchView { step: DispatchStep::Exchange, ..state },
            None => dispatch_failed(SandboxError::Unavailable),
        },
        (DispatchStep::Spawn, DispatchEvent::Failed(_)) => dispatch_failed(
            SandboxError::Unavailable,
        ),
        (DispatchStep::Exchange, DispatchEvent::Replied(reply)) => dispatch_replied(
            job,
            policy,
            reply,
        ),
        (DispatchStep::Exchange, DispatchEvent::Failed(error)) => dispatch_killing(error),
        (DispatchStep::Kill, DispatchEvent::Done) => dispatch_failed(state.failure),
        _ => dispatch_failed(SandboxError::Failed),
    }
}

/// An exchange in progress.
pub struct Dispatch {
    step: DispatchStep,
    receipt: Option<ValidationReceipt>,
    failure: SandboxError,
}

impl View for Dispatch {
    type V = DispatchView;

    closed spec fn view(&self) -> DispatchView {
        DispatchView {
            step: self.step,
            receipt: match self.receipt {
                Some(receipt) => Some(receipt.data()),
                None => None,
            },
            failure: self.failure,
        }
    }
}

impl Dispatch {
    fn failed(error: SandboxError) -> (r: Self)
        ensures
            r@ == dispatch_failed(error),
    {
        Dispatch { step: DispatchStep::Ended, receipt: None, failure: error }
    }

    fn killing(error: SandboxError) -> (r: Self)
        ensures
            r@ == dispatch_killing(error),
    {
        Dispatch { step: DispatchStep::Kill, receipt: None, failure: error }
    }

    /// Starts an exchange.
    pub fn start(job: &RemoteJob, policy: &HandoffPolicy, now: Option<u64>) -> (r: Self)
        ensures
            r@ == dispatch_start(*job, *policy, now),
    {
        let now: u64 = match now {
            Some(now) => now,
            None => return Self::failed(SandboxError::Unavailable),
        };
        if job.check(policy, now).is_err() {
            return Self::failed(SandboxError::InvalidConfiguration);
        }
        Dispatch { step: DispatchStep::Trust, receipt: None, failure: SandboxError::Failed }
    }

    /// What is done next.
    pub fn step(&self) -> (r: DispatchStep)
        ensures
            r == self@.step,
    {
        self.step
    }

    /// Takes what came of the last action. An answer to another question ends the exchange.
    pub fn advance(self, job: &RemoteJob, policy: &HandoffPolicy, event: DispatchEvent) -> (r: Self)
        ensures
            r@ == dispatch_next(self@, *job, *policy, event),
    {
        match (self.step, event) {
            (DispatchStep::Ended, _) => self,
            (DispatchStep::Trust, DispatchEvent::Done) => Dispatch {
                step: DispatchStep::Spawn,
                receipt: self.receipt,
                failure: self.failure,
            },
            (DispatchStep::Trust, DispatchEvent::Failed(error)) => Self::failed(error),
            (DispatchStep::Spawn, DispatchEvent::Spawned(now)) => match now {
                Some(_) => Dispatch {
                    step: DispatchStep::Exchange,
                    receipt: self.receipt,
                    failure: self.failure,
                },
                None => Self::failed(SandboxError::Unavailable),
            },
            (DispatchStep::Spawn, DispatchEvent::Failed(_)) => Self::failed(
                SandboxError::Unavailable,
            ),
            (DispatchStep::Exchange, DispatchEvent::Replied(reply)) => {
                if reply.trailing || !reply.success {
                    return Self::killing(SandboxError::Failed);
                }
                let now: u64 = match reply.now {
                    Some(now) => now,
                    None => return Self::killing(SandboxError::Unavailable),
                };
                match import_response(reply.response, job, policy, now) {
                    Ok(receipt) => Dispatch {
                        step: DispatchStep::Ended,
                        receipt: Some(receipt),
                        failure: SandboxError::Failed,
                    },
                    Err(error) => Self::killing(error),
                }
            },
            (DispatchStep::Exchange, DispatchEvent::Failed(error)) => Self::killing(error),
            (DispatchStep::Kill, DispatchEvent::Done) => Self::failed(self.failure),
            _ => Self::failed(SandboxError::Failed),
        }
    }

    /// The result of an exchange that is over.
    pub fn result(self) -> (r: Result<ValidationReceipt, SandboxError>)
        ensures
            match r {
                Ok(receipt) => self@.step is Ended && self@.receipt == Some(receipt.data()),
                Err(error) => if self@.step is Ended {
                    self@.receipt is None && error == self@.failure
                } else {
                    error == SandboxError::Failed
                },
            },
    {
        match self.step {
            DispatchStep::Ended => match self.receipt {
                Some(receipt) => Ok(receipt),
                None => Err(self.failure),
            },
            _ => Err(SandboxError::Failed),
        }
    }
}

/// Whatever is reported, an exchange holds a receipt only where one frame of a successful
/// child answered the request exactly while it was current, and a connection is opened only
/// for a request that was current.
pub proof fn receipts_come_from_exact_answers(
    state: DispatchView,
    job: RemoteJob,
    policy: HandoffPolicy,
    event: DispatchEvent,
)
    requires
        state.receipt is None,
    ensures
        ({
            let next = dispatch_next(state, job, policy, event);
            next.receipt is Some ==> state.step is Exchange && (
            event matches DispatchEvent::Replied(reply) && !reply.trailing && reply.success
                && reply.now is Some && job.admitted(policy, reply.now->0) && reply.response is Some
                && reply.response->0.answers(job, policy, reply.now->0) && next.receipt == Some(
                remote::imported_receipt(reply.response->0.receipt),
            ))
        }),
        forall|now: Option<u64>|
            (#[trigger] dispatch_start(job, policy, now)).step is Trust ==> now is Some
                && job.admitted(policy, now->0),
{
}

/// An exchange begins exactly with an admitted request; without a clock or with another request it
/// is over before anything is started.
pub proof fn exchanges_begin_only_with_admitted_requests(
    job: RemoteJob,
    policy: HandoffPolicy,
    now: Option<u64>,
)
    ensures
        ({
            let state = dispatch_start(job, policy, now);
            &&& state.receipt is None
            &&& state.step == DispatchStep::Trust <==> now is Some && job.admitted(policy, now->0)
            &&& now is None ==> state.step == DispatchStep::Ended && state.failure
                == SandboxError::Unavailable
            &&& now is Some && !job.admitted(policy, now->0) ==> state.step == DispatchStep::Ended
                && state.failure == SandboxError::InvalidConfiguration
        }),
{
}

/// An exchange ends with a receipt exactly where the answer came alone, from a client that ended
/// well, while the request was still admitted, and answers it; every other answer kills the client
/// and yields nothing.
pub proof fn exact_answers_end_an_exchange(
    state: DispatchView,
    job: RemoteJob,
    policy: HandoffPolicy,
    reply: Reply,
)
    requires
        state.step == DispatchStep::Exchange,
    ensures
        ({
            let next = dispatch_next(state, job, policy, DispatchEvent::Replied(reply));
            let alone = !reply.trailing && reply.success;
            let current = reply.now is Some && job.admitted(policy, reply.now->0);
            let answered = reply.response is Some && (reply.response->0).answers(
                job,
                policy,
                reply.now->0,
            );
            &&& next.receipt is Some <==> alone && current && answered
            &&& next.receipt is Some ==> next.step == DispatchStep::Ended && next.receipt == Some(
                remote::imported_receipt(reply.response->0.receipt),
            )
            &&& next.receipt is None ==> next.step == DispatchStep::Kill
            &&& !alone ==> next.failure == SandboxError::Failed
            &&& alone && reply.now is None ==> next.failure == SandboxError::Unavailable
            &&& alone && reply.now is Some && !current ==> next.failure
                == SandboxError::InvalidConfiguration
            &&& alone && current && !answered ==> next.failure == SandboxError::Failed
        }),
{
}

/// An exchange takes its steps in order: credentials, client, answer, and after a failure the end of
/// the client; nothing but an answer gives a receipt, and an ended exchange stays as it is.
pub proof fn exchanges_take_their_steps_in_order(
    state: DispatchView,
    job: RemoteJob,
    policy: HandoffPolicy,
    event: DispatchEvent,
    error: SandboxError,
    now: Option<u64>,
)
    ensures
        ({
            let done = dispatch_next(state, job, policy, DispatchEvent::Done);
            let failed = dispatch_next(state, job, policy, DispatchEvent::Failed(error));
            let spawned = dispatch_next(state, job, policy, DispatchEvent::Spawned(now));
            let next = dispatch_next(state, job, policy, event);
            &&& state.step == DispatchStep::Trust ==> done.step == DispatchStep::Spawn
                && failed.step == DispatchStep::Ended && failed.failure == error
            &&& state.step == DispatchStep::Spawn ==> failed.step == DispatchStep::Ended
                && failed.failure == SandboxError::Unavailable && spawned.step == (if now is Some {
                DispatchStep::Exchange
            } else {
                DispatchStep::Ended
            })
            &&& state.step == DispatchStep::Exchange ==> failed.step == DispatchStep::Kill
                && failed.failure == error
            &&& state.step == DispatchStep::Kill ==> done.step == DispatchStep::Ended
                && done.failure == state.failure && done.receipt is None
            &&& state.step == DispatchStep::Ended ==> next == state
            &&& next.receipt is Some && state.receipt is None ==> state.step
                == DispatchStep::Exchange && event is Replied
        }),
{
}

} // verus!
