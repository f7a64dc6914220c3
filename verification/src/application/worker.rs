//! The incident worker, as steps that a caller performs in order: it drains the outbox, takes
//! batches from the intake, and investigates firing incidents one after the other.

use crate::adapters::ntfy;
use crate::adapters::ntfy::render_message;
use crate::reasoning::budget::Reservation;
use crate::reasoning::contracts::InvestigationResult;
use crate::text;
use vstd::prelude::*;

verus! {

/// One incident, as far as the worker looks at it.
pub struct IncidentSignal {
    /// Incident identity.
    pub incident_id: String,
    /// Whether the alert is firing.
    pub firing: bool,
    /// The service label, if there is one.
    pub service: Option<String>,
}

/// One incident.
pub struct SignalView {
    /// Incident identity.
    pub incident_id: Seq<char>,
    /// Whether the alert is firing.
    pub firing: bool,
    /// The service whose queries are looked up.
    pub service: Seq<char>,
}

impl View for IncidentSignal {
    type V = SignalView;

    open spec fn view(&self) -> SignalView {
        SignalView {
            incident_id: self.incident_id@,
            firing: self.firing,
            service: match self.service {
                Some(service) => service@,
                None => "unknown"@,
            },
        }
    }
}

/// Incidents, in order.
pub open spec fn signals(list: Seq<IncidentSignal>) -> Seq<SignalView> {
    list.map_values(|signal: IncidentSignal| signal@)
}

/// Providers that the deployment admits.
#[derive(Debug, Clone, Copy, PartialEq, Eq, Structural)]
pub struct ProviderPolicy {
    /// The OpenAI gate is accepted.
    pub openai: bool,
    /// Gemini is configured and gated.
    pub gemini: bool,
    /// DeepSeek is configured and gated.
    pub deepseek: bool,
}

impl ProviderPolicy {
    /// Number of paid providers.
    pub open spec fn paid(self) -> u64 {
        (if self.gemini {
            1int
        } else {
            0int
        } + if self.deepseek {
            1int
        } else {
            0int
        }) as u64
    }

    /// Number of paid providers.
    pub fn paid_count(&self) -> (r: u64)
        ensures
            r == self.paid(),
    {
        let gemini: u64 = if self.gemini {
            1
        } else {
            0
        };
        let deepseek: u64 = if self.deepseek {
            1
        } else {
            0
        };
        gemini + deepseek
    }
}

/// What the worker does next.
#[derive(Debug, Clone, Copy, PartialEq, Eq, Structural)]
pub enum WorkStep {
    /// Deliver pending notifications, at startup.
    StartupDrain,
    /// Publish metrics, at startup.
    StartupMetrics,
    /// List investigations that a restart interrupted.
    ListPending,
    /// Await a batch.
    Receive,
    /// Commit the batch.
    Commit,
    /// Acknowledge the batch.
    Acknowledge,
    /// Refuse the batch, and tell of the failure.
    Refuse,
    /// Publish metrics after a batch.
    BatchMetrics,
    /// Look up the queries of the incident's service.
    SelectQueries,
    /// Assemble a runtime for the incident.
    Assemble,
    /// Reserve the paid budget of the run.
    Reserve,
    /// Investigate.
    Investigate,
    /// Reconcile the reserved cost.
    Reconcile,
    /// Record the completion, with the report for the outbox.
    Complete,
    /// Deliver pending notifications, after an incident.
    Drain,
    /// Publish metrics after an incident.
    Metrics,
    /// Tell of the failure.
    Signal,
    /// The worker is over.
    Stopped,
}

/// What an investigation gave.
pub struct Investigated {
    /// The result, unless the investigation failed.
    pub result: Option<InvestigationResult>,
    /// Attempts of unknown cost.
    pub unknown_cost_attempts: u32,
    /// Known cost in micro-USD.
    pub known_cost_micro_usd: u64,
}

/// What came of an action.
pub enum WorkEvent {
    /// It is done.
    Done,
    /// It failed.
    Failed,
    /// These incidents are pending or newly committed.
    Incidents(Vec<IncidentSignal>),
    /// The intake is closed.
    Closed,
    /// The paid budget is admitted, or not.
    Budget(bool),
    /// The investigation gave this.
    Investigated(Investigated),
}

/// The report of an incident for the outbox.
pub struct Report {
    /// Identity of the delivery.
    pub delivery_id: Seq<char>,
    /// Message.
    pub body: Seq<char>,
}

/// The state of the worker.
pub struct WorkView {
    /// What is done next.
    pub step: WorkStep,
    /// Incidents of the batch that are left, the current one first.
    pub queue: Seq<SignalView>,
    /// Whether the paid budget of the run is admitted.
    pub admitted: bool,
    /// The actual cost of the run, where it is known.
    pub cost: Option<u64>,
    /// The report of the run.
    pub report: Option<Report>,
    /// Whether the worker told of a failure.
    pub failed: bool,
}

/// The first state of the worker.
pub open spec fn work_start() -> WorkView {
    WorkView {
        step: WorkStep::StartupDrain,
        queue: Seq::empty(),
        admitted: false,
        cost: None,
        report: None,
        failed: false,
    }
}

/// The incidents from the first firing one on.
pub open spec fn from_firing(queue: Seq<SignalView>) -> Seq<SignalView>
    decreases queue.len(),
{
    if queue.len() == 0 || queue[0].firing {
        queue
    } else {
        from_firing(queue.drop_first())
    }
}

/// Goes on with the first firing incident of a queue, or awaits the next batch.
pub open spec fn work_queue(state: WorkView, queue: Seq<SignalView>) -> WorkView {
    let rest = from_firing(queue);
    WorkView {
        step: if rest.len() == 0 {
            WorkStep::Receive
        } else {
            WorkStep::SelectQueries
        },
        queue: rest,
        admitted: false,
        cost: None,
        report: None,
        ..state
    }
}

/// Goes on behind the current incident.
pub open spec fn work_skip(state: WorkView) -> WorkView {
    work_queue(
        state,
        if state.queue.len() > 0 {
            state.queue.drop_first()
        } else {
            state.queue
        },
    )
}

/// Goes on after an investigation and its reconciliation.
pub open spec fn work_conclude(state: WorkView) -> WorkView {
    WorkView {
        step: if state.report is Some {
            WorkStep::Complete
        } else {
            WorkStep::Drain
        },
        ..state
    }
}

/// The report of a result.
pub open spec fn report_of(result: InvestigationResult) -> Report {
    Report {
        delivery_id: result.incident_id@ + ":report"@,
        body: ntfy::report_text(result, None),
    }
}

/// The state after an investigation.
pub open spec fn work_investigated(
    state: WorkView,
    policy: ProviderPolicy,
    outcome: Investigated,
) -> WorkView {
    let known = WorkView {
        cost: if outcome.unknown_cost_attempts == 0 {
            Some(outcome.known_cost_micro_usd)
        } else {
            None
        },
        report: match outcome.result {
            Some(result) => Some(report_of(result)),
            None => None,
        },
        ..state
    };
    if policy.paid() > 0 && state.admitted {
        WorkView { step: WorkStep::Reconcile, ..known }
    } else {
        work_conclude(known)
    }
}

/// The next state of the worker. An event that does not answer the action changes nothing.
pub open spec fn work_next(state: WorkView, policy: ProviderPolicy, event: WorkEvent) -> WorkView {
    match (state.step, event) {
        (WorkStep::StartupDrain, WorkEvent::Done) => WorkView {
            step: WorkStep::StartupMetrics,
            ..state
        },
        (WorkStep::StartupMetrics, WorkEvent::Done) => WorkView {
            step: WorkStep::ListPending,
            ..state
        },
        (WorkStep::ListPending, WorkEvent::Incidents(list)) => if list@.len() == 0 {
            WorkView { step: WorkStep::Receive, ..state }
        } else {
            WorkView { step: WorkStep::BatchMetrics, queue: signals(list@), ..state }
        },
        (WorkStep::Receive, WorkEvent::Done) => WorkView { step: WorkStep::Commit, ..state },
        (WorkStep::Receive, WorkEvent::Closed) => WorkView { step: WorkStep::Stopped, ..state },
        (WorkStep::Commit, WorkEvent::Incidents(list)) => WorkView {
            step: WorkStep::Acknowledge,
            queue: signals(list@),
            ..state
        },
        (WorkStep::Commit, WorkEvent::Failed) => WorkView { step: WorkStep::Refuse, ..state },
        (WorkStep::Acknowledge, WorkEvent::Done) => WorkView {
            step: WorkStep::BatchMetrics,
            ..state
        },
        (WorkStep::Refuse, WorkEvent::Done) => WorkView {
            step: WorkStep::Stopped,
            failed: true,
            ..state
        },
        (WorkStep::BatchMetrics, WorkEvent::Done) => work_queue(state, state.queue),
        (WorkStep::SelectQueries, WorkEvent::Done) => WorkView {
            step: WorkStep::Assemble,
            ..state
        },
        (WorkStep::SelectQueries, WorkEvent::Failed) => work_skip(state),
        (WorkStep::Assemble, WorkEvent::Done) => WorkView { step: WorkStep::Reserve, ..state },
        (WorkStep::Assemble, WorkEvent::Failed) => work_skip(state),
        (WorkStep::Reserve, WorkEvent::Budget(admitted)) => WorkView {
            step: WorkStep::Investigate,
            admitted,
            ..state
        },
        (WorkStep::Investigate, WorkEvent::Investigated(outcome)) => work_investigated(
            state,
            policy,
            outcome,
        ),
        (WorkStep::Reconcile, WorkEvent::Done) => work_conclude(state),
        (WorkStep::Reconcile, WorkEvent::Failed) => WorkView { step: WorkStep::Signal, ..state },
        (WorkStep::Complete, WorkEvent::Done) => WorkView { step: WorkStep::Drain, ..state },
        (WorkStep::Complete, WorkEvent::Failed) => WorkView { step: WorkStep::Signal, ..state },
        (WorkStep::Drain, WorkEvent::Done) => WorkView { step: WorkStep::Metrics, ..state },
        (WorkStep::Metrics, WorkEvent::Done) => work_skip(state),
        (WorkStep::Signal, WorkEvent::Done) => WorkView {
            step: WorkStep::Stopped,
            failed: true,
            ..state
        },
        _ => state,
    }
}

/// The state of the worker after some events.
pub open spec fn work_after(policy: ProviderPolicy, events: Seq<WorkEvent>) -> WorkView
    decreases events.len(),
{
    if events.len() == 0 {
        work_start()
    } else {
        work_next(work_after(policy, events.drop_last()), policy, events.last())
    }
}

/// The providers that an investigation may use: paid ones only under an admitted budget.
pub open spec fn usable(policy: ProviderPolicy, admitted: bool) -> ProviderPolicy {
    ProviderPolicy {
        openai: policy.openai,
        gemini: admitted && policy.gemini,
        deepseek: admitted && policy.deepseek,
    }
}

/// The incident worker.
pub struct Worker {
    step: WorkStep,
    queue: Vec<IncidentSignal>,
    next: usize,
    admitted: bool,
    cost: Option<u64>,
    report: Option<(String, String)>,
    failed: bool,
}

impl Worker {
    /// Incidents that are left.
    spec fn rest(self) -> Seq<SignalView> {
        signals(self.queue@).skip(self.next as int)
    }

    #[verifier::type_invariant]
    spec fn indexed(self) -> bool {
        self.next <= self.queue@.len()
    }
}

/// A report for the outbox.
pub open spec fn report_view(report: Option<(String, String)>) -> Option<Report> {
    match report {
        Some(report) => Some(Report { delivery_id: report.0@, body: report.1@ }),
        None => None,
    }
}

impl View for Worker {
    type V = WorkView;

    closed spec fn view(&self) -> WorkView {
        WorkView {
            step: self.step,
            queue: self.rest(),
            admitted: self.admitted,
            cost: self.cost,
            report: report_view(self.report),
            failed: self.failed,
        }
    }
}

impl Worker {
    /// Starts the worker.
    pub fn start() -> (r: Self)
        ensures
            r@ == work_start(),
    {
        let worker = Worker {
            step: WorkStep::StartupDrain,
            queue: Vec::new(),
            next: 0,
            admitted: false,
            cost: None,
            report: None,
            failed: false,
        };
        assert(worker@.queue =~= Seq::empty());
        worker
    }

    /// What is done next.
    pub fn step(&self) -> (r: WorkStep)
        ensures
            r == self@.step,
    {
        self.step
    }

    /// The current incident.
    pub fn incident(&self) -> (r: Option<&IncidentSignal>)
        ensures
            match r {
                Some(signal) => self@.queue.len() > 0 && signal@ == self@.queue[0],
                None => self@.queue.len() == 0,
            },
    {
        proof {
            use_type_invariant(self);
        }
        if self.next < self.queue.len() {
            Some(&self.queue[self.next])
        } else {
            None
        }
    }

    /// The service of the current incident.
    pub fn service(&self) -> (r: String)
        ensures
            r@ == (if self@.queue.len() > 0 {
                self@.queue[0].service
            } else {
                "unknown"@
            }),
    {
        match self.incident() {
            Some(signal) => match &signal.service {
                Some(service) => service.clone(),
                None => "unknown".to_owned(),
            },
            None => "unknown".to_owned(),
        }
    }

    /// The providers that the investigation may use.
    pub fn providers(&self, policy: &ProviderPolicy) -> (r: ProviderPolicy)
        ensures
            r == usable(*policy, self@.admitted),
    {
        ProviderPolicy {
            openai: policy.openai,
            gemini: self.admitted && policy.gemini,
            deepseek: self.admitted && policy.deepseek,
        }
    }

    /// What each provider attempt of the investigation reserves of the incident budget.
    pub fn reservation(&self) -> (r: Reservation)
        ensures
            r == (Reservation {
                provider_calls: 1,
                tokens: 4000,
                evidence_queries: 0,
                cost_micro_usd: super::PROVIDER_RESERVATION,
            }),
            r.cost_micro_usd == 250000,
    {
        Reservation {
            provider_calls: 1,
            tokens: 4000,
            evidence_queries: 0,
            cost_micro_usd: super::PROVIDER_RESERVATION,
        }
    }

    /// The actual cost of the run, where it is known.
    pub fn cost(&self) -> (r: Option<u64>)
        ensures
            r == self@.cost,
    {
        self.cost
    }

    /// Identity and message of the report for the outbox.
    pub fn report(&self) -> (r: Option<(String, String)>)
        ensures
            report_view(r) == self@.report,
    {
        match &self.report {
            Some(report) => Some((report.0.clone(), report.1.clone())),
            None => None,
        }
    }

    /// Whether the worker told of a failure.
    pub fn failed(&self) -> (r: bool)
        ensures
            r == self@.failed,
    {
        self.failed
    }

    fn to(self, step: WorkStep) -> (r: Self)
        ensures
            r@ == (WorkView { step, ..self@ }),
    {
        proof {
            use_type_invariant(&self);
        }
        Worker { step, ..self }
    }

    /// Goes on with the first firing incident from an index on.
    fn resume(self, from: usize) -> (r: Self)
        requires
            from <= self.queue@.len(),
        ensures
            r@ == work_queue(self@, signals(self.queue@).skip(from as int)),
    {
        let queue = self.queue;
        let ghost all = signals(queue@);
        let mut next: usize = from;
        while next < queue.len() && !queue[next].firing
            invariant
                next <= queue.len(),
                from <= queue.len(),
                all == signals(queue@),
                from_firing(all.skip(next as int)) == from_firing(all.skip(from as int)),
            decreases queue.len() - next,
        {
            assert(all.skip(next as int)[0] == queue@[next as int]@);
            assert(all.skip(next as int).drop_first() =~= all.skip(next as int + 1));
            next += 1;
        }
        proof {
            let rest = all.skip(next as int);
            assert(rest.len() == queue.len() - next);
            if next < queue.len() {
                assert(rest[0] == queue@[next as int]@);
            }
        }
        let step = if next < queue.len() {
            WorkStep::SelectQueries
        } else {
            WorkStep::Receive
        };
        Worker { step, queue, next, admitted: false, cost: None, report: None, failed: self.failed }
    }

    fn skip(self) -> (r: Self)
        ensures
            r@ == work_skip(self@),
    {
        proof {
            use_type_invariant(&self);
        }
        let ghost all = signals(self.queue@);
        if self.next < self.queue.len() {
            let from: usize = self.next + 1;
            assert(all.skip(self.next as int).drop_first() =~= all.skip(from as int));
            self.resume(from)
        } else {
            let from: usize = self.next;
            self.resume(from)
        }
    }

    fn conclude(self) -> (r: Self)
        ensures
            r@ == work_conclude(self@),
    {
        let step = if self.report.is_some() {
            WorkStep::Complete
        } else {
            WorkStep::Drain
        };
        self.to(step)
    }

    fn stop(self) -> (r: Self)
        ensures
            r@ == (WorkView { step: WorkStep::Stopped, failed: true, ..self@ }),
    {
        proof {
            use_type_invariant(&self);
        }
        Worker { step: WorkStep::Stopped, failed: true, ..self }
    }

    fn load(self, step: WorkStep, list: Vec<IncidentSignal>) -> (r: Self)
        ensures
            r@ == (WorkView { step, queue: signals(list@), ..self@ }),
    {
        let ghost all = signals(list@);
        assert(all.skip(0) =~= all);
        Worker { step, queue: list, next: 0, ..self }
    }

    fn investigated(self, policy: &ProviderPolicy, outcome: Investigated) -> (r: Self)
        ensures
            r@ == work_investigated(self@, *policy, outcome),
    {
        proof {
            use_type_invariant(&self);
        }
        let cost: Option<u64> = if outcome.unknown_cost_attempts == 0 {
            Some(outcome.known_cost_micro_usd)
        } else {
            None
        };
        let report = match &outcome.result {
            Some(result) => Some(
                (super::delivery_id(result.incident_id.as_str()), render_message(result)),
            ),
            None => None,
        };
        let admitted = self.admitted;
        let known = Worker { cost, report, ..self };
        if policy.paid_count() > 0 && admitted {
            known.to(WorkStep::Reconcile)
        } else {
            known.conclude()
        }
    }

    /// Takes what came of the action.
    pub fn advance(self, policy: &ProviderPolicy, event: WorkEvent) -> (r: Self)
        ensures
            r@ == work_next(self@, *policy, event),
    {
        proof {
            use_type_invariant(&self);
        }
        match (self.step, event) {
            (WorkStep::StartupDrain, WorkEvent::Done) => self.to(WorkStep::StartupMetrics),
            (WorkStep::StartupMetrics, WorkEvent::Done) => self.to(WorkStep::ListPending),
            (WorkStep::ListPending, WorkEvent::Incidents(list)) => {
                if list.len() == 0 {
                    self.to(WorkStep::Receive)
                } else {
                    self.load(WorkStep::BatchMetrics, list)
                }
            },
            (WorkStep::Receive, WorkEvent::Done) => self.to(WorkStep::Commit),
            (WorkStep::Receive, WorkEvent::Closed) => self.to(WorkStep::Stopped),
            (WorkStep::Commit, WorkEvent::Incidents(list)) => self.load(
                WorkStep::Acknowledge,
                list,
            ),
            (WorkStep::Commit, WorkEvent::Failed) => self.to(WorkStep::Refuse),
            (WorkStep::Acknowledge, WorkEvent::Done) => self.to(WorkStep::BatchMetrics),
            (WorkStep::Refuse, WorkEvent::Done) => self.stop(),
            (WorkStep::BatchMetrics, WorkEvent::Done) => {
                let from: usize = self.next;
                self.resume(from)
            },
            (WorkStep::SelectQueries, WorkEvent::Done) => self.to(WorkStep::Assemble),
            (WorkStep::SelectQueries, WorkEvent::Failed) => self.skip(),
            (WorkStep::Assemble, WorkEvent::Done) => self.to(WorkStep::Reserve),
            (WorkStep::Assemble, WorkEvent::Failed) => self.skip(),
            (WorkStep::Reserve, WorkEvent::Budget(admitted)) => Worker {
                step: WorkStep::Investigate,
                admitted,
                ..self
            },
            (WorkStep::Investigate, WorkEvent::Investigated(outcome)) => self.investigated(
                policy,
                outcome,
            ),
            (WorkStep::Reconcile, WorkEvent::Done) => self.conclude(),
            (WorkStep::Reconcile, WorkEvent::Failed) => self.to(WorkStep::Signal),
            (WorkStep::Complete, WorkEvent::Done) => self.to(WorkStep::Drain),
            (WorkStep::Complete, WorkEvent::Failed) => self.to(WorkStep::Signal),
            (WorkStep::Drain, WorkEvent::Done) => self.to(WorkStep::Metrics),
            (WorkStep::Metrics, WorkEvent::Done) => self.skip(),
            (WorkStep::Signal, WorkEvent::Done) => self.stop(),
            _ => self,
        }
    }
}

/// A step that works on the current incident.
pub open spec fn is_incident_step(step: WorkStep) -> bool {
    match step {
        WorkStep::SelectQueries => true,
        WorkStep::Assemble => true,
        WorkStep::Reserve => true,
        WorkStep::Investigate => true,
        WorkStep::Reconcile => true,
        WorkStep::Complete => true,
        _ => false,
    }
}

/// What holds of every reachable state.
pub open spec fn work_sound(policy: ProviderPolicy, state: WorkView) -> bool {
    &&& is_incident_step(state.step) ==> state.queue.len() > 0 && state.queue[0].firing
    &&& state.step == WorkStep::Reconcile ==> state.admitted && policy.paid() > 0
    &&& state.step == WorkStep::Complete ==> state.report is Some
    &&& state.failed ==> state.step == WorkStep::Stopped
}

proof fn lemma_from_firing(queue: Seq<SignalView>)
    ensures
        from_firing(queue).len() > 0 ==> from_firing(queue)[0].firing,
    decreases queue.len(),
{
    if queue.len() > 0 && !queue[0].firing {
        lemma_from_firing(queue.drop_first());
    }
}

proof fn lemma_work_sound(policy: ProviderPolicy, events: Seq<WorkEvent>)
    ensures
        work_sound(policy, work_after(policy, events)),
    decreases events.len(),
{
    if events.len() > 0 {
        lemma_work_sound(policy, events.drop_last());
        let state = work_after(policy, events.drop_last());
        lemma_from_firing(state.queue);
        lemma_from_firing(
            if state.queue.len() > 0 {
                state.queue.drop_first()
            } else {
                state.queue
            },
        );
    }
}

/// Only firing incidents are investigated, completed or charged.
pub proof fn only_firing_incidents_are_worked_on(policy: ProviderPolicy, events: Seq<WorkEvent>)
    requires
        is_incident_step(work_after(policy, events).step),
    ensures
        work_after(policy, events).queue.len() > 0,
        work_after(policy, events).queue[0].firing,
{
    lemma_work_sound(policy, events);
}

/// Incidents that are firing, in order.
pub open spec fn firing_of(queue: Seq<SignalView>) -> Seq<SignalView> {
    queue.filter(|signal: SignalView| signal.firing)
}

/// All incidents of the batches that the worker took, in order.
pub open spec fn incidents_taken(policy: ProviderPolicy, events: Seq<WorkEvent>) -> Seq<SignalView>
    decreases events.len(),
{
    if events.len() == 0 {
        Seq::empty()
    } else {
        let before = incidents_taken(policy, events.drop_last());
        let step = work_after(policy, events.drop_last()).step;
        match events.last() {
            WorkEvent::Incidents(list) => if step == WorkStep::ListPending || step
                == WorkStep::Commit {
                before + signals(list@)
            } else {
                before
            },
            _ => before,
        }
    }
}

/// All incidents whose queries the worker went to look up, in order.
pub open spec fn incidents_reached(
    policy: ProviderPolicy,
    events: Seq<WorkEvent>,
) -> Seq<SignalView>
    decreases events.len(),
{
    if events.len() == 0 {
        Seq::empty()
    } else {
        let before = incidents_reached(policy, events.drop_last());
        let state = work_after(policy, events.drop_last());
        let next = work_after(policy, events);
        if next.step == WorkStep::SelectQueries && (state.step != WorkStep::SelectQueries
            || next.queue.len() < state.queue.len()) {
            before.push(next.queue[0])
        } else {
            before
        }
    }
}

/// Incidents that are taken and not yet current.
pub open spec fn incidents_waiting(state: WorkView) -> Seq<SignalView> {
    let before_work = state.step == WorkStep::Acknowledge || state.step == WorkStep::BatchMetrics;
    if before_work || state.queue.len() == 0 {
        state.queue
    } else {
        state.queue.drop_first()
    }
}

/// Between batches nothing is queued, and while an incident is worked on it heads the queue.
pub open spec fn queue_sound(state: WorkView) -> bool {
    match state.step {
        WorkStep::StartupDrain => state.queue.len() == 0,
        WorkStep::StartupMetrics => state.queue.len() == 0,
        WorkStep::ListPending => state.queue.len() == 0,
        WorkStep::Receive => state.queue.len() == 0,
        WorkStep::Commit => state.queue.len() == 0,
        WorkStep::Refuse => state.queue.len() == 0,
        WorkStep::Acknowledge => true,
        WorkStep::BatchMetrics => true,
        WorkStep::Stopped => true,
        _ => state.queue.len() > 0,
    }
}

/// What stands before the first firing incident is not firing.
proof fn lemma_from_firing_is_suffix(queue: Seq<SignalView>) -> (n: int)
    ensures
        0 <= n <= queue.len(),
        from_firing(queue) == queue.skip(n),
        forall|i: int| 0 <= i < n ==> !(#[trigger] queue[i]).firing,
        n < queue.len() ==> queue[n].firing,
        firing_of(queue) == firing_of(queue.skip(n)),
    decreases queue.len(),
{
    if queue.len() == 0 || queue[0].firing {
        assert(queue.skip(0) =~= queue);
        0
    } else {
        let rest = queue.drop_first();
        let m = lemma_from_firing_is_suffix(rest);
        assert(rest.skip(m) =~= queue.skip(m + 1));
        assert forall|i: int| 0 <= i < m + 1 implies !(#[trigger] queue[i]).firing by {
            if i > 0 {
                assert(rest[i - 1] == queue[i]);
            }
        }
        if m < rest.len() {
            assert(rest[m] == queue[m + 1]);
        }
        lemma_firing_first(queue);
        m + 1
    }
}

/// The firing incidents of a queue, from its head on.
proof fn lemma_firing_first(queue: Seq<SignalView>)
    requires
        queue.len() > 0,
    ensures
        firing_of(queue) == (if queue[0].firing {
            seq![queue[0]]
        } else {
            Seq::empty()
        }) + firing_of(queue.drop_first()),
    decreases queue.len(),
{
    reveal(Seq::filter);
    if queue.len() == 1 {
        assert(queue.drop_last() =~= Seq::empty());
        assert(queue.drop_first() =~= Seq::empty());
        assert(firing_of(queue.drop_first()) =~= Seq::empty());
        assert(firing_of(queue.drop_last()) =~= Seq::empty());
        assert(firing_of(queue) =~= if queue[0].firing {
            seq![queue[0]]
        } else {
            Seq::empty()
        });
    } else {
        let front = queue.drop_last();
        lemma_firing_first(front);
        assert(front.drop_first() =~= queue.drop_first().drop_last());
        assert(queue.drop_first().last() == queue.last());
        assert(front[0] == queue[0]);
        assert(firing_of(queue) =~= (if queue[0].firing {
            seq![queue[0]]
        } else {
            Seq::empty()
        }) + firing_of(queue.drop_first()));
    }
}

proof fn lemma_firing_join(a: Seq<SignalView>, b: Seq<SignalView>)
    ensures
        firing_of(a + b) == firing_of(a) + firing_of(b),
    decreases b.len(),
{
    reveal(Seq::filter);
    if b.len() == 0 {
        assert(a + b =~= a);
        assert(firing_of(a) + firing_of(b) =~= firing_of(a));
    } else {
        lemma_firing_join(a, b.drop_last());
        assert((a + b).drop_last() =~= a + b.drop_last());
        assert(firing_of(a + b) =~= firing_of(a) + firing_of(b));
    }
}

/// Going on with a queue reaches its first firing incident, and leaves the other firing ones
/// waiting.
proof fn lemma_queue_goes_on(queue: Seq<SignalView>)
    ensures
        ({
            let rest = from_firing(queue);
            firing_of(queue) == (if rest.len() > 0 {
                seq![rest[0]] + firing_of(rest.drop_first())
            } else {
                Seq::empty()
            })
        }),
{
    let n = lemma_from_firing_is_suffix(queue);
    let rest = from_firing(queue);
    if rest.len() > 0 {
        lemma_firing_first(rest);
        assert(rest[0] == queue[n]);
    } else {
        reveal(Seq::filter);
        assert(queue.skip(n) =~= Seq::empty());
        assert(firing_of(queue.skip(n)) =~= Seq::empty());
    }
}

/// No firing incident is lost or reordered over a whole run: those that were reached, and then
/// those that still wait, are exactly the firing incidents of the batches taken. Where the worker
/// awaits the next batch, every firing incident was reached.
pub proof fn every_firing_incident_is_reached_in_order(
    policy: ProviderPolicy,
    events: Seq<WorkEvent>,
)
    ensures
        incidents_reached(policy, events) + firing_of(
            incidents_waiting(work_after(policy, events)),
        ) == firing_of(incidents_taken(policy, events)),
        work_after(policy, events).step == WorkStep::Receive ==> incidents_reached(policy, events)
            == incidents_taken(policy, events).filter(|signal: SignalView| signal.firing),
        queue_sound(work_after(policy, events)),
    decreases events.len(),
{
    reveal(Seq::filter);
    if events.len() == 0 {
        assert(firing_of(Seq::<SignalView>::empty()) =~= Seq::empty());
        assert(incidents_reached(policy, events) + firing_of(Seq::<SignalView>::empty())
            =~= Seq::empty());
    } else {
        let front = events.drop_last();
        every_firing_incident_is_reached_in_order(policy, front);
        let state = work_after(policy, front);
        let next = work_after(policy, events);
        let reached = incidents_reached(policy, front);
        let taken = incidents_taken(policy, front);
        let went_on = next.step == WorkStep::SelectQueries && (state.step
            != WorkStep::SelectQueries || next.queue.len() < state.queue.len());
        match (state.step, events.last()) {
            (WorkStep::ListPending, WorkEvent::Incidents(list)) => {
                lemma_firing_join(taken, signals(list@));
                assert(firing_of(incidents_waiting(state)) =~= Seq::empty());
                assert(reached =~= firing_of(taken));
            },
            (WorkStep::Commit, WorkEvent::Incidents(list)) => {
                lemma_firing_join(taken, signals(list@));
                assert(firing_of(incidents_waiting(state)) =~= Seq::empty());
                assert(reached =~= firing_of(taken));
            },
            (WorkStep::BatchMetrics, WorkEvent::Done) => {
                lemma_from_firing_is_suffix(state.queue);
                lemma_queue_goes_on(state.queue);
            },
            (WorkStep::SelectQueries, WorkEvent::Failed) => {
                lemma_from_firing_is_suffix(state.queue.drop_first());
                lemma_queue_goes_on(state.queue.drop_first());
            },
            (WorkStep::Assemble, WorkEvent::Failed) => {
                lemma_from_firing_is_suffix(state.queue.drop_first());
                lemma_queue_goes_on(state.queue.drop_first());
            },
            (WorkStep::Metrics, WorkEvent::Done) => {
                lemma_from_firing_is_suffix(state.queue.drop_first());
                lemma_queue_goes_on(state.queue.drop_first());
            },
            _ => {},
        }
        if went_on {
            assert(incidents_reached(policy, events) == reached.push(next.queue[0]));
            assert(reached.push(next.queue[0]) + firing_of(incidents_waiting(next)) =~= reached + (
            seq![next.queue[0]] + firing_of(incidents_waiting(next))));
        }
        if next.step == WorkStep::Receive {
            assert(incidents_waiting(next) =~= Seq::empty());
            assert(firing_of(incidents_waiting(next)) =~= Seq::empty());
            assert(incidents_reached(policy, events) + firing_of(incidents_waiting(next))
                =~= incidents_reached(policy, events));
        }
    }
}

/// Going on behind an incident drops it and the incidents directly behind it that are not firing,
/// and nothing else.
pub proof fn going_on_drops_one_incident_and_what_does_not_fire(
    policy: ProviderPolicy,
    state: WorkView,
    event: WorkEvent,
) -> (n: int)
    requires
        state.queue.len() > 0,
        (state.step == WorkStep::SelectQueries && event is Failed) || (state.step
            == WorkStep::Assemble && event is Failed) || (state.step == WorkStep::Metrics
            && event is Done),
    ensures
        1 <= n <= state.queue.len(),
        work_next(state, policy, event).queue == state.queue.skip(n),
        forall|i: int| 1 <= i < n ==> !(#[trigger] state.queue[i]).firing,
        n < state.queue.len() ==> state.queue[n].firing && work_next(state, policy, event).step
            == WorkStep::SelectQueries,
        n == state.queue.len() ==> work_next(state, policy, event).step == WorkStep::Receive,
        !work_next(state, policy, event).admitted,
        work_next(state, policy, event).cost is None,
        work_next(state, policy, event).report is None,
        work_next(state, policy, event).failed == state.failed,
{
    let rest = state.queue.drop_first();
    let m = lemma_from_firing_is_suffix(rest);
    assert(rest.skip(m) =~= state.queue.skip(m + 1));
    assert forall|i: int| 1 <= i < m + 1 implies !(#[trigger] state.queue[i]).firing by {
        assert(rest[i - 1] == state.queue[i]);
    }
    m + 1
}

/// What an event changes besides going on: one step at a time, the incident stays current until
/// its metrics are published, and the outcome of each action is kept as it came.
pub proof fn incidents_are_worked_on_step_by_step(
    policy: ProviderPolicy,
    state: WorkView,
    list: Vec<IncidentSignal>,
    admitted: bool,
    outcome: Investigated,
)
    ensures
        ({
            let done = work_next(state, policy, WorkEvent::Done);
            let failed = work_next(state, policy, WorkEvent::Failed);
            let given = work_next(state, policy, WorkEvent::Incidents(list));
            let budget = work_next(state, policy, WorkEvent::Budget(admitted));
            let looked = work_next(state, policy, WorkEvent::Investigated(outcome));
            let closed = work_next(state, policy, WorkEvent::Closed);
            &&& state.step == WorkStep::StartupDrain ==> done == (WorkView {
                step: WorkStep::StartupMetrics,
                ..state
            })
            &&& state.step == WorkStep::StartupMetrics ==> done == (WorkView {
                step: WorkStep::ListPending,
                ..state
            })
            &&& state.step == WorkStep::ListPending && list@.len() == 0 ==> given.step
                == WorkStep::Receive
            &&& state.step == WorkStep::ListPending && list@.len() > 0 ==> given.step
                == WorkStep::BatchMetrics && given.queue == signals(list@)
            &&& state.step == WorkStep::Receive ==> done.step == WorkStep::Commit && closed.step
                == WorkStep::Stopped && closed.failed == state.failed
            &&& state.step == WorkStep::Commit ==> given.step == WorkStep::Acknowledge
                && given.queue == signals(list@) && failed.step == WorkStep::Refuse
            &&& state.step == WorkStep::Acknowledge ==> done == (WorkView {
                step: WorkStep::BatchMetrics,
                ..state
            })
            &&& state.step == WorkStep::Refuse || state.step == WorkStep::Signal ==> done.step
                == WorkStep::Stopped && done.failed
            &&& state.step == WorkStep::SelectQueries ==> done == (WorkView {
                step: WorkStep::Assemble,
                ..state
            })
            &&& state.step == WorkStep::Assemble ==> done == (WorkView {
                step: WorkStep::Reserve,
                ..state
            })
            &&& state.step == WorkStep::Reserve ==> budget == (WorkView {
                step: WorkStep::Investigate,
                admitted,
                ..state
            })
            &&& state.step == WorkStep::Investigate ==> {
                &&& looked.queue == state.queue
                &&& looked.admitted == state.admitted
                &&& looked.cost == (if outcome.unknown_cost_attempts == 0 {
                    Some(outcome.known_cost_micro_usd)
                } else {
                    None
                })
                &&& looked.report is Some == outcome.result is Some
                &&& outcome.result matches Some(result) ==> looked.report->0.delivery_id
                    == result.incident_id@ + ":report"@ && looked.report->0.body
                    == ntfy::report_text(result, None)
                &&& looked.step == (if state.admitted && (policy.gemini || policy.deepseek) {
                    WorkStep::Reconcile
                } else if outcome.result is Some {
                    WorkStep::Complete
                } else {
                    WorkStep::Drain
                })
            }
            &&& state.step == WorkStep::Reconcile ==> done == (WorkView {
                step: if state.report is Some {
                    WorkStep::Complete
                } else {
                    WorkStep::Drain
                },
                ..state
            }) && failed.step == WorkStep::Signal
            &&& state.step == WorkStep::Complete ==> done == (WorkView {
                step: WorkStep::Drain,
                ..state
            }) && failed.step == WorkStep::Signal
            &&& state.step == WorkStep::Drain ==> done == (WorkView {
                step: WorkStep::Metrics,
                ..state
            })
        }),
{
}

/// Which providers an investigation may use: OpenAI where its gate is accepted, each paid one
/// exactly where it is configured and the budget of the run was admitted.
pub proof fn usable_providers_are_those_admitted(policy: ProviderPolicy, admitted: bool)
    ensures
        usable(policy, admitted).openai == policy.openai,
        usable(policy, admitted).gemini == (admitted && policy.gemini),
        usable(policy, admitted).deepseek == (admitted && policy.deepseek),
        policy.paid() == 2 <==> policy.gemini && policy.deepseek,
        policy.paid() == 0 <==> !policy.gemini && !policy.deepseek,
        policy.paid() <= 2,
{
}

/// A paid provider is usable only where it is configured and the budget of the run was admitted.
pub proof fn paid_providers_need_an_admitted_budget(policy: ProviderPolicy, admitted: bool)
    ensures
        usable(policy, admitted).gemini ==> policy.gemini && admitted,
        usable(policy, admitted).deepseek ==> policy.deepseek && admitted,
        !admitted ==> usable(policy, admitted).paid() == 0,
{
}

/// After an investigation under an admitted budget with paid providers, the cost is reconciled
/// before the incident is completed; the actual cost is told only where every attempt's is known.
pub proof fn paid_runs_are_reconciled_before_completion(
    policy: ProviderPolicy,
    state: WorkView,
    outcome: Investigated,
)
    requires
        state.step == WorkStep::Investigate,
        state.admitted,
        policy.paid() > 0,
    ensures
        ({
            let next = work_next(state, policy, WorkEvent::Investigated(outcome));
            &&& next.step == WorkStep::Reconcile
            &&& next.cost is Some <==> outcome.unknown_cost_attempts == 0
            &&& work_next(next, policy, WorkEvent::Failed).step == WorkStep::Signal
        }),
{
}

/// An incident is completed only with the report of a result: what failed stays incomplete.
pub proof fn failed_investigations_stay_incomplete(
    policy: ProviderPolicy,
    state: WorkView,
    outcome: Investigated,
)
    requires
        state.step == WorkStep::Investigate,
        outcome.result is None,
    ensures
        ({
            let next = work_next(state, policy, WorkEvent::Investigated(outcome));
            &&& next.step == WorkStep::Reconcile || next.step == WorkStep::Drain
            &&& next.report is None
            &&& next.step == WorkStep::Reconcile ==> work_next(next, policy, WorkEvent::Done).step
                == WorkStep::Drain
        }),
{
}

/// A worker that told of a failure does nothing more.
pub proof fn failures_stop_the_worker(
    policy: ProviderPolicy,
    events: Seq<WorkEvent>,
    event: WorkEvent,
)
    requires
        work_after(policy, events).failed,
    ensures
        work_after(policy, events).step == WorkStep::Stopped,
        work_next(work_after(policy, events), policy, event) == work_after(policy, events),
{
    lemma_work_sound(policy, events);
}

/// What is done with the outbox.
pub struct OutboxMessage {
    /// Identity of the delivery.
    pub delivery_id: String,
    /// Message.
    pub body: String,
}

/// The deliveries to mark: those whose publication succeeded, in order. The others stay pending.
pub open spec fn delivered(messages: Seq<OutboxMessage>, published: Seq<bool>) -> Seq<Seq<char>>
    decreases messages.len(),
{
    if messages.len() == 0 {
        Seq::empty()
    } else {
        let before = delivered(messages.drop_last(), published);
        if messages.len() <= published.len() && published[messages.len() - 1] {
            before.push(messages.last().delivery_id@)
        } else {
            before
        }
    }
}

/// Decides which deliveries are marked, from whether each was published.
pub fn drain_outbox(messages: &Vec<OutboxMessage>, published: &Vec<bool>) -> (r: Vec<String>)
    ensures
        text::texts(r@) == delivered(messages@, published@),
{
    let mut marked: Vec<String> = Vec::new();
    let mut i: usize = 0;
    assert(messages@.take(0) =~= Seq::empty());
    assert(text::texts(marked@) =~= Seq::<Seq<char>>::empty());
    while i < messages.len()
        invariant
            i <= messages.len(),
            text::texts(marked@) == delivered(messages@.take(i as int), published@),
        decreases messages.len() - i,
    {
        let ghost next = messages@.take(i as int + 1);
        let ghost before = text::texts(marked@);
        assert(next.drop_last() =~= messages@.take(i as int));
        if i < published.len() && published[i] {
            marked.push(messages[i].delivery_id.clone());
            assert(text::texts(marked@) =~= before.push(messages@[i as int].delivery_id@));
        }
        i += 1;
    }
    assert(messages@.take(i as int) =~= messages@);
    marked
}

/// A delivery is marked exactly where its publication succeeded, in order, whatever else was sent.
pub proof fn published_deliveries_are_marked(
    messages: Seq<OutboxMessage>,
    published: Seq<bool>,
    message: OutboxMessage,
    sent: bool,
)
    requires
        messages.len() == published.len(),
    ensures
        delivered(messages.push(message), published.push(sent)) == (if sent {
            delivered(messages, published).push(message.delivery_id@)
        } else {
            delivered(messages, published)
        }),
        delivered(Seq::<OutboxMessage>::empty(), published).len() == 0,
{
    assert(messages.push(message).drop_last() =~= messages);
    lemma_delivered_beginning(messages, published, published.push(sent));
}

/// Only the answers on the messages count.
proof fn lemma_delivered_beginning(messages: Seq<OutboxMessage>, a: Seq<bool>, b: Seq<bool>)
    requires
        messages.len() <= a.len(),
        a.is_prefix_of(b),
    ensures
        delivered(messages, a) == delivered(messages, b),
    decreases messages.len(),
{
    if messages.len() > 0 {
        lemma_delivered_beginning(messages.drop_last(), a, b);
        assert(a[messages.len() - 1] == b[messages.len() - 1]) by {
            assert(b.subrange(0, a.len() as int)[messages.len() - 1] == b[messages.len() - 1]);
        }
    }
}

/// The worker begins with the outbox, with nothing queued and nothing failed.
pub proof fn work_begins_with_the_outbox(policy: ProviderPolicy)
    ensures
        work_after(policy, Seq::empty()).step == WorkStep::StartupDrain,
        work_after(policy, Seq::empty()).queue.len() == 0,
        !work_after(policy, Seq::empty()).failed,
        !work_after(policy, Seq::empty()).admitted,
{
}

} // verus!
