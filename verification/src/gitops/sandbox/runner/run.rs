//! One validation attempt and its cleanup, as steps that a caller performs in order.
//!
//! No receipt escapes an attempt whose container ended otherwise than cleanly or whose
//! removal failed. A failed cleanup keeps the job with its owner and admits no other.

use super::super::{PreparedSandbox, SandboxError};
use super::{conclude, ExitState, Output, ReceiptView, ValidationReceipt};
use crate::process::{extend, variable, ProcessPlan, ProcessView};
use crate::text;
use crate::text::number;
use vstd::prelude::*;

verus! {

/// What an attempt asks for next.
#[derive(Debug, Clone, Copy, PartialEq, Eq, Structural)]
pub enum RunStep {
    /// Clean up what an earlier attempt left.
    CleanBefore,
    /// Verify the runtime binary.
    Verify,
    /// Check that no host path is mounted by default.
    Mounts,
    /// Probe the isolation that the host enforces.
    Probe,
    /// Record the launch, where state is durable, and name it.
    Begin,
    /// Start the container.
    Launch,
    /// Remove the snapshot of a launch that provably never ran.
    AbandonSnapshot,
    /// Forget the record of a launch that provably never ran.
    AbandonRecord,
    /// Collect the bounded output.
    Collect,
    /// Inspect the final state and read the clock.
    Inspect,
    /// Remove the container.
    CleanAfter,
    /// The attempt is over.
    Ended,
}

/// What came of an action.
pub enum RunEvent {
    /// It succeeded.
    Done,
    /// It failed.
    Failed(SandboxError),
    /// The launch has this name and, where state is durable, this ownership label.
    Named(String, Option<String>),
    /// The workload ended.
    Ran(Output),
    /// The inspection succeeded or not, with this final state and this time.
    Inspected(bool, Option<ExitState>, Option<u64>),
}

/// The state of an attempt.
pub struct RunView {
    /// What is asked for next.
    pub step: RunStep,
    /// What is validated.
    pub prepared: PreparedSandbox,
    /// Identity of the runtime binary.
    pub runtime_digest: Seq<char>,
    /// Whether launches are recorded durably.
    pub durable: bool,
    /// Container name.
    pub name: Seq<char>,
    /// Ownership label.
    pub token: Option<Seq<char>>,
    /// What the workload printed.
    pub output: Option<Output>,
    /// The receipt it earned.
    pub receipt: Option<ReceiptView>,
    /// Why there is none.
    pub failure: SandboxError,
}

/// The first state of an attempt.
pub open spec fn run_start(
    prepared: PreparedSandbox,
    runtime_digest: Seq<char>,
    durable: bool,
) -> RunView {
    RunView {
        step: RunStep::CleanBefore,
        prepared,
        runtime_digest,
        durable,
        name: Seq::empty(),
        token: None,
        output: None,
        receipt: None,
        failure: SandboxError::Failed,
    }
}

/// The attempt ends without a receipt.
pub open spec fn run_failed(state: RunView, error: SandboxError) -> RunView {
    RunView { step: RunStep::Ended, receipt: None, failure: error, ..state }
}

/// The workload failed; its container is still to be removed.
pub open spec fn run_refused(state: RunView, error: SandboxError) -> RunView {
    RunView { step: RunStep::CleanAfter, receipt: None, failure: error, ..state }
}

/// A final state and time that let a workload's output earn a receipt.
pub open spec fn earns(
    prepared: PreparedSandbox,
    output: Output,
    inspected: bool,
    state: Option<ExitState>,
    completed_at: Option<u64>,
) -> bool {
    &&& output.success
    &&& output.stdout@.len() + output.stderr@.len() <= prepared.limits_of().output_bytes
    &&& inspected
    &&& (state matches Some(s) && s.clean())
    &&& completed_at is Some
}

/// The next state of an attempt.
pub open spec fn run_next(state: RunView, event: RunEvent) -> RunView {
    match (state.step, event) {
        (RunStep::Ended, _) => state,
        // Unlike a crash or a started process, a failed start proves that no launch ran.
        (RunStep::Launch, RunEvent::Failed(_)) => if state.durable {
            RunView { step: RunStep::AbandonSnapshot, ..state }
        } else {
            run_failed(state, SandboxError::Unavailable)
        },
        (RunStep::Collect, RunEvent::Failed(error)) => run_refused(state, error),
        (RunStep::Inspect, RunEvent::Failed(error)) => run_refused(state, error),
        (_, RunEvent::Failed(error)) => run_failed(state, error),
        (RunStep::CleanBefore, RunEvent::Done) => RunView { step: RunStep::Verify, ..state },
        (RunStep::Verify, RunEvent::Done) => RunView { step: RunStep::Mounts, ..state },
        (RunStep::Mounts, RunEvent::Done) => RunView { step: RunStep::Probe, ..state },
        (RunStep::Probe, RunEvent::Done) => RunView { step: RunStep::Begin, ..state },
        (RunStep::Begin, RunEvent::Named(name, token)) => RunView {
            step: RunStep::Launch,
            name: name@,
            token: match token {
                Some(token) => Some(token@),
                None => None,
            },
            ..state
        },
        (RunStep::Launch, RunEvent::Done) => RunView { step: RunStep::Collect, ..state },
        (RunStep::AbandonSnapshot, RunEvent::Done) => RunView {
            step: RunStep::AbandonRecord,
            ..state
        },
        (RunStep::AbandonRecord, RunEvent::Done) => run_failed(state, SandboxError::Unavailable),
        (RunStep::Collect, RunEvent::Ran(output)) => if output.success {
            RunView { step: RunStep::Inspect, output: Some(output), ..state }
        } else {
            run_refused(state, SandboxError::Failed)
        },
        (RunStep::Inspect, RunEvent::Inspected(inspected, exit, completed_at)) => if (
        state.output matches Some(output) && earns(
            state.prepared,
            output,
            inspected,
            exit,
            completed_at,
        )) {
            RunView {
                step: RunStep::CleanAfter,
                receipt: Some(
                    super::earned_receipt(
                        state.prepared,
                        state.runtime_digest,
                        state.output->0,
                        completed_at->0 as nat,
                    ),
                ),
                ..state
            }
        } else {
            run_refused(state, SandboxError::Failed)
        },
        (RunStep::CleanAfter, RunEvent::Done) => RunView { step: RunStep::Ended, ..state },
        _ => run_failed(state, SandboxError::Failed),
    }
}

/// The state after a sequence of events.
pub open spec fn run_all(state: RunView, events: Seq<RunEvent>) -> RunView
    decreases events.len(),
{
    if events.len() == 0 {
        state
    } else {
        run_next(run_all(state, events.drop_last()), events.last())
    }
}

/// An argument that a launch keeps: the runtime is local already, and the container stays
/// for inspection.
pub open spec fn keeps_argument(argument: Seq<char>) -> bool {
    argument != "--remote=false"@ && argument != "--rm"@
}

/// An argument under the name of this launch. Names belong to the runtime owner, never to a
/// model or a reusable caller-selected name.
pub open spec fn renamed(argument: Seq<char>, name: Seq<char>) -> Seq<char> {
    if "--name="@.is_prefix_of(argument) {
        "--name="@ + name
    } else {
        argument
    }
}

/// The arguments of a launch before its label.
pub open spec fn unlabelled(arguments: Seq<Seq<char>>, name: Seq<char>) -> Seq<Seq<char>>
    decreases arguments.len(),
{
    if arguments.len() == 0 {
        Seq::empty()
    } else if keeps_argument(arguments.last()) {
        unlabelled(arguments.drop_last(), name).push(renamed(arguments.last(), name))
    } else {
        unlabelled(arguments.drop_last(), name)
    }
}

/// The arguments of a launch: those prepared, under its name, with the ownership label of a
/// durable launch before the image.
pub open spec fn launched(
    arguments: Seq<Seq<char>>,
    name: Seq<char>,
    token: Option<Seq<char>>,
) -> Seq<Seq<char>> {
    let plain = unlabelled(arguments, name);
    match token {
        Some(token) => plain.insert(
            plain.len() - 1,
            "--label=io.bodhispace.ai-sre.job="@ + token,
        ),
        None => plain,
    }
}

proof fn lemma_image_is_kept(image: Seq<char>)
    requires
        super::super::is_validator_image(image),
    ensures
        keeps_argument(image),
{
    reveal_strlit("ghcr.io/bodhispace-xyz/ai-sre-validator@sha256:");
    reveal_strlit("--remote=false");
    reveal_strlit("--rm");
    let prefix = "ghcr.io/bodhispace-xyz/ai-sre-validator@sha256:"@;
    assert(image.subrange(0, prefix.len() as int)[0] == prefix[0]);
    assert(image[0] == 'g');
    assert("--remote=false"@[0] == '-');
    assert("--rm"@[0] == '-');
}

/// Builds the arguments of a launch.
pub fn launch_arguments(prepared: &PreparedSandbox, name: &str, token: Option<&str>) -> (r: Vec<
    String,
>)
    ensures
        text::texts(r@) == launched(
            prepared.argument_list(),
            name@,
            match token {
                Some(token) => Some(token@),
                None => None,
            },
        ),
{
    let arguments = prepared.arguments();
    let ghost all = prepared.argument_list();
    proof {
        lemma_image_is_kept(prepared.image_of());
        assert(text::texts(arguments@).len() == arguments@.len());
        assert(all.take(0) =~= Seq::empty());
    }
    let mut out: Vec<String> = Vec::new();
    let mut i: usize = 0;
    assert(text::texts(out@) =~= unlabelled(all.take(0), name@));
    while i < arguments.len()
        invariant
            i <= arguments.len(),
            all == text::texts(arguments@),
            all.len() == arguments.len(),
            text::texts(out@) == unlabelled(all.take(i as int), name@),
        decreases arguments.len() - i,
    {
        let ghost before = text::texts(out@);
        proof {
            assert(all.take(i as int + 1).drop_last() =~= all.take(i as int));
            assert(all[i as int] == arguments@[i as int]@);
        }
        let argument = arguments[i].as_str();
        if !text::text_eq(argument, "--remote=false") && !text::text_eq(argument, "--rm") {
            if text::starts_with(argument, "--name=") {
                out.push(text::prefixed("--name=", name));
            } else {
                out.push(argument.to_owned());
            }
            assert(text::texts(out@) =~= before.push(out@.last()@));
        }
        i += 1;
    }
    assert(all.take(i as int) =~= all);
    if let Some(token) = token {
        let label = text::prefixed("--label=io.bodhispace.ai-sre.job=", token);
        let ghost plain = text::texts(out@);
        proof {
            assert(plain.len() > 0);
            assert(plain.len() == out@.len());
        }
        let at: usize = out.len() - 1;
        let ghost text_of_label = label@;
        out.insert(at, label);
        assert(text::texts(out@) =~= plain.insert(at as int, text_of_label));
    }
    out
}

/// The name of a launch without durable state.
pub open spec fn local_name(pid: nat, timestamp: nat, counter: nat) -> Seq<char> {
    "u9-"@ + number::decimal(pid) + "-"@ + number::decimal(timestamp) + "-"@ + number::decimal(
        counter,
    )
}

/// Names a launch without durable state by process, clock and counter.
pub fn local_job_name(pid: u32, timestamp: u128, counter: u64) -> (r: String)
    ensures
        r@ == local_name(pid as nat, timestamp as nat, counter as nat),
{
    let mut name = "u9-".to_owned();
    number::push_decimal(&mut name, pid as u128);
    name.append("-");
    number::push_decimal(&mut name, timestamp);
    name.append("-");
    number::push_decimal(&mut name, counter as u128);
    name
}

/// The runtime invoked locally, with nothing of the caller's environment.
pub open spec fn runtime_process(
    binary: Seq<char>,
    home: Seq<char>,
    runtime_directory: Seq<char>,
    arguments: Seq<Seq<char>>,
) -> ProcessView {
    ProcessView {
        program: binary,
        arguments: seq!["--remote=false"@] + arguments,
        environment: seq![
            ("HOME"@, home),
            ("XDG_RUNTIME_DIR"@, runtime_directory),
            ("PATH"@, "/usr/bin:/bin"@),
            ("CONTAINERS_CONF"@, "/dev/null"@),
        ],
    }
}

/// Plans one invocation of the runtime.
pub fn runtime_plan(
    binary: &str,
    home: &str,
    runtime_directory: &str,
    arguments: &Vec<String>,
) -> (r: ProcessPlan)
    ensures
        r@ == runtime_process(binary@, home@, runtime_directory@, text::texts(arguments@)),
{
    let mut all = vec!["--remote=false".to_owned()];
    assert(text::texts(all@) =~= seq!["--remote=false"@]);
    extend(&mut all, arguments);
    let environment = vec![
        variable("HOME", home),
        variable("XDG_RUNTIME_DIR", runtime_directory),
        variable("PATH", "/usr/bin:/bin"),
        variable("CONTAINERS_CONF", "/dev/null"),
    ];
    let plan = ProcessPlan { program: binary.to_owned(), arguments: all, environment };
    assert(plan@.environment =~= runtime_process(
        binary@,
        home@,
        runtime_directory@,
        text::texts(arguments@),
    ).environment);
    plan
}

/// One validation attempt.
pub struct Run {
    step: RunStep,
    prepared: PreparedSandbox,
    runtime_digest: String,
    durable: bool,
    name: String,
    token: Option<String>,
    output: Option<Output>,
    receipt: Option<ValidationReceipt>,
    failure: SandboxError,
}

impl View for Run {
    type V = RunView;

    closed spec fn view(&self) -> RunView {
        RunView {
            step: self.step,
            prepared: self.prepared,
            runtime_digest: self.runtime_digest@,
            durable: self.durable,
            name: self.name@,
            token: match self.token {
                Some(token) => Some(token@),
                None => None,
            },
            output: self.output,
            receipt: match self.receipt {
                Some(receipt) => Some(receipt.data()),
                None => None,
            },
            failure: self.failure,
        }
    }
}

impl Run {
    /// Starts an attempt.
    pub fn start(prepared: PreparedSandbox, runtime_digest: &str, durable: bool) -> (r: Self)
        ensures
            r@ == run_start(prepared, runtime_digest@, durable),
    {
        Run {
            step: RunStep::CleanBefore,
            prepared,
            runtime_digest: runtime_digest.to_owned(),
            durable,
            name: String::new(),
            token: None,
            output: None,
            receipt: None,
            failure: SandboxError::Failed,
        }
    }

    /// What is asked for next.
    pub fn step(&self) -> (r: RunStep)
        ensures
            r == self@.step,
    {
        self.step
    }

    /// What is validated.
    pub fn prepared(&self) -> (r: &PreparedSandbox)
        ensures
            *r == self@.prepared,
    {
        &self.prepared
    }

    /// Container name, once it is known.
    pub fn name(&self) -> (r: &str)
        ensures
            r@ == self@.name,
    {
        self.name.as_str()
    }

    /// The arguments of the launch.
    pub fn arguments(&self) -> (r: Vec<String>)
        ensures
            text::texts(r@) == launched(self@.prepared.argument_list(), self@.name, self@.token),
    {
        match &self.token {
            Some(token) => launch_arguments(
                &self.prepared,
                self.name.as_str(),
                Some(token.as_str()),
            ),
            None => launch_arguments(&self.prepared, self.name.as_str(), None),
        }
    }

    /// The command that inspects the final state.
    pub fn inspection(&self) -> (r: Vec<String>)
        ensures
            text::texts(r@) == seq![
                "inspect"@,
                "--type=container"@,
                "--format"@,
                "{{json .State}}"@,
                self@.name,
            ],
    {
        let m = vec![
            "inspect".to_owned(),
            "--type=container".to_owned(),
            "--format".to_owned(),
            "{{json .State}}".to_owned(),
            self.name.clone(),
        ];
        assert(text::texts(m@) =~= seq![m@[0]@, m@[1]@, m@[2]@, m@[3]@, m@[4]@]);
        m
    }

    /// The result of an attempt that is over.
    pub fn result(self) -> (r: Result<ValidationReceipt, SandboxError>)
        ensures
            match r {
                Ok(receipt) => self@.step is Ended && self@.receipt == Some(receipt.data()),
                Err(error) => if self@.step is Ended {
                    self@.receipt is None && error == self@.failure
                } else {
                    error == SandboxError::Failed
                },
            },
    {
        match self.step {
            RunStep::Ended => match self.receipt {
                Some(receipt) => Ok(receipt),
                None => Err(self.failure),
            },
            _ => Err(SandboxError::Failed),
        }
    }

    fn at(self, step: RunStep) -> (r: Self)
        ensures
            r@ == (RunView { step, ..self@ }),
    {
        let mut next = self;
        next.step = step;
        next
    }

    fn without_receipt(self, step: RunStep, error: SandboxError) -> (r: Self)
        ensures
            r@ == (RunView { step, receipt: None, failure: error, ..self@ }),
    {
        let mut next = self;
        next.step = step;
        next.receipt = None;
        next.failure = error;
        next
    }

    /// Takes what came of the last action. An answer to another question ends the attempt.
    pub fn advance(self, event: RunEvent) -> (r: Self)
        ensures
            r@ == run_next(self@, event),
    {
        match (self.step, event) {
            (RunStep::Ended, _) => self,
            (RunStep::Launch, RunEvent::Failed(_)) => {
                if self.durable {
                    self.at(RunStep::AbandonSnapshot)
                } else {
                    self.without_receipt(RunStep::Ended, SandboxError::Unavailable)
                }
            },
            (RunStep::Collect, RunEvent::Failed(error)) => self.without_receipt(
                RunStep::CleanAfter,
                error,
            ),
            (RunStep::Inspect, RunEvent::Failed(error)) => self.without_receipt(
                RunStep::CleanAfter,
                error,
            ),
            (_, RunEvent::Failed(error)) => self.without_receipt(RunStep::Ended, error),
            (RunStep::CleanBefore, RunEvent::Done) => self.at(RunStep::Verify),
            (RunStep::Verify, RunEvent::Done) => self.at(RunStep::Mounts),
            (RunStep::Mounts, RunEvent::Done) => self.at(RunStep::Probe),
            (RunStep::Probe, RunEvent::Done) => self.at(RunStep::Begin),
            (RunStep::Begin, RunEvent::Named(name, token)) => {
                let mut next = self;
                next.step = RunStep::Launch;
                next.name = name;
                next.token = token;
                next
            },
            (RunStep::Launch, RunEvent::Done) => self.at(RunStep::Collect),
            (RunStep::AbandonSnapshot, RunEvent::Done) => self.at(RunStep::AbandonRecord),
            (RunStep::AbandonRecord, RunEvent::Done) => self.without_receipt(
                RunStep::Ended,
                SandboxError::Unavailable,
            ),
            (RunStep::Collect, RunEvent::Ran(output)) => {
                if output.success {
                    let mut next = self;
                    next.step = RunStep::Inspect;
                    next.output = Some(output);
                    next
                } else {
                    self.without_receipt(RunStep::CleanAfter, SandboxError::Failed)
                }
            },
            (RunStep::Inspect, RunEvent::Inspected(inspected, exit, completed_at)) => {
                let concluded = match &self.output {
                    Some(output) => conclude(
                        &self.prepared,
                        self.runtime_digest.as_str(),
                        output,
                        inspected,
                        exit.as_ref(),
                        completed_at,
                    ),
                    None => Err(SandboxError::Failed),
                };
                match concluded {
                    Ok(receipt) => {
                        let mut next = self;
                        next.step = RunStep::CleanAfter;
                        next.receipt = Some(receipt);
                        next
                    },
                    Err(_) => self.without_receipt(RunStep::CleanAfter, SandboxError::Failed),
                }
            },
            (RunStep::CleanAfter, RunEvent::Done) => self.at(RunStep::Ended),
            _ => self.without_receipt(RunStep::Ended, SandboxError::Failed),
        }
    }
}

/// Event `i` is the successful output, and event `j` the clean final state and time, that
/// earn a receipt.
pub open spec fn earned_by(
    prepared: PreparedSandbox,
    runtime_digest: Seq<char>,
    events: Seq<RunEvent>,
    i: int,
    j: int,
    receipt: ReceiptView,
) -> bool {
    &&& 0 <= i < j < events.len()
    &&& events[i] is Ran
    &&& events[j] is Inspected
    &&& earns(
        prepared,
        events[i]->Ran_0,
        events[j]->Inspected_0,
        events[j]->Inspected_1,
        events[j]->Inspected_2,
    )
    &&& receipt == super::earned_receipt(
        prepared,
        runtime_digest,
        events[i]->Ran_0,
        events[j]->Inspected_2->0 as nat,
    )
}

/// Event `i` reported this output.
pub open spec fn reported_output(events: Seq<RunEvent>, i: int, output: Output) -> bool {
    0 <= i < events.len() && events[i] is Ran && events[i]->Ran_0 == output
}

/// Event `k` reported the removal of the container after the workload.
pub open spec fn cleaned_at(start: RunView, events: Seq<RunEvent>, k: int) -> bool {
    0 <= k < events.len() && events[k] is Done && run_all(start, events.take(k)).step is CleanAfter
}

/// Whatever is reported, an attempt that is over holds a receipt only where the workload
/// succeeded within its output bound, its container ended cleanly, and the removal after
/// that succeeded; the receipt then is of the prepared candidate, snapshot and ceilings.
pub proof fn receipt_requires_clean_exit_and_cleanup(
    prepared: PreparedSandbox,
    runtime_digest: Seq<char>,
    durable: bool,
    events: Seq<RunEvent>,
)
    ensures
        ({
            let start = run_start(prepared, runtime_digest, durable);
            let state = run_all(start, events);
            state.step is Ended && state.receipt is Some ==> (exists|i: int, j: int|
                earned_by(prepared, runtime_digest, events, i, j, state.receipt->0)) && (
            exists|k: int| cleaned_at(start, events, k))
        }),
{
    lemma_run_progress(prepared, runtime_digest, durable, events);
}

/// One step keeps its input and holds a receipt or an output only where it held it before or
/// was just told.
proof fn lemma_run_step(state: RunView, event: RunEvent)
    requires
        state.receipt is Some ==> state.step is CleanAfter || state.step is Ended,
    ensures
        ({
            let next = run_next(state, event);
            &&& next.prepared == state.prepared
            &&& next.runtime_digest == state.runtime_digest
            &&& next.output is Some ==> next.output == state.output || (event is Ran
                && next.output == Some(event->Ran_0))
            &&& next.receipt is Some ==> (next.step is CleanAfter || next.step is Ended)
            &&& next.receipt is Some ==> next.receipt == state.receipt || (state.output is Some
                && event is Inspected && earns(
                state.prepared,
                state.output->0,
                event->Inspected_0,
                event->Inspected_1,
                event->Inspected_2,
            ) && next.receipt->0 == super::earned_receipt(
                state.prepared,
                state.runtime_digest,
                state.output->0,
                event->Inspected_2->0 as nat,
            ))
            &&& next.step is Ended && next.receipt is Some ==> (state.step is Ended
                && state.receipt == next.receipt) || (state.step is CleanAfter && event is Done)
        }),
{
}

/// What a run keeps: its input, and that what it holds was reported.
#[verifier::spinoff_prover]
#[verifier::rlimit(40)]
proof fn lemma_run_progress(
    prepared: PreparedSandbox,
    runtime_digest: Seq<char>,
    durable: bool,
    events: Seq<RunEvent>,
)
    ensures
        ({
            let start = run_start(prepared, runtime_digest, durable);
            let state = run_all(start, events);
            &&& state.prepared == prepared
            &&& state.runtime_digest == runtime_digest
            &&& state.receipt is Some ==> state.step is CleanAfter || state.step is Ended
            &&& state.receipt is Some ==> exists|i: int, j: int|
                earned_by(prepared, runtime_digest, events, i, j, state.receipt->0)
            &&& state.output is Some ==> exists|i: int| reported_output(events, i, state.output->0)
            &&& state.step is Ended && state.receipt is Some ==> exists|k: int|
                cleaned_at(start, events, k)
        }),
    decreases events.len(),
{
    let start = run_start(prepared, runtime_digest, durable);
    if events.len() > 0 {
        let before = events.drop_last();
        lemma_run_progress(prepared, runtime_digest, durable, before);
        let last = run_all(start, before);
        let event = events.last();
        let state = run_next(last, event);
        let n = events.len() - 1;
        lemma_run_step(last, event);
        assert(run_all(start, events) == state);
        if last.output is Some {
            let i = choose|i: int| reported_output(before, i, last.output->0);
            assert(reported_output(events, i, last.output->0));
        }
        if state.output is Some && state.output != last.output {
            assert(reported_output(events, n as int, state.output->0));
        }
        if state.receipt is Some {
            if state.receipt == last.receipt {
                let (i, j) = choose|i: int, j: int|
                    earned_by(prepared, runtime_digest, before, i, j, last.receipt->0);
                assert(earned_by(prepared, runtime_digest, events, i, j, state.receipt->0));
            } else {
                let i = choose|i: int| reported_output(before, i, last.output->0);
                assert(earned_by(prepared, runtime_digest, events, i, n as int, state.receipt->0));
            }
        }
        if state.step is Ended && state.receipt is Some {
            if last.step is Ended {
                let k = choose|k: int| cleaned_at(start, before, k);
                assert(events.take(k) =~= before.take(k));
                assert(cleaned_at(start, events, k));
            } else {
                assert(events.take(n as int) =~= before);
                assert(cleaned_at(start, events, n as int));
            }
        }
    }
}

/// What the cleanup of an owned job asks for next.
#[derive(Debug, Clone, Copy, PartialEq, Eq, Structural)]
pub enum CleanupStep {
    /// Kill and await the child.
    Kill,
    /// Read the recorded launch.
    LoadPending,
    /// Reconcile the recorded launch.
    Recover,
    /// Remove the container by its generated name.
    RemoveByName,
    /// The job is released.
    Released,
    /// Cleanup failed; the job stays with its owner.
    Kept(SandboxError),
}

/// What came of an action of cleanup.
pub enum CleanupEvent {
    /// It succeeded.
    Done,
    /// It failed.
    Failed(SandboxError),
    /// A launch of this name is recorded, or none.
    Pending(Option<String>),
}

/// The first step of a cleanup: without an owned job only reconciliation is left.
pub open spec fn cleanup_start(active: bool) -> CleanupStep {
    if active {
        CleanupStep::Kill
    } else {
        CleanupStep::Recover
    }
}

/// The next step of a cleanup of the job named `name`.
pub open spec fn cleanup_next(
    step: CleanupStep,
    durable: bool,
    name: Seq<char>,
    event: CleanupEvent,
) -> CleanupStep {
    match (step, event) {
        (CleanupStep::Released, _) => step,
        (CleanupStep::Kept(_), _) => step,
        (CleanupStep::Kill, CleanupEvent::Done) => if durable {
            CleanupStep::LoadPending
        } else {
            CleanupStep::RemoveByName
        },
        (CleanupStep::Kill, _) => CleanupStep::Kept(SandboxError::Failed),
        (_, CleanupEvent::Failed(error)) => CleanupStep::Kept(error),
        (CleanupStep::LoadPending, CleanupEvent::Pending(Some(recorded))) => if recorded@ == name {
            CleanupStep::Recover
        } else {
            CleanupStep::Kept(SandboxError::Failed)
        },
        (CleanupStep::Recover, CleanupEvent::Done) => CleanupStep::Released,
        (CleanupStep::RemoveByName, CleanupEvent::Done) => CleanupStep::Released,
        _ => CleanupStep::Kept(SandboxError::Failed),
    }
}

/// Starts a cleanup.
pub fn begin_cleanup(active: bool) -> (r: CleanupStep)
    ensures
        r == cleanup_start(active),
{
    if active {
        CleanupStep::Kill
    } else {
        CleanupStep::Recover
    }
}

/// Takes what came of the last action of a cleanup.
pub fn advance_cleanup(step: CleanupStep, durable: bool, name: &str, event: CleanupEvent) -> (r:
    CleanupStep)
    ensures
        r == cleanup_next(step, durable, name@, event),
{
    match (step, event) {
        (CleanupStep::Released, _) => step,
        (CleanupStep::Kept(_), _) => step,
        (CleanupStep::Kill, CleanupEvent::Done) => {
            if durable {
                CleanupStep::LoadPending
            } else {
                CleanupStep::RemoveByName
            }
        },
        (CleanupStep::Kill, _) => CleanupStep::Kept(SandboxError::Failed),
        (_, CleanupEvent::Failed(error)) => CleanupStep::Kept(error),
        (CleanupStep::LoadPending, CleanupEvent::Pending(Some(recorded))) => {
            if text::text_eq(recorded.as_str(), name) {
                CleanupStep::Recover
            } else {
                CleanupStep::Kept(SandboxError::Failed)
            }
        },
        (CleanupStep::Recover, CleanupEvent::Done) => CleanupStep::Released,
        (CleanupStep::RemoveByName, CleanupEvent::Done) => CleanupStep::Released,
        _ => CleanupStep::Kept(SandboxError::Failed),
    }
}

/// The command that removes a container by its generated name.
pub fn removal_by_name(name: &str) -> (r: Vec<String>)
    ensures
        text::texts(r@) == seq!["rm"@, "--force"@, "--ignore"@, "--time=0"@, name@],
{
    let m = vec![
        "rm".to_owned(),
        "--force".to_owned(),
        "--ignore".to_owned(),
        "--time=0".to_owned(),
        name.to_owned(),
    ];
    assert(text::texts(m@) =~= seq![m@[0]@, m@[1]@, m@[2]@, m@[3]@, m@[4]@]);
    m
}

/// A job is released only by an action that succeeded, and never by an event that failed.
pub proof fn cleanup_releases_only_on_success(
    step: CleanupStep,
    durable: bool,
    name: Seq<char>,
    event: CleanupEvent,
)
    requires
        !(step is Released),
    ensures
        cleanup_next(step, durable, name, event) is Released ==> event is Done && (
        step is Recover || step is RemoveByName),
        step is LoadPending && cleanup_next(step, durable, name, event) is Recover ==> (
        event matches CleanupEvent::Pending(Some(recorded)) && recorded@ == name),
{
}

/// Joins an attempt with a shutdown signal and the final cleanup: shutdown takes precedence
/// and never returns a receipt, and neither does a failed cleanup.
pub fn conclude_with_shutdown(
    result: Option<Result<ValidationReceipt, SandboxError>>,
    cleanup: Result<(), SandboxError>,
) -> (r: Result<ValidationReceipt, SandboxError>)
    ensures
        r == (match cleanup {
            Err(error) => Err(error),
            Ok(()) => match result {
                Some(result) => result,
                None => Err(SandboxError::Failed),
            },
        }),
{
    match cleanup {
        Err(error) => Err(error),
        Ok(()) => match result {
            Some(result) => result,
            None => Err(SandboxError::Failed),
        },
    }
}

/// A receipt is earned exactly by a workload that ended well within its output ceiling, was found to
/// have exited cleanly, and at a known time.
pub proof fn receipts_are_earned_by_clean_bounded_runs(
    prepared: PreparedSandbox,
    output: Output,
    inspected: bool,
    state: Option<ExitState>,
    completed_at: Option<u64>,
)
    ensures
        earns(prepared, output, inspected, state, completed_at) <==> output.success && inspected
            && state is Some && (state->0).status@ == "exited"@ && (state->0).exit_code == 0
            && !(state->0).oom_killed && !(state->0).running && !(state->0).paused
            && !(state->0).restarting && !(state->0).dead && (state->0).error@.len() == 0
            && completed_at is Some && output.stdout@.len() + output.stderr@.len()
            <= prepared.limits_of().output_bytes,
{
}

/// A run takes its steps in order. What failed before the launch ends it; what failed to start is
/// taken back where it was durable; what was started is always cleaned up.
pub proof fn runs_take_their_steps_in_order(
    state: RunView,
    name: String,
    token: Option<String>,
    output: Output,
    error: SandboxError,
    inspected: bool,
    exit: Option<ExitState>,
    completed_at: Option<u64>,
)
    ensures
        ({
            let done = run_next(state, RunEvent::Done);
            let failed = run_next(state, RunEvent::Failed(error));
            let named = run_next(state, RunEvent::Named(name, token));
            let ran = run_next(state, RunEvent::Ran(output));
            let seen = run_next(state, RunEvent::Inspected(inspected, exit, completed_at));
            let launching = state.step == RunStep::Launch;
            let started = state.step == RunStep::Collect || state.step == RunStep::Inspect;
            &&& state.step == RunStep::CleanBefore ==> done == (RunView {
                step: RunStep::Verify,
                ..state
            })
            &&& state.step == RunStep::Verify ==> done == (RunView {
                step: RunStep::Mounts,
                ..state
            })
            &&& state.step == RunStep::Mounts ==> done == (RunView { step: RunStep::Probe, ..state })
            &&& state.step == RunStep::Probe ==> done == (RunView { step: RunStep::Begin, ..state })
            &&& state.step == RunStep::Begin ==> named.step == RunStep::Launch && named.name
                == name@ && named.token is Some == token is Some && (token matches Some(t)
                ==> named.token == Some(t@)) && named.prepared == state.prepared
            &&& launching ==> done == (RunView { step: RunStep::Collect, ..state })
            &&& launching && state.durable ==> failed.step == RunStep::AbandonSnapshot
                && failed.prepared == state.prepared
            &&& launching && !state.durable ==> failed.step == RunStep::Ended && failed.receipt
                is None && failed.failure == SandboxError::Unavailable
            &&& state.step == RunStep::AbandonSnapshot ==> done.step == RunStep::AbandonRecord
            &&& state.step == RunStep::AbandonRecord ==> done.step == RunStep::Ended && done.receipt
                is None && done.failure == SandboxError::Unavailable
            &&& state.step == RunStep::Collect && output.success ==> ran == (RunView {
                step: RunStep::Inspect,
                output: Some(output),
                ..state
            })
            &&& state.step == RunStep::Collect && !output.success ==> ran.step
                == RunStep::CleanAfter && ran.receipt is None && ran.failure == SandboxError::Failed
            &&& started ==> failed.step == RunStep::CleanAfter && failed.receipt is None
                && failed.failure == error
            &&& state.step == RunStep::Inspect ==> seen.step == RunStep::CleanAfter && (seen.receipt
                is Some <==> state.output is Some && earns(
                state.prepared,
                state.output->0,
                inspected,
                exit,
                completed_at,
            )) && (seen.receipt is Some ==> seen.receipt == Some(
                super::earned_receipt(
                    state.prepared,
                    state.runtime_digest,
                    state.output->0,
                    completed_at->0 as nat,
                ),
            ))
            &&& state.step == RunStep::CleanAfter ==> done == (RunView {
                step: RunStep::Ended,
                ..state
            }) && failed.step == RunStep::Ended && failed.receipt is None && failed.failure == error
            &&& state.step == RunStep::Ended ==> done == state && failed == state && ran == state
            &&& !started && !launching && state.step != RunStep::Ended ==> failed.step
                == RunStep::Ended && failed.receipt is None && failed.failure == error
        }),
{
}

/// What a launch keeps of a prepared argument: everything but `--remote=false` and `--rm`, in order,
/// with the name of the launch in place of the prepared one.
pub proof fn launches_keep_every_other_argument(
    arguments: Seq<Seq<char>>,
    argument: Seq<char>,
    name: Seq<char>,
)
    ensures
        unlabelled(Seq::empty(), name).len() == 0,
        argument == "--remote=false"@ || argument == "--rm"@ ==> unlabelled(
            arguments.push(argument),
            name,
        ) == unlabelled(arguments, name),
        argument != "--remote=false"@ && argument != "--rm"@ && !"--name="@.is_prefix_of(argument)
            ==> unlabelled(arguments.push(argument), name) == unlabelled(arguments, name).push(
            argument,
        ),
        "--name="@.is_prefix_of(argument) ==> unlabelled(arguments.push(argument), name)
            == unlabelled(arguments, name).push("--name="@ + name),
{
    assert(arguments.push(argument).drop_last() =~= arguments);
    reveal_strlit("--name=");
    reveal_strlit("--rm");
    reveal_strlit("--remote=false");
    if "--name="@.is_prefix_of(argument) {
        assert(argument.subrange(0, 7)[2] == argument[2]);
        assert("--rm"@[2] == 'r');
        assert("--remote=false"@[2] == 'r');
        assert("--name="@[2] == 'n');
    }
}

/// The ownership label stands directly before the last argument, the image, and only on a launch
/// with a token.
pub proof fn labels_stand_before_the_image(
    arguments: Seq<Seq<char>>,
    name: Seq<char>,
    token: Seq<char>,
)
    requires
        unlabelled(arguments, name).len() > 0,
    ensures
        ({
            let plain = unlabelled(arguments, name);
            let labelled = launched(arguments, name, Some(token));
            &&& launched(arguments, name, None) == plain
            &&& labelled.len() == plain.len() + 1
            &&& labelled.take(plain.len() - 1) == plain.drop_last()
            &&& labelled[plain.len() - 1] == "--label=io.bodhispace.ai-sre.job="@ + token
            &&& labelled.last() == plain.last()
        }),
{
    let plain = unlabelled(arguments, name);
    let labelled = launched(arguments, name, Some(token));
    assert(labelled.take(plain.len() - 1) =~= plain.drop_last());
}

/// The runtime is started locally, with the planned arguments and a fixed environment that reads no
/// configuration.
pub proof fn runtimes_start_locally_without_configuration(
    binary: Seq<char>,
    home: Seq<char>,
    runtime_directory: Seq<char>,
    arguments: Seq<Seq<char>>,
)
    ensures
        ({
            let plan = runtime_process(binary, home, runtime_directory, arguments);
            &&& plan.program == binary
            &&& plan.arguments[0] == "--remote=false"@
            &&& plan.arguments.skip(1) == arguments
            &&& plan.environment.len() == 4
            &&& plan.environment[0] == ("HOME"@, home)
            &&& plan.environment[1] == ("XDG_RUNTIME_DIR"@, runtime_directory)
            &&& plan.environment[2] == ("PATH"@, "/usr/bin:/bin"@)
            &&& plan.environment[3] == ("CONTAINERS_CONF"@, "/dev/null"@)
        }),
{
    let plan = runtime_process(binary, home, runtime_directory, arguments);
    assert(plan.arguments.skip(1) =~= arguments);
}

/// Cleanup kills an active child first, then recovers what was recorded under the same name, or
/// removes the container by name where nothing is durable; it keeps the job at any failure.
pub proof fn cleanups_take_their_steps_in_order(
    step: CleanupStep,
    durable: bool,
    name: Seq<char>,
    error: SandboxError,
    recorded: String,
)
    ensures
        cleanup_start(true) == CleanupStep::Kill,
        cleanup_start(false) == CleanupStep::Recover,
        ({
            let done = cleanup_next(step, durable, name, CleanupEvent::Done);
            let failed = cleanup_next(step, durable, name, CleanupEvent::Failed(error));
            let found = cleanup_next(step, durable, name, CleanupEvent::Pending(Some(recorded)));
            let none = cleanup_next(step, durable, name, CleanupEvent::Pending(None));
            &&& step == CleanupStep::Kill ==> done == (if durable {
                CleanupStep::LoadPending
            } else {
                CleanupStep::RemoveByName
            }) && failed == CleanupStep::Kept(SandboxError::Failed)
            &&& step == CleanupStep::LoadPending ==> found == (if recorded@ == name {
                CleanupStep::Recover
            } else {
                CleanupStep::Kept(SandboxError::Failed)
            }) && none == CleanupStep::Kept(SandboxError::Failed) && failed == CleanupStep::Kept(
                error,
            )
            &&& step == CleanupStep::Recover || step == CleanupStep::RemoveByName ==> done
                == CleanupStep::Released && failed == CleanupStep::Kept(error)
        }),
{
}

/// A run begins with nothing but its input, and a job without durable state is named by process, clock
/// and counter.
pub proof fn runs_begin_with_cleanup(
    prepared: PreparedSandbox,
    runtime_digest: Seq<char>,
    durable: bool,
    pid: nat,
    timestamp: nat,
    counter: nat,
)
    ensures
        ({
            let state = run_start(prepared, runtime_digest, durable);
            &&& state.step == RunStep::CleanBefore
            &&& state.prepared == prepared
            &&& state.runtime_digest == runtime_digest
            &&& state.durable == durable
            &&& state.receipt is None
            &&& state.output is None
        }),
        local_name(pid, timestamp, counter) == "u9-"@ + number::decimal(pid) + "-"@
            + number::decimal(timestamp) + "-"@ + number::decimal(counter),
{
}

} // verus!
