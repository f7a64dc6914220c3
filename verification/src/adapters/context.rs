//! Bounded, server-owned context adapters for Git, deployment history, and health.
//!
//! Requests contain only typed selectors. Command paths and argument prefixes
//! are deployment-owned, and every process runs without a shell, inherited
//! environment, or caller working directory.

use crate::files;
use crate::process::{ProcessPlan, ProcessView};
use crate::reasoning::evidence::{EvidenceError, EvidenceSource};
use crate::text;
use crate::text::number;
use crate::text::split;
use crate::text::trim;
use vstd::prelude::*;

verus! {

/// Largest selector, in bytes.
pub const MAX_SELECTOR_BYTES: usize = 512;

/// Largest output bound, in bytes.
pub const MAX_OUTPUT_BYTES: usize = 65536;

/// Largest number of history entries.
pub const MAX_HISTORY_ENTRIES: usize = 50;

/// A fixed, read-only capability that may be exposed to an investigator.
#[derive(Debug, Clone, Copy, PartialEq, Eq, Structural)]
pub enum ContextCapability {
    /// Read the desired-state file for one canonical service.
    GitDesiredState,
    /// Read recent deployment history for one canonical service.
    DeploymentHistory,
    /// Read health from one configured endpoint alias.
    Health,
}

/// Safe failures at the read-only process boundary.
#[derive(Debug, Clone, Copy, PartialEq, Eq, Structural)]
pub enum ContextError {
    /// The deployment-owned command plan is invalid.
    InvalidPlan,
    /// The process could not be started.
    SpawnFailed,
    /// The process exceeded its output budget.
    OutputLimitExceeded,
    /// The process exceeded its wall-clock budget.
    TimedOut,
    /// The process exited unsuccessfully.
    NonZeroExit,
    /// Evidence could not be committed.
    Evidence(EvidenceError),
    /// The concurrency gate was closed.
    ConcurrencyUnavailable,
}

/// Server-owned process plan. It cannot be constructed from model text.
#[derive(Debug, Clone, PartialEq, Eq)]
pub struct ReadOnlyCommand {
    binary: String,
    args: Vec<String>,
    source: EvidenceSource,
    query: String,
}

/// A server-owned process plan.
pub struct CommandView {
    /// Absolute program.
    pub binary: Seq<char>,
    /// Literal arguments.
    pub args: Seq<Seq<char>>,
    /// What its output is evidence of.
    pub source: EvidenceSource,
    /// How the evidence is described.
    pub query: Seq<char>,
}

/// No argument is longer than a selector may be.
pub open spec fn are_bounded(args: Seq<Seq<char>>) -> bool {
    forall|i: int| 0 <= i < args.len() ==> text::utf8_len(#[trigger] args[i]) <= MAX_SELECTOR_BYTES
}

/// An absolute program, a present and bounded description, and bounded arguments.
pub open spec fn is_command(binary: Seq<char>, args: Seq<Seq<char>>, query: Seq<char>) -> bool {
    &&& files::is_absolute(binary)
    &&& !trim::is_blank(query)
    &&& text::utf8_len(query) <= MAX_SELECTOR_BYTES
    &&& are_bounded(args)
}

fn bounded(args: &Vec<String>) -> (r: bool)
    ensures
        r == are_bounded(text::texts(args@)),
{
    let ghost views = text::texts(args@);
    let mut i: usize = 0;
    while i < args.len()
        invariant
            i <= args.len(),
            views == text::texts(args@),
            forall|j: int|
                0 <= j < i ==> text::utf8_len(#[trigger] views[j]) <= MAX_SELECTOR_BYTES,
        decreases args.len() - i,
    {
        assert(views[i as int] == args@[i as int]@);
        if text::byte_len(args[i].as_str()) > MAX_SELECTOR_BYTES {
            assert(!(text::utf8_len(views[i as int]) <= MAX_SELECTOR_BYTES));
            return false;
        }
        i += 1;
    }
    assert(views.len() == args.len());
    true
}

impl View for ReadOnlyCommand {
    type V = CommandView;

    closed spec fn view(&self) -> CommandView {
        CommandView {
            binary: self.binary@,
            args: text::texts(self.args@),
            source: self.source,
            query: self.query@,
        }
    }
}

impl ReadOnlyCommand {
    /// Creates a deployment-owned command plan after validating fixed fields.
    pub fn new(binary: &str, args: Vec<String>, source: EvidenceSource, query: &str) -> (r: Result<
        Self,
        ContextError,
    >)
        ensures
            match r {
                Ok(command) => is_command(binary@, text::texts(args@), query@) && command@ == (
                CommandView {
                    binary: binary@,
                    args: text::texts(args@),
                    source,
                    query: query@,
                }),
                Err(error) => !is_command(binary@, text::texts(args@), query@) && error
                    == ContextError::InvalidPlan,
            },
    {
        if !files::absolute(binary) || trim::blank(query) || text::byte_len(query)
            > MAX_SELECTOR_BYTES {
            return Err(ContextError::InvalidPlan);
        }
        if !bounded(&args) {
            return Err(ContextError::InvalidPlan);
        }
        Ok(
            ReadOnlyCommand {
                binary: binary.to_owned(),
                args,
                source,
                query: query.to_owned(),
            },
        )
    }

    /// What the output is evidence of.
    pub fn source(&self) -> (r: EvidenceSource)
        ensures
            r == self@.source,
    {
        self.source
    }

    /// How the evidence is described.
    pub fn query(&self) -> (r: &str)
        ensures
            r@ == self@.query,
    {
        self.query.as_str()
    }

    /// Plans the process: the program and its arguments, with an empty environment.
    pub fn plan(&self) -> (r: ProcessPlan)
        ensures
            r@ == (ProcessView {
                program: self@.binary,
                arguments: self@.args,
                environment: Seq::empty(),
            }),
    {
        let mut arguments: Vec<String> = Vec::new();
        assert(text::texts(arguments@) =~= Seq::<Seq<char>>::empty());
        crate::process::extend(&mut arguments, &self.args);
        let plan = ProcessPlan {
            program: self.binary.clone(),
            arguments,
            environment: Vec::new(),
        };
        assert(plan@.arguments =~= self@.args);
        assert(plan@.environment =~= Seq::empty());
        plan
    }
}

/// Bounds of a process runner shared by non-Grafana read-only context adapters.
#[derive(Debug, Clone, Copy, PartialEq, Eq, Structural)]
pub struct ReadOnlyRunner {
    /// Wall-clock budget in seconds.
    pub timeout_seconds: u64,
    /// Output bound in bytes.
    pub max_output_bytes: usize,
    /// Number of processes at a time.
    pub max_concurrency: usize,
}

/// How a read-only process went.
pub enum ProcessOutcome {
    /// The concurrency gate was closed.
    GateClosed,
    /// The process could not be started.
    NotStarted,
    /// Its output could not be read.
    Unreadable,
    /// It exceeded its wall-clock budget.
    TimedOut,
    /// Its output, at most one byte more than the bound, was read, and it ended: whether its
    /// status is known, and whether it is a success.
    Ended(Vec<u8>, bool, bool),
}

/// A value moved into a range.
pub open spec fn clamped(value: usize, low: usize, high: usize) -> usize {
    if value < low {
        low
    } else if value > high {
        high
    } else {
        value
    }
}

impl ReadOnlyRunner {
    /// Creates a runner with bounded process duration, output, and concurrency.
    pub fn new(timeout_seconds: u64, max_output_bytes: usize, max_concurrency: usize) -> (r: Self)
        ensures
            r.timeout_seconds == timeout_seconds,
            r.max_output_bytes == clamped(max_output_bytes, 1, MAX_OUTPUT_BYTES),
            r.max_concurrency == clamped(max_concurrency, 1, usize::MAX),
    {
        ReadOnlyRunner {
            timeout_seconds,
            max_output_bytes: if max_output_bytes < 1 {
                1
            } else if max_output_bytes > MAX_OUTPUT_BYTES {
                MAX_OUTPUT_BYTES
            } else {
                max_output_bytes
            },
            max_concurrency: if max_concurrency < 1 {
                1
            } else {
                max_concurrency
            },
        }
    }

    /// Whether output exceeds the bound, so that the process is to be killed.
    pub fn exceeds(&self, length: usize) -> (r: bool)
        ensures
            r == (length > self.max_output_bytes),
    {
        length > self.max_output_bytes
    }

    /// The bytes to commit as evidence, or why there are none.
    pub fn settle(&self, outcome: ProcessOutcome) -> (r: Result<Vec<u8>, ContextError>)
        ensures
            r == (match outcome {
                ProcessOutcome::GateClosed => Err(ContextError::ConcurrencyUnavailable),
                ProcessOutcome::NotStarted => Err(ContextError::SpawnFailed),
                ProcessOutcome::Unreadable => Err(ContextError::SpawnFailed),
                ProcessOutcome::TimedOut => Err(ContextError::TimedOut),
                ProcessOutcome::Ended(bytes, known, success) => if bytes@.len()
                    > self.max_output_bytes {
                    Err(ContextError::OutputLimitExceeded)
                } else if !known {
                    Err(ContextError::SpawnFailed)
                } else if !success {
                    Err(ContextError::NonZeroExit)
                } else {
                    Ok(bytes)
                },
            }),
    {
        match outcome {
            ProcessOutcome::GateClosed => Err(ContextError::ConcurrencyUnavailable),
            ProcessOutcome::NotStarted => Err(ContextError::SpawnFailed),
            ProcessOutcome::Unreadable => Err(ContextError::SpawnFailed),
            ProcessOutcome::TimedOut => Err(ContextError::TimedOut),
            ProcessOutcome::Ended(bytes, known, success) => {
                if self.exceeds(bytes.len()) {
                    Err(ContextError::OutputLimitExceeded)
                } else if !known {
                    Err(ContextError::SpawnFailed)
                } else if !success {
                    Err(ContextError::NonZeroExit)
                } else {
                    Ok(bytes)
                }
            },
        }
    }
}

/// A selector without whitespace or zero characters, of at most 512 bytes.
pub open spec fn is_selector(value: Seq<char>) -> bool {
    &&& !trim::is_blank(value)
    &&& text::utf8_len(value) <= MAX_SELECTOR_BYTES
    &&& !value.contains('\0')
    &&& !trim::has_space(value)
}

/// A selector that is no option.
pub open spec fn is_revision(value: Seq<char>) -> bool {
    is_selector(value) && !"-"@.is_prefix_of(value)
}

/// A relative selector that does not climb.
pub open spec fn is_relative_path(value: Seq<char>) -> bool {
    is_selector(value) && !files::is_absolute(value) && !files::climbs(value)
}

fn selector(value: &str) -> (r: bool)
    ensures
        r == is_selector(value@),
{
    !trim::blank(value) && text::byte_len(value) <= MAX_SELECTOR_BYTES && !text::contains_char(
        value,
        '\0',
    ) && !trim::any_space(value)
}

fn revision_selector(value: &str) -> (r: bool)
    ensures
        r == is_revision(value@),
{
    selector(value) && !text::starts_with(value, "-")
}

fn relative_path(value: &str) -> (r: bool)
    ensures
        r == is_relative_path(value@),
{
    selector(value) && !files::absolute(value) && !files::climbing(value)
}

/// The plan that reads a desired-state file.
pub open spec fn desired_state_command(
    binary: Seq<char>,
    repository: Seq<char>,
    revision: Seq<char>,
    path: Seq<char>,
) -> CommandView {
    CommandView {
        binary,
        args: seq![
            "--no-pager"@,
            "-C"@,
            repository,
            "show"@,
            "--no-ext-diff"@,
            "--format="@,
            revision,
            "--"@,
            path,
        ],
        source: EvidenceSource::GitDesiredState,
        query: "git desired state "@ + revision + ":"@ + path,
    }
}

/// Fixed Git command plan for a canonical desired-state file.
pub fn git_desired_state(binary: &str, repository: &str, revision: &str, path: &str) -> (r: Result<
    ReadOnlyCommand,
    ContextError,
>)
    ensures
        ({
            let wanted = desired_state_command(binary@, repository@, revision@, path@);
            let accepted = is_selector(repository@) && is_revision(revision@) && is_relative_path(
                path@,
            ) && is_command(binary@, wanted.args, wanted.query);
            match r {
                Ok(command) => accepted && command@ == wanted,
                Err(error) => !accepted && error == ContextError::InvalidPlan,
            }
        }),
{
    if !selector(repository) || !revision_selector(revision) || !relative_path(path) {
        return Err(ContextError::InvalidPlan);
    }
    let m = vec![
        "--no-pager".to_owned(),
        "-C".to_owned(),
        repository.to_owned(),
        "show".to_owned(),
        "--no-ext-diff".to_owned(),
        "--format=".to_owned(),
        revision.to_owned(),
        "--".to_owned(),
        path.to_owned(),
    ];
    assert(text::texts(m@) =~= seq![
        m@[0]@,
        m@[1]@,
        m@[2]@,
        m@[3]@,
        m@[4]@,
        m@[5]@,
        m@[6]@,
        m@[7]@,
        m@[8]@,
    ]);
    let mut query = "git desired state ".to_owned();
    query.append(revision);
    query.append(":");
    query.append(path);
    ReadOnlyCommand::new(binary, m, EvidenceSource::GitDesiredState, query.as_str())
}

/// The plan that reads deployment history.
pub open spec fn history_command(
    binary: Seq<char>,
    repository: Seq<char>,
    path: Seq<char>,
    max_entries: usize,
) -> CommandView {
    CommandView {
        binary,
        args: seq![
            "--no-pager"@,
            "-C"@,
            repository,
            "log"@,
            "--no-ext-diff"@,
            "--format=%H %cI %s"@,
            "-n"@ + number::decimal(clamped(max_entries, 1, MAX_HISTORY_ENTRIES) as nat),
            "--"@,
            path,
        ],
        source: EvidenceSource::DeploymentHistory,
        query: "deployment history "@ + path,
    }
}

/// Fixed Git command plan for bounded recent deployment history.
pub fn deployment_history(binary: &str, repository: &str, path: &str, max_entries: usize) -> (r:
    Result<ReadOnlyCommand, ContextError>)
    ensures
        ({
            let wanted = history_command(binary@, repository@, path@, max_entries);
            let accepted = is_selector(repository@) && is_relative_path(path@) && is_command(
                binary@,
                wanted.args,
                wanted.query,
            );
            match r {
                Ok(command) => accepted && command@ == wanted,
                Err(error) => !accepted && error == ContextError::InvalidPlan,
            }
        }),
{
    if !selector(repository) || !relative_path(path) {
        return Err(ContextError::InvalidPlan);
    }
    let entries: usize = if max_entries < 1 {
        1
    } else if max_entries > MAX_HISTORY_ENTRIES {
        MAX_HISTORY_ENTRIES
    } else {
        max_entries
    };
    let digits = number::decimal_text(entries as u64);
    let m = vec![
        "--no-pager".to_owned(),
        "-C".to_owned(),
        repository.to_owned(),
        "log".to_owned(),
        "--no-ext-diff".to_owned(),
        "--format=%H %cI %s".to_owned(),
        text::prefixed("-n", digits.as_str()),
        "--".to_owned(),
        path.to_owned(),
    ];
    assert(text::texts(m@) =~= seq![
        m@[0]@,
        m@[1]@,
        m@[2]@,
        m@[3]@,
        m@[4]@,
        m@[5]@,
        m@[6]@,
        m@[7]@,
        m@[8]@,
    ]);
    let query = text::prefixed("deployment history ", path);
    ReadOnlyCommand::new(binary, m, EvidenceSource::DeploymentHistory, query.as_str())
}

/// Creates a health plan from a server-owned binary and fixed argument list.
pub fn health_plan(binary: &str, args: Vec<String>, endpoint_alias: &str) -> (r: Result<
    ReadOnlyCommand,
    ContextError,
>)
    ensures
        ({
            let query = "health "@ + endpoint_alias@;
            let accepted = is_selector(endpoint_alias@) && is_command(
                binary@,
                text::texts(args@),
                query,
            );
            match r {
                Ok(command) => accepted && command@ == (CommandView {
                    binary: binary@,
                    args: text::texts(args@),
                    source: EvidenceSource::Health,
                    query,
                }),
                Err(error) => !accepted && error == ContextError::InvalidPlan,
            }
        }),
{
    if !selector(endpoint_alias) {
        return Err(ContextError::InvalidPlan);
    }
    let query = text::prefixed("health ", endpoint_alias);
    ReadOnlyCommand::new(binary, args, EvidenceSource::Health, query.as_str())
}

/// No selector of an accepted Git plan can be read as an option, or leave the repository.
pub proof fn accepted_git_paths_stay_inside(
    binary: Seq<char>,
    repository: Seq<char>,
    revision: Seq<char>,
    path: Seq<char>,
)
    requires
        is_selector(repository),
        is_revision(revision),
        is_relative_path(path),
    ensures
        revision[0] != '-',
        path[0] != '/',
        !files::climbs(path),
        desired_state_command(binary, repository, revision, path).args[7] == "--"@,
        desired_state_command(binary, repository, revision, path).args[8] == path,
{
    reveal_strlit("-");
    if revision.len() == 0 {
        assert(trim::is_blank(revision));
    }
    if revision[0] == '-' {
        assert("-"@ =~= revision.subrange(0, 1));
    }
    if path.len() == 0 {
        assert(trim::is_blank(path));
    }
}

/// A command is taken exactly with an absolute program, and a query and arguments of at most 512
/// bytes each, the query not blank.
pub proof fn commands_are_absolute_and_bounded(
    binary: Seq<char>,
    args: Seq<Seq<char>>,
    query: Seq<char>,
)
    ensures
        is_command(binary, args, query) <==> binary.len() > 0 && binary[0] == '/' && (exists|i: int|
            0 <= i < query.len() && !trim::is_space(#[trigger] query[i]))
            && vstd::utf8::encode_utf8(query).len() <= 512 && (forall|i: int|
            0 <= i < args.len() ==> vstd::utf8::encode_utf8(#[trigger] args[i]).len() <= 512),
{
    assert(are_bounded(args) == (forall|i: int|
        0 <= i < args.len() ==> vstd::utf8::encode_utf8(#[trigger] args[i]).len() <= 512)) by {
        assert forall|i: int| 0 <= i < args.len() implies text::utf8_len(#[trigger] args[i])
            == vstd::utf8::encode_utf8(args[i]).len() by {}
    }
}

/// A selector is one word of at most 512 bytes; a revision does not look like an option, and a path
/// is relative and does not climb.
pub proof fn selectors_are_single_bounded_words(value: Seq<char>)
    ensures
        is_selector(value) <==> value.len() >= 1 && vstd::utf8::encode_utf8(value).len() <= 512
            && forall|i: int|
            0 <= i < value.len() ==> #[trigger] value[i] != '\0' && !trim::is_space(value[i]),
        is_revision(value) <==> is_selector(value) && value[0] != '-',
        is_relative_path(value) <==> is_selector(value) && value[0] != '/' && forall|i: int|
            0 <= i < split::fields(value, '/').len() ==> #[trigger] split::fields(value, '/')[i]
                != ".."@,
{
    reveal_strlit("-");
    let parts = split::fields(value, '/');
    assert(value.contains('\0') == exists|i: int| 0 <= i < value.len() && #[trigger] value[i] == '\0');
    if value.len() > 0 {
        assert("-"@.is_prefix_of(value) == (value[0] == '-')) by {
            if value[0] == '-' {
                assert("-"@ =~= value.subrange(0, 1));
            } else if "-"@.is_prefix_of(value) {
                assert(value.subrange(0, 1)[0] == value[0]);
            }
        }
    }
    if is_selector(value) {
        if value.len() == 0 {
            assert(trim::is_blank(value));
        }
        assert forall|i: int| 0 <= i < value.len() implies #[trigger] value[i] != '\0'
            && !trim::is_space(value[i]) by {
            assert(value.contains(value[i]));
        }
    }
    if value.len() >= 1 && forall|i: int|
        0 <= i < value.len() ==> #[trigger] value[i] != '\0' && !trim::is_space(value[i]) {
        assert(!trim::is_space(value[0]));
        assert(!trim::is_blank(value));
        assert(!trim::has_space(value));
    }
    assert(files::climbs(value) == exists|i: int|
        0 <= i < parts.len() && #[trigger] parts[i] == ".."@);
}

/// Git is asked to show one path at one revision of one repository, without a pager or an external
/// program, and nothing after `--` is an option.
pub proof fn desired_state_shows_one_path_at_one_revision(
    binary: Seq<char>,
    repository: Seq<char>,
    revision: Seq<char>,
    path: Seq<char>,
)
    ensures
        ({
            let command = desired_state_command(binary, repository, revision, path);
            &&& command.binary == binary
            &&& command.args.len() == 9
            &&& command.args[0] == "--no-pager"@
            &&& command.args[1] == "-C"@ && command.args[2] == repository
            &&& command.args[3] == "show"@
            &&& command.args[4] == "--no-ext-diff"@
            &&& command.args[5] == "--format="@
            &&& command.args[6] == revision
            &&& command.args[7] == "--"@ && command.args[8] == path
            &&& command.source == EvidenceSource::GitDesiredState
            &&& command.query == "git desired state "@ + revision + ":"@ + path
        }),
{
}

/// Git is asked for at least one and at most fifty commits of one path, newest first.
pub proof fn history_lists_a_bounded_number_of_commits(
    binary: Seq<char>,
    repository: Seq<char>,
    path: Seq<char>,
    max_entries: usize,
)
    ensures
        ({
            let command = history_command(binary, repository, path, max_entries);
            let count = if max_entries == 0 {
                1
            } else if max_entries > 50 {
                50
            } else {
                max_entries
            };
            &&& command.binary == binary
            &&& command.args.len() == 9
            &&& command.args[0] == "--no-pager"@
            &&& command.args[1] == "-C"@ && command.args[2] == repository
            &&& command.args[3] == "log"@
            &&& command.args[4] == "--no-ext-diff"@
            &&& command.args[5] == "--format=%H %cI %s"@
            &&& command.args[6] == "-n"@ + number::decimal(count as nat)
            &&& command.args[7] == "--"@ && command.args[8] == path
            &&& command.source == EvidenceSource::DeploymentHistory
            &&& command.query == "deployment history "@ + path
        }),
{
}

/// A clamped value is the nearest one in the range.
pub proof fn clamping_finds_the_nearest_value(value: usize, low: usize, high: usize)
    requires
        low <= high,
    ensures
        low <= clamped(value, low, high) <= high,
        low <= value <= high ==> clamped(value, low, high) == value,
        value < low ==> clamped(value, low, high) == low,
        value > high ==> clamped(value, low, high) == high,
{
}

} // verus!
