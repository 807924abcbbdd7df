//! What a task command's options mean, before anything is done with them.
use vstd::prelude::*;
use crate::error::{earliest, fault_if, outcome_of, task_refusal, WorkerError};
use crate::freeze::ControllerSubmitFields;
use crate::job::checks::non_nul_fault;
use crate::job::command::{argv_fault, CommandSpec};
use crate::job::ids::TaskId;
use crate::job::MAX_COMMAND_BYTES;
use crate::laws::options::{needed_repositories_are_protected, scope_options_are_accepted};
use crate::outside::text_of;
use crate::scheduler::WorkerPreference;
use crate::task::{AgentKind, ClosePolicy, TaskState};
use crate::text::{clone_opt, clone_texts, opt_text, text_eq, texts};
use crate::words::chars_of;

verus! {

/// What a check of task options gives: success, or the configuration error with
/// exactly this text.
pub open spec fn task_outcome<T>(result: Result<T, WorkerError>, fault: Option<Seq<char>>) -> bool {
    match fault {
        None => result is Ok,
        Some(message) => result matches Err(error) && task_refusal(
            error,
            "TASK_CONFIG_INVALID"@,
            message,
        ),
    }
}

fn config_error(message: &str) -> (error: WorkerError)
    ensures
        task_refusal(error, "TASK_CONFIG_INVALID"@, message@),
{
    WorkerError::task("TASK_CONFIG_INVALID", message)
}

/// How often a text stands among the first `count` of a list.
pub open spec fn occurrences(items: Seq<Seq<char>>, item: Seq<char>, count: int) -> nat
    decreases count,
{
    if count <= 0 {
        0
    } else {
        occurrences(items, item, count - 1) + if items[count - 1] == item {
            1nat
        } else {
            0nat
        }
    }
}

/// Where a task's work comes from and where its results go.
pub open spec fn scope_fault(
    source: Option<Seq<char>>,
    publish: Seq<Seq<char>>,
    publish_branch: Option<Seq<char>>,
) -> Option<Seq<char>> {
    let total = publish.len() as int;
    earliest(
        fault_if(
            source is Some && source->0 != "local"@ && source->0 != "origin"@,
            "source must be local or origin (TASK_CONFIG_INVALID)"@,
        ),
        earliest(
            fault_if(
                exists|i: int|
                    0 <= i < publish.len() && #[trigger] publish[i] != "fetch"@ && publish[i]
                        != "push"@,
                "publish must be fetch or push (TASK_CONFIG_INVALID)"@,
            ),
            earliest(
                fault_if(
                    occurrences(publish, "fetch"@, total) > 1 || occurrences(
                        publish,
                        "push"@,
                        total,
                    ) > 1,
                    "publish modes must be unique (TASK_CONFIG_INVALID)"@,
                ),
                fault_if(
                    publish_branch is Some && occurrences(publish, "push"@, total) == 0,
                    "publish_branch requires publish push (TASK_CONFIG_INVALID)"@,
                ),
            ),
        ),
    )
}

pub open spec fn opt_view(value: Option<&str>) -> Option<Seq<char>> {
    match value {
        Some(text) => Some(text@),
        None => None,
    }
}

/// Whether a task's source and publication options fit together.
pub fn validate_task_scope_options(
    source: Option<&str>,
    publish: &[String],
    publish_branch: Option<&str>,
) -> (result: Result<(), WorkerError>)
    ensures
        task_outcome(
            result,
            scope_fault(opt_view(source), texts(publish@), opt_view(publish_branch)),
        ),
        result is Ok <==> {
            &&& source is None || source->0@ == "local"@ || source->0@ == "origin"@
            &&& forall|i: int|
                0 <= i < publish@.len() ==> #[trigger] texts(publish@)[i] == "fetch"@ || texts(
                    publish@,
                )[i] == "push"@
            &&& forall|i: int, j: int|
                0 <= i < j < publish@.len() ==> #[trigger] texts(publish@)[i] != #[trigger] texts(
                    publish@,
                )[j]
            &&& publish_branch is None || exists|i: int|
                0 <= i < publish@.len() && #[trigger] texts(publish@)[i] == "push"@
        },
{
    proof {
        scope_options_are_accepted(opt_view(source), texts(publish@), opt_view(publish_branch));
    }
    if let Some(chosen) = source {
        if !text_eq(chosen, "local") && !text_eq(chosen, "origin") {
            return Err(config_error("source must be local or origin (TASK_CONFIG_INVALID)"));
        }
    }
    let ghost modes = texts(publish@);
    let mut fetches: usize = 0;
    let mut pushes: usize = 0;
    let mut i: usize = 0;
    while i < publish.len()
        invariant
            i <= publish@.len(),
            modes == texts(publish@),
            !(source is Some && source->0@ != "local"@ && source->0@ != "origin"@),
            fetches == occurrences(modes, "fetch"@, i as int),
            pushes == occurrences(modes, "push"@, i as int),
            fetches <= i,
            pushes <= i,
            forall|j: int| 0 <= j < i ==> #[trigger] modes[j] == "fetch"@ || modes[j] == "push"@,
        decreases publish.len() - i,
    {
        let mode = publish[i].as_str();
        assert(modes[i as int] == mode@);
        let fetch = text_eq(mode, "fetch");
        let push = text_eq(mode, "push");
        if !fetch && !push {
            assert(modes[i as int] != "fetch"@ && modes[i as int] != "push"@);
            return Err(config_error("publish must be fetch or push (TASK_CONFIG_INVALID)"));
        }
        if fetch {
            fetches += 1;
        }
        if push {
            pushes += 1;
        }
        i += 1;
    }
    if fetches > 1 || pushes > 1 {
        return Err(config_error("publish modes must be unique (TASK_CONFIG_INVALID)"));
    }
    if publish_branch.is_some() && pushes == 0 {
        return Err(config_error("publish_branch requires publish push (TASK_CONFIG_INVALID)"));
    }
    Ok(())
}

impl AgentKind {
    /// The agent's name. `session_agent` is that of the agent which binds a
    /// session before its first turn; the library does not spell it out, the
    /// program hands it in.
    pub open spec fn spelling(self, session_agent: Seq<char>) -> Seq<char> {
        match self {
            AgentKind::Codex => "codex"@,
            AgentKind::Claude => session_agent,
            AgentKind::Cursor => "cursor"@,
            AgentKind::Opencode => "opencode"@,
        }
    }

    /// The agent's name on the command line and in settings.
    pub fn name<'a>(self, session_agent: &'a str) -> (name: &'a str)
        ensures
            name@ == self.spelling(session_agent@),
    {
        match self {
            AgentKind::Codex => "codex",
            AgentKind::Claude => session_agent,
            AgentKind::Cursor => "cursor",
            AgentKind::Opencode => "opencode",
        }
    }
}

/// The agent that goes by a name.
pub open spec fn agent_named(name: Seq<char>, session_agent: Seq<char>) -> Option<AgentKind> {
    if name == "codex"@ {
        Some(AgentKind::Codex)
    } else if name == session_agent {
        Some(AgentKind::Claude)
    } else if name == "cursor"@ {
        Some(AgentKind::Cursor)
    } else if name == "opencode"@ {
        Some(AgentKind::Opencode)
    } else {
        None
    }
}

/// The agent that goes by a name.
pub fn parse_task_agent(value: &str, session_agent: &str) -> (result: Result<
    AgentKind,
    WorkerError,
>)
    ensures
        match agent_named(value@, session_agent@) {
            Some(agent) => result == Ok::<AgentKind, WorkerError>(agent),
            None => result matches Err(error) && task_refusal(
                error,
                "AGENT_UNSUPPORTED"@,
                "unknown agent"@,
            ),
        },
{
    if text_eq(value, "codex") {
        Ok(AgentKind::Codex)
    } else if text_eq(value, session_agent) {
        Ok(AgentKind::Claude)
    } else if text_eq(value, "cursor") {
        Ok(AgentKind::Cursor)
    } else if text_eq(value, "opencode") {
        Ok(AgentKind::Opencode)
    } else {
        Err(WorkerError::task("AGENT_UNSUPPORTED", "unknown agent"))
    }
}

/// The four agents have different names, and each is found by its own.
pub proof fn agents_are_told_apart(left: AgentKind, right: AgentKind, session_agent: Seq<char>)
    requires
        session_agent != "codex"@,
        session_agent != "cursor"@,
        session_agent != "opencode"@,
    ensures
        agent_named(left.spelling(session_agent), session_agent) == Some(left),
        left.spelling(session_agent) == right.spelling(session_agent) ==> left == right,
{
    reveal_strlit("codex");
    reveal_strlit("cursor");
    reveal_strlit("opencode");
    assert("codex"@.len() == 5 && "cursor"@.len() == 6 && "opencode"@.len() == 8);
}

pub open spec fn close_fault(value: Option<Seq<char>>) -> Option<Seq<char>> {
    fault_if(
        value is Some && value->0 != "done"@ && value->0 != "never"@,
        "close_on must be done or never"@,
    )
}

pub open spec fn close_policy(value: Option<Seq<char>>) -> ClosePolicy {
    if value == Some("never"@) {
        ClosePolicy::Never
    } else {
        ClosePolicy::Done
    }
}

/// When a task closes by itself; once it is done, unless something else is
/// said.
pub fn parse_task_close_policy(value: Option<&str>) -> (result: Result<ClosePolicy, WorkerError>)
    ensures
        task_outcome(result, close_fault(opt_view(value))),
        result matches Ok(policy) ==> policy == close_policy(opt_view(value)),
{
    proof {
        reveal_strlit("done");
        reveal_strlit("never");
        assert("done"@.len() == 4 && "never"@.len() == 5);
    }
    match value {
        None => Ok(ClosePolicy::Done),
        Some(text) => {
            if text_eq(text, "done") {
                Ok(ClosePolicy::Done)
            } else if text_eq(text, "never") {
                Ok(ClosePolicy::Never)
            } else {
                Err(config_error("close_on must be done or never"))
            }
        },
    }
}

impl TaskState {
    pub open spec fn spelling(self) -> Seq<char> {
        match self {
            TaskState::Queued => "queued"@,
            TaskState::Active => "active"@,
            TaskState::Open => "open"@,
            TaskState::Closed => "closed"@,
            TaskState::Abandoned => "abandoned"@,
            TaskState::Lost => "lost"@,
        }
    }
}

pub fn task_state_name(state: TaskState) -> (name: &'static str)
    ensures
        name@ == state.spelling(),
{
    match state {
        TaskState::Queued => "queued",
        TaskState::Active => "active",
        TaskState::Open => "open",
        TaskState::Closed => "closed",
        TaskState::Abandoned => "abandoned",
        TaskState::Lost => "lost",
    }
}

pub fn parse_task_state(value: &str) -> (result: Result<TaskState, WorkerError>)
    ensures
        result matches Ok(state) ==> state.spelling() == value@,
        task_outcome(
            result,
            fault_if(
                !exists|state: TaskState| #[trigger] state.spelling() == value@,
                "unknown task state"@,
            ),
        ),
{
    proof {
        assert(TaskState::Queued.spelling() == "queued"@);
        assert(TaskState::Active.spelling() == "active"@);
        assert(TaskState::Open.spelling() == "open"@);
        assert(TaskState::Closed.spelling() == "closed"@);
        assert(TaskState::Abandoned.spelling() == "abandoned"@);
        assert(TaskState::Lost.spelling() == "lost"@);
    }
    if text_eq(value, "queued") {
        Ok(TaskState::Queued)
    } else if text_eq(value, "active") {
        Ok(TaskState::Active)
    } else if text_eq(value, "open") {
        Ok(TaskState::Open)
    } else if text_eq(value, "closed") {
        Ok(TaskState::Closed)
    } else if text_eq(value, "abandoned") {
        Ok(TaskState::Abandoned)
    } else if text_eq(value, "lost") {
        Ok(TaskState::Lost)
    } else {
        Err(config_error("unknown task state"))
    }
}

/// A text with every hyphen turned into an underscore.
pub open spec fn underscored(text: Seq<char>) -> Seq<char> {
    text.map_values(
        |c: char|
            if c == '-' {
                '_'
            } else {
                c
            },
    )
}

/// A text with every underscore turned into a hyphen.
pub open spec fn dashed(text: Seq<char>) -> Seq<char> {
    text.map_values(
        |c: char|
            if c == '_' {
                '-'
            } else {
                c
            },
    )
}

fn underscore(text: &str) -> (plain: String)
    ensures
        plain@ == underscored(text@),
{
    let chars = chars_of(text);
    let mut plain: Vec<char> = Vec::new();
    let mut i: usize = 0;
    while i < chars.len()
        invariant
            i <= chars@.len(),
            chars@ == text@,
            plain@.len() == i,
            forall|j: int| 0 <= j < i ==> #[trigger] plain@[j] == underscored(text@)[j],
        decreases chars.len() - i,
    {
        if chars[i] == '-' {
            plain.push('_');
        } else {
            plain.push(chars[i]);
        }
        i += 1;
    }
    assert(plain@ =~= underscored(text@));
    text_of(plain.as_slice())
}

/// Some kind of the vocabulary is spelled like this.
pub open spec fn is_kind(kinds: Seq<&'static str>, text: Seq<char>) -> bool {
    exists|i: int| 0 <= i < kinds.len() && (#[trigger] kinds[i])@ == text
}

/// The kind of outcome that an option names, out of a vocabulary of kinds.
/// Both the recorded spelling (`needs_input`) and the dashed one
/// (`needs-input`) are accepted.
pub fn parse_task_outcome_kind(value: &str, kinds: &[&'static str]) -> (result: Result<
    &'static str,
    WorkerError,
>)
    ensures
        task_outcome(
            result,
            fault_if(!is_kind(kinds@, underscored(value@)), "unknown task outcome"@),
        ),
        result matches Ok(kind) ==> kind@ == underscored(value@) && kinds@.contains(kind),
{
    let plain = underscore(value);
    let mut i: usize = 0;
    while i < kinds.len()
        invariant
            i <= kinds@.len(),
            plain@ == underscored(value@),
            forall|j: int| 0 <= j < i ==> (#[trigger] kinds@[j])@ != plain@,
        decreases kinds.len() - i,
    {
        if text_eq(kinds[i], plain.as_str()) {
            assert(kinds@[i as int]@ == plain@);
            return Ok(kinds[i]);
        }
        i += 1;
    }
    Err(config_error("unknown task outcome"))
}

/// The two spellings of a kind name the same outcome.
pub proof fn both_spellings_agree(kind: Seq<char>)
    ensures
        underscored(dashed(kind)) == underscored(kind),
        (forall|i: int| 0 <= i < kind.len() ==> #[trigger] kind[i] != '-') ==> underscored(kind)
            == kind,
{
    assert(underscored(dashed(kind)) =~= underscored(kind));
    if forall|i: int| 0 <= i < kind.len() ==> #[trigger] kind[i] != '-' {
        assert(underscored(kind) =~= kind);
    }
}

/// Which tasks a list shows.
#[derive(Debug)]
pub struct TaskListFilter {
    pub run_id: Option<String>,
    pub state: Option<TaskState>,
    pub outcome: Option<String>,
    pub full: bool,
}

/// Why a list cannot be shown: the run comes first, then the state, then the
/// outcome.
pub open spec fn list_refusal(
    run: Option<Result<String, WorkerError>>,
    state: Option<Seq<char>>,
    outcome: Option<Seq<char>>,
    kinds: Seq<&'static str>,
) -> Option<Refusal> {
    sooner(
        match run {
            Some(found) => passed_on(found),
            None => None,
        },
        config_refused(
            earliest(
                fault_if(
                    state is Some && !exists|named: TaskState| #[trigger]
                        named.spelling() == state->0,
                    "unknown task state"@,
                ),
                fault_if(
                    outcome is Some && !is_kind(kinds, underscored(outcome->0)),
                    "unknown task outcome"@,
                ),
            ),
        ),
    )
}

/// What the options of a list ask for. `run` is what looking up the named run
/// gave, where one is named.
pub fn list_filter(
    run: Option<Result<String, WorkerError>>,
    state: Option<&str>,
    outcome: Option<&str>,
    full: bool,
    kinds: &[&'static str],
) -> (result: Result<TaskListFilter, WorkerError>)
    ensures
        refusal_outcome(result, list_refusal(run, opt_view(state), opt_view(outcome), kinds@)),
        result matches Ok(filter) ==> {
            &&& filter.run_id == (match run {
                Some(found) => Some(found->Ok_0),
                None => None,
            })
            &&& match state {
                Some(name) => filter.state matches Some(named) && named.spelling() == name@,
                None => filter.state is None,
            }
            &&& match outcome {
                Some(kind) => opt_text(filter.outcome) == Some(underscored(kind@)),
                None => filter.outcome is None,
            }
            &&& filter.full == full
        },
{
    let run_id = match run {
        Some(found) => Some(found?),
        None => None,
    };
    let state = match state {
        Some(name) => Some(parse_task_state(name)?),
        None => None,
    };
    let outcome = match outcome {
        Some(kind) => {
            let known = parse_task_outcome_kind(kind, kinds)?;
            Some(known.to_owned())
        },
        None => None,
    };
    Ok(TaskListFilter { run_id, state, outcome, full })
}

/// Where a prompt comes from.
#[derive(Debug, PartialEq, Eq)]
pub enum PromptSource {
    Text { prompt: String },
    File { path: String },
}

pub fn read_prompt(prompt: Option<String>, prompt_file: Option<String>) -> (result: Result<
    PromptSource,
    WorkerError,
>)
    ensures
        task_outcome(
            result,
            fault_if(
                (prompt is Some) == (prompt_file is Some),
                "exactly one prompt source is required"@,
            ),
        ),
        result matches Ok(source) ==> match source {
            PromptSource::Text { prompt: text } => prompt == Some(text),
            PromptSource::File { path } => prompt_file == Some(path),
        },
{
    match (prompt, prompt_file) {
        (Some(text), None) => Ok(PromptSource::Text { prompt: text }),
        (None, Some(path)) => Ok(PromptSource::File { path }),
        _ => Err(config_error("exactly one prompt source is required")),
    }
}

/// What a command waits for.
#[derive(Debug, PartialEq, Eq)]
pub enum WaitSelector {
    Task { task_id: TaskId },
    Run { run: String },
}

pub fn wait_selector(task_id: Option<TaskId>, run: Option<String>) -> (result: Result<
    WaitSelector,
    WorkerError,
>)
    ensures
        task_outcome(
            result,
            fault_if(
                (task_id is Some) == (run is Some),
                "wait requires exactly one of --task-id or --run"@,
            ),
        ),
        result matches Ok(selector) ==> match selector {
            WaitSelector::Task { task_id: id } => task_id == Some(id),
            WaitSelector::Run { run: name } => run == Some(name),
        },
{
    match (task_id, run) {
        (Some(id), None) => Ok(WaitSelector::Task { task_id: id }),
        (None, Some(name)) => Ok(WaitSelector::Run { run: name }),
        _ => Err(config_error("wait requires exactly one of --task-id or --run")),
    }
}

/// How long and how much a task may take.
#[derive(Debug, Clone, Copy, PartialEq, Eq, Structural)]
pub struct TaskLimits {
    pub timeout_millis: u64,
    pub max_turns: Option<u32>,
    pub max_budget_usd_cents: Option<u64>,
    pub max_followups: u32,
}

/// Why a submission is refused.
pub enum Refusal {
    /// The options cannot be meant like this.
    Config { message: Seq<char> },
    UnknownAgent,
    /// Something that was asked for on the way failed with this error.
    Passed { error: WorkerError },
}

/// What a refusal, or none, makes of a result.
pub open spec fn refusal_outcome<T>(result: Result<T, WorkerError>, refusal: Option<Refusal>) -> bool {
    match refusal {
        None => result is Ok,
        Some(Refusal::Config { message }) => task_outcome(result, Some(message)),
        Some(Refusal::UnknownAgent) => result matches Err(error) && task_refusal(
            error,
            "AGENT_UNSUPPORTED"@,
            "unknown agent"@,
        ),
        Some(Refusal::Passed { error }) => result == Err::<T, WorkerError>(error),
    }
}

/// The first of two refusals.
pub open spec fn sooner(first: Option<Refusal>, second: Option<Refusal>) -> Option<Refusal> {
    if first is Some {
        first
    } else {
        second
    }
}

/// A complaint about the options.
pub open spec fn config_refused(fault: Option<Seq<char>>) -> Option<Refusal> {
    match fault {
        Some(message) => Some(Refusal::Config { message }),
        None => None,
    }
}

/// A failure on the way.
pub open spec fn passed_on<T>(outcome: Result<T, WorkerError>) -> Option<Refusal> {
    match outcome {
        Ok(_) => None,
        Err(error) => Some(Refusal::Passed { error }),
    }
}

/// What a command says of a task's limits. The timeout is in milliseconds.
#[derive(Debug, Clone, Copy, PartialEq, Eq, Structural)]
pub struct LimitOptions {
    pub timeout: Option<u128>,
    pub max_turns: Option<u32>,
    pub max_budget: Option<u64>,
    pub max_followups: Option<u32>,
}

impl LimitOptions {
    pub open spec fn fault(&self) -> Option<Seq<char>> {
        fault_if(self.timeout is Some && self.timeout->0 > u64::MAX, "timeout is too large"@)
    }

    /// The limits that a command asks for; what it leaves open is taken from
    /// the defaults.
    pub open spec fn limits(&self, defaults: TaskLimits) -> TaskLimits {
        TaskLimits {
            timeout_millis: match self.timeout {
                Some(millis) => millis as u64,
                None => defaults.timeout_millis,
            },
            max_turns: if self.max_turns is Some {
                self.max_turns
            } else {
                defaults.max_turns
            },
            max_budget_usd_cents: if self.max_budget is Some {
                self.max_budget
            } else {
                defaults.max_budget_usd_cents
            },
            max_followups: match self.max_followups {
                Some(count) => count,
                None => defaults.max_followups,
            },
        }
    }
}

/// What is said of the limits that a command asks for: the complaint about the
/// limits of a turn, and the error that the limits of the task give.
#[derive(Debug)]
pub struct LimitsVerdict {
    pub turn: Option<String>,
    pub task: Option<WorkerError>,
}

/// Why the limits that a command asks for are refused.
pub open spec fn limits_refusal(options: LimitOptions, verdict: LimitsVerdict) -> Option<Refusal> {
    sooner(
        config_refused(options.fault()),
        sooner(
            config_refused(opt_text(verdict.turn)),
            match verdict.task {
                Some(error) => Some(Refusal::Passed { error }),
                None => None,
            },
        ),
    )
}

/// The limits that a command asks for, before anything is said of them.
pub fn requested_limits(options: LimitOptions, defaults: TaskLimits) -> (result: Result<
    TaskLimits,
    WorkerError,
>)
    ensures
        task_outcome(result, options.fault()),
        result matches Ok(limits) ==> limits == options.limits(defaults),
{
    let timeout_millis: u64 = match options.timeout {
        Some(millis) => {
            if millis > 0xffff_ffff_ffff_ffff {
                return Err(config_error("timeout is too large"));
            }
            millis as u64
        },
        None => defaults.timeout_millis,
    };
    Ok(
        TaskLimits {
            timeout_millis,
            max_turns: if options.max_turns.is_some() {
                options.max_turns
            } else {
                defaults.max_turns
            },
            max_budget_usd_cents: if options.max_budget.is_some() {
                options.max_budget
            } else {
                defaults.max_budget_usd_cents
            },
            max_followups: match options.max_followups {
                Some(count) => count,
                None => defaults.max_followups,
            },
        },
    )
}

/// The limits of a task. `verdict` is what is said of the requested limits: a
/// complaint about those of a turn is an error of the options, and comes first.
pub fn make_task_limits(options: LimitOptions, defaults: TaskLimits, verdict: LimitsVerdict) -> (result:
    Result<TaskLimits, WorkerError>)
    ensures
        refusal_outcome(result, limits_refusal(options, verdict)),
        result matches Ok(limits) ==> limits == options.limits(defaults),
{
    let limits = requested_limits(options, defaults)?;
    if let Some(complaint) = verdict.turn {
        return Err(config_error(complaint.as_str()));
    }
    if let Some(error) = verdict.task {
        return Err(error);
    }
    Ok(limits)
}

/// The options of `task submit`, but for where its prompt comes from.
#[derive(Debug)]
pub struct SubmitCommand {
    pub agent: Option<String>,
    pub model: Option<String>,
    pub effort: Option<String>,
    pub title: Option<String>,
    pub project: Option<String>,
    pub base: String,
    pub wip: bool,
    pub includes: Vec<String>,
    pub limits: LimitOptions,
    pub close_on: Option<String>,
    pub env_profile: Option<String>,
    pub worker: Option<String>,
    pub source: Option<String>,
    pub publish: Vec<String>,
    pub publish_branch: Option<String>,
    pub no_wait: bool,
    pub wait: bool,
}

/// What is found out while a submission is checked, in this order.
#[derive(Debug)]
pub struct SubmitFindings {
    pub prompt: Result<String, WorkerError>,
    pub verdict: LimitsVerdict,
    pub current_dir: Result<String, WorkerError>,
}

/// Why a name is no agent's.
pub open spec fn agent_refusal(name: Seq<char>, session_agent: Seq<char>) -> Option<Refusal> {
    if agent_named(name, session_agent) is Some {
        None
    } else {
        Some(Refusal::UnknownAgent)
    }
}

impl SubmitCommand {
    /// Why a submission is refused before its agent is looked at. The current
    /// directory has to be there even where the command names a project.
    pub open spec fn opening_refusal(&self, findings: SubmitFindings) -> Option<Refusal> {
        sooner(
            config_refused(
                scope_fault(
                    opt_text(self.source),
                    texts(self.publish@),
                    opt_text(self.publish_branch),
                ),
            ),
            sooner(
                passed_on(findings.prompt),
                sooner(
                    limits_refusal(self.limits, findings.verdict),
                    passed_on(findings.current_dir),
                ),
            ),
        )
    }

    /// Why a submission through a controller is refused. The project's agent is
    /// a name, as the command's is.
    pub open spec fn controller_refusal(
        &self,
        findings: SubmitFindings,
        default_agent: Result<String, WorkerError>,
        session_agent: Seq<char>,
    ) -> Option<Refusal> {
        sooner(
            self.opening_refusal(findings),
            sooner(
                match self.agent {
                    Some(name) => agent_refusal(name@, session_agent),
                    None => match default_agent {
                        Ok(name) => agent_refusal(name@, session_agent),
                        Err(error) => Some(Refusal::Passed { error }),
                    },
                },
                config_refused(close_fault(opt_text(self.close_on))),
            ),
        )
    }

    /// Why a submission by this laptop is refused.
    pub open spec fn local_refusal(
        &self,
        findings: SubmitFindings,
        default_agent: Result<AgentKind, WorkerError>,
        session_agent: Seq<char>,
    ) -> Option<Refusal> {
        sooner(
            self.opening_refusal(findings),
            sooner(
                match self.agent {
                    Some(name) => agent_refusal(name@, session_agent),
                    None => passed_on(default_agent),
                },
                config_refused(close_fault(opt_text(self.close_on))),
            ),
        )
    }

    /// The project that a task is submitted for.
    pub open spec fn chosen_project(&self, findings: SubmitFindings) -> Seq<char> {
        match self.project {
            Some(project) => project@,
            None => findings.current_dir->Ok_0@,
        }
    }
}

fn opt_str(value: &Option<String>) -> (text: Option<&str>)
    ensures
        opt_view(text) == opt_text(*value),
{
    match value {
        Some(text) => Some(text.as_str()),
        None => None,
    }
}

/// What the first checks of a submission settle.
struct OpenedSubmission {
    prompt: String,
    limits: TaskLimits,
    project: String,
}

fn open_submission(command: &SubmitCommand, findings: SubmitFindings, defaults: TaskLimits) -> (result:
    Result<OpenedSubmission, WorkerError>)
    ensures
        refusal_outcome(result, command.opening_refusal(findings)),
        result matches Ok(opened) ==> {
            &&& findings.prompt == Ok::<String, WorkerError>(opened.prompt)
            &&& opened.limits == command.limits.limits(defaults)
            &&& opened.project@ == command.chosen_project(findings)
        },
{
    validate_task_scope_options(
        opt_str(&command.source),
        command.publish.as_slice(),
        opt_str(&command.publish_branch),
    )?;
    let prompt = findings.prompt?;
    let limits = make_task_limits(command.limits, defaults, findings.verdict)?;
    let current_dir = findings.current_dir?;
    let project = match &command.project {
        Some(project) => project.clone(),
        None => current_dir,
    };
    Ok(OpenedSubmission { prompt, limits, project })
}

/// What a controller is asked for a submission, if nothing speaks against it.
/// `default_agent` is the name in the project's settings, which are read only
/// where the command names no agent.
/// The first refusal is that of the scope options, the prompt, the limits, the
/// current directory, the agent and the closing policy, in this order.
pub fn controller_submission(
    command: SubmitCommand,
    findings: SubmitFindings,
    default_agent: Result<String, WorkerError>,
    defaults: TaskLimits,
    session_agent: &str,
) -> (result: Result<ControllerSubmitFields, WorkerError>)
    ensures
        refusal_outcome(result, command.controller_refusal(findings, default_agent, session_agent@)),
        result matches Ok(fields) ==> {
            &&& fields.project@ == command.chosen_project(findings)
            &&& findings.prompt == Ok::<String, WorkerError>(fields.prompt)
            &&& fields.title == command.title
            &&& agent_named(
                (match command.agent {
                    Some(name) => name@,
                    None => default_agent->Ok_0@,
                }),
                session_agent@,
            ) == Some(fields.agent)
            &&& fields.model == command.model
            &&& fields.effort == command.effort
            &&& fields.base == command.base
            &&& fields.wip == command.wip
            &&& fields.includes == command.includes
            &&& fields.limits == command.limits.limits(defaults)
            &&& fields.close_on == close_policy(opt_text(command.close_on))
            &&& fields.env_profile == command.env_profile
            &&& fields.worker == command.worker
            &&& fields.source == command.source
            &&& fields.publish == command.publish
            &&& fields.publish_branch == command.publish_branch
            &&& fields.wait_for_capacity == !command.no_wait
        },
{
    let opened = open_submission(&command, findings, defaults)?;
    let agent = match &command.agent {
        Some(name) => parse_task_agent(name.as_str(), session_agent)?,
        None => {
            let name = default_agent?;
            parse_task_agent(name.as_str(), session_agent)?
        },
    };
    let close_on = parse_task_close_policy(opt_str(&command.close_on))?;
    Ok(
        ControllerSubmitFields {
            project: opened.project,
            prompt: opened.prompt,
            title: command.title,
            agent,
            model: command.model,
            effort: command.effort,
            base: command.base,
            wip: command.wip,
            includes: command.includes,
            limits: opened.limits,
            close_on,
            env_profile: command.env_profile,
            worker: command.worker,
            source: command.source,
            publish: command.publish,
            publish_branch: command.publish_branch,
            wait_for_capacity: !command.no_wait,
        },
    )
}

/// A task as this laptop submits it.
#[derive(Debug)]
pub struct TaskSubmitRequest {
    pub agent: AgentKind,
    pub model: Option<String>,
    pub effort: Option<String>,
    pub prompt: String,
    pub project: String,
    pub base: String,
    pub wip: bool,
    pub source: Option<String>,
    pub publish: Option<Vec<String>>,
    pub publish_branch: Option<String>,
    pub cli_includes: Vec<String>,
    pub limits: TaskLimits,
    pub close_policy: ClosePolicy,
    pub env_profile: Option<String>,
    pub preference: WorkerPreference,
    pub wait_for_capacity: bool,
    /// The command stays until the task rests.
    pub attached: bool,
    pub run_id: Option<String>,
}

/// The worker that a task or a run is for.
pub open spec fn preferred(worker: Option<String>) -> WorkerPreference {
    match worker {
        Some(worker) => WorkerPreference::Pinned { worker },
        None => WorkerPreference::Automatic,
    }
}

/// What this laptop submits, and under which title, if nothing speaks against
/// it. `default_agent` is the project's, where the command names none. The first refusal is that of the scope options, the prompt, the limits,
/// the current directory, the agent and the closing policy, in this order. Such
/// a task belongs to no run.
pub fn local_submission(
    command: SubmitCommand,
    findings: SubmitFindings,
    default_agent: Result<AgentKind, WorkerError>,
    defaults: TaskLimits,
    session_agent: &str,
) -> (result: Result<(TaskSubmitRequest, Option<String>), WorkerError>)
    ensures
        refusal_outcome(result, command.local_refusal(findings, default_agent, session_agent@)),
        result matches Ok(submission) ==> {
            let (request, title) = submission;
            &&& title == command.title
            &&& Some(request.agent) == (match command.agent {
                Some(name) => agent_named(name@, session_agent@),
                None => Some(default_agent->Ok_0),
            })
            &&& request.model == command.model
            &&& request.effort == command.effort
            &&& findings.prompt == Ok::<String, WorkerError>(request.prompt)
            &&& request.project@ == command.chosen_project(findings)
            &&& request.base == command.base
            &&& request.wip == command.wip
            &&& request.source == command.source
            &&& request.publish == (if command.publish@.len() == 0 {
                None
            } else {
                Some(command.publish)
            })
            &&& request.publish_branch == command.publish_branch
            &&& request.cli_includes == command.includes
            &&& request.limits == command.limits.limits(defaults)
            &&& request.close_policy == close_policy(opt_text(command.close_on))
            &&& request.env_profile == command.env_profile
            &&& request.preference == preferred(command.worker)
            &&& request.wait_for_capacity == !command.no_wait
            &&& request.attached == command.wait
            &&& request.run_id is None
        },
{
    let opened = open_submission(&command, findings, defaults)?;
    let agent = match &command.agent {
        Some(name) => parse_task_agent(name.as_str(), session_agent)?,
        None => default_agent?,
    };
    let close_policy = parse_task_close_policy(opt_str(&command.close_on))?;
    let request = TaskSubmitRequest {
        agent,
        model: command.model,
        effort: command.effort,
        prompt: opened.prompt,
        project: opened.project,
        base: command.base,
        wip: command.wip,
        source: command.source,
        publish: if command.publish.len() == 0 {
            None
        } else {
            Some(command.publish)
        },
        publish_branch: command.publish_branch,
        cli_includes: command.includes,
        limits: opened.limits,
        close_policy,
        env_profile: command.env_profile,
        preference: match command.worker {
            Some(worker) => WorkerPreference::Pinned { worker },
            None => WorkerPreference::Automatic,
        },
        wait_for_capacity: !command.no_wait,
        attached: command.wait,
        run_id: None,
    };
    Ok((request, command.title))
}

/// Both ways of submitting refuse a command for the same reason, where they take
/// the project's agent for the same.
pub proof fn both_submissions_agree(
    command: SubmitCommand,
    findings: SubmitFindings,
    name: String,
    agent: AgentKind,
    session_agent: Seq<char>,
)
    requires
        agent_named(name@, session_agent) == Some(agent),
    ensures
        command.controller_refusal(findings, Ok(name), session_agent) == command.local_refusal(
            findings,
            Ok(agent),
            session_agent,
        ),
{
}

/// What a client says of a task that it leaves to a controller.
#[derive(Debug)]
pub struct SubmitOptions {
    pub agent: AgentKind,
    pub model: Option<String>,
    pub effort: Option<String>,
    pub env_profile: Option<String>,
    pub source: Option<String>,
    pub publish: Vec<String>,
    pub no_wait: bool,
}

/// What a project's settings say of its tasks. `permissions` names what each
/// agent may do.
#[derive(Debug)]
pub struct ProjectTaskSettings {
    pub model: Option<String>,
    pub effort: Option<String>,
    pub env_profile: Option<String>,
    pub source: String,
    pub publish: Vec<String>,
    pub permissions: Vec<(String, String)>,
}

/// The choices that a frozen task carries.
#[derive(Debug)]
pub struct FrozenChoices {
    pub agent: String,
    pub model: Option<String>,
    pub effort: Option<String>,
    pub env_profile: Option<String>,
    pub source: String,
    pub publish: Vec<String>,
    pub permissions: &'static str,
    pub wait_for_capacity: bool,
}

/// What the settings say under this name, from `at` on.
pub open spec fn setting(pairs: Seq<(String, String)>, name: Seq<char>, at: int) -> Option<Seq<char>>
    decreases pairs.len() - at,
{
    if at >= pairs.len() {
        None
    } else if pairs[at].0@ == name {
        Some(pairs[at].1@)
    } else {
        setting(pairs, name, at + 1)
    }
}

fn setting_is(pairs: &Vec<(String, String)>, name: &str, value: &str) -> (same: bool)
    ensures
        same == (setting(pairs@, name@, 0) == Some(value@)),
{
    let mut at: usize = 0;
    while at < pairs.len()
        invariant
            at <= pairs@.len(),
            setting(pairs@, name@, 0) == setting(pairs@, name@, at as int),
        decreases pairs.len() - at,
    {
        if text_eq(pairs[at].0.as_str(), name) {
            return text_eq(pairs[at].1.as_str(), value);
        }
        at += 1;
    }
    false
}

/// The first of two optional texts.
pub open spec fn first_text(first: Option<String>, second: Option<String>) -> Option<Seq<char>> {
    if first is Some {
        opt_text(first)
    } else {
        opt_text(second)
    }
}

fn chosen(first: &Option<String>, second: &Option<String>) -> (text: Option<String>)
    ensures
        opt_text(text) == first_text(*first, *second),
{
    if first.is_some() {
        clone_opt(first)
    } else {
        clone_opt(second)
    }
}

/// What a task is frozen with: the client's choices where it made any, else the
/// project's. An agent works unattended only where the project says so.
pub fn frozen_choices(
    options: &SubmitOptions,
    settings: &ProjectTaskSettings,
    session_agent: &str,
) -> (choices: FrozenChoices)
    ensures
        choices.agent@ == options.agent.spelling(session_agent@),
        opt_text(choices.model) == first_text(options.model, settings.model),
        opt_text(choices.effort) == first_text(options.effort, settings.effort),
        opt_text(choices.env_profile) == first_text(options.env_profile, settings.env_profile),
        choices.source@ == (match options.source {
            Some(source) => source@,
            None => settings.source@,
        }),
        texts(choices.publish@) == if options.publish@.len() == 0 {
            texts(settings.publish@)
        } else {
            texts(options.publish@)
        },
        choices.permissions@ == if setting(settings.permissions@, options.agent.spelling(session_agent@), 0)
            == Some("unattended"@) {
            "unattended"@
        } else {
            "workspace"@
        },
        choices.wait_for_capacity == !options.no_wait,
{
    let agent = options.agent.name(session_agent);
    FrozenChoices {
        agent: agent.to_owned(),
        model: chosen(&options.model, &settings.model),
        effort: chosen(&options.effort, &settings.effort),
        env_profile: chosen(&options.env_profile, &settings.env_profile),
        source: match &options.source {
            Some(source) => source.clone(),
            None => settings.source.clone(),
        },
        publish: if options.publish.len() == 0 {
            clone_texts(&settings.publish)
        } else {
            clone_texts(&options.publish)
        },
        permissions: if setting_is(&settings.permissions, agent, "unattended") {
            "unattended"
        } else {
            "workspace"
        },
        wait_for_capacity: !options.no_wait,
    }
}

/// What the options of a single run ask for.
pub struct RunPlan {
    pub preference: WorkerPreference,
    pub wait_for_capacity: bool,
    pub command: CommandSpec,
}

/// A run on the worker that is named, or on any; of a shell command where one is
/// given, else of the arguments.
pub fn run_plan(worker: Option<String>, no_wait: bool, shell: Option<String>, argv: Vec<String>) -> (
result: Result<RunPlan, WorkerError>)
    ensures
        outcome_of(
            result,
            match shell {
                Some(line) => non_nul_fault(line@, MAX_COMMAND_BYTES as nat, "shell command"@),
                None => argv_fault(texts(argv@)),
            },
        ),
        result matches Ok(plan) ==> {
            &&& plan.preference == preferred(worker)
            &&& plan.wait_for_capacity == !no_wait
            &&& plan.command == (match shell {
                Some(shell) => CommandSpec::Shell { shell },
                None => CommandSpec::Argv { argv },
            })
        },
{
    let command = match shell {
        Some(line) => CommandSpec::shell(line)?,
        None => CommandSpec::argv(argv)?,
    };
    let preference = match worker {
        Some(worker) => WorkerPreference::Pinned { worker },
        None => WorkerPreference::Automatic,
    };
    Ok(RunPlan { preference, wait_for_capacity: !no_wait, command })
}

/// A task that a laptop remembers, as far as its transfer repository goes.
#[derive(Debug)]
pub struct RememberedTask {
    /// The task's state is one that it never leaves.
    pub ended: bool,
    pub has_runner: bool,
    pub fetched: bool,
    pub repo_id: String,
}

impl RememberedTask {
    /// The repository may still be needed.
    pub open spec fn protects(&self) -> bool {
        !self.ended || self.has_runner || !self.fetched
    }
}

/// The repositories that the first `count` tasks still need.
pub open spec fn protected_ids(tasks: Seq<RememberedTask>, count: int) -> Seq<Seq<char>>
    decreases count,
{
    if count <= 0 {
        seq![]
    } else {
        let found = protected_ids(tasks, count - 1);
        if tasks[count - 1].protects() {
            found.push(tasks[count - 1].repo_id@)
        } else {
            found
        }
    }
}

/// The transfer repositories that must not be collected: those of tasks that
/// go on, have a runner, or whose results were not fetched.
pub fn protected_transfer_repo_ids(tasks: &Vec<RememberedTask>) -> (ids: Vec<String>)
    ensures
        texts(ids@) == protected_ids(tasks@, tasks@.len() as int),
        forall|id: Seq<char>| #[trigger]
            texts(ids@).contains(id) <==> exists|i: int|
                0 <= i < tasks@.len() && (#[trigger] tasks@[i]).repo_id@ == id && (!tasks@[i].ended
                    || tasks@[i].has_runner || !tasks@[i].fetched),
{
    proof {
        assert forall|id: Seq<char>|
            #[trigger] protected_ids(tasks@, tasks@.len() as int).contains(id) <==> exists|i: int|
                0 <= i < tasks@.len() && (#[trigger] tasks@[i]).repo_id@ == id && (!tasks@[i].ended
                    || tasks@[i].has_runner || !tasks@[i].fetched) by {
            needed_repositories_are_protected(tasks@, tasks@.len() as int, id);
        }
    }
    let mut ids: Vec<String> = Vec::new();
    assert(texts(ids@) =~= seq![]);
    let mut i: usize = 0;
    while i < tasks.len()
        invariant
            i <= tasks@.len(),
            texts(ids@) == protected_ids(tasks@, i as int),
        decreases tasks.len() - i,
    {
        let task = &tasks[i];
        if !task.ended || task.has_runner || !task.fetched {
            let ghost before = texts(ids@);
            ids.push(task.repo_id.clone());
            assert(texts(ids@) =~= before.push(task.repo_id@));
        }
        i += 1;
    }
    ids
}

/// No repository of a task whose results were not fetched is ever collected.
pub proof fn unfetched_results_are_protected(tasks: Seq<RememberedTask>, at: int, count: int)
    requires
        0 <= at < count <= tasks.len(),
        !tasks[at].fetched,
    ensures
        protected_ids(tasks, count).contains(tasks[at].repo_id@),
    decreases count,
{
    let found = protected_ids(tasks, count - 1);
    let all = protected_ids(tasks, count);
    if at < count - 1 {
        unfetched_results_are_protected(tasks, at, count - 1);
        let k = choose|k: int| 0 <= k < found.len() && found[k] == tasks[at].repo_id@;
        assert(all[k] == tasks[at].repo_id@);
    } else {
        assert(all[all.len() - 1] == tasks[at].repo_id@);
    }
}

} // verus!
