//! Connecting a first worker, step by step; every step can be taken again.
use vstd::prelude::*;
use vstd::string::*;
use crate::config::{identifier_ok, ssh_destination_ok, valid_identifier, valid_ssh_destination};
use crate::error::{config_refusal, earliest, fault_if, ExitKind, WorkerError};
use crate::job::checks::{all_bytes, all_in, ByteClass};
use crate::laws::init::{login_is_confirmed, ready_workers_are_logged_in, worker_is_set_up};
use crate::text::{bytes_eq, join, joined, opt_text, text_eq, texts, utf8};
use crate::words::{parts, split_parts};

verus! {

/// What a client asks for.
#[derive(Debug)]
pub struct InitRequest {
    pub destination: String,
    pub name: Option<String>,
    pub agent: String,
    pub env_profile: Option<String>,
}

/// One step of the report.
#[derive(Debug)]
pub struct InitStep {
    pub name: &'static str,
    pub status: &'static str,
    pub code: Option<String>,
    pub message: String,
}

/// What an [`InitStep`] says.
pub struct StepModel {
    pub name: Seq<char>,
    pub status: Seq<char>,
    pub code: Option<Seq<char>>,
    pub message: Seq<char>,
}

impl View for InitStep {
    type V = StepModel;

    open spec fn view(&self) -> StepModel {
        StepModel {
            name: self.name@,
            status: self.status@,
            code: opt_text(self.code),
            message: self.message@,
        }
    }
}

/// How far the connection of a worker came.
#[derive(Debug)]
pub struct InitReport {
    pub ready: bool,
    pub worker: String,
    pub ssh: String,
    pub agent: String,
    pub config_path: String,
    pub steps: Vec<InitStep>,
    pub next_steps: Vec<String>,
    pub exit_kind: Option<ExitKind>,
}

/// What an [`InitReport`] says.
pub struct ReportModel {
    pub ready: bool,
    pub worker: Seq<char>,
    pub ssh: Seq<char>,
    pub agent: Seq<char>,
    pub config_path: Seq<char>,
    pub steps: Seq<StepModel>,
    pub next_steps: Seq<Seq<char>>,
    pub exit_kind: Option<ExitKind>,
}

/// What a list of steps says.
pub open spec fn step_models(steps: Seq<InitStep>) -> Seq<StepModel> {
    steps.map_values(|step: InitStep| step@)
}

impl View for InitReport {
    type V = ReportModel;

    open spec fn view(&self) -> ReportModel {
        ReportModel {
            ready: self.ready,
            worker: self.worker@,
            ssh: self.ssh@,
            agent: self.agent@,
            config_path: self.config_path@,
            steps: step_models(self.steps@),
            next_steps: texts(self.next_steps@),
            exit_kind: self.exit_kind,
        }
    }
}

impl StepModel {
    /// The step in one line.
    pub open spec fn line(self) -> Seq<char> {
        "  "@ + self.status + " "@ + self.name + (match self.code {
            Some(code) => " ["@ + code + "]"@,
            None => ""@,
        }) + ": "@ + self.message
    }
}

impl ReportModel {
    pub open spec fn passed(self, name: Seq<char>, message: Seq<char>) -> ReportModel {
        ReportModel {
            steps: self.steps.push(StepModel { name, status: "ok"@, code: None, message }),
            ..self
        }
    }

    pub open spec fn warned(self, code: Seq<char>) -> ReportModel {
        ReportModel {
            steps: self.steps.push(
                StepModel {
                    name: "helper"@,
                    status: "warning"@,
                    code: Some(code),
                    message: "Setup retained recovery state; see docs/setup-recovery.md before another installation."@,
                },
            ),
            ..self
        }
    }

    pub open spec fn blocked(
        self,
        name: Seq<char>,
        code: Seq<char>,
        message: Seq<char>,
        next: Seq<Seq<char>>,
        kind: ExitKind,
    ) -> ReportModel {
        ReportModel {
            steps: self.steps.push(
                StepModel { name, status: "blocked"@, code: Some(code), message },
            ),
            next_steps: next,
            exit_kind: Some(kind),
            ..self
        }
    }

    /// The lines of the report for people.
    pub open spec fn lines(self) -> Seq<Seq<char>> {
        seq!["Connecting "@ + self.worker + " ("@ + self.ssh + ")"@] + self.steps.map_values(
            |step: StepModel| step.line(),
        ) + seq![
            ""@,
            if self.ready {
                self.worker + " is configured for "@ + self.agent + " tasks."@
            } else {
                "One more step is needed. Complete the instructions below, then rerun init."@
            },
        ] + self.next_steps.map_values(|step: Seq<char>| "  "@ + step)
    }
}

impl InitReport {
    fn passed(&mut self, name: &'static str, message: String)
        ensures
            final(self)@ == old(self)@.passed(name@, message@),
    {
        let ghost before = self@;
        self.steps.push(InitStep { name, status: "ok", code: None, message });
        assert(self@.steps =~= before.passed(name@, message@).steps);
    }

    fn warned(&mut self, code: String)
        ensures
            final(self)@ == old(self)@.warned(code@),
    {
        let ghost before = self@;
        self.steps.push(
            InitStep {
                name: "helper",
                status: "warning",
                code: Some(code),
                message:
                    "Setup retained recovery state; see docs/setup-recovery.md before another installation.".to_owned(),
            },
        );
        assert(self@.steps =~= before.warned(code@).steps);
    }

    fn blocked(
        &mut self,
        name: &'static str,
        code: &str,
        message: &str,
        next: Vec<String>,
        kind: ExitKind,
    )
        ensures
            final(self)@ == old(self)@.blocked(name@, code@, message@, texts(next@), kind),
    {
        let ghost before = self@;
        self.steps.push(
            InitStep {
                name,
                status: "blocked",
                code: Some(code.to_owned()),
                message: message.to_owned(),
            },
        );
        self.next_steps = next;
        self.exit_kind = Some(kind);
        assert(self@.steps =~= before.blocked(name@, code@, message@, texts(next@), kind).steps);
    }

    pub fn render_human(&self) -> (text: String)
        ensures
            text@ == join(self@.lines(), "\n"@),
    {
        let mut lines: Vec<String> = Vec::new();
        lines.push(
            "Connecting ".to_owned().concat(self.worker.as_str()).concat(" (").concat(
                self.ssh.as_str(),
            ).concat(")"),
        );
        let ghost first = texts(lines@);
        let ghost steps = self@.steps.map_values(|step: StepModel| step.line());
        assert(first =~= seq!["Connecting "@ + self.worker@ + " ("@ + self.ssh@ + ")"@]);
        assert(texts(lines@) =~= first + steps.take(0));
        let mut i: usize = 0;
        while i < self.steps.len()
            invariant
                i <= self.steps@.len(),
                steps == self@.steps.map_values(|step: StepModel| step.line()),
                texts(lines@) == first + steps.take(i as int),
            decreases self.steps.len() - i,
        {
            let step = &self.steps[i];
            let code = match &step.code {
                Some(code) => " [".to_owned().concat(code.as_str()).concat("]"),
                None => "".to_owned(),
            };
            let line = "  ".to_owned().concat(step.status).concat(" ").concat(step.name).concat(
                code.as_str(),
            ).concat(": ").concat(step.message.as_str());
            assert(self@.steps[i as int] == step@);
            assert(line@ == step@.line());
            let ghost before = texts(lines@);
            lines.push(line);
            assert(texts(lines@) =~= before.push(line@));
            assert(steps.take(i + 1) =~= steps.take(i as int).push(steps[i as int]));
            assert(texts(lines@) =~= first + steps.take(i + 1));
            i += 1;
        }
        assert(steps.take(steps.len() as int) =~= steps);
        let ghost before = texts(lines@);
        lines.push("".to_owned());
        if self.ready {
            lines.push(
                self.worker.clone().concat(" is configured for ").concat(
                    self.agent.as_str(),
                ).concat(" tasks."),
            );
        } else {
            lines.push(
                "One more step is needed. Complete the instructions below, then rerun init.".to_owned(),
            );
        }
        let ghost verdict = seq![
            ""@,
            if self.ready {
                self.worker@ + " is configured for "@ + self.agent@ + " tasks."@
            } else {
                "One more step is needed. Complete the instructions below, then rerun init."@
            },
        ];
        let ghost head = texts(lines@);
        assert(head =~= before + verdict);
        let ghost next = self@.next_steps.map_values(|step: Seq<char>| "  "@ + step);
        assert(texts(lines@) =~= head + next.take(0));
        let mut k: usize = 0;
        while k < self.next_steps.len()
            invariant
                k <= self.next_steps@.len(),
                next == self@.next_steps.map_values(|step: Seq<char>| "  "@ + step),
                texts(lines@) == head + next.take(k as int),
            decreases self.next_steps.len() - k,
        {
            let ghost so_far = texts(lines@);
            let line = "  ".to_owned().concat(self.next_steps[k].as_str());
            lines.push(line);
            assert(texts(lines@) =~= so_far.push(line@));
            assert(self@.next_steps[k as int] == self.next_steps@[k as int]@);
            assert(next.take(k + 1) =~= next.take(k as int).push(next[k as int]));
            assert(texts(lines@) =~= head + next.take(k + 1));
            k += 1;
        }
        assert(next.take(next.len() as int) =~= next);
        assert(texts(lines@) =~= self@.lines());
        joined(&lines, "\n")
    }
}

/// What a parser of an option gives back: the value, or why it is refused.
pub open spec fn parsed(result: Result<String, String>, value: Seq<char>, ok: bool, complaint: Seq<char>) -> bool {
    match result {
        Ok(text) => ok && text@ == value,
        Err(message) => !ok && message@ == complaint,
    }
}

/// The name of an environment profile.
pub open spec fn profile_ok(value: Seq<char>) -> bool {
    &&& 0 < utf8(value).len() <= 128
    &&& value != "."@
    &&& value != ".."@
    &&& all_bytes(value, ByteClass::Profile)
}

pub fn identifier(value: &str) -> (result: Result<String, String>)
    ensures
        parsed(
            result,
            value@,
            profile_ok(value@),
            "use 1–128 letters, numbers, dots, underscores or hyphens"@,
        ),
{
    let length: usize = value.as_bytes().len();
    if length == 0 || length > 128 || text_eq(value, ".") || text_eq(value, "..") || !all_in(
        value,
        ByteClass::Profile,
    ) {
        return Err("use 1–128 letters, numbers, dots, underscores or hyphens".to_owned());
    }
    Ok(value.to_owned())
}

pub fn worker_name(value: &str) -> (result: Result<String, String>)
    ensures
        parsed(
            result,
            value@,
            identifier_ok(value@),
            "use a non-empty worker name containing letters, numbers, dots, underscores, hyphens or @"@,
        ),
{
    if !valid_identifier(value) {
        return Err(
            "use a non-empty worker name containing letters, numbers, dots, underscores, hyphens or @".to_owned(),
        );
    }
    Ok(value.to_owned())
}

/// An SSH alias, or one user at one host.
pub open spec fn destination_ok(value: Seq<char>) -> bool {
    let pieces = parts(value, '@');
    &&& utf8(value).len() <= 253
    &&& ssh_destination_ok(value)
    &&& pieces.len() <= 2
    &&& pieces.len() == 2 ==> pieces[1].len() > 0
}

pub fn ssh_destination(value: &str) -> (result: Result<String, String>)
    ensures
        parsed(
            result,
            value@,
            destination_ok(value@),
            "use an SSH alias or user@hostname (configure ports and keys in ~/.ssh/config)"@,
        ),
{
    let pieces = split_parts(value, '@');
    assert(pieces@.len() == 2 ==> parts(value@, '@')[1] == pieces@[1]@);
    if value.as_bytes().len() > 253 || !valid_ssh_destination(value) || pieces.len() > 2 || (
    pieces.len() == 2 && pieces[1].as_str().is_empty()) {
        return Err(
            "use an SSH alias or user@hostname (configure ports and keys in ~/.ssh/config)".to_owned(),
        );
    }
    Ok(value.to_owned())
}

/// A text in single quotes for a shell.
pub open spec fn quoted(value: Seq<char>) -> Seq<char> {
    "'"@ + join(parts(value, '\''), "'\\''"@) + "'"@
}

pub fn quote(value: &str) -> (text: String)
    ensures
        text@ == quoted(value@),
{
    let pieces = split_parts(value, '\'');
    "'".to_owned().concat(joined(&pieces, "'\\''").as_str()).concat("'")
}

/// The agents that a worker can be connected for. `session_agent` is the name of
/// the one that binds a session before its first turn.
pub open spec fn known_agent(agent: Seq<char>, session_agent: Seq<char>) -> bool {
    agent == "codex"@ || agent == "cursor"@ || agent == "opencode"@ || agent == session_agent
}

/// Where a worker's owner reads how an agent is installed.
pub open spec fn install_guide_for(agent: Seq<char>) -> Seq<char> {
    if agent == "codex"@ {
        "brew install --cask codex (https://developers.openai.com/codex/cli/)"@
    } else if agent == "cursor"@ {
        "https://cursor.com/docs/cli/installation"@
    } else if agent == "opencode"@ {
        "https://opencode.ai/docs/"@
    } else {
        "https://code."@ + agent + ".com/docs/en/setup"@
    }
}

fn install_guide(agent: &str) -> (guide: String)
    ensures
        guide@ == install_guide_for(agent@),
{
    if text_eq(agent, "codex") {
        "brew install --cask codex (https://developers.openai.com/codex/cli/)".to_owned()
    } else if text_eq(agent, "cursor") {
        "https://cursor.com/docs/cli/installation".to_owned()
    } else if text_eq(agent, "opencode") {
        "https://opencode.ai/docs/".to_owned()
    } else {
        "https://code.".to_owned().concat(agent).concat(".com/docs/en/setup")
    }
}

/// How an agent is logged in on a worker.
pub open spec fn login_command_for(agent: Seq<char>) -> Seq<char> {
    if agent == "codex"@ {
        "codex login --device-auth (or codex login in a desktop session)"@
    } else if agent == "cursor"@ {
        "cursor-agent login; see the environment-profile guide for headless Keychain access"@
    } else if agent == "opencode"@ {
        "opencode auth login"@
    } else {
        agent + " auth login; see the environment-profile guide if using an API key"@
    }
}

fn login_command(agent: &str) -> (command: String)
    ensures
        command@ == login_command_for(agent@),
{
    if text_eq(agent, "codex") {
        "codex login --device-auth (or codex login in a desktop session)".to_owned()
    } else if text_eq(agent, "cursor") {
        "cursor-agent login; see the environment-profile guide for headless Keychain access".to_owned()
    } else if text_eq(agent, "opencode") {
        "opencode auth login".to_owned()
    } else {
        agent.to_owned().concat(
            " auth login; see the environment-profile guide if using an API key",
        )
    }
}

impl InitRequest {
    /// The first reason why a request is refused.
    pub open spec fn fault(&self, session_agent: Seq<char>) -> Option<Seq<char>> {
        earliest(
            fault_if(
                !destination_ok(self.destination@),
                "use an SSH alias or user@hostname (configure ports and keys in ~/.ssh/config)"@,
            ),
            earliest(
                fault_if(
                    self.name matches Some(name) && !identifier_ok(name@),
                    "use a non-empty worker name containing letters, numbers, dots, underscores, hyphens or @"@,
                ),
                earliest(
                    fault_if(
                        self.env_profile matches Some(profile) && !profile_ok(profile@),
                        "use 1–128 letters, numbers, dots, underscores or hyphens"@,
                    ),
                    fault_if(!known_agent(self.agent@, session_agent), "unknown agent"@),
                ),
            ),
        )
    }

    pub fn validate(&self, session_agent: &str) -> (result: Result<(), WorkerError>)
        ensures
            (match self.fault(session_agent@) {
                None => result is Ok,
                Some(message) => result matches Err(error) && config_refusal(error, message),
            }),
    {
        if let Err(message) = ssh_destination(self.destination.as_str()) {
            return Err(WorkerError::Config(message));
        }
        if let Some(name) = &self.name {
            if let Err(message) = worker_name(name.as_str()) {
                return Err(WorkerError::Config(message));
            }
        }
        if let Some(profile) = &self.env_profile {
            if let Err(message) = identifier(profile.as_str()) {
                return Err(WorkerError::Config(message));
            }
        }
        if !(text_eq(self.agent.as_str(), "codex") || text_eq(self.agent.as_str(), "cursor")
            || text_eq(self.agent.as_str(), "opencode") || text_eq(
            self.agent.as_str(),
            session_agent,
        )) {
            return Err(WorkerError::Config("unknown agent".to_owned()));
        }
        Ok(())
    }

    /// The options that choose the same agent and profile again.
    pub open spec fn options(&self) -> Seq<char> {
        "--agent "@ + self.agent@ + (match self.env_profile {
            Some(profile) => " --env-profile="@ + profile@,
            None => ""@,
        })
    }

    fn option_text(&self) -> (text: String)
        ensures
            text@ == self.options(),
    {
        let profile = match &self.env_profile {
            Some(profile) => " --env-profile=".to_owned().concat(profile.as_str()),
            None => "".to_owned(),
        };
        "--agent ".to_owned().concat(self.agent.as_str()).concat(profile.as_str())
    }

    /// The command that tries again.
    pub open spec fn retry(&self, config_path: Seq<char>, worker: Seq<char>) -> Seq<char> {
        "worker init "@ + self.destination@ + " --config "@ + quoted(config_path) + " --name="@
            + worker + " "@ + self.options()
    }

    fn retry_text(&self, config_path: &str, worker: &str) -> (text: String)
        ensures
            text@ == self.retry(config_path@, worker@),
    {
        "worker init ".to_owned().concat(self.destination.as_str()).concat(" --config ").concat(
            quote(config_path).as_str(),
        ).concat(" --name=").concat(worker).concat(" ").concat(self.option_text().as_str())
    }

    /// The command that opens a shell on the worker.
    pub open spec fn login_shell(&self) -> Seq<char> {
        "ssh -t -o ForwardAgent=no -o ClearAllForwardings=yes -- "@ + self.destination@
    }

    fn login_shell_text(&self) -> (text: String)
        ensures
            text@ == self.login_shell(),
    {
        "ssh -t -o ForwardAgent=no -o ClearAllForwardings=yes -- ".to_owned().concat(
            self.destination.as_str(),
        )
    }
}

/// How an installation of the helper ended.
#[derive(Debug)]
pub enum InstallOutcome {
    Installed,
    Failed { code: Option<String>, kind: Option<ExitKind> },
}

/// An attempt to install the helper, and what it left behind.
#[derive(Debug)]
pub struct Installation {
    pub warnings: Vec<String>,
    pub outcome: InstallOutcome,
}

/// One agent of a worker account.
#[derive(Debug)]
pub struct AgentCheck {
    pub name: String,
    pub authenticated: bool,
    /// The same for each environment profile that was checked.
    pub by_profile: Vec<(String, bool)>,
}

/// What a worker found of its agents and profiles; a profile is secure where
/// only its owner can read it.
#[derive(Debug)]
pub struct AgentChecks {
    pub agents: Vec<AgentCheck>,
    pub profiles: Vec<(String, bool)>,
}

/// A worker's health after its checks were refreshed.
#[derive(Debug)]
pub struct WorkerHealth {
    pub ready: bool,
    pub facts_age_millis: Option<u64>,
    pub checks: Option<AgentChecks>,
}

/// What is known of a worker so far.
#[derive(Debug)]
pub struct InitEvidence {
    /// Whether init runs on an Apple Silicon Mac.
    pub supported: bool,
    pub ssh: Option<bool>,
    /// What the worker printed of its platform, where it did.
    pub platform: Option<Option<Vec<u8>>>,
    pub git: Option<bool>,
    /// The name under which the worker was entered into the inventory.
    pub registered: Option<String>,
    pub helper_ready: Option<bool>,
    pub installation: Option<Installation>,
    pub refreshed: Option<bool>,
    pub health: Option<WorkerHealth>,
}

/// What has to be learned or done next.
#[derive(Debug, Clone, Copy, PartialEq, Eq, Structural)]
pub enum InitAction {
    CheckSsh,
    CheckPlatform,
    CheckGit,
    Register,
    ProbeHelper,
    InstallHelper,
    RefreshChecks,
    ProbeHealth,
}

/// Whether init goes on, or has come to an end.
#[derive(Debug)]
pub enum InitDecision {
    Need { action: InitAction },
    Finished { report: InitReport },
}

/// What an [`InitDecision`] says.
pub enum DecisionModel {
    Need { action: InitAction },
    Finished { report: ReportModel },
}

impl View for InitDecision {
    type V = DecisionModel;

    open spec fn view(&self) -> DecisionModel {
        match self {
            InitDecision::Need { action } => DecisionModel::Need { action: *action },
            InitDecision::Finished { report } => DecisionModel::Finished { report: report@ },
        }
    }
}

/// The command that a worker is asked to run for a check.
pub fn remote_command(action: InitAction) -> (command: Option<&'static str>)
    ensures
        (match command {
            Some(text) => Some(text@),
            None => None,
        }) == (match action {
            InitAction::CheckSsh => Some("/usr/bin/true"@),
            InitAction::CheckPlatform => Some("/usr/bin/uname -s && /usr/bin/uname -m"@),
            InitAction::CheckGit => Some("/usr/bin/git --version"@),
            _ => None,
        }),
{
    match action {
        InitAction::CheckSsh => Some("/usr/bin/true"),
        InitAction::CheckPlatform => Some("/usr/bin/uname -s && /usr/bin/uname -m"),
        InitAction::CheckGit => Some("/usr/bin/git --version"),
        _ => None,
    }
}

/// The agent of this name among those from `at` on.
pub open spec fn find_agent(agents: Seq<AgentCheck>, name: Seq<char>, at: int) -> Option<AgentCheck>
    decreases agents.len() - at,
{
    if at >= agents.len() {
        None
    } else if agents[at].name@ == name {
        Some(agents[at])
    } else {
        find_agent(agents, name, at + 1)
    }
}

fn agent_named<'a>(agents: &'a Vec<AgentCheck>, name: &str) -> (agent: Option<&'a AgentCheck>)
    ensures
        (match agent {
            Some(held) => Some(*held),
            None => None,
        }) == find_agent(agents@, name@, 0),
{
    let mut at: usize = 0;
    while at < agents.len()
        invariant
            at <= agents@.len(),
            find_agent(agents@, name@, 0) == find_agent(agents@, name@, at as int),
        decreases agents.len() - at,
    {
        if text_eq(agents[at].name.as_str(), name) {
            return Some(&agents[at]);
        }
        at += 1;
    }
    None
}

/// What the first pair of this name from `at` on says.
pub open spec fn find_flag(pairs: Seq<(String, bool)>, name: Seq<char>, at: int) -> Option<bool>
    decreases pairs.len() - at,
{
    if at >= pairs.len() {
        None
    } else if pairs[at].0@ == name {
        Some(pairs[at].1)
    } else {
        find_flag(pairs, name, at + 1)
    }
}

fn flag_named(pairs: &Vec<(String, bool)>, name: &str) -> (flag: Option<bool>)
    ensures
        flag == find_flag(pairs@, name@, 0),
{
    let mut at: usize = 0;
    while at < pairs.len()
        invariant
            at <= pairs@.len(),
            find_flag(pairs@, name@, 0) == find_flag(pairs@, name@, at as int),
        decreases pairs.len() - at,
    {
        if text_eq(pairs[at].0.as_str(), name) {
            return Some(pairs[at].1);
        }
        at += 1;
    }
    None
}

/// Some profile of this name is secure.
pub open spec fn has_secure(profiles: Seq<(String, bool)>, name: Seq<char>) -> bool {
    exists|i: int|
        0 <= i < profiles.len() && (#[trigger] profiles[i]).0@ == name && profiles[i].1
}

fn is_secure(profiles: &Vec<(String, bool)>, name: &str) -> (secure: bool)
    ensures
        secure == has_secure(profiles@, name@),
{
    let mut at: usize = 0;
    while at < profiles.len()
        invariant
            at <= profiles@.len(),
            forall|i: int|
                0 <= i < at ==> !((#[trigger] profiles@[i]).0@ == name@ && profiles@[i].1),
        decreases profiles.len() - at,
    {
        if profiles[at].1 && text_eq(profiles[at].0.as_str(), name) {
            assert(profiles@[at as int].0@ == name@ && profiles@[at as int].1);
            return true;
        }
        at += 1;
    }
    false
}

/// The checks of a healthy worker that are fresh enough.
pub open spec fn fresh_checks(health: WorkerHealth, ttl_millis: u64) -> Option<AgentChecks> {
    if health.ready && health.facts_age_millis is Some && health.facts_age_millis->0 <= ttl_millis {
        health.checks
    } else {
        None
    }
}

/// What init starts from: the request, where the inventory is, and how the
/// worker would be entered into it.
#[derive(Debug)]
pub struct InitContext {
    pub request: InitRequest,
    /// The name of the agent that binds a session before its first turn.
    pub session_agent: String,
    pub config_path: String,
    pub worker: String,
    pub ssh: String,
    /// How old a worker's checks may be.
    pub facts_ttl_millis: u64,
}

impl InitContext {
    pub open spec fn empty_report(&self) -> ReportModel {
        ReportModel {
            ready: false,
            worker: self.worker@,
            ssh: self.ssh@,
            agent: self.request.agent@,
            config_path: self.config_path@,
            steps: seq![],
            next_steps: seq![],
            exit_kind: None,
        }
    }

    pub open spec fn again(&self) -> Seq<char> {
        self.request.retry(self.config_path@, self.worker@)
    }

    /// The next steps of a worker that is ready.
    pub open spec fn invitation(&self, worker: Seq<char>) -> Seq<Seq<char>> {
        seq![
            "In a Git repository with a commit, run:"@,
            "worker task submit --config "@ + quoted(self.config_path@) + " --worker="@ + worker
                + " "@ + self.request.options()
                + " --wait --prompt \"Create SETUP_CHECK.md containing: mac-worker works.\""@,
            "worker task fetch <task-id> --config "@ + quoted(self.config_path@),
            "The worker also needs your project's toolchain and dependencies. Keep the Mac awake and connected."@,
        ]
    }

    pub open spec fn unauthenticated(&self, report: ReportModel) -> ReportModel {
        report.blocked(
            "agent"@,
            "AGENT_AUTH_REQUIRED"@,
            "The selected agent has not confirmed a headless login for this account/profile."@,
            seq![
                "Open a shell on the worker: "@ + self.request.login_shell(),
                "Complete login there: "@ + login_command_for(self.request.agent@),
                "If you use a profile, check its credentials locally on the worker. Never paste them into a task."@,
                self.again(),
            ],
            ExitKind::Unavailable,
        )
    }

    pub open spec fn authenticated(&self, report: ReportModel) -> ReportModel {
        let passed = report.passed("agent"@, self.request.agent@ + " authenticated over SSH"@);
        ReportModel { ready: true, next_steps: self.invitation(report.worker), ..passed }
    }

    /// The end of init where an agent was found.
    pub open spec fn with_agent(&self, report: ReportModel, agent: AgentCheck, profiles: Seq<
        (String, bool),
    >) -> ReportModel {
        match self.request.env_profile {
            None => if agent.authenticated {
                self.authenticated(report)
            } else {
                self.unauthenticated(report)
            },
            Some(profile) => if !has_secure(profiles, profile@) {
                report.blocked(
                    "agent"@,
                    "ENV_PROFILE_UNAVAILABLE"@,
                    "The requested environment profile is missing or has insecure permissions."@,
                    seq![
                        "On the worker, provision ~/.config/mac-worker/env/"@ + profile@
                            + ".env as the worker account with mode 0600."@,
                        "Profile guide: https://github.com/kirchik95/mac-worker/blob/main/docs/setup-macos-worker.md#environment-profiles"@,
                        self.again(),
                    ],
                    ExitKind::Unavailable,
                )
            } else if find_flag(agent.by_profile@, profile@, 0) == Some(true) {
                self.authenticated(report)
            } else {
                self.unauthenticated(report)
            },
        }
    }

    /// The end of init where the worker's health is known.
    pub open spec fn with_health(&self, report: ReportModel, health: WorkerHealth) -> ReportModel {
        match fresh_checks(health, self.facts_ttl_millis) {
            None => report.blocked(
                "agent"@,
                "AGENT_FACTS_UNAVAILABLE"@,
                "The worker did not return fresh agent checks."@,
                seq![self.again()],
                ExitKind::Unavailable,
            ),
            Some(checks) => match find_agent(checks.agents@, self.request.agent@, 0) {
                None => report.blocked(
                    "agent"@,
                    "AGENT_MISSING"@,
                    "The selected agent is not on the worker account's login PATH."@,
                    seq![
                        "Open a shell on the worker: "@ + self.request.login_shell(),
                        "Install "@ + self.request.agent@ + " there: "@ + install_guide_for(
                            self.request.agent@,
                        ),
                        self.again(),
                    ],
                    ExitKind::Unavailable,
                ),
                Some(agent) => self.with_agent(report, agent, checks.profiles@),
            },
        }
    }

    /// How init goes on with an installed helper.
    pub open spec fn with_helper(&self, report: ReportModel, evidence: InitEvidence) -> DecisionModel {
        let passed = report.passed("helper"@, "Compatible helper installed"@);
        match evidence.refreshed {
            None => DecisionModel::Need { action: InitAction::RefreshChecks },
            Some(false) => DecisionModel::Finished {
                report: passed.blocked(
                    "agent"@,
                    "REFRESH_FACTS_FAILED"@,
                    "Could not refresh agent checks on the worker."@,
                    seq![self.again()],
                    ExitKind::Unavailable,
                ),
            },
            Some(true) => match evidence.health {
                None => DecisionModel::Need { action: InitAction::ProbeHealth },
                Some(health) => DecisionModel::Finished {
                    report: self.with_health(passed, health),
                },
            },
        }
    }

    /// How init goes on after an installation.
    pub open spec fn with_installation(
        &self,
        report: ReportModel,
        installation: Installation,
        evidence: InitEvidence,
    ) -> DecisionModel {
        let warned = warnings_noted(report, installation.warnings@, installation.warnings@.len() as int);
        match installation.outcome {
            InstallOutcome::Installed => self.with_helper(warned, evidence),
            InstallOutcome::Failed { code, kind } => DecisionModel::Finished {
                report: warned.blocked(
                    "helper"@,
                    match code {
                        Some(text) => text@,
                        None => "INSTALL_FAILED"@,
                    },
                    "The helper could not be installed. The worker configuration is saved."@,
                    seq![
                        "Installation recovery: https://github.com/kirchik95/mac-worker/blob/main/docs/setup-recovery.md"@,
                        "After resolving the reported error: "@ + self.again(),
                    ],
                    match kind {
                        Some(held) => held,
                        None => ExitKind::Infrastructure,
                    },
                ),
            },
        }
    }

    /// How init goes on with a worker that is entered into the inventory.
    pub open spec fn with_inventory(&self, report: ReportModel, name: Seq<char>, evidence: InitEvidence) -> DecisionModel {
        let entered = (ReportModel { worker: name, ..report }).passed(
            "config"@,
            "Registered "@ + name + "; inventory: "@ + self.config_path@,
        );
        match evidence.helper_ready {
            None => DecisionModel::Need { action: InitAction::ProbeHelper },
            Some(true) => self.with_helper(entered, evidence),
            Some(false) => match evidence.installation {
                None => DecisionModel::Need { action: InitAction::InstallHelper },
                Some(installation) => self.with_installation(entered, installation, evidence),
            },
        }
    }

    /// How init goes on with a worker that is a Mac.
    pub open spec fn with_platform(&self, report: ReportModel, evidence: InitEvidence) -> DecisionModel {
        match evidence.git {
            None => DecisionModel::Need { action: InitAction::CheckGit },
            Some(false) => DecisionModel::Finished {
                report: report.blocked(
                    "git"@,
                    "GIT_MISSING"@,
                    "Git is not available to the worker account."@,
                    seq![
                        "On the Mac, run xcode-select --install and complete the Command Line Tools installer."@,
                        self.again(),
                    ],
                    ExitKind::Unavailable,
                ),
            },
            Some(true) => match evidence.registered {
                None => DecisionModel::Need { action: InitAction::Register },
                Some(name) => self.with_inventory(
                    report.passed("git"@, "Git is available"@),
                    name@,
                    evidence,
                ),
            },
        }
    }

    /// How init goes on with a worker that answers.
    pub open spec fn with_ssh(&self, report: ReportModel, evidence: InitEvidence) -> DecisionModel {
        match evidence.platform {
            None => DecisionModel::Need { action: InitAction::CheckPlatform },
            Some(printed) => if printed is Some && printed->0@ == utf8("Darwin\narm64\n"@) {
                self.with_platform(report.passed("platform"@, "Apple Silicon Mac"@), evidence)
            } else {
                DecisionModel::Finished {
                    report: report.blocked(
                        "platform"@,
                        "PLATFORM_UNSUPPORTED"@,
                        "The worker must be an Apple Silicon Mac (Darwin/arm64). No helper was uploaded."@,
                        seq!["Choose an Apple Silicon Mac and rerun init."@],
                        ExitKind::Usage,
                    ),
                }
            },
        }
    }

    /// How init goes on, by what is known so far.
    pub open spec fn decision(&self, evidence: InitEvidence) -> DecisionModel {
        let report = self.empty_report();
        if !evidence.supported {
            DecisionModel::Finished {
                report: report.blocked(
                    "platform"@,
                    "PLATFORM_UNSUPPORTED"@,
                    "First-run installation currently requires an Apple Silicon Mac as the controller."@,
                    seq!["Run init from an Apple Silicon Mac using the arm64 release binary."@],
                    ExitKind::Usage,
                ),
            }
        } else {
            match evidence.ssh {
                None => DecisionModel::Need { action: InitAction::CheckSsh },
                Some(false) => DecisionModel::Finished {
                    report: report.blocked(
                        "ssh"@,
                        "SSH_UNAVAILABLE"@,
                        "Passwordless SSH is not ready. Enable Remote Login on the Mac and authorize your SSH key."@,
                        seq![
                            "Connect once, verify the host fingerprint and check your account: "@
                                + self.request.login_shell(),
                            "SSH setup guide: https://github.com/kirchik95/mac-worker/blob/main/docs/setup-macos-worker.md#2-connect-over-ssh"@,
                            self.again(),
                        ],
                        ExitKind::Unavailable,
                    ),
                },
                Some(true) => self.with_ssh(
                    report.passed("ssh"@, "Connected without a password prompt"@),
                    evidence,
                ),
            }
        }
    }
}

/// The report with the first `count` warnings noted.
pub open spec fn warnings_noted(report: ReportModel, warnings: Seq<String>, count: int) -> ReportModel
    decreases count,
{
    if count <= 0 {
        report
    } else {
        warnings_noted(report, warnings, count - 1).warned(warnings[count - 1]@)
    }
}

fn one(first: String) -> (list: Vec<String>)
    ensures
        texts(list@) == seq![first@],
{
    let list = vec![first];
    assert(texts(list@) =~= seq![first@]);
    list
}

fn two(first: String, second: String) -> (list: Vec<String>)
    ensures
        texts(list@) == seq![first@, second@],
{
    let list = vec![first, second];
    assert(texts(list@) =~= seq![first@, second@]);
    list
}

fn three(first: String, second: String, third: String) -> (list: Vec<String>)
    ensures
        texts(list@) == seq![first@, second@, third@],
{
    let list = vec![first, second, third];
    assert(texts(list@) =~= seq![first@, second@, third@]);
    list
}

fn four(first: String, second: String, third: String, fourth: String) -> (list: Vec<String>)
    ensures
        texts(list@) == seq![first@, second@, third@, fourth@],
{
    let list = vec![first, second, third, fourth];
    assert(texts(list@) =~= seq![first@, second@, third@, fourth@]);
    list
}

impl InitContext {
    fn again_text(&self) -> (text: String)
        ensures
            text@ == self.again(),
    {
        self.request.retry_text(self.config_path.as_str(), self.worker.as_str())
    }

    fn note_unauthenticated(&self, report: &mut InitReport)
        ensures
            final(report)@ == self.unauthenticated(old(report)@),
    {
        let next = four(
            "Open a shell on the worker: ".to_owned().concat(
                self.request.login_shell_text().as_str(),
            ),
            "Complete login there: ".to_owned().concat(login_command(self.request.agent.as_str()).as_str()),
            "If you use a profile, check its credentials locally on the worker. Never paste them into a task.".to_owned(),
            self.again_text(),
        );
        report.blocked(
            "agent",
            "AGENT_AUTH_REQUIRED",
            "The selected agent has not confirmed a headless login for this account/profile.",
            next,
            ExitKind::Unavailable,
        );
    }

    fn note_authenticated(&self, report: &mut InitReport)
        ensures
            final(report)@ == self.authenticated(old(report)@),
    {
        report.passed(
            "agent",
            self.request.agent.clone().concat(" authenticated over SSH"),
        );
        report.ready = true;
        let config = quote(self.config_path.as_str());
        let submit = "worker task submit --config ".to_owned().concat(config.as_str()).concat(
            " --worker=",
        ).concat(report.worker.as_str()).concat(" ").concat(
            self.request.option_text().as_str(),
        ).concat(" --wait --prompt \"Create SETUP_CHECK.md containing: mac-worker works.\"");
        report.next_steps = four(
            "In a Git repository with a commit, run:".to_owned(),
            submit,
            "worker task fetch <task-id> --config ".to_owned().concat(config.as_str()),
            "The worker also needs your project's toolchain and dependencies. Keep the Mac awake and connected.".to_owned(),
        );
    }

    fn note_agent(&self, report: &mut InitReport, agent: &AgentCheck, profiles: &Vec<(String, bool)>)
        ensures
            final(report)@ == self.with_agent(old(report)@, *agent, profiles@),
    {
        let authenticated = match &self.request.env_profile {
            None => agent.authenticated,
            Some(profile) => {
                if !is_secure(profiles, profile.as_str()) {
                    let next = three(
                        "On the worker, provision ~/.config/mac-worker/env/".to_owned().concat(
                            profile.as_str(),
                        ).concat(".env as the worker account with mode 0600."),
                        "Profile guide: https://github.com/kirchik95/mac-worker/blob/main/docs/setup-macos-worker.md#environment-profiles".to_owned(),
                        self.again_text(),
                    );
                    report.blocked(
                        "agent",
                        "ENV_PROFILE_UNAVAILABLE",
                        "The requested environment profile is missing or has insecure permissions.",
                        next,
                        ExitKind::Unavailable,
                    );
                    return;
                }
                flag_named(&agent.by_profile, profile.as_str()) == Some(true)
            },
        };
        if authenticated {
            self.note_authenticated(report);
        } else {
            self.note_unauthenticated(report);
        }
    }

    fn note_health(&self, report: &mut InitReport, health: &WorkerHealth)
        ensures
            final(report)@ == self.with_health(old(report)@, *health),
    {
        let fresh = health.ready && match health.facts_age_millis {
            Some(age) => age <= self.facts_ttl_millis,
            None => false,
        };
        let found = if fresh {
            health.checks.as_ref()
        } else {
            None
        };
        let checks = match found {
            Some(checks) => checks,
            None => {
                report.blocked(
                    "agent",
                    "AGENT_FACTS_UNAVAILABLE",
                    "The worker did not return fresh agent checks.",
                    one(self.again_text()),
                    ExitKind::Unavailable,
                );
                return;
            },
        };
        match agent_named(&checks.agents, self.request.agent.as_str()) {
            Some(agent) => self.note_agent(report, agent, &checks.profiles),
            None => {
                let next = three(
                    "Open a shell on the worker: ".to_owned().concat(
                        self.request.login_shell_text().as_str(),
                    ),
                    "Install ".to_owned().concat(self.request.agent.as_str()).concat(
                        " there: ",
                    ).concat(install_guide(self.request.agent.as_str()).as_str()),
                    self.again_text(),
                );
                report.blocked(
                    "agent",
                    "AGENT_MISSING",
                    "The selected agent is not on the worker account's login PATH.",
                    next,
                    ExitKind::Unavailable,
                );
            },
        }
    }

    fn continue_with_helper(&self, before: InitReport, evidence: &InitEvidence) -> (decision:
        InitDecision)
        ensures
            decision@ == self.with_helper(before@, *evidence),
    {
        let mut report = before;
        report.passed("helper", "Compatible helper installed".to_owned());
        match evidence.refreshed {
            None => InitDecision::Need { action: InitAction::RefreshChecks },
            Some(false) => {
                report.blocked(
                    "agent",
                    "REFRESH_FACTS_FAILED",
                    "Could not refresh agent checks on the worker.",
                    one(self.again_text()),
                    ExitKind::Unavailable,
                );
                InitDecision::Finished { report }
            },
            Some(true) => match &evidence.health {
                None => InitDecision::Need { action: InitAction::ProbeHealth },
                Some(health) => {
                    self.note_health(&mut report, health);
                    InitDecision::Finished { report }
                },
            },
        }
    }

    fn continue_with_installation(
        &self,
        before: InitReport,
        installation: &Installation,
        evidence: &InitEvidence,
    ) -> (decision: InitDecision)
        ensures
            decision@ == self.with_installation(before@, *installation, *evidence),
    {
        let mut report = before;
        let mut i: usize = 0;
        while i < installation.warnings.len()
            invariant
                i <= installation.warnings@.len(),
                report@ == warnings_noted(before@, installation.warnings@, i as int),
            decreases installation.warnings.len() - i,
        {
            report.warned(installation.warnings[i].clone());
            i += 1;
        }
        match &installation.outcome {
            InstallOutcome::Installed => self.continue_with_helper(report, evidence),
            InstallOutcome::Failed { code, kind } => {
                let next = two(
                    "Installation recovery: https://github.com/kirchik95/mac-worker/blob/main/docs/setup-recovery.md".to_owned(),
                    "After resolving the reported error: ".to_owned().concat(
                        self.again_text().as_str(),
                    ),
                );
                let reported = match code {
                    Some(text) => text.as_str(),
                    None => "INSTALL_FAILED",
                };
                let exit = match kind {
                    Some(held) => *held,
                    None => ExitKind::Infrastructure,
                };
                report.blocked(
                    "helper",
                    reported,
                    "The helper could not be installed. The worker configuration is saved.",
                    next,
                    exit,
                );
                InitDecision::Finished { report }
            },
        }
    }

    fn continue_with_inventory(&self, before: InitReport, name: &String, evidence: &InitEvidence) -> (
    decision: InitDecision)
        ensures
            decision@ == self.with_inventory(before@, name@, *evidence),
    {
        let mut report = before;
        report.worker = name.clone();
        report.passed(
            "config",
            "Registered ".to_owned().concat(name.as_str()).concat("; inventory: ").concat(
                self.config_path.as_str(),
            ),
        );
        match evidence.helper_ready {
            None => InitDecision::Need { action: InitAction::ProbeHelper },
            Some(true) => self.continue_with_helper(report, evidence),
            Some(false) => match &evidence.installation {
                None => InitDecision::Need { action: InitAction::InstallHelper },
                Some(installation) => self.continue_with_installation(
                    report,
                    installation,
                    evidence,
                ),
            },
        }
    }

    fn continue_with_platform(&self, before: InitReport, evidence: &InitEvidence) -> (decision:
        InitDecision)
        ensures
            decision@ == self.with_platform(before@, *evidence),
    {
        let mut report = before;
        match evidence.git {
            None => InitDecision::Need { action: InitAction::CheckGit },
            Some(false) => {
                let next = two(
                    "On the Mac, run xcode-select --install and complete the Command Line Tools installer.".to_owned(),
                    self.again_text(),
                );
                report.blocked(
                    "git",
                    "GIT_MISSING",
                    "Git is not available to the worker account.",
                    next,
                    ExitKind::Unavailable,
                );
                InitDecision::Finished { report }
            },
            Some(true) => match &evidence.registered {
                None => InitDecision::Need { action: InitAction::Register },
                Some(name) => {
                    report.passed("git", "Git is available".to_owned());
                    self.continue_with_inventory(report, name, evidence)
                },
            },
        }
    }

    fn continue_with_ssh(&self, before: InitReport, evidence: &InitEvidence) -> (decision: InitDecision)
        ensures
            decision@ == self.with_ssh(before@, *evidence),
    {
        let mut report = before;
        let printed = match &evidence.platform {
            None => {
                return InitDecision::Need { action: InitAction::CheckPlatform };
            },
            Some(printed) => printed,
        };
        let supported = match printed {
            Some(bytes) => bytes_eq(bytes.as_slice(), "Darwin\narm64\n".as_bytes()),
            None => false,
        };
        if !supported {
            report.blocked(
                "platform",
                "PLATFORM_UNSUPPORTED",
                "The worker must be an Apple Silicon Mac (Darwin/arm64). No helper was uploaded.",
                one("Choose an Apple Silicon Mac and rerun init.".to_owned()),
                ExitKind::Usage,
            );
            return InitDecision::Finished { report };
        }
        report.passed("platform", "Apple Silicon Mac".to_owned());
        self.continue_with_platform(report, evidence)
    }
}

/// How init goes on, by what is known so far: with the next thing to learn or
/// do, or with its report. Nothing is asked for before everything that comes
/// earlier has passed, so a worker is entered into the inventory only once it
/// answers, is a Mac and has Git, and a helper is installed only after that.
pub fn initialize(context: &InitContext, evidence: &InitEvidence) -> (result: Result<
    InitDecision,
    WorkerError,
>)
    ensures
        (match context.request.fault(context.session_agent@) {
            Some(message) => result matches Err(error) && config_refusal(error, message),
            None => result matches Ok(decision) && decision@ == context.decision(*evidence),
        }),
        result matches Ok(InitDecision::Finished { report }) ==> (report.ready
            <==> worker_is_set_up(*evidence) && login_is_confirmed(*context, *evidence)),
{
    proof {
        ready_workers_are_logged_in(*context, *evidence);
    }
    context.request.validate(context.session_agent.as_str())?;
    let mut report = InitReport {
        ready: false,
        worker: context.worker.clone(),
        ssh: context.ssh.clone(),
        agent: context.request.agent.clone(),
        config_path: context.config_path.clone(),
        steps: Vec::new(),
        next_steps: Vec::new(),
        exit_kind: None,
    };
    proof {
        assert(report@.steps =~= seq![]);
        assert(report@.next_steps =~= seq![]);
        assert(report@ == context.empty_report());
    }
    if !evidence.supported {
        report.blocked(
            "platform",
            "PLATFORM_UNSUPPORTED",
            "First-run installation currently requires an Apple Silicon Mac as the controller.",
            one("Run init from an Apple Silicon Mac using the arm64 release binary.".to_owned()),
            ExitKind::Usage,
        );
        return Ok(InitDecision::Finished { report });
    }
    match evidence.ssh {
        None => Ok(InitDecision::Need { action: InitAction::CheckSsh }),
        Some(false) => {
            let next = three(
                "Connect once, verify the host fingerprint and check your account: ".to_owned().concat(
                    context.request.login_shell_text().as_str(),
                ),
                "SSH setup guide: https://github.com/kirchik95/mac-worker/blob/main/docs/setup-macos-worker.md#2-connect-over-ssh".to_owned(),
                context.again_text(),
            );
            report.blocked(
                "ssh",
                "SSH_UNAVAILABLE",
                "Passwordless SSH is not ready. Enable Remote Login on the Mac and authorize your SSH key.",
                next,
                ExitKind::Unavailable,
            );
            Ok(InitDecision::Finished { report })
        },
        Some(true) => {
            report.passed("ssh", "Connected without a password prompt".to_owned());
            Ok(context.continue_with_ssh(report, evidence))
        },
    }
}

impl InitEvidence {
    /// The worker answers, is an Apple Silicon Mac and has Git, and so is the
    /// machine that init runs on.
    pub open spec fn worker_fits(&self) -> bool {
        &&& self.supported
        &&& self.ssh == Some(true)
        &&& self.platform matches Some(Some(printed)) && printed@ == utf8("Darwin\narm64\n"@)
        &&& self.git == Some(true)
    }
}

/// The worker is entered into the inventory only once it answers, is an Apple
/// Silicon Mac and has Git; its helper is installed only once it is entered.
pub proof fn nothing_is_changed_too_early(context: InitContext, evidence: InitEvidence)
    ensures
        context.decision(evidence) == (DecisionModel::Need { action: InitAction::Register })
            ==> evidence.worker_fits(),
        context.decision(evidence) == (DecisionModel::Need { action: InitAction::InstallHelper })
            ==> evidence.worker_fits() && evidence.registered is Some && evidence.helper_ready
            == Some(false),
        context.decision(evidence) == (DecisionModel::Need { action: InitAction::RefreshChecks })
            ==> evidence.worker_fits() && evidence.registered is Some && evidence.helper_ready
            is Some,
{
}

/// A finished report is ready exactly where it names no obstacle: it carries an
/// exit kind, a blocked last step and instructions otherwise.
pub proof fn reports_are_ready_or_blocked(context: InitContext, evidence: InitEvidence)
    requires
        context.decision(evidence) is Finished,
    ensures
        ({
            let report = context.decision(evidence)->report;
            &&& report.ready <==> report.exit_kind is None
            &&& report.steps.len() > 0
            &&& report.next_steps.len() > 0
            &&& report.steps.last().status == if report.ready {
                "ok"@
            } else {
                "blocked"@
            }
        }),
{
    if evidence.installation is Some {
        let installation = evidence.installation->0;
        warnings_keep_the_verdict(
            (ReportModel { worker: evidence.registered->0@, ..context.empty_report().passed(
                "ssh"@,
                "Connected without a password prompt"@,
            ).passed("platform"@, "Apple Silicon Mac"@).passed("git"@, "Git is available"@) }).passed(
                "config"@,
                "Registered "@ + evidence.registered->0@ + "; inventory: "@ + context.config_path@,
            ),
            installation.warnings@,
            installation.warnings@.len() as int,
        );
    }
}

proof fn warnings_keep_the_verdict(report: ReportModel, warnings: Seq<String>, count: int)
    requires
        0 <= count,
    ensures
        warnings_noted(report, warnings, count).ready == report.ready,
        warnings_noted(report, warnings, count).exit_kind == report.exit_kind,
        warnings_noted(report, warnings, count).next_steps == report.next_steps,
        warnings_noted(report, warnings, count).steps.len() >= report.steps.len(),
    decreases count,
{
    if count > 0 {
        warnings_keep_the_verdict(report, warnings, count - 1);
    }
}

} // verus!
