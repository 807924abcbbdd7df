//! A task as a laptop hands it to its controller: every choice is made once,
//! and the frozen task is sent as often as it takes.
use vstd::prelude::*;
use crate::job::ids::{JobId, TaskId};
use crate::outside::{hex_number, random_shape, uuid_random, uuid_to_simple};
use crate::task::{AgentKind, ClosePolicy};
use crate::task_options::{
    first_text, frozen_choices, setting, ProjectTaskSettings, SubmitOptions, TaskLimits,
};
use crate::text::{clone_opt, clone_texts, opt_text, texts};

verus! {

/// The author under whose name a project's state is captured.
pub const CAPTURE_AUTHOR_NAME: &'static str = "mac-worker";

pub const CAPTURE_AUTHOR_EMAIL: &'static str = "mac-worker@localhost";

/// What a client asks of a new task.
#[derive(Debug)]
pub struct ControllerSubmitFields {
    pub project: String,
    pub prompt: String,
    pub title: Option<String>,
    pub agent: AgentKind,
    pub model: Option<String>,
    pub effort: Option<String>,
    pub base: String,
    /// Start from the files as they are, committed or not.
    pub wip: bool,
    pub includes: Vec<String>,
    pub limits: TaskLimits,
    pub close_on: ClosePolicy,
    pub env_profile: Option<String>,
    pub worker: Option<String>,
    pub source: Option<String>,
    pub publish: Vec<String>,
    pub publish_branch: Option<String>,
    pub wait_for_capacity: bool,
}

/// What a laptop found out about the project of a new task.
#[derive(Debug)]
pub struct ProjectFacts {
    pub settings: ProjectTaskSettings,
    pub project_id: String,
    pub worktree_id: String,
    pub branch: Option<String>,
    pub origin_url: Option<String>,
    pub requirements: Vec<String>,
    pub include_untracked: Vec<String>,
    pub include_empty_dirs: Vec<String>,
    pub allow_sensitive: Vec<String>,
}

/// The identities of a new task, its first turn and the request that brings it.
#[derive(Debug)]
pub struct SubmitIdentity {
    pub task_id: TaskId,
    pub turn_id: JobId,
    pub request_id: String,
}

impl SubmitIdentity {
    /// New random identities.
    pub fn generate() -> (identity: SubmitIdentity)
        ensures
            random_shape(identity.task_id.value),
            random_shape(identity.turn_id.value),
            exists|id: u128|
                random_shape(id) && identity.request_id@ == #[trigger] hex_number(id as int, 32),
    {
        let task_id = TaskId::generate();
        let turn_id = JobId::generate();
        let id: u128 = uuid_random();
        let request_id = uuid_to_simple(id);
        assert(request_id@ == hex_number(id as int, 32));
        SubmitIdentity { task_id, turn_id, request_id }
    }
}

/// How the base of a new task is found.
#[derive(Debug)]
pub enum BaseStep {
    /// Take the project's files as they are.
    BuildWip { task_id: TaskId },
    /// Look this name up.
    ResolveBase { base: String },
}

pub fn base_step(cli: &ControllerSubmitFields, identity: &SubmitIdentity) -> (step: BaseStep)
    ensures
        if cli.wip {
            step == (BaseStep::BuildWip { task_id: identity.task_id })
        } else {
            step matches BaseStep::ResolveBase { base } && base@ == cli.base@
        },
{
    if cli.wip {
        BaseStep::BuildWip { task_id: identity.task_id }
    } else {
        BaseStep::ResolveBase { base: cli.base.clone() }
    }
}

/// A task that is ready to be sent.
#[derive(Debug)]
pub struct FrozenSubmitBody {
    pub task_id: TaskId,
    pub turn_id: JobId,
    pub run_id: Option<String>,
    pub created_at_millis: u64,
    pub prompt: String,
    pub title: Option<String>,
    pub agent: String,
    pub model: Option<String>,
    pub effort: Option<String>,
    pub source: String,
    pub origin_url: Option<String>,
    pub publish: Vec<String>,
    pub publish_branch: Option<String>,
    pub close_on: ClosePolicy,
    pub env_profile: Option<String>,
    pub worker: Option<String>,
    pub wip: bool,
    pub project_id: String,
    pub worktree_id: String,
    pub base_oid: String,
    pub timeout_millis: u64,
    pub max_turns: Option<u32>,
    pub max_budget_usd_cents: Option<u64>,
    pub max_followups: u32,
    pub permissions: String,
    pub requires: Vec<String>,
    pub include_untracked: Vec<String>,
    pub include_empty_dirs: Vec<String>,
    pub allow_sensitive: Vec<String>,
    pub cli_includes: Vec<String>,
    pub branch: Option<String>,
    pub wait_for_capacity: bool,
}

impl FrozenSubmitBody {
    /// What the client chose, and what the project says where it chose nothing.
    pub open spec fn keeps_choices(
        &self,
        cli: &ControllerSubmitFields,
        settings: &ProjectTaskSettings,
        session_agent: Seq<char>,
    ) -> bool {
        &&& self.prompt@ == cli.prompt@
        &&& opt_text(self.title) == opt_text(cli.title)
        &&& self.agent@ == cli.agent.spelling(session_agent)
        &&& opt_text(self.model) == first_text(cli.model, settings.model)
        &&& opt_text(self.effort) == first_text(cli.effort, settings.effort)
        &&& opt_text(self.env_profile) == first_text(cli.env_profile, settings.env_profile)
        &&& self.source@ == (match cli.source {
            Some(source) => source@,
            None => settings.source@,
        })
        &&& texts(self.publish@) == (if cli.publish@.len() == 0 {
            texts(settings.publish@)
        } else {
            texts(cli.publish@)
        })
        &&& opt_text(self.publish_branch) == opt_text(cli.publish_branch)
        &&& self.close_on == cli.close_on
        &&& opt_text(self.worker) == opt_text(cli.worker)
        &&& self.wip == cli.wip
        &&& texts(self.cli_includes@) == texts(cli.includes@)
        &&& self.permissions@ == (if setting(
            settings.permissions@,
            cli.agent.spelling(session_agent),
            0,
        ) == Some("unattended"@) {
            "unattended"@
        } else {
            "workspace"@
        })
        &&& self.wait_for_capacity == cli.wait_for_capacity
    }

    /// The project as it was found.
    pub open spec fn keeps_project(&self, project: &ProjectFacts) -> bool {
        &&& self.project_id@ == project.project_id@
        &&& self.worktree_id@ == project.worktree_id@
        &&& opt_text(self.branch) == opt_text(project.branch)
        &&& opt_text(self.origin_url) == opt_text(project.origin_url)
        &&& texts(self.requires@) == texts(project.requirements@)
        &&& texts(self.include_untracked@) == texts(project.include_untracked@)
        &&& texts(self.include_empty_dirs@) == texts(project.include_empty_dirs@)
        &&& texts(self.allow_sensitive@) == texts(project.allow_sensitive@)
    }

    pub open spec fn keeps_limits(&self, limits: TaskLimits) -> bool {
        &&& self.timeout_millis == limits.timeout_millis
        &&& self.max_turns == limits.max_turns
        &&& self.max_budget_usd_cents == limits.max_budget_usd_cents
        &&& self.max_followups == limits.max_followups
    }
}

/// Freezes a task. `limits` are those that hold for it, out of what the client
/// asks for and what the project allows; `base_oid` names its base and `created_at_millis` is the time. It belongs to no run.
pub fn freeze_submit(
    cli: &ControllerSubmitFields,
    project: &ProjectFacts,
    identity: &SubmitIdentity,
    limits: TaskLimits,
    base_oid: String,
    created_at_millis: u64,
    session_agent: &str,
) -> (body: FrozenSubmitBody)
    ensures
        body.task_id == identity.task_id,
        body.turn_id == identity.turn_id,
        body.run_id is None,
        body.created_at_millis == created_at_millis,
        body.base_oid@ == base_oid@,
        body.keeps_choices(cli, &project.settings, session_agent@),
        body.keeps_project(project),
        body.keeps_limits(limits),
{
    let options = SubmitOptions {
        agent: cli.agent,
        model: clone_opt(&cli.model),
        effort: clone_opt(&cli.effort),
        env_profile: clone_opt(&cli.env_profile),
        source: clone_opt(&cli.source),
        publish: clone_texts(&cli.publish),
        no_wait: !cli.wait_for_capacity,
    };
    let choices = frozen_choices(&options, &project.settings, session_agent);
    assert(texts(options.publish@).len() == options.publish@.len());
    assert(texts(cli.publish@).len() == cli.publish@.len());
    FrozenSubmitBody {
        task_id: identity.task_id,
        turn_id: identity.turn_id,
        run_id: None,
        created_at_millis,
        prompt: cli.prompt.clone(),
        title: clone_opt(&cli.title),
        agent: choices.agent,
        model: choices.model,
        effort: choices.effort,
        source: choices.source,
        origin_url: clone_opt(&project.origin_url),
        publish: choices.publish,
        publish_branch: clone_opt(&cli.publish_branch),
        close_on: cli.close_on,
        env_profile: choices.env_profile,
        worker: clone_opt(&cli.worker),
        wip: cli.wip,
        project_id: project.project_id.clone(),
        worktree_id: project.worktree_id.clone(),
        base_oid,
        timeout_millis: limits.timeout_millis,
        max_turns: limits.max_turns,
        max_budget_usd_cents: limits.max_budget_usd_cents,
        max_followups: limits.max_followups,
        permissions: choices.permissions.to_owned(),
        requires: clone_texts(&project.requirements),
        include_untracked: clone_texts(&project.include_untracked),
        include_empty_dirs: clone_texts(&project.include_empty_dirs),
        allow_sensitive: clone_texts(&project.allow_sensitive),
        cli_includes: clone_texts(&cli.includes),
        branch: clone_opt(&project.branch),
        wait_for_capacity: choices.wait_for_capacity,
    }
}

/// Two freezes of one request differ only in what is new about each: who they
/// are, when they were made and what they start from.
pub proof fn freezing_is_deterministic(
    cli: ControllerSubmitFields,
    project: ProjectFacts,
    limits: TaskLimits,
    session_agent: Seq<char>,
    left: FrozenSubmitBody,
    right: FrozenSubmitBody,
)
    requires
        left.keeps_choices(&cli, &project.settings, session_agent),
        left.keeps_project(&project),
        left.keeps_limits(limits),
        right.keeps_choices(&cli, &project.settings, session_agent),
        right.keeps_project(&project),
        right.keeps_limits(limits),
    ensures
        left.agent@ == right.agent@,
        left.permissions@ == right.permissions@,
        left.source@ == right.source@,
        texts(left.publish@) == texts(right.publish@),
        opt_text(left.model) == opt_text(right.model),
        opt_text(left.effort) == opt_text(right.effort),
        opt_text(left.env_profile) == opt_text(right.env_profile),
        left.wait_for_capacity == right.wait_for_capacity,
        left.project_id@ == right.project_id@,
        left.worktree_id@ == right.worktree_id@,
        left.timeout_millis == right.timeout_millis,
        left.max_turns == right.max_turns,
        left.max_budget_usd_cents == right.max_budget_usd_cents,
        left.max_followups == right.max_followups,
{
}

} // verus!
