//! The options of task commands: which are accepted, and what they come to.
use vstd::prelude::*;
use crate::error::WorkerError;
use crate::task::{AgentKind, ClosePolicy, TaskState};
use crate::task_options::{
    agent_named, close_fault, close_policy, dashed, limits_refusal, list_refusal, occurrences,
    protected_ids, scope_fault, setting, underscored, LimitOptions, LimitsVerdict, Refusal,
    RememberedTask, SubmitCommand, SubmitFindings, TaskLimits,
};
use crate::text::{opt_text, texts};

verus! {

/// A text occurs where it stands somewhere, and more than once where it stands
/// in two places.
proof fn occurrences_are_places(items: Seq<Seq<char>>, item: Seq<char>, count: int)
    requires
        0 <= count <= items.len(),
    ensures
        occurrences(items, item, count) > 0 <==> exists|i: int|
            0 <= i < count && #[trigger] items[i] == item,
        occurrences(items, item, count) > 1 <==> exists|i: int, j: int|
            0 <= i < j < count && #[trigger] items[i] == item && #[trigger] items[j] == item,
    decreases count,
{
    if count > 0 {
        occurrences_are_places(items, item, count - 1);
        let last = items[count - 1];
        if last == item && occurrences(items, item, count - 1) > 0 {
            let i = choose|i: int| 0 <= i < count - 1 && #[trigger] items[i] == item;
            assert(items[i] == item && items[count - 1] == item);
        }
    }
}

/// The source and publication options are accepted exactly where the source is
/// absent, "local" or "origin", every publish mode is "fetch" or "push" and
/// stands once, and a branch is named only where results are pushed.
pub proof fn scope_options_are_accepted(
    source: Option<Seq<char>>,
    publish: Seq<Seq<char>>,
    publish_branch: Option<Seq<char>>,
)
    ensures
        scope_fault(source, publish, publish_branch) is None <==> {
            &&& source is None || source == Some("local"@) || source == Some("origin"@)
            &&& forall|i: int|
                0 <= i < publish.len() ==> #[trigger] publish[i] == "fetch"@ || publish[i]
                    == "push"@
            &&& forall|i: int, j: int|
                0 <= i < j < publish.len() ==> #[trigger] publish[i] != #[trigger] publish[j]
            &&& publish_branch is None || exists|i: int|
                0 <= i < publish.len() && #[trigger] publish[i] == "push"@
        },
{
    let total = publish.len() as int;
    occurrences_are_places(publish, "fetch"@, total);
    occurrences_are_places(publish, "push"@, total);
    if scope_fault(source, publish, publish_branch) is None {
        assert forall|i: int, j: int| 0 <= i < j < publish.len() implies #[trigger] publish[i]
            != #[trigger] publish[j] by {
            assert(publish[i] == "fetch"@ || publish[i] == "push"@);
        }
    }
}

/// The four agents go by these names, and by no other.
pub proof fn agents_go_by_their_names(name: Seq<char>, session_agent: Seq<char>)
    requires
        session_agent != "codex"@,
        session_agent != "cursor"@,
        session_agent != "opencode"@,
    ensures
        agent_named(name, session_agent) == Some(AgentKind::Codex) <==> name == "codex"@,
        agent_named(name, session_agent) == Some(AgentKind::Claude) <==> name == session_agent,
        agent_named(name, session_agent) == Some(AgentKind::Cursor) <==> name == "cursor"@,
        agent_named(name, session_agent) == Some(AgentKind::Opencode) <==> name == "opencode"@,
        AgentKind::Codex.spelling(session_agent) == "codex"@,
        AgentKind::Claude.spelling(session_agent) == session_agent,
        AgentKind::Cursor.spelling(session_agent) == "cursor"@,
        AgentKind::Opencode.spelling(session_agent) == "opencode"@,
{
    reveal_strlit("codex");
    reveal_strlit("cursor");
    reveal_strlit("opencode");
    assert("codex"@.len() == 5 && "cursor"@.len() == 6 && "opencode"@.len() == 8);
}

/// A task closes once it is done unless it is told never to, and nothing else
/// can be said.
pub proof fn closing_is_done_or_never(value: Option<Seq<char>>)
    ensures
        close_fault(value) is None <==> value is None || value == Some("done"@) || value == Some(
            "never"@,
        ),
        close_policy(None) == ClosePolicy::Done,
        close_policy(Some("done"@)) == ClosePolicy::Done,
        close_policy(Some("never"@)) == ClosePolicy::Never,
{
    reveal_strlit("done");
    reveal_strlit("never");
    assert("done"@.len() == 4 && "never"@.len() == 5);
}

/// The states of a task have these names, all different.
pub proof fn states_have_their_names(left: TaskState, right: TaskState)
    ensures
        TaskState::Queued.spelling() == "queued"@,
        TaskState::Active.spelling() == "active"@,
        TaskState::Open.spelling() == "open"@,
        TaskState::Closed.spelling() == "closed"@,
        TaskState::Abandoned.spelling() == "abandoned"@,
        TaskState::Lost.spelling() == "lost"@,
        left.spelling() == right.spelling() ==> left == right,
{
    reveal_strlit("queued");
    reveal_strlit("active");
    reveal_strlit("open");
    reveal_strlit("closed");
    reveal_strlit("abandoned");
    reveal_strlit("lost");
    assert("queued"@[0] == 'q' && "active"@[0] == 'a' && "open"@[0] == 'o' && "closed"@[0] == 'c'
        && "abandoned"@[0] == 'a' && "lost"@[0] == 'l');
    assert("active"@.len() == 6 && "abandoned"@.len() == 9);
}

/// Hyphens become underscores and nothing else changes.
pub proof fn only_hyphens_change(text: Seq<char>, at: int)
    requires
        0 <= at < text.len(),
    ensures
        underscored(text).len() == text.len(),
        text[at] == '-' ==> underscored(text)[at] == '_',
        text[at] != '-' ==> underscored(text)[at] == text[at],
        dashed(text).len() == text.len(),
        text[at] == '_' ==> dashed(text)[at] == '-',
        text[at] != '_' ==> dashed(text)[at] == text[at],
{
}

/// What a command says of a limit holds, and what it leaves open is the
/// default; only a timeout that no machine can count is refused.
pub proof fn commands_outweigh_defaults(options: LimitOptions, defaults: TaskLimits)
    ensures
        options.fault() is None <==> options.timeout is None || options.timeout->0
            <= 18446744073709551615,
        options.fault() is None && options.timeout is Some ==> options.limits(
            defaults,
        ).timeout_millis == options.timeout->0,
        options.timeout is None ==> options.limits(defaults).timeout_millis
            == defaults.timeout_millis,
        options.max_turns is Some ==> options.limits(defaults).max_turns == options.max_turns,
        options.max_turns is None ==> options.limits(defaults).max_turns == defaults.max_turns,
        options.max_budget is Some ==> options.limits(defaults).max_budget_usd_cents
            == options.max_budget,
        options.max_budget is None ==> options.limits(defaults).max_budget_usd_cents
            == defaults.max_budget_usd_cents,
        options.max_followups is Some ==> options.limits(defaults).max_followups
            == options.max_followups->0,
        options.max_followups is None ==> options.limits(defaults).max_followups
            == defaults.max_followups,
{
}

/// Limits are accepted exactly where the timeout can be counted and nothing is
/// said against them.
pub proof fn unobjected_limits_are_accepted(options: LimitOptions, verdict: LimitsVerdict)
    ensures
        limits_refusal(options, verdict) is None <==> (options.timeout is None
            || options.timeout->0 <= 18446744073709551615) && verdict.turn is None && verdict.task
            is None,
        options.fault() is None && verdict.turn is Some ==> limits_refusal(options, verdict)
            == Some(Refusal::Config { message: verdict.turn->0@ }),
        options.fault() is None && verdict.turn is None && verdict.task is Some ==> limits_refusal(
            options,
            verdict,
        ) == Some(Refusal::Passed { error: verdict.task->0 }),
{
}

/// The options of a submission make sense: where its work comes from and goes,
/// its limits, and when it closes.
pub open spec fn sensible(command: SubmitCommand, findings: SubmitFindings) -> bool {
    let publish = command.publish@;
    &&& command.source matches Some(source) ==> source@ == "local"@ || source@ == "origin"@
    &&& forall|i: int|
        0 <= i < publish.len() ==> (#[trigger] publish[i])@ == "fetch"@ || publish[i]@ == "push"@
    &&& forall|i: int, j: int|
        0 <= i < j < publish.len() ==> (#[trigger] publish[i])@ != (#[trigger] publish[j])@
    &&& command.publish_branch is Some ==> exists|i: int|
        0 <= i < publish.len() && (#[trigger] publish[i])@ == "push"@
    &&& findings.prompt is Ok
    &&& command.limits.timeout matches Some(millis) ==> millis <= 18446744073709551615
    &&& findings.verdict.turn is None
    &&& findings.verdict.task is None
    &&& findings.current_dir is Ok
    &&& command.close_on matches Some(policy) ==> policy@ == "done"@ || policy@ == "never"@
}

/// A submission is accepted, by a controller and by this laptop alike, exactly
/// where its options make sense and its agent, or else the project's, is one of
/// the four.
pub proof fn sensible_submissions_are_accepted(
    command: SubmitCommand,
    findings: SubmitFindings,
    named: Result<String, WorkerError>,
    known: Result<AgentKind, WorkerError>,
    session_agent: Seq<char>,
)
    ensures
        command.controller_refusal(findings, named, session_agent) is None <==> {
            &&& sensible(command, findings)
            &&& match command.agent {
                Some(name) => name@ == "codex"@ || name@ == session_agent || name@ == "cursor"@
                    || name@ == "opencode"@,
                None => named matches Ok(name) && (name@ == "codex"@ || name@ == session_agent
                    || name@ == "cursor"@ || name@ == "opencode"@),
            }
        },
        command.local_refusal(findings, known, session_agent) is None <==> {
            &&& sensible(command, findings)
            &&& match command.agent {
                Some(name) => name@ == "codex"@ || name@ == session_agent || name@ == "cursor"@
                    || name@ == "opencode"@,
                None => known is Ok,
            }
        },
{
    let publish = texts(command.publish@);
    scope_options_are_accepted(opt_text(command.source), publish, opt_text(command.publish_branch));
    closing_is_done_or_never(opt_text(command.close_on));
    unobjected_limits_are_accepted(command.limits, findings.verdict);
    assert(publish.len() == command.publish@.len());
    assert forall|i: int| 0 <= i < publish.len() implies #[trigger] publish[i]
        == command.publish@[i]@ by {}
    let accepted = {
        &&& forall|i: int|
            0 <= i < publish.len() ==> #[trigger] publish[i] == "fetch"@ || publish[i] == "push"@
        &&& forall|i: int, j: int|
            0 <= i < j < publish.len() ==> #[trigger] publish[i] != #[trigger] publish[j]
    };
    let stated = {
        &&& forall|i: int|
            0 <= i < command.publish@.len() ==> (#[trigger] command.publish@[i])@ == "fetch"@
                || command.publish@[i]@ == "push"@
        &&& forall|i: int, j: int|
            0 <= i < j < command.publish@.len() ==> (#[trigger] command.publish@[i])@ != (
            #[trigger] command.publish@[j])@
    };
    if stated {
        assert forall|i: int| 0 <= i < publish.len() implies #[trigger] publish[i] == "fetch"@
            || publish[i] == "push"@ by {
            let mode = command.publish@[i];
        }
        assert forall|i: int, j: int| 0 <= i < j < publish.len() implies #[trigger] publish[i]
            != #[trigger] publish[j] by {
            let first = command.publish@[i];
            let second = command.publish@[j];
            assert(first@ != second@);
        }
        assert(accepted);
    }
    if accepted {
        assert forall|i: int| 0 <= i < command.publish@.len() implies (
        #[trigger] command.publish@[i])@ == "fetch"@ || command.publish@[i]@ == "push"@ by {
            let mode = publish[i];
        }
        assert forall|i: int, j: int| 0 <= i < j < command.publish@.len() implies (
        #[trigger] command.publish@[i])@ != (#[trigger] command.publish@[j])@ by {
            assert(publish[i] != publish[j]);
        }
        assert(stated);
    }
    let pushed = exists|i: int| 0 <= i < publish.len() && #[trigger] publish[i] == "push"@;
    let pushes = exists|i: int|
        0 <= i < command.publish@.len() && (#[trigger] command.publish@[i])@ == "push"@;
    if pushed {
        let i = choose|i: int| 0 <= i < publish.len() && #[trigger] publish[i] == "push"@;
        assert(command.publish@[i]@ == "push"@);
    }
    if pushes {
        let i = choose|i: int|
            0 <= i < command.publish@.len() && (#[trigger] command.publish@[i])@ == "push"@;
        assert(publish[i] == "push"@);
    }
    assert(pushed == pushes);
    assert(accepted == stated);
}

/// A setting is what the first pair of its name says.
pub proof fn first_settings_count(pairs: Seq<(String, String)>, name: Seq<char>, from: int, at: int)
    requires
        0 <= from <= at <= pairs.len(),
        forall|i: int| from <= i < at ==> (#[trigger] pairs[i]).0@ != name,
    ensures
        at < pairs.len() && pairs[at].0@ == name ==> setting(pairs, name, from) == Some(
            pairs[at].1@,
        ),
        at == pairs.len() ==> setting(pairs, name, from) is None,
    decreases at - from,
{
    if from < at {
        first_settings_count(pairs, name, from + 1, at);
    }
}

/// A repository is protected exactly where it is that of a task which goes on,
/// has a runner, or whose results were not fetched.
pub proof fn needed_repositories_are_protected(tasks: Seq<RememberedTask>, count: int, id: Seq<char>)
    requires
        0 <= count <= tasks.len(),
    ensures
        protected_ids(tasks, count).contains(id) <==> exists|i: int|
            0 <= i < count && (#[trigger] tasks[i]).repo_id@ == id && (!tasks[i].ended
                || tasks[i].has_runner || !tasks[i].fetched),
    decreases count,
{
    if count > 0 {
        needed_repositories_are_protected(tasks, count - 1, id);
        let found = protected_ids(tasks, count - 1);
        let all = protected_ids(tasks, count);
        let last = tasks[count - 1];
        if found.contains(id) {
            let k = choose|k: int| 0 <= k < found.len() && found[k] == id;
            assert(all[k] == id);
        }
        if !last.ended || last.has_runner || !last.fetched {
            assert(all.last() == last.repo_id@);
            if all.contains(id) {
                let k = choose|k: int| 0 <= k < all.len() && all[k] == id;
                if k < found.len() {
                    assert(found[k] == id);
                    assert(found.contains(id));
                } else {
                    assert(last.repo_id@ == id);
                    assert(tasks[count - 1].repo_id@ == id);
                }
            }
            if last.repo_id@ == id {
                assert(all[all.len() - 1] == id);
            }
        }
    }
}

/// A list is shown exactly where its run was found and its state and outcome
/// are known.
pub proof fn known_lists_are_shown(
    run: Option<Result<String, WorkerError>>,
    state: Option<Seq<char>>,
    outcome: Option<Seq<char>>,
    kinds: Seq<&'static str>,
)
    ensures
        list_refusal(run, state, outcome, kinds) is None <==> {
            &&& run is None || run->0 is Ok
            &&& state matches Some(name) ==> name == "queued"@ || name == "active"@ || name
                == "open"@ || name == "closed"@ || name == "abandoned"@ || name == "lost"@
            &&& outcome matches Some(kind) ==> exists|i: int|
                0 <= i < kinds.len() && (#[trigger] kinds[i])@ == underscored(kind)
        },
{
    if let Some(name) = state {
        if exists|named: TaskState| #[trigger] named.spelling() == name {
            let named = choose|named: TaskState| #[trigger] named.spelling() == name;
            match named {
                TaskState::Queued => {},
                TaskState::Active => {},
                TaskState::Open => {},
                TaskState::Closed => {},
                TaskState::Abandoned => {},
                TaskState::Lost => {},
            }
        }
        assert(TaskState::Queued.spelling() == "queued"@);
        assert(TaskState::Active.spelling() == "active"@);
        assert(TaskState::Open.spelling() == "open"@);
        assert(TaskState::Closed.spelling() == "closed"@);
        assert(TaskState::Abandoned.spelling() == "abandoned"@);
        assert(TaskState::Lost.spelling() == "lost"@);
    }
}

} // verus!
