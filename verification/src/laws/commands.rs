//! Why a task command is refused, and which reason comes first.
use vstd::prelude::*;
use vstd::string::*;
use crate::error::WorkerError;
use crate::scheduler::WorkerPreference;
use crate::task::TaskState;
use crate::task_options::{
    agent_refusal, close_fault, config_refused, first_text, is_kind, limits_refusal, list_refusal,
    opt_view, passed_on, preferred, refusal_outcome, scope_fault, sooner, task_outcome,
    underscored, LimitOptions, LimitsVerdict, Refusal, SubmitCommand, SubmitFindings,
};
use crate::text::{opt_text, texts};

verus! {

/// An option is refused as a task's configuration, with its own text; an agent
/// that is not known has a code of its own, and what others refused is passed
/// on as it is.
pub proof fn refusals_are_task_errors<T>(
    result: Result<T, WorkerError>,
    message: Seq<char>,
    error: WorkerError,
)
    ensures
        task_outcome(result, None) <==> result is Ok,
        task_outcome(result, Some(message)) <==> result is Err && result->Err_0 is Task
            && result->Err_0->Task_code@ == "TASK_CONFIG_INVALID"@ && result->Err_0->Task_message@
            == message,
        refusal_outcome(result, None) <==> result is Ok,
        refusal_outcome(result, Some(Refusal::Config { message })) <==> task_outcome(
            result,
            Some(message),
        ),
        refusal_outcome(result, Some(Refusal::UnknownAgent)) <==> result is Err && result->Err_0
            is Task && result->Err_0->Task_code@ == "AGENT_UNSUPPORTED"@
            && result->Err_0->Task_message@ == "unknown agent"@,
        refusal_outcome(result, Some(Refusal::Passed { error })) <==> result == Err::<
            T,
            WorkerError,
        >(error),
{
}

/// Of two refusals the first is told; what is fine is not refused.
pub proof fn first_refusals_are_told<T>(
    first: Refusal,
    second: Option<Refusal>,
    message: Seq<char>,
    outcome: Result<T, WorkerError>,
    text: &str,
    worker: String,
    name: Seq<char>,
    session_agent: Seq<char>,
)
    ensures
        sooner(Some(first), second) == Some(first),
        sooner(None, second) == second,
        config_refused(Some(message)) == Some(Refusal::Config { message }),
        config_refused(None) is None,
        outcome is Ok ==> passed_on(outcome) is None,
        outcome is Err ==> passed_on(outcome) == Some(Refusal::Passed { error: outcome->Err_0 }),
        opt_view(Some(text)) == Some(text@),
        opt_view(None) is None,
        preferred(Some(worker)) == (WorkerPreference::Pinned { worker }),
        preferred(None) == WorkerPreference::Automatic,
        agent_refusal(name, session_agent) is None <==> name == "codex"@ || name == session_agent
            || name == "cursor"@ || name == "opencode"@,
        agent_refusal(name, session_agent) is Some ==> agent_refusal(name, session_agent) == Some(
            Refusal::UnknownAgent,
        ),
        first_text(Some(worker), None) == Some(worker@),
        first_text(None, Some(worker)) == Some(worker@),
        first_text(None, None) is None,
{
}

/// The first of two texts counts.
pub proof fn the_first_text_counts(first: String, second: Option<String>)
    ensures
        first_text(Some(first), second) == Some(first@),
{
}

/// Why the source and publication options are refused: the source, then an
/// unknown mode, then a repeated one, then a branch that nothing is pushed to.
pub proof fn unfit_scopes_are_told(
    source: Option<Seq<char>>,
    publish: Seq<Seq<char>>,
    publish_branch: Option<Seq<char>>,
)
    ensures
        ({
            let fault = scope_fault(source, publish, publish_branch);
            let known = source is None || source == Some("local"@) || source == Some("origin"@);
            let moded = forall|i: int|
                0 <= i < publish.len() ==> #[trigger] publish[i] == "fetch"@ || publish[i]
                    == "push"@;
            &&& !known ==> fault == Some("source must be local or origin (TASK_CONFIG_INVALID)"@)
            &&& known && !moded ==> fault == Some(
                "publish must be fetch or push (TASK_CONFIG_INVALID)"@,
            )
            &&& known && publish == seq!["push"@, "push"@] ==> fault == Some(
                "publish modes must be unique (TASK_CONFIG_INVALID)"@,
            )
            &&& known && publish == seq!["fetch"@, "fetch"@] ==> fault == Some(
                "publish modes must be unique (TASK_CONFIG_INVALID)"@,
            )
            &&& known && publish.len() == 0 && publish_branch is Some ==> fault == Some(
                "publish_branch requires publish push (TASK_CONFIG_INVALID)"@,
            )
        }),
{
    reveal_strlit("fetch");
    reveal_strlit("push");
    assert("fetch"@.len() == 5 && "push"@.len() == 4);
    reveal_with_fuel(crate::task_options::occurrences, 3);
    if publish == seq!["push"@, "push"@] {
        assert(publish[0] == "push"@ && publish[1] == "push"@);
    }
    if publish == seq!["fetch"@, "fetch"@] {
        assert(publish[0] == "fetch"@ && publish[1] == "fetch"@);
    }
}

/// Why a task is not closed as it is asked to be, why limits are refused, and
/// why a list is not shown: the run is looked for first, then the state is read,
/// then the outcome.
pub proof fn unfit_options_are_told(
    close: Option<Seq<char>>,
    options: LimitOptions,
    verdict: LimitsVerdict,
    run: Option<Result<String, WorkerError>>,
    state: Option<Seq<char>>,
    outcome: Option<Seq<char>>,
    kinds: Seq<&'static str>,
)
    ensures
        close_fault(close) is Some ==> close_fault(close) == Some("close_on must be done or never"@),
        (options.timeout matches Some(millis) && millis > 18446744073709551615) ==> limits_refusal(
            options,
            verdict,
        ) == Some(Refusal::Config { message: "timeout is too large"@ }),
        ({
            let refusal = list_refusal(run, state, outcome, kinds);
            let found = run is None || run->0 is Ok;
            let known = state is None || exists|named: TaskState| #[trigger]
                named.spelling() == state->0;
            &&& !found ==> refusal == Some(Refusal::Passed { error: run->0->Err_0 })
            &&& found && !known ==> refusal == Some(
                Refusal::Config { message: "unknown task state"@ },
            )
            &&& found && known && outcome is Some && !is_kind(kinds, underscored(outcome->0))
                ==> refusal == Some(Refusal::Config { message: "unknown task outcome"@ })
        }),
{
}

/// Why a submission is refused: its scope comes first, then its prompt, its
/// limits, its directory, its agent, and when it closes.
pub proof fn unfit_submissions_are_told(
    command: SubmitCommand,
    findings: SubmitFindings,
    named: Result<String, WorkerError>,
    session_agent: Seq<char>,
)
    ensures
        ({
            let refusal = command.controller_refusal(findings, named, session_agent);
            let scope = scope_fault(
                opt_text(command.source),
                texts(command.publish@),
                opt_text(command.publish_branch),
            );
            let limits = limits_refusal(command.limits, findings.verdict);
            let opened = scope is None && findings.prompt is Ok && limits is None
                && findings.current_dir is Ok;
            &&& scope is Some ==> refusal == Some(Refusal::Config { message: scope->0 })
            &&& scope is None && findings.prompt is Err ==> refusal == Some(
                Refusal::Passed { error: findings.prompt->Err_0 },
            )
            &&& scope is None && findings.prompt is Ok && limits is Some ==> refusal == limits
            &&& scope is None && findings.prompt is Ok && limits is None && findings.current_dir
                is Err ==> refusal == Some(Refusal::Passed { error: findings.current_dir->Err_0 })
            &&& (opened && (command.agent matches Some(name) && agent_refusal(name@, session_agent)
                is Some)) ==> refusal == Some(Refusal::UnknownAgent)
            &&& opened && command.agent is None && named is Err ==> refusal == Some(
                Refusal::Passed { error: named->Err_0 },
            )
            &&& (opened && (command.agent matches Some(name) && agent_refusal(name@, session_agent)
                is None) && close_fault(opt_text(command.close_on)) is Some) ==> refusal == Some(
                Refusal::Config { message: "close_on must be done or never"@ },
            )
        }),
        ({
            let chosen = command.chosen_project(findings);
            &&& command.project matches Some(project) ==> chosen == project@
            &&& command.project is None && findings.current_dir is Ok ==> chosen
                == findings.current_dir->Ok_0@
        }),
{
}

} // verus!
