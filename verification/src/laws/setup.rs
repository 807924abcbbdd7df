//! What a worker's owner is asked, told and shown while the worker is connected.
use vstd::prelude::*;
use vstd::string::*;
use crate::config::{identifier_ok, ssh_destination_ok};
use crate::error::ExitKind;
use crate::laws::laptop::parts_follow_each_other;
use crate::onboarding::{
    destination_ok, install_guide_for, known_agent, login_command_for, parsed, profile_ok, quoted,
    warnings_noted, AgentCheck, InitContext, InitEvidence, InitReport, InitRequest,
    InitStep, Installation, ReportModel, StepModel, WorkerHealth,
};
use crate::text::{join, opt_text, utf8};
use crate::words::{find, find_bounds, parts, parts_from};

verus! {

proof fn longer_texts_are_searched_alike(text: Seq<char>, c: char, mark: char, from: int)
    requires
        0 <= from <= text.len(),
        c != mark,
    ensures
        find(text, mark, from) < text.len() ==> find(text.push(c), mark, from) == find(
            text,
            mark,
            from,
        ),
        find(text, mark, from) >= text.len() ==> find(text.push(c), mark, from) == text.len() + 1,
    decreases text.len() - from,
{
    let longer = text.push(c);
    if from < text.len() {
        assert(longer[from] == text[from]);
        if text[from] != mark {
            longer_texts_are_searched_alike(text, c, mark, from + 1);
        }
    } else {
        assert(longer[from] == c);
        assert(find(longer, mark, from) == find(longer, mark, from + 1));
    }
}

proof fn last_parts_grow(text: Seq<char>, c: char, mark: char, from: int)
    requires
        0 <= from <= text.len(),
        c != mark,
    ensures
        parts_from(text, mark, from).len() > 0,
        parts_from(text.push(c), mark, from) == parts_from(text, mark, from).drop_last().push(
            parts_from(text, mark, from).last().push(c),
        ),
    decreases text.len() - from,
{
    let longer = text.push(c);
    longer_texts_are_searched_alike(text, c, mark, from);
    find_bounds(text, mark, from);
    find_bounds(longer, mark, from);
    let at = find(text, mark, from);
    let old_parts = parts_from(text, mark, from);
    if at >= text.len() {
        assert(longer.subrange(from, longer.len() as int) =~= text.subrange(
            from,
            text.len() as int,
        ).push(c));
        assert(old_parts.drop_last() =~= Seq::<Seq<char>>::empty());
        assert(parts_from(longer, mark, from) =~= old_parts.drop_last().push(
            old_parts.last().push(c),
        ));
    } else {
        last_parts_grow(text, c, mark, at + 1);
        let rest = parts_from(text, mark, at + 1);
        assert(longer.subrange(from, at) =~= text.subrange(from, at));
        assert(old_parts.last() == rest.last());
        assert(parts_from(longer, mark, from) =~= old_parts.drop_last().push(
            old_parts.last().push(c),
        ));
    }
}

/// What is between the quotes: each quote of the text is closed, escaped and
/// opened again, and every other character stands for itself.
pub open spec fn escaped(text: Seq<char>) -> Seq<char>
    decreases text.len(),
{
    if text.len() == 0 {
        seq![]
    } else if text.last() == '\'' {
        escaped(text.drop_last()) + seq!['\'', '\\', '\'', '\'']
    } else {
        escaped(text.drop_last()).push(text.last())
    }
}

proof fn pieces_are_escaped(text: Seq<char>)
    ensures
        join(parts(text, '\''), "'\\''"@) == escaped(text),
    decreases text.len(),
{
    reveal_strlit("'\\''");
    let gap = "'\\''"@;
    assert(gap =~= seq!['\'', '\\', '\'', '\'']);
    if text.len() == 0 {
        find_bounds(text, '\'', 0);
        assert(parts(text, '\'') =~= seq![text.subrange(0, 0)]);
        assert(join(parts(text, '\''), gap) =~= seq![]);
    } else {
        let less = text.drop_last();
        pieces_are_escaped(less);
        let pieces = parts(less, '\'');
        if text.last() == '\'' {
            let nothing = Seq::<char>::empty();
            parts_follow_each_other(less, '\'', nothing);
            parts_follow_each_other(nothing, '\'', nothing);
            assert(text =~= less + seq!['\''] + nothing);
            let longer = pieces + seq![nothing];
            assert(parts(text, '\'') == longer);
            last_parts_grow(less, 'x', '\'', 0);
            assert(longer.drop_last() =~= pieces);
            assert(longer.last() == nothing);
            assert(join(longer, gap) == join(pieces, gap) + gap + nothing);
            assert(join(longer, gap) =~= escaped(text));
        } else {
            last_parts_grow(less, text.last(), '\'', 0);
            assert(text =~= less.push(text.last()));
            let grown = parts(text, '\'');
            assert(grown == pieces.drop_last().push(pieces.last().push(text.last())));
            assert(grown.drop_last() =~= pieces.drop_last());
            if pieces.len() == 1 {
                assert(join(pieces, gap) == pieces[0]);
                assert(join(grown, gap) == grown[0]);
            } else {
                assert(join(grown, gap) == join(pieces.drop_last(), gap) + gap + grown.last());
                assert(join(pieces, gap) == join(pieces.drop_last(), gap) + gap + pieces.last());
                assert(join(grown, gap) =~= join(pieces, gap).push(text.last()));
            }
        }
    }
}

/// A quoted text stands in single quotes, and a shell reads it back: every
/// quote inside it is escaped, and nothing else is changed.
pub proof fn quoted_texts_are_escaped(text: Seq<char>)
    ensures
        quoted(text) == seq!['\''] + escaped(text) + seq!['\''],
{
    pieces_are_escaped(text);
    reveal_strlit("'");
    assert("'"@ =~= seq!['\'']);
}

/// A destination is accepted where it is short enough, names an SSH host, and
/// holds no at-sign, or one with something behind it.
pub proof fn destinations_are_accepted(value: Seq<char>, user: Seq<char>, host: Seq<char>)
    requires
        forall|i: int| 0 <= i < value.len() ==> value[i] != '@',
        forall|i: int| 0 <= i < user.len() ==> user[i] != '@',
        forall|i: int| 0 <= i < host.len() ==> host[i] != '@',
    ensures
        destination_ok(value) <==> utf8(value).len() <= 253 && ssh_destination_ok(value),
        destination_ok(user + seq!['@'] + host) <==> utf8(user + seq!['@'] + host).len() <= 253
            && ssh_destination_ok(user + seq!['@'] + host) && host.len() > 0,
        !destination_ok(user + seq!['@'] + (host + seq!['@'] + value)),
{
    parts_follow_each_other(value, '@', value);
    parts_follow_each_other(user, '@', host);
    parts_follow_each_other(host, '@', value);
    parts_follow_each_other(user, '@', host + seq!['@'] + value);
    let both = parts(user + seq!['@'] + host, '@');
    assert(both =~= seq![user, host]);
    assert(parts(user + seq!['@'] + (host + seq!['@'] + value), '@') =~= seq![user, host, value]);
}

/// A request is accepted exactly where its destination, its name, its profile
/// and its agent are; otherwise the first of them that is not is told.
pub proof fn requests_are_accepted(request: InitRequest, session_agent: Seq<char>)
    ensures
        request.fault(session_agent) is None <==> {
            &&& destination_ok(request.destination@)
            &&& request.name matches Some(name) ==> identifier_ok(name@)
            &&& request.env_profile matches Some(profile) ==> profile_ok(profile@)
            &&& request.agent@ == "codex"@ || request.agent@ == "cursor"@ || request.agent@
                == "opencode"@ || request.agent@ == session_agent
        },
        !destination_ok(request.destination@) ==> request.fault(session_agent) == Some(
            "use an SSH alias or user@hostname (configure ports and keys in ~/.ssh/config)"@,
        ),
        (destination_ok(request.destination@) && (request.name matches Some(name)
            && !identifier_ok(name@))) ==> request.fault(session_agent) == Some(
            "use a non-empty worker name containing letters, numbers, dots, underscores, hyphens or @"@,
        ),
        (destination_ok(request.destination@) && (request.name matches Some(name) ==> identifier_ok(
            name@,
        )) && (request.env_profile matches Some(profile) && !profile_ok(profile@)))
            ==> request.fault(session_agent) == Some(
            "use 1–128 letters, numbers, dots, underscores or hyphens"@,
        ),
        (destination_ok(request.destination@) && (request.name matches Some(name) ==> identifier_ok(
            name@,
        )) && (request.env_profile matches Some(profile) ==> profile_ok(profile@))
            && !known_agent(request.agent@, session_agent)) ==> request.fault(session_agent)
            == Some("unknown agent"@),
{
}

/// An option is given back as it was written, or refused with its complaint.
pub proof fn options_are_given_back(
    result: Result<String, String>,
    value: Seq<char>,
    ok: bool,
    complaint: Seq<char>,
)
    ensures
        parsed(result, value, true, complaint) <==> result is Ok && result->Ok_0@ == value,
        parsed(result, value, false, complaint) <==> result is Err && result->Err_0@ == complaint,
{
}

/// Where each agent's guide is, and how it is logged in.
pub proof fn agents_have_their_guides(agent: Seq<char>)
    ensures
        install_guide_for("codex"@)
            == "brew install --cask codex (https://developers.openai.com/codex/cli/)"@,
        install_guide_for("cursor"@) == "https://cursor.com/docs/cli/installation"@,
        install_guide_for("opencode"@) == "https://opencode.ai/docs/"@,
        login_command_for("codex"@)
            == "codex login --device-auth (or codex login in a desktop session)"@,
        login_command_for("cursor"@)
            == "cursor-agent login; see the environment-profile guide for headless Keychain access"@,
        login_command_for("opencode"@) == "opencode auth login"@,
        agent != "codex"@ && agent != "cursor"@ && agent != "opencode"@ ==> install_guide_for(agent)
            == "https://code."@ + agent + ".com/docs/en/setup"@ && login_command_for(agent)
            == agent + " auth login; see the environment-profile guide if using an API key"@,
{
    reveal_strlit("codex");
    reveal_strlit("cursor");
    reveal_strlit("opencode");
    assert("codex"@.len() == 5);
    assert("cursor"@.len() == 6);
    assert("opencode"@.len() == 8);
}

/// The commands that are suggested repeat what was asked for.
pub proof fn suggestions_repeat_the_request(
    request: InitRequest,
    config_path: Seq<char>,
    worker: Seq<char>,
)
    ensures
        request.env_profile is None ==> request.options() == "--agent "@ + request.agent@,
        request.env_profile is Some ==> request.options() == "--agent "@ + request.agent@ + (
        " --env-profile="@ + request.env_profile->0@),
        request.retry(config_path, worker) == "worker init "@ + request.destination@ + " --config "@
            + quoted(config_path) + " --name="@ + worker + " "@ + request.options(),
        request.login_shell() == "ssh -t -o ForwardAgent=no -o ClearAllForwardings=yes -- "@
            + request.destination@,
{
    reveal_strlit("");
    assert("--agent "@ + request.agent@ + ""@ =~= "--agent "@ + request.agent@);
}

/// A step that passed, a warning and an obstacle are each added behind the
/// steps before them; an obstacle says how the run ends and what to do, and
/// nothing else of the report changes.
pub proof fn steps_are_added(
    report: ReportModel,
    name: Seq<char>,
    code: Seq<char>,
    message: Seq<char>,
    next: Seq<Seq<char>>,
    kind: ExitKind,
)
    ensures
        ({
            let passed = report.passed(name, message);
            &&& passed.steps.drop_last() == report.steps
            &&& passed.steps.last() == (StepModel { name, status: "ok"@, code: None, message })
            &&& passed.ready == report.ready
            &&& passed.exit_kind == report.exit_kind
            &&& passed.next_steps == report.next_steps
            &&& passed.worker == report.worker
            &&& passed.ssh == report.ssh
            &&& passed.agent == report.agent
            &&& passed.config_path == report.config_path
        }),
        ({
            let warned = report.warned(code);
            &&& warned.steps.drop_last() == report.steps
            &&& warned.steps.last().name == "helper"@
            &&& warned.steps.last().status == "warning"@
            &&& warned.steps.last().code == Some(code)
            &&& warned.steps.last().message
                == "Setup retained recovery state; see docs/setup-recovery.md before another installation."@
            &&& warned.ready == report.ready
            &&& warned.exit_kind == report.exit_kind
            &&& warned.next_steps == report.next_steps
            &&& warned.worker == report.worker
        }),
        ({
            let blocked = report.blocked(name, code, message, next, kind);
            &&& blocked.steps.drop_last() == report.steps
            &&& blocked.steps.last() == (StepModel {
                name,
                status: "blocked"@,
                code: Some(code),
                message,
            })
            &&& blocked.ready == report.ready
            &&& blocked.exit_kind == Some(kind)
            &&& blocked.next_steps == next
            &&& blocked.worker == report.worker
            &&& blocked.ssh == report.ssh
            &&& blocked.agent == report.agent
            &&& blocked.config_path == report.config_path
        }),
{
    assert(report.passed(name, message).steps.drop_last() =~= report.steps);
    assert(report.warned(code).steps.drop_last() =~= report.steps);
    assert(report.blocked(name, code, message, next, kind).steps.drop_last() =~= report.steps);
}

/// Every warning of an installation is noted, in order.
pub proof fn warnings_are_noted_in_order(report: ReportModel, warnings: Seq<String>, count: int, at: int)
    requires
        0 <= count <= warnings.len(),
        0 <= at < count,
    ensures
        warnings_noted(report, warnings, count).steps.len() == report.steps.len() + count,
        warnings_noted(report, warnings, count).steps[report.steps.len() + at].code == Some(
            warnings[at]@,
        ),
        warnings_noted(report, warnings, count).steps[report.steps.len() + at].status
            == "warning"@,
    decreases count,
{
    if at < count - 1 {
        warnings_are_noted_in_order(report, warnings, count - 1, at);
    } else if count > 1 {
        warnings_are_noted_in_order(report, warnings, count - 1, 0);
    } else {
        assert(warnings_noted(report, warnings, 0) == report);
    }
}

/// A step is shown by its status, its name, its code where it has one, and its
/// message; what a step and a report say.
pub proof fn steps_are_shown(step: StepModel, held: InitStep, report: InitReport, at: int)
    ensures
        step.code is None ==> step.line() == "  "@ + step.status + " "@ + step.name + ": "@
            + step.message,
        step.code is Some ==> step.line() == "  "@ + step.status + " "@ + step.name + (" ["@
            + step.code->0 + "]"@) + ": "@ + step.message,
        held@.name == held.name@ && held@.status == held.status@ && held@.message == held.message@,
        held@.code == opt_text(held.code),
        report@.ready == report.ready && report@.exit_kind == report.exit_kind,
        report@.worker == report.worker@ && report@.ssh == report.ssh@,
        report@.agent == report.agent@ && report@.config_path == report.config_path@,
        report@.steps.len() == report.steps@.len(),
        report@.next_steps.len() == report.next_steps@.len(),
        0 <= at < report.steps@.len() ==> report@.steps[at] == report.steps@[at]@,
        0 <= at < report.next_steps@.len() ==> report@.next_steps[at] == report.next_steps@[at]@,
{
    reveal_strlit("");
    let head = "  "@ + step.status + " "@ + step.name;
    assert(head + ""@ =~= head);
}

/// The report opens with the worker, shows every step, says after an empty line
/// whether the worker is ready, and ends with what to do next.
pub proof fn reports_are_shown(report: ReportModel, step: int, next: int)
    ensures
        report.lines().len() == 3 + report.steps.len() + report.next_steps.len(),
        report.lines()[0] == "Connecting "@ + report.worker + " ("@ + report.ssh + ")"@,
        0 <= step < report.steps.len() ==> report.lines()[1 + step] == report.steps[step].line(),
        report.lines()[1 + report.steps.len() as int] == Seq::<char>::empty(),
        report.ready ==> report.lines()[2 + report.steps.len() as int] == report.worker
            + " is configured for "@ + report.agent + " tasks."@,
        !report.ready ==> report.lines()[2 + report.steps.len() as int]
            == "One more step is needed. Complete the instructions below, then rerun init."@,
        0 <= next < report.next_steps.len() ==> report.lines()[3 + report.steps.len() + next]
            == "  "@ + report.next_steps[next],
{
    reveal_strlit("");
    assert(""@ =~= Seq::<char>::empty());
}

/// A report begins with what init was asked for, and with nothing done.
pub proof fn reports_begin_empty(context: InitContext)
    ensures
        ({
            let report = context.empty_report();
            &&& !report.ready
            &&& report.worker == context.worker@
            &&& report.ssh == context.ssh@
            &&& report.agent == context.request.agent@
            &&& report.config_path == context.config_path@
            &&& report.steps.len() == 0
            &&& report.next_steps.len() == 0
            &&& report.exit_kind is None
        }),
        context.again() == context.request.retry(context.config_path@, context.worker@),
{
}

/// A worker that is ready is shown how a first task is submitted and fetched.
pub proof fn ready_workers_are_invited(context: InitContext, report: ReportModel)
    ensures
        ({
            let ready = context.authenticated(report);
            &&& ready.ready
            &&& ready.exit_kind == report.exit_kind
            &&& ready.worker == report.worker
            &&& ready.steps.last().name == "agent"@
            &&& ready.steps.last().status == "ok"@
            &&& ready.steps.last().message == context.request.agent@ + " authenticated over SSH"@
            &&& ready.next_steps.len() == 4
            &&& ready.next_steps[0] == "In a Git repository with a commit, run:"@
            &&& ready.next_steps[1] == "worker task submit --config "@ + quoted(
                context.config_path@,
            ) + " --worker="@ + report.worker + " "@ + context.request.options()
                + " --wait --prompt \"Create SETUP_CHECK.md containing: mac-worker works.\""@
            &&& ready.next_steps[2] == "worker task fetch <task-id> --config "@ + quoted(
                context.config_path@,
            )
            &&& ready.next_steps[3]
                == "The worker also needs your project's toolchain and dependencies. Keep the Mac awake and connected."@
        }),
{
}

/// What the owner is told where the login is not confirmed, and where the
/// requested profile cannot be used; the last thing is always to try again.
pub proof fn blocked_agents_are_explained(
    context: InitContext,
    report: ReportModel,
    agent: AgentCheck,
    profiles: Seq<(String, bool)>,
)
    ensures
        ({
            let blocked = context.unauthenticated(report);
            &&& blocked.steps.last().message
                == "The selected agent has not confirmed a headless login for this account/profile."@
            &&& blocked.next_steps.len() == 4
            &&& blocked.next_steps[0] == "Open a shell on the worker: "@
                + context.request.login_shell()
            &&& blocked.next_steps[1] == "Complete login there: "@ + login_command_for(
                context.request.agent@,
            )
            &&& blocked.next_steps[2]
                == "If you use a profile, check its credentials locally on the worker. Never paste them into a task."@
            &&& blocked.next_steps[3] == context.again()
        }),
        (context.request.env_profile matches Some(profile) && (forall|i: int|
            0 <= i < profiles.len() ==> !((#[trigger] profiles[i]).0@ == profile@
                && profiles[i].1))) ==> {
            let blocked = context.with_agent(report, agent, profiles);
            &&& blocked.steps.last().message
                == "The requested environment profile is missing or has insecure permissions."@
            &&& blocked.next_steps.len() == 3
            &&& blocked.next_steps[0] == "On the worker, provision ~/.config/mac-worker/env/"@
                + context.request.env_profile->0@
                + ".env as the worker account with mode 0600."@
            &&& blocked.next_steps[1]
                == "Profile guide: https://github.com/kirchik95/mac-worker/blob/main/docs/setup-macos-worker.md#environment-profiles"@
            &&& blocked.next_steps[2] == context.again()
            &&& blocked.exit_kind == Some(ExitKind::Unavailable)
        },
{
}

/// What the owner is told where the worker cannot be reached, is no Apple
/// Silicon Mac or has no Git, and which steps passed before.
pub proof fn unfit_workers_are_explained(context: InitContext, evidence: InitEvidence)
    requires
        evidence.supported,
    ensures
        evidence.ssh == Some(false) ==> {
            let report = context.decision(evidence)->report;
            &&& context.decision(evidence) is Finished
            &&& report.steps.len() == 1
            &&& report.steps[0].name == "ssh"@
            &&& report.steps[0].message
                == "Passwordless SSH is not ready. Enable Remote Login on the Mac and authorize your SSH key."@
            &&& report.next_steps.len() == 3
            &&& report.next_steps[0]
                == "Connect once, verify the host fingerprint and check your account: "@
                + context.request.login_shell()
            &&& report.next_steps[1]
                == "SSH setup guide: https://github.com/kirchik95/mac-worker/blob/main/docs/setup-macos-worker.md#2-connect-over-ssh"@
            &&& report.next_steps[2] == context.again()
            &&& report.worker == context.worker@
        },
        (evidence.ssh == Some(true) && (evidence.platform matches Some(printed) && (printed is None
            || printed->0@ != utf8("Darwin\narm64\n"@)))) ==> {
            let report = context.decision(evidence)->report;
            &&& context.decision(evidence) is Finished
            &&& report.steps.len() == 2
            &&& report.steps[0].name == "ssh"@ && report.steps[0].status == "ok"@
            &&& report.steps[0].message == "Connected without a password prompt"@
            &&& report.steps[1].name == "platform"@
            &&& report.steps[1].message
                == "The worker must be an Apple Silicon Mac (Darwin/arm64). No helper was uploaded."@
            &&& report.next_steps == seq!["Choose an Apple Silicon Mac and rerun init."@]
        },
        (evidence.ssh == Some(true) && (evidence.platform matches Some(Some(printed)) && printed@
            == utf8("Darwin\narm64\n"@)) && evidence.git == Some(false)) ==> {
            let report = context.decision(evidence)->report;
            &&& context.decision(evidence) is Finished
            &&& report.steps.len() == 3
            &&& report.steps[1].name == "platform"@ && report.steps[1].status == "ok"@
            &&& report.steps[1].message == "Apple Silicon Mac"@
            &&& report.steps[2].name == "git"@
            &&& report.steps[2].message == "Git is not available to the worker account."@
            &&& report.next_steps == seq![
                "On the Mac, run xcode-select --install and complete the Command Line Tools installer."@,
                context.again(),
            ]
        },
{
}

/// A machine that init cannot run on is told so before anything is tried.
pub proof fn unfit_laptops_are_explained(context: InitContext, evidence: InitEvidence)
    requires
        !evidence.supported,
    ensures
        ({
            let report = context.decision(evidence)->report;
            &&& context.decision(evidence) is Finished
            &&& report.steps.len() == 1
            &&& report.steps[0].name == "platform"@
            &&& report.steps[0].message
                == "First-run installation currently requires an Apple Silicon Mac as the controller."@
            &&& report.next_steps == seq![
                "Run init from an Apple Silicon Mac using the arm64 release binary."@,
            ]
        }),
{
}

/// A worker that is entered into the inventory is shown under its name there,
/// with everything that passed before.
pub proof fn entered_workers_are_shown(context: InitContext, evidence: InitEvidence)
    requires
        evidence.worker_fits(),
        evidence.registered is Some,
        evidence.helper_ready == Some(true),
        evidence.refreshed is Some,
        evidence.refreshed == Some(true) ==> evidence.health is Some,
    ensures
        ({
            let report = context.decision(evidence)->report;
            let name = evidence.registered->0@;
            &&& context.decision(evidence) is Finished
            &&& report.worker == name
            &&& report.ssh == context.ssh@
            &&& report.agent == context.request.agent@
            &&& report.config_path == context.config_path@
            &&& report.steps.len() == 6
            &&& report.steps[0].name == "ssh"@ && report.steps[0].status == "ok"@
            &&& report.steps[1].name == "platform"@ && report.steps[1].status == "ok"@
            &&& report.steps[2].name == "git"@ && report.steps[2].status == "ok"@
            &&& report.steps[2].message == "Git is available"@
            &&& report.steps[3].name == "config"@ && report.steps[3].status == "ok"@
            &&& report.steps[3].message == "Registered "@ + name + "; inventory: "@
                + context.config_path@
            &&& report.steps[4].name == "helper"@ && report.steps[4].status == "ok"@
            &&& report.steps[4].message == "Compatible helper installed"@
            &&& report.steps[5].name == "agent"@
            &&& evidence.refreshed == Some(false) ==> report.steps[5].message
                == "Could not refresh agent checks on the worker."@ && report.next_steps
                == seq![context.again()]
        }),
{
}

/// What the owner is told where the helper could not be installed.
pub proof fn failed_installations_are_explained(
    context: InitContext,
    report: ReportModel,
    installation: Installation,
    evidence: InitEvidence,
)
    requires
        installation.outcome is Failed,
    ensures
        ({
            let ended = context.with_installation(report, installation, evidence)->report;
            &&& context.with_installation(report, installation, evidence) is Finished
            &&& ended.steps.last().name == "helper"@
            &&& ended.steps.last().message
                == "The helper could not be installed. The worker configuration is saved."@
            &&& ended.next_steps == seq![
                "Installation recovery: https://github.com/kirchik95/mac-worker/blob/main/docs/setup-recovery.md"@,
                "After resolving the reported error: "@ + context.again(),
            ]
        }),
{
}

/// What the owner is told where the checks are missing or old, and where the
/// agent is not installed.
pub proof fn missing_agents_are_explained(
    context: InitContext,
    report: ReportModel,
    health: WorkerHealth,
)
    ensures
        (!health.ready || health.facts_age_millis is None || health.facts_age_millis->0
            > context.facts_ttl_millis || health.checks is None) ==> {
            let blocked = context.with_health(report, health);
            &&& blocked.steps.last().message == "The worker did not return fresh agent checks."@
            &&& blocked.next_steps == seq![context.again()]
        },
        (health.ready && health.facts_age_millis is Some && health.facts_age_millis->0
            <= context.facts_ttl_millis && (health.checks matches Some(checks)
            && checks.agents@.len() == 0)) ==> {
            let blocked = context.with_health(report, health);
            &&& blocked.steps.last().message
                == "The selected agent is not on the worker account's login PATH."@
            &&& blocked.next_steps == seq![
                "Open a shell on the worker: "@ + context.request.login_shell(),
                "Install "@ + context.request.agent@ + " there: "@ + install_guide_for(
                    context.request.agent@,
                ),
                context.again(),
            ]
        },
{
}

} // verus!
