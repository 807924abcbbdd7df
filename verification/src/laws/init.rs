//! Connecting a worker: when it is ready, and what stands in its way.
use vstd::prelude::*;
use crate::error::ExitKind;
use crate::onboarding::{
    find_agent, find_flag, fresh_checks, warnings_noted, AgentCheck, AgentChecks, DecisionModel,
    InitAction, InitContext, InitEvidence, ReportModel,
};
use crate::text::utf8;

verus! {

/// The first agent of a name stands here.
pub open spec fn first_of_name(agents: Seq<AgentCheck>, name: Seq<char>, at: int) -> bool {
    &&& 0 <= at < agents.len()
    &&& agents[at].name@ == name
    &&& forall|i: int| 0 <= i < at ==> (#[trigger] agents[i]).name@ != name
}

/// The first pair of a name stands here.
pub open spec fn first_pair_of_name(pairs: Seq<(String, bool)>, name: Seq<char>, at: int) -> bool {
    &&& 0 <= at < pairs.len()
    &&& pairs[at].0@ == name
    &&& forall|i: int| 0 <= i < at ==> (#[trigger] pairs[i]).0@ != name
}

/// The agent is logged in: by its own login where no profile is asked for, else
/// for that profile, which only its owner can read.
pub open spec fn logged_in(
    agent: AgentCheck,
    profiles: Seq<(String, bool)>,
    wanted: Option<String>,
) -> bool {
    match wanted {
        None => agent.authenticated,
        Some(profile) => {
            &&& exists|i: int|
                0 <= i < profiles.len() && (#[trigger] profiles[i]).0@ == profile@ && profiles[i].1
            &&& exists|i: int|
                #[trigger] first_pair_of_name(agent.by_profile@, profile@, i)
                    && agent.by_profile@[i].1
        },
    }
}

/// The worker has given checks that are fresh, and they confirm the login of the
/// requested agent.
pub open spec fn login_is_confirmed(context: InitContext, evidence: InitEvidence) -> bool {
    &&& evidence.refreshed == Some(true)
    &&& evidence.health matches Some(health) && {
        &&& health.ready
        &&& health.facts_age_millis matches Some(age) && age <= context.facts_ttl_millis
        &&& health.checks matches Some(checks) && exists|i: int|
            #[trigger] first_of_name(checks.agents@, context.request.agent@, i) && logged_in(
                checks.agents@[i],
                checks.profiles@,
                context.request.env_profile,
            )
    }
}

/// The worker answers, is an Apple Silicon Mac, has Git, is entered into the
/// inventory and has its helper.
pub open spec fn worker_is_set_up(evidence: InitEvidence) -> bool {
    &&& evidence.supported
    &&& evidence.ssh == Some(true)
    &&& evidence.platform matches Some(Some(printed)) && printed@ == utf8("Darwin\narm64\n"@)
    &&& evidence.git == Some(true)
    &&& evidence.registered is Some
    &&& evidence.helper_ready == Some(true) || (evidence.helper_ready == Some(false) && (
    evidence.installation matches Some(installation) && installation.outcome is Installed))
}

pub proof fn agents_are_found(agents: Seq<AgentCheck>, name: Seq<char>, at: int)
    requires
        0 <= at <= agents.len(),
        forall|i: int| 0 <= i < at ==> (#[trigger] agents[i]).name@ != name,
    ensures
        find_agent(agents, name, at) is None <==> forall|i: int|
            0 <= i < agents.len() ==> (#[trigger] agents[i]).name@ != name,
        forall|i: int| #[trigger]
            first_of_name(agents, name, i) ==> find_agent(agents, name, at) == Some(agents[i]),
        find_agent(agents, name, at) is Some ==> exists|i: int| #[trigger]
            first_of_name(agents, name, i),
    decreases agents.len() - at,
{
    if at < agents.len() {
        if agents[at].name@ == name {
            assert(first_of_name(agents, name, at));
            assert forall|i: int| #[trigger] first_of_name(agents, name, i) implies i == at by {
                if i < at {
                    assert(agents[i].name@ == name);
                }
            }
        } else {
            agents_are_found(agents, name, at + 1);
        }
    }
}

pub proof fn pairs_are_found(pairs: Seq<(String, bool)>, name: Seq<char>, at: int)
    requires
        0 <= at <= pairs.len(),
        forall|i: int| 0 <= i < at ==> (#[trigger] pairs[i]).0@ != name,
    ensures
        find_flag(pairs, name, at) is None <==> forall|i: int|
            0 <= i < pairs.len() ==> (#[trigger] pairs[i]).0@ != name,
        forall|i: int| #[trigger]
            first_pair_of_name(pairs, name, i) ==> find_flag(pairs, name, at) == Some(pairs[i].1),
        find_flag(pairs, name, at) is Some ==> exists|i: int| #[trigger]
            first_pair_of_name(pairs, name, i),
    decreases pairs.len() - at,
{
    if at < pairs.len() {
        if pairs[at].0@ == name {
            assert(first_pair_of_name(pairs, name, at));
            assert forall|i: int| #[trigger] first_pair_of_name(pairs, name, i) implies i == at by {
                if i < at {
                    assert(pairs[i].0@ == name);
                }
            }
        } else {
            pairs_are_found(pairs, name, at + 1);
        }
    }
}

proof fn warnings_leave_a_report_unready(report: ReportModel, warnings: Seq<String>, count: int)
    requires
        0 <= count,
    ensures
        warnings_noted(report, warnings, count).ready == report.ready,
        warnings_noted(report, warnings, count).exit_kind == report.exit_kind,
        warnings_noted(report, warnings, count).worker == report.worker,
        warnings_noted(report, warnings, count).ssh == report.ssh,
        warnings_noted(report, warnings, count).agent == report.agent,
        warnings_noted(report, warnings, count).config_path == report.config_path,
    decreases count,
{
    if count > 0 {
        warnings_leave_a_report_unready(report, warnings, count - 1);
    }
}

/// A login is confirmed where the found agent is logged in, and only there.
proof fn found_agents_decide(context: InitContext, report: ReportModel, checks: AgentChecks)
    requires
        !report.ready,
    ensures
        ({
            let found = find_agent(checks.agents@, context.request.agent@, 0);
            &&& found is Some && context.with_agent(report, found->0, checks.profiles@).ready
                <==> exists|i: int|
                #[trigger] first_of_name(checks.agents@, context.request.agent@, i) && logged_in(
                    checks.agents@[i],
                    checks.profiles@,
                    context.request.env_profile,
                )
        }),
{
    let wanted = context.request.agent@;
    agents_are_found(checks.agents@, wanted, 0);
    if let Some(agent) = find_agent(checks.agents@, wanted, 0) {
        let at = choose|i: int| #[trigger] first_of_name(checks.agents@, wanted, i);
        assert(first_of_name(checks.agents@, wanted, at));
        assert(checks.agents@[at] == agent);
        if let Some(profile) = context.request.env_profile {
            pairs_are_found(agent.by_profile@, profile@, 0);
            if find_flag(agent.by_profile@, profile@, 0) is Some {
                let k = choose|i: int| #[trigger]
                    first_pair_of_name(agent.by_profile@, profile@, i);
                assert(first_pair_of_name(agent.by_profile@, profile@, k));
            }
        }
        assert(context.with_agent(report, agent, checks.profiles@).ready <==> logged_in(
            agent,
            checks.profiles@,
            context.request.env_profile,
        ));
        assert forall|i: int| #[trigger] first_of_name(checks.agents@, wanted, i) implies checks.agents@[i]
            == agent by {}
    }
}

/// Init reports a worker as ready exactly where the worker is set up and its
/// fresh checks confirm the login of the requested agent: by the agent's own
/// login where no profile is asked for, else for the requested profile, which is
/// secure. An agent that is missing or not logged in never makes a ready worker.
pub proof fn ready_workers_are_logged_in(context: InitContext, evidence: InitEvidence)
    ensures
        (context.decision(evidence) is Finished && context.decision(evidence)->report.ready)
            <==> worker_is_set_up(evidence) && login_is_confirmed(context, evidence),
{
    if evidence.worker_fits() && evidence.registered is Some {
        let name = evidence.registered->0@;
        let entered = (ReportModel { worker: name, ..context.empty_report().passed(
            "ssh"@,
            "Connected without a password prompt"@,
        ).passed("platform"@, "Apple Silicon Mac"@).passed("git"@, "Git is available"@) }).passed(
            "config"@,
            "Registered "@ + name + "; inventory: "@ + context.config_path@,
        );
        assert(!entered.ready);
        let report = if evidence.helper_ready == Some(true) {
            entered
        } else if evidence.installation is Some {
            let warnings = evidence.installation->0.warnings@;
            warnings_leave_a_report_unready(entered, warnings, warnings.len() as int);
            warnings_noted(entered, warnings, warnings.len() as int)
        } else {
            entered
        };
        assert(!report.ready);
        if evidence.refreshed == Some(true) && evidence.health is Some && fresh_checks(
            evidence.health->0,
            context.facts_ttl_millis,
        ) is Some {
            let checks = evidence.health->0.checks->0;
            found_agents_decide(
                context,
                report.passed("helper"@, "Compatible helper installed"@),
                checks,
            );
        }
    }
}

/// What init asks for is the first thing that it does not know yet: a later
/// question is asked only where every earlier one was answered well.
pub proof fn questions_come_in_order(context: InitContext, evidence: InitEvidence)
    ensures
        context.decision(evidence) == (DecisionModel::Need { action: InitAction::CheckSsh })
            <==> evidence.supported && evidence.ssh is None,
        context.decision(evidence) == (DecisionModel::Need { action: InitAction::CheckPlatform })
            <==> evidence.supported && evidence.ssh == Some(true) && evidence.platform is None,
        context.decision(evidence) == (DecisionModel::Need { action: InitAction::CheckGit })
            <==> {
            &&& evidence.supported
            &&& evidence.ssh == Some(true)
            &&& evidence.platform matches Some(Some(printed)) && printed@ == utf8(
                "Darwin\narm64\n"@,
            )
            &&& evidence.git is None
        },
        context.decision(evidence) == (DecisionModel::Need { action: InitAction::Register })
            <==> evidence.worker_fits() && evidence.registered is None,
        context.decision(evidence) == (DecisionModel::Need { action: InitAction::ProbeHelper })
            <==> evidence.worker_fits() && evidence.registered is Some && evidence.helper_ready
            is None,
        context.decision(evidence) == (DecisionModel::Need { action: InitAction::InstallHelper })
            <==> evidence.worker_fits() && evidence.registered is Some && evidence.helper_ready
            == Some(false) && evidence.installation is None,
        context.decision(evidence) == (DecisionModel::Need { action: InitAction::RefreshChecks })
            <==> worker_is_set_up(evidence) && evidence.refreshed is None,
        context.decision(evidence) == (DecisionModel::Need { action: InitAction::ProbeHealth })
            <==> worker_is_set_up(evidence) && evidence.refreshed == Some(true)
            && evidence.health is None,
{
}

/// The report names what stands in the way: each obstacle has its own code on
/// the last step.
pub proof fn obstacles_are_named(context: InitContext, evidence: InitEvidence)
    requires
        context.decision(evidence) is Finished,
    ensures
        ({
            let report = context.decision(evidence)->report;
            let last = report.steps.last();
            &&& report.ready ==> last.code is None
            &&& !evidence.supported ==> last.code == Some("PLATFORM_UNSUPPORTED"@)
                && report.exit_kind == Some(ExitKind::Usage)
            &&& evidence.supported && evidence.ssh == Some(false) ==> last.code == Some(
                "SSH_UNAVAILABLE"@,
            ) && report.exit_kind == Some(ExitKind::Unavailable)
            &&& (evidence.supported && evidence.ssh == Some(true) && (evidence.platform matches Some(
                printed,
            ) && (printed is None || printed->0@ != utf8("Darwin\narm64\n"@)))) ==> last.code
                == Some("PLATFORM_UNSUPPORTED"@) && report.exit_kind == Some(ExitKind::Usage)
            &&& (evidence.supported && evidence.ssh == Some(true) && (
            evidence.platform matches Some(Some(printed)) && printed@ == utf8("Darwin\narm64\n"@))
                && evidence.git == Some(false)) ==> last.code == Some("GIT_MISSING"@)
                && report.exit_kind == Some(ExitKind::Unavailable)
            &&& (evidence.worker_fits() && evidence.registered is Some && evidence.helper_ready
                == Some(false) && (evidence.installation matches Some(installation)
                && installation.outcome is Failed)) ==> {
                let outcome = evidence.installation->0.outcome;
                &&& last.name == "helper"@
                &&& outcome->code matches Some(code) ==> last.code == Some(code@)
                &&& outcome->code is None ==> last.code == Some("INSTALL_FAILED"@)
                &&& report.exit_kind == Some(
                    match outcome->kind {
                        Some(kind) => kind,
                        None => ExitKind::Infrastructure,
                    },
                )
            }
            &&& worker_is_set_up(evidence) && evidence.refreshed == Some(false) ==> last.code
                == Some("REFRESH_FACTS_FAILED"@) && report.exit_kind == Some(ExitKind::Unavailable)
            &&& (worker_is_set_up(evidence) && evidence.refreshed == Some(true) && (
            evidence.health matches Some(health) && (!health.ready || health.facts_age_millis is None
                || health.facts_age_millis->0 > context.facts_ttl_millis || health.checks is None)))
                ==> last.code == Some("AGENT_FACTS_UNAVAILABLE"@) && report.exit_kind == Some(
                ExitKind::Unavailable,
            )
        }),
{
    if evidence.registered is Some && evidence.installation is Some {
        let name = evidence.registered->0@;
        let warnings = evidence.installation->0.warnings@;
        warnings_leave_a_report_unready(
            (ReportModel { worker: name, ..context.empty_report().passed(
                "ssh"@,
                "Connected without a password prompt"@,
            ).passed("platform"@, "Apple Silicon Mac"@).passed("git"@, "Git is available"@) }).passed(
                "config"@,
                "Registered "@ + name + "; inventory: "@ + context.config_path@,
            ),
            warnings,
            warnings.len() as int,
        );
    }
}

/// A missing agent, an insecure profile and a missing login are told apart.
pub proof fn agent_obstacles_are_named(
    context: InitContext,
    evidence: InitEvidence,
    checks: AgentChecks,
    at: int,
)
    requires
        worker_is_set_up(evidence),
        evidence.refreshed == Some(true),
        evidence.health matches Some(health) && health.ready && health.checks == Some(checks)
            && health.facts_age_millis is Some && health.facts_age_millis->0
            <= context.facts_ttl_millis,
    ensures
        ({
            let report = context.decision(evidence)->report;
            let last = report.steps.last();
            let wanted = context.request.agent@;
            &&& context.decision(evidence) is Finished
            &&& last.name == "agent"@
            &&& (forall|i: int|
                0 <= i < checks.agents@.len() ==> (#[trigger] checks.agents@[i]).name@ != wanted)
                ==> last.code == Some("AGENT_MISSING"@)
            &&& first_of_name(checks.agents@, wanted, at) ==> {
                let agent = checks.agents@[at];
                match context.request.env_profile {
                    None => last.code == if agent.authenticated {
                        None
                    } else {
                        Some("AGENT_AUTH_REQUIRED"@)
                    },
                    Some(profile) => {
                        &&& (forall|i: int|
                            0 <= i < checks.profiles@.len() ==> !((
                            #[trigger] checks.profiles@[i]).0@ == profile@
                                && checks.profiles@[i].1)) ==> last.code == Some(
                            "ENV_PROFILE_UNAVAILABLE"@,
                        )
                        &&& (exists|i: int|
                            0 <= i < checks.profiles@.len() && (#[trigger] checks.profiles@[i]).0@
                                == profile@ && checks.profiles@[i].1) && !logged_in(
                            agent,
                            checks.profiles@,
                            Some(profile),
                        ) ==> last.code == Some("AGENT_AUTH_REQUIRED"@)
                    },
                }
            }
        }),
{
    let wanted = context.request.agent@;
    agents_are_found(checks.agents@, wanted, 0);
    if first_of_name(checks.agents@, wanted, at) {
        let agent = checks.agents@[at];
        if let Some(profile) = context.request.env_profile {
            pairs_are_found(agent.by_profile@, profile@, 0);
            if find_flag(agent.by_profile@, profile@, 0) is Some {
                let k = choose|i: int| #[trigger]
                    first_pair_of_name(agent.by_profile@, profile@, i);
                assert(first_pair_of_name(agent.by_profile@, profile@, k));
            }
        }
    }
}

} // verus!
