//! Workers: the inventory, what was seen of them, their keychains, and the tasks
//! that are frozen for them.
use vstd::prelude::*;
use vstd::utf8::{decode_utf8, valid_utf8};
use crate::config::{
    distinct, first_unknown, identifier_ok, names, remote_binary_ok, ssh_destination_ok, Config,
    WorkerEntry,
};
use crate::error::WorkerError;
use crate::freeze::{ControllerSubmitFields, FrozenSubmitBody, ProjectFacts};
use crate::job::checks::{all_bytes, ByteClass};
use crate::job::observation::AdmissionObservation;
use crate::keychain::{
    env_value, first_line, locked_error, path_below, EnvEntry, DEFAULT_KEYCHAIN_RELATIVE_PATH,
    PASSWORD_ENV_NAME, PATH_ENV_NAME, SECURITY_PROGRAM, UNLOCK_FAILED_REASON,
};
use crate::laws::names::{
    bounded_text, capability_lists_are_accepted, capital_letter, figure, joint, made_of,
    names_capability, small_letter, worker_bytes, worker_names_are_accepted,
};
use crate::laws::options::first_settings_count;
use crate::laws::queue::names_worker;
use crate::onboarding::profile_ok;
use crate::scheduler::CandidateSlot;
use crate::text::{opt_text, texts, utf8};
use crate::words::lines;

verus! {

proof fn worker_bytes_agree(text: Seq<char>)
    ensures
        all_bytes(text, ByteClass::Worker) <==> made_of(text, worker_bytes()),
{
    if all_bytes(text, ByteClass::Worker) {
        assert forall|i: int| 0 <= i < utf8(text).len() implies worker_bytes()(
            #[trigger] utf8(text)[i],
        ) by {
            assert(ByteClass::Worker.holds(utf8(text)[i]));
        }
    }
    if made_of(text, worker_bytes()) {
        assert forall|i: int| 0 <= i < utf8(text).len() implies ByteClass::Worker.holds(
            #[trigger] utf8(text)[i],
        ) by {
            assert(worker_bytes()(utf8(text)[i]));
        }
    }
}

/// A worker is named with letters, digits, dots, underscores, hyphens and at
/// signs, and reached at a destination that starts with a letter or digit; its
/// helper is below its home.
pub proof fn worker_names_are_well_formed(text: Seq<char>)
    ensures
        identifier_ok(text) <==> utf8(text).len() >= 1 && made_of(text, worker_bytes()),
        ssh_destination_ok(text) <==> utf8(text).len() >= 1 && made_of(text, worker_bytes()) && (
        small_letter(utf8(text)[0]) || capital_letter(utf8(text)[0]) || figure(utf8(text)[0])),
        remote_binary_ok(text) <==> utf8(text).len() >= 3 && utf8(text)[0] == 126 && utf8(text)[1]
            == 47,
{
    worker_bytes_agree(text);
}

/// A profile is named with at most 128 letters, digits, dots, underscores and
/// hyphens, and is not the directory or its parent.
pub proof fn profile_names_are_well_formed(text: Seq<char>)
    ensures
        profile_ok(text) <==> {
            &&& bounded_text(text, 128)
            &&& text != "."@
            &&& text != ".."@
            &&& forall|i: int|
                0 <= i < utf8(text).len() ==> small_letter(#[trigger] utf8(text)[i])
                    || capital_letter(utf8(text)[i]) || figure(utf8(text)[i]) || joint(
                    utf8(text)[i],
                )
        },
{
    if all_bytes(text, ByteClass::Profile) {
        assert forall|i: int| 0 <= i < utf8(text).len() implies small_letter(
            #[trigger] utf8(text)[i],
        ) || capital_letter(utf8(text)[i]) || figure(utf8(text)[i]) || joint(utf8(text)[i]) by {
            assert(ByteClass::Profile.holds(utf8(text)[i]));
        }
    }
    if forall|i: int|
        0 <= i < utf8(text).len() ==> small_letter(#[trigger] utf8(text)[i]) || capital_letter(
            utf8(text)[i],
        ) || figure(utf8(text)[i]) || joint(utf8(text)[i]) {
        assert forall|i: int| 0 <= i < utf8(text).len() implies ByteClass::Profile.holds(
            #[trigger] utf8(text)[i],
        ) by {
            let byte = utf8(text)[i];
        }
    }
}

/// A worker's entry is accepted where its name, its destination and its helper
/// are well formed, it has one to eight slots and lists no capability twice.
pub proof fn worker_entries_are_accepted(worker: WorkerEntry)
    ensures
        worker@.valid() <==> {
            &&& identifier_ok(worker.name@)
            &&& ssh_destination_ok(worker.ssh@)
            &&& 1 <= worker.slots <= 8
            &&& forall|i: int, j: int|
                0 <= i < j < worker.capabilities@.len() ==> (#[trigger] texts(
                    worker.capabilities@,
                )[i]) != (#[trigger] texts(worker.capabilities@)[j])
            &&& remote_binary_ok(worker.remote_binary@)
        },
{
    assert(texts(worker.capabilities@).len() == worker.capabilities@.len());
}

/// An inventory is accepted where it is of the first version, holds a worker or
/// leaves that to a controller, and its workers are accepted, each with a name
/// and a destination of its own.
pub proof fn inventories_are_accepted(config: Config)
    ensures
        config.valid() <==> {
            let workers = config.workers@;
            &&& config.version == 1
            &&& workers.len() >= 1 || config.controller_enabled
            &&& forall|i: int| 0 <= i < workers.len() ==> (#[trigger] workers[i])@.valid()
            &&& forall|i: int, j: int|
                0 <= i < j < workers.len() ==> (#[trigger] workers[i]).name@ != (
                #[trigger] workers[j]).name@ && workers[i].ssh@ != workers[j].ssh@
        },
{
    let workers = config.workers@;
    let held = crate::config::names(workers);
    let reached = crate::config::destinations(workers);
    assert forall|i: int| 0 <= i < workers.len() implies #[trigger] held[i] == workers[i].name@ by {}
    assert forall|i: int| 0 <= i < workers.len() implies #[trigger] reached[i]
        == workers[i].ssh@ by {}
    if config.valid() {
        assert forall|i: int, j: int| 0 <= i < j < workers.len() implies (
        #[trigger] workers[i]).name@ != (#[trigger] workers[j]).name@ && workers[i].ssh@
            != workers[j].ssh@ by {
            assert(held[i] != held[j]);
            assert(reached[i] != reached[j]);
        }
    }
    if forall|i: int, j: int|
        0 <= i < j < workers.len() ==> (#[trigger] workers[i]).name@ != (
        #[trigger] workers[j]).name@ && workers[i].ssh@ != workers[j].ssh@ {
        assert forall|i: int, j: int| 0 <= i < j < held.len() implies held[i] != held[j] by {
            assert(workers[i].name@ != workers[j].name@);
        }
        assert forall|i: int, j: int| 0 <= i < j < reached.len() implies reached[i]
            != reached[j] by {
            assert(workers[i].name@ != workers[j].name@);
        }
        assert(distinct(held));
        assert(distinct(reached));
    }
}

/// A selection fails exactly where some named host is not in the inventory, and
/// then names the first such host.
pub proof fn unknown_hosts_are_named(hosts: Seq<Seq<char>>, known: Seq<Seq<char>>, from: int, at: int)
    requires
        0 <= from <= at <= hosts.len(),
        forall|i: int| from <= i < at ==> known.contains(#[trigger] hosts[i]),
    ensures
        at == hosts.len() ==> first_unknown(hosts, known, from) is None,
        at < hosts.len() && !known.contains(hosts[at]) ==> first_unknown(hosts, known, from)
            == Some(hosts[at]),
    decreases at - from,
{
    if from < at {
        assert(known.contains(hosts[from]));
        unknown_hosts_are_named(hosts, known, from + 1, at);
    }
}

/// What a worker's entry says tells each of its fields.
pub proof fn worker_entries_say_everything(left: WorkerEntry, right: WorkerEntry)
    requires
        left@ == right@,
    ensures
        left.name@ == right.name@,
        left.ssh@ == right.ssh@,
        left.slots == right.slots,
        texts(left.capabilities@) == texts(right.capabilities@),
        left.remote_binary@ == right.remote_binary@,
{
}

/// An observation is accepted where it names a worker and its capabilities and
/// was made at some time; it is bound where all five parts of the binding are
/// there.
pub proof fn observations_are_accepted(observation: AdmissionObservation, worker: WorkerEntry)
    ensures
        observation.fault() is None <==> {
            let offered = texts(observation.capabilities@);
            &&& names_worker(observation.worker_name@)
            &&& offered.len() <= 256
            &&& forall|i: int| 0 <= i < offered.len() ==> names_capability(#[trigger] offered[i])
            &&& forall|i: int, j: int|
                0 <= i < j < offered.len() ==> #[trigger] offered[i] != #[trigger] offered[j]
            &&& observation.observed_at_millis > 0
        },
        observation.bound() <==> observation.ssh@.len() > 0 && observation.remote_binary@.len() > 0
            && observation.inventory_capabilities is Some && observation.slots is Some
            && observation.final_probe_started_at_millis is Some,
        observation.bound_to(&worker) <==> observation.ssh@ == worker.ssh@
            && observation.remote_binary@ == worker.remote_binary@ && (
        observation.inventory_capabilities matches Some(listed) && texts(listed@) == texts(
            worker.capabilities@,
        )) && observation.slots == Some(worker.slots),
{
    worker_names_are_accepted(observation.worker_name@);
    capability_lists_are_accepted(texts(observation.capabilities@));
}

/// What is written down of an observation is all that was seen, and its binding
/// where that is complete.
pub proof fn written_observations_keep_what_was_seen(
    observation: AdmissionObservation,
    written: AdmissionObservation,
)
    requires
        observation.kept(written),
    ensures
        written.worker_name@ == observation.worker_name@,
        written.ready == observation.ready,
        written.slot == observation.slot,
        texts(written.capabilities@) == texts(observation.capabilities@),
        written.available_memory_bytes == observation.available_memory_bytes,
        written.free_disk_bytes == observation.free_disk_bytes,
        written.observed_at_millis == observation.observed_at_millis,
        written.interactive_agents == observation.interactive_agents,
        observation.bound() ==> written.ssh@ == observation.ssh@ && written.remote_binary@
            == observation.remote_binary@ && written.slots == observation.slots
            && written.facts_age_millis == observation.facts_age_millis
            && written.final_probe_started_at_millis == observation.final_probe_started_at_millis,
        !observation.bound() ==> written.ssh@.len() == 0 && written.remote_binary@.len() == 0
            && written.inventory_capabilities is None && written.slots is None
            && written.facts_age_millis is None && written.final_probe_started_at_millis is None,
{
}

/// The slot of a candidate is written with these words.
pub proof fn slots_have_their_words()
    ensures
        CandidateSlot::Idle.spelling() == "idle"@,
        CandidateSlot::Busy.spelling() == "busy"@,
{
}

/// A variable's value is that of the first entry of its name.
pub proof fn first_variables_count(entries: Seq<EnvEntry>, name: Seq<u8>, from: int, at: int)
    requires
        0 <= from <= at <= entries.len(),
        forall|i: int| from <= i < at ==> (#[trigger] entries[i]).name@ != name,
    ensures
        at == entries.len() ==> env_value(entries, name, from) is None,
        at < entries.len() && entries[at].name@ == name ==> env_value(entries, name, from) == Some(
            entries[at].value@,
        ),
    decreases at - from,
{
    if from < at {
        first_variables_count(entries, name, from + 1, at);
    }
}

/// The names and paths that an unlocking goes by.
pub proof fn keychains_go_by_their_names()
    ensures
        PASSWORD_ENV_NAME@ == "MAC_WORKER_KEYCHAIN_PASSWORD"@,
        PATH_ENV_NAME@ == "MAC_WORKER_KEYCHAIN_PATH"@,
        DEFAULT_KEYCHAIN_RELATIVE_PATH@ == "Library/Keychains/login.keychain-db"@,
        SECURITY_PROGRAM@ == "/usr/bin/security"@,
        UNLOCK_FAILED_REASON@ == "keychain unlock failed"@,
{
}

/// A path below a directory is the directory, one slash and the path; a slash
/// that is there is not repeated.
pub proof fn paths_are_joined_by_one_slash(directory: Seq<u8>, relative: Seq<u8>)
    ensures
        directory.len() > 0 && directory.last() == 47 ==> path_below(directory, relative)
            == directory + relative,
        directory.len() > 0 && directory.last() != 47 ==> path_below(directory, relative)
            == directory + seq![47u8] + relative,
        directory.len() == 0 ==> path_below(directory, relative) == relative,
{
    if directory.len() == 0 {
        assert(path_below(directory, relative) =~= relative);
    } else if directory.last() != 47 {
        assert(path_below(directory, relative) =~= directory + seq![47u8] + relative);
    }
}

/// A first line is shown only of output that is text, and never an empty one.
pub proof fn first_lines_are_text(output: Seq<u8>)
    ensures
        first_line(output) matches Some(line) ==> valid_utf8(output) && line.len() > 0 && line
            == lines(decode_utf8(output))[0],
        first_line(output) is None <==> !valid_utf8(output) || lines(decode_utf8(output)).len() == 0
            || lines(decode_utf8(output))[0].len() == 0,
{
}

/// A keychain that stays locked is told with the reason, where there is one.
pub proof fn locked_keychains_are_told(error: WorkerError, reason: Seq<char>)
    ensures
        locked_error(error, reason) <==> (error matches WorkerError::Protocol(text) && text@
            == "KEYCHAIN_UNLOCK_FAILED"@ + ": "@ + if reason.len() > 0 {
            "keychain unlock failed"@ + ": "@ + reason
        } else {
            "keychain unlock failed"@
        }),
{
}

/// A frozen task has what the client chose, and what the project says only where
/// the client chose nothing; it works unattended only where the project says so of
/// its agent.
pub proof fn frozen_tasks_keep_the_choices(
    body: FrozenSubmitBody,
    cli: ControllerSubmitFields,
    project: ProjectFacts,
    session_agent: Seq<char>,
    at: int,
)
    requires
        body.keeps_choices(&cli, &project.settings, session_agent),
        body.keeps_project(&project),
        0 <= at <= project.settings.permissions@.len(),
        forall|i: int|
            0 <= i < at ==> (#[trigger] project.settings.permissions@[i]).0@
                != cli.agent.spelling(session_agent),
    ensures
        body.prompt@ == cli.prompt@,
        opt_text(body.title) == opt_text(cli.title),
        body.agent@ == cli.agent.spelling(session_agent),
        cli.model is Some ==> opt_text(body.model) == opt_text(cli.model),
        cli.model is None ==> opt_text(body.model) == opt_text(project.settings.model),
        cli.effort is Some ==> opt_text(body.effort) == opt_text(cli.effort),
        cli.effort is None ==> opt_text(body.effort) == opt_text(project.settings.effort),
        cli.env_profile is Some ==> opt_text(body.env_profile) == opt_text(cli.env_profile),
        cli.env_profile is None ==> opt_text(body.env_profile) == opt_text(
            project.settings.env_profile,
        ),
        cli.source is Some ==> body.source@ == cli.source->0@,
        cli.source is None ==> body.source@ == project.settings.source@,
        cli.publish@.len() > 0 ==> texts(body.publish@) == texts(cli.publish@),
        cli.publish@.len() == 0 ==> texts(body.publish@) == texts(project.settings.publish@),
        opt_text(body.publish_branch) == opt_text(cli.publish_branch),
        body.close_on == cli.close_on,
        opt_text(body.worker) == opt_text(cli.worker),
        body.wip == cli.wip,
        texts(body.cli_includes@) == texts(cli.includes@),
        body.wait_for_capacity == cli.wait_for_capacity,
        at == project.settings.permissions@.len() ==> body.permissions@ == "workspace"@,
        at < project.settings.permissions@.len() && project.settings.permissions@[at].0@
            == cli.agent.spelling(session_agent) ==> body.permissions@ == if (
        project.settings.permissions@[at].1@ == "unattended"@) {
            "unattended"@
        } else {
            "workspace"@
        },
        body.project_id@ == project.project_id@,
        body.worktree_id@ == project.worktree_id@,
        opt_text(body.branch) == opt_text(project.branch),
        opt_text(body.origin_url) == opt_text(project.origin_url),
        texts(body.requires@) == texts(project.requirements@),
        texts(body.include_untracked@) == texts(project.include_untracked@),
        texts(body.include_empty_dirs@) == texts(project.include_empty_dirs@),
        texts(body.allow_sensitive@) == texts(project.allow_sensitive@),
{
    first_settings_count(
        project.settings.permissions@,
        cli.agent.spelling(session_agent),
        0,
        at,
    );
}

/// A frozen task has exactly the limits that hold for it.
pub proof fn frozen_tasks_keep_the_limits(
    body: FrozenSubmitBody,
    limits: crate::task_options::TaskLimits,
)
    ensures
        body.keeps_limits(limits) <==> body.timeout_millis == limits.timeout_millis
            && body.max_turns == limits.max_turns && body.max_budget_usd_cents
            == limits.max_budget_usd_cents && body.max_followups == limits.max_followups,
{
}

} // verus!
