//! Where each command goes, and how its run ends.
use vstd::prelude::*;
use vstd::string::*;
use crate::dispatch::{
    boundary_route, controller_route, execution, execution_fault, is_preview, local_exit,
    runs_inline, stdio_route, task_route, unavailable_refusal, BoundaryRoute, Command,
    ControllerRoute, Execution, HostCommand, StdioRoute, TaskCommand, TaskRoute,
};
use crate::error::WorkerError;

verus! {

/// Every host command has the name by which a laptop calls it.
pub proof fn host_commands_have_their_names()
    ensures
        HostCommand::Probe.spelling() == "probe"@,
        HostCommand::Gc.spelling() == "gc"@,
        HostCommand::LeaseAcquire.spelling() == "lease-acquire"@,
        HostCommand::Status.spelling() == "status"@,
        HostCommand::LogChunk.spelling() == "log-chunk"@,
        HostCommand::StatusLogs.spelling() == "status-logs"@,
        HostCommand::ResolveOrAbandon.spelling() == "resolve-or-abandon"@,
        HostCommand::Cancel.spelling() == "cancel"@,
        HostCommand::Reconcile.spelling() == "reconcile"@,
        HostCommand::SnapshotVerify.spelling() == "snapshot-verify"@,
        HostCommand::Submit.spelling() == "submit"@,
        HostCommand::Supervise.spelling() == "supervise"@,
        HostCommand::RsyncReceive.spelling() == "rsync-receive"@,
        HostCommand::MigrateLayout.spelling() == "migrate-layout"@,
        HostCommand::CompleteProtocolUpgrade.spelling() == "complete-protocol-upgrade"@,
        HostCommand::CompleteUnverifiedRollback.spelling() == "complete-unverified-rollback"@,
        HostCommand::SetSlots.spelling() == "set-slots"@,
        HostCommand::RefreshFacts.spelling() == "refresh-facts"@,
        HostCommand::ReceivePack.spelling() == "receive-pack"@,
        HostCommand::UploadPack.spelling() == "upload-pack"@,
        HostCommand::TaskPrepare.spelling() == "task-prepare"@,
        HostCommand::TaskStatus.spelling() == "task-status"@,
        HostCommand::TaskDiff.spelling() == "task-diff"@,
        HostCommand::TaskClose.spelling() == "task-close"@,
        HostCommand::TaskSession.spelling() == "task-session"@,
        HostCommand::TaskPrebind.spelling() == "task-prebind"@,
        HostCommand::TaskCancel.spelling() == "task-cancel"@,
        HostCommand::TaskTurn.spelling() == "task-turn"@,
        HostCommand::AgentSettingsGet.spelling() == "agent-settings-get"@,
        HostCommand::AgentSettingsSet.spelling() == "agent-settings-set"@,
        HostCommand::FollowTurn.spelling() == "follow-turn"@,
        HostCommand::Outbox.spelling() == "outbox"@,
        HostCommand::OutboxRetry.spelling() == "outbox-retry"@,
        HostCommand::ControllerRpc.spelling() == "controller-rpc"@,
        HostCommand::ControllerReceivePack.spelling() == "controller-receive-pack"@,
        HostCommand::ControllerUploadPack.spelling() == "controller-upload-pack"@,
{
}

/// A host command runs over plain text streams, but for those that move packs
/// or files and for the supervisor.
pub proof fn host_commands_say_what_they_need(command: HostCommand)
    ensures
        command.boundary() == " requires the inherited supervisor boundary"@ <==> command
            is Supervise,
        command.boundary() == " requires the binary stdio execution boundary"@ <==> command
            is RsyncReceive || command is ReceivePack || command is UploadPack || command
            is ControllerReceivePack || command is ControllerUploadPack,
        command.boundary() == " requires the stdio execution boundary"@ || command.boundary()
            == " requires the binary stdio execution boundary"@ || command is Supervise,
{
    reveal_strlit(" requires the inherited supervisor boundary");
    reveal_strlit(" requires the binary stdio execution boundary");
    reveal_strlit(" requires the stdio execution boundary");
    assert(" requires the inherited supervisor boundary"@.len() == 43);
    assert(" requires the binary stdio execution boundary"@.len() == 45);
    assert(" requires the stdio execution boundary"@.len() == 38);
}

/// A command is carried out from its arguments exactly where it is one of the
/// plain ones; every other command is told what it needs.
pub proof fn plain_commands_are_carried_out(command: Command)
    ensures
        execution_fault(command) is None <==> execution(command) is Some,
        execution(command) is Some <==> command is Init || command is Setup || command is Doctor
            || command is Workers || command is Skills || command is Status || command is Cancel
            || command == (Command::Host { command: HostCommand::Probe }),
        execution(command) == Some(Execution::Init) <==> command is Init,
        execution(command) == Some(Execution::Setup) <==> command is Setup,
        execution(command) == Some(Execution::Doctor) <==> command is Doctor,
        execution(command) == Some(Execution::Skills) <==> command is Skills,
        execution(command) == Some(Execution::Cancel) <==> command is Cancel,
        execution(command) == Some(Execution::Probe) <==> command == (Command::Host {
            command: HostCommand::Probe,
        }),
{
}

/// A refresh and the clearing of incidents are handed on as they were asked
/// for, and the fleet is reconciled where no job was named.
pub proof fn options_are_handed_on(flag: bool, other: bool)
    ensures
        execution(Command::Workers { refresh: flag, clear_auth_incidents: other }) == Some(
            Execution::Workers { refresh: flag, clear_auth_incidents: other },
        ),
        execution(Command::Status { job_given: true }) == Some(
            Execution::Status { reconcile_first: false },
        ),
        execution(Command::Status { job_given: false }) == Some(
            Execution::Status { reconcile_first: true },
        ),
{
}

/// What is said of a command that cannot be carried out from its arguments.
pub proof fn other_commands_are_refused(host: HostCommand, task: TaskCommand, flag: bool)
    ensures
        execution_fault(Command::Gc) == Some("public gc requires the stdio execution boundary"@),
        execution_fault(Command::Dashboard { controller_viewer: flag }) == Some(
            "public dashboard requires the stdio execution boundary"@,
        ),
        execution_fault(Command::Run) == Some("public run requires the stdio execution boundary"@),
        execution_fault(Command::Task { command: task }) == Some(
            "public task commands require the stdio execution boundary"@,
        ),
        execution_fault(Command::Controller { run: flag }) == Some(
            "public controller commands require the stdio execution boundary"@,
        ),
        execution_fault(Command::Runner) == Some(
            "hidden runner requires the stdio execution boundary"@,
        ),
        execution_fault(Command::Logs) == Some(
            "public logs requires the stdio execution boundary"@,
        ),
        host !is Probe ==> execution_fault(Command::Host { command: host }) == Some(
            "host "@ + host.spelling() + host.boundary(),
        ),
{
}

/// Which part of the program takes a command.
pub proof fn commands_find_their_part(command: Command)
    ensures
        stdio_route(command) is Streaming <==> command is Run || command is Logs,
        stdio_route(command) is Task <==> command is Task || command is Runner,
        stdio_route(command) is Controller <==> command == (Command::Controller { run: true }),
        stdio_route(command) == (StdioRoute::Dashboard { controller_viewer: true }) <==> command
            == (Command::Dashboard { controller_viewer: true }),
        stdio_route(command) == (StdioRoute::Dashboard { controller_viewer: false }) <==> command
            == (Command::Dashboard { controller_viewer: false }),
        stdio_route(command) matches StdioRoute::Boundary { route } ==> route == boundary_route(
            command,
        ),
{
}

/// What the execution boundary does with a command: garbage is collected, a
/// host command but the probe runs by itself, and a refresh of the workers is
/// one of its own; everything else is carried out and reported. Only a probe's
/// report is written as it is, and only the errors of a status or a
/// cancellation are shown by their public text.
pub proof fn the_boundary_parts_commands(command: Command, host: HostCommand)
    ensures
        boundary_route(command) is Gc <==> command is Gc,
        boundary_route(command) is Host <==> command is Host && command != (Command::Host {
            command: HostCommand::Probe,
        }),
        host !is Probe ==> boundary_route(Command::Host { command: host }) == (
        BoundaryRoute::Host { command: host }),
        boundary_route(command) == (BoundaryRoute::RefreshWorkers { clear_auth_incidents: true })
            <==> command == (Command::Workers { refresh: true, clear_auth_incidents: true }),
        boundary_route(command) == (BoundaryRoute::RefreshWorkers { clear_auth_incidents: false })
            <==> command == (Command::Workers { refresh: true, clear_auth_incidents: false }),
        boundary_route(command) matches BoundaryRoute::Execute { public, raw } ==> (public
            <==> command is Status || command is Cancel) && (raw <==> command is Host),
{
}

/// A command about tasks goes to the controller where there is one, and stays
/// on this machine otherwise, with its runner inside this process exactly where
/// a submission or a message waits; only a batch that is previewed goes
/// nowhere.
pub proof fn task_commands_find_their_place(task: TaskCommand, command: Command)
    ensures
        is_preview(task) <==> task == (TaskCommand::Batch { preview: true, wait: true }) || task
            == (TaskCommand::Batch { preview: true, wait: false }),
        runs_inline(task) <==> task == (TaskCommand::Submit { wait: true }) || task == (
        TaskCommand::Say { wait: true }),
        is_preview(task) ==> task_route(Command::Task { command: task }, true) == Some(
            TaskRoute::Preview,
        ) && task_route(Command::Task { command: task }, false) == Some(TaskRoute::Preview),
        !is_preview(task) ==> task_route(Command::Task { command: task }, true) == Some(
            TaskRoute::Controller,
        ) && task_route(Command::Task { command: task }, false) == Some(
            TaskRoute::Local { command: task, inline: runs_inline(task) },
        ),
        command !is Task ==> task_route(command, true) == Some(TaskRoute::Controller),
        task_route(Command::Runner, false) == Some(TaskRoute::Runner),
        command !is Task && command !is Runner ==> task_route(command, false) is None,
{
}

/// What the controller is asked for: the task command's own name, with its
/// wait; a retry of a publication, and anything else, is not routed.
pub proof fn the_controller_is_asked_for_the_same(command: Command, wait: bool, preview: bool)
    ensures
        controller_route(Command::Task { command: TaskCommand::Submit { wait } }) == Some(
            ControllerRoute::Submit { wait },
        ),
        controller_route(Command::Task { command: TaskCommand::Say { wait } }) == Some(
            ControllerRoute::Say { wait },
        ),
        controller_route(Command::Task { command: TaskCommand::Batch { preview, wait } }) == Some(
            ControllerRoute::Batch { wait },
        ),
        controller_route(Command::Task { command: TaskCommand::List }) == Some(
            ControllerRoute::List,
        ),
        controller_route(Command::Task { command: TaskCommand::Status }) == Some(
            ControllerRoute::Status,
        ),
        controller_route(Command::Task { command: TaskCommand::Logs }) == Some(
            ControllerRoute::Logs,
        ),
        controller_route(Command::Task { command: TaskCommand::Diff }) == Some(
            ControllerRoute::Diff,
        ),
        controller_route(Command::Task { command: TaskCommand::Cancel }) == Some(
            ControllerRoute::Cancel,
        ),
        controller_route(Command::Task { command: TaskCommand::Result }) == Some(
            ControllerRoute::Result,
        ),
        controller_route(Command::Task { command: TaskCommand::Fetch }) == Some(
            ControllerRoute::Fetch,
        ),
        controller_route(Command::Task { command: TaskCommand::Close }) == Some(
            ControllerRoute::Close,
        ),
        controller_route(Command::Task { command: TaskCommand::Wait }) == Some(
            ControllerRoute::Wait,
        ),
        controller_route(Command::Task { command: TaskCommand::Reconcile }) == Some(
            ControllerRoute::Reconcile,
        ),
        controller_route(command) is None <==> command !is Task || command == (Command::Task {
            command: TaskCommand::PublishRetry,
        }),
{
}

/// A run on this machine ends with what its wait gave, where it waited: with
/// the exit of the report for one task, with that of the wait for a batch.
/// Without a wait it ends well. The controller's commands wait alike.
pub proof fn waits_decide_the_exit(task: TaskCommand, report: Option<u8>, waited: u8, wait: bool)
    ensures
        local_exit(TaskCommand::Submit { wait: true }, report, waited) == if report is Some {
            report->0 as int
        } else {
            0
        },
        local_exit(TaskCommand::Say { wait: true }, report, waited) == local_exit(
            TaskCommand::Submit { wait: true },
            report,
            waited,
        ),
        local_exit(TaskCommand::Batch { preview: false, wait: true }, report, waited) == waited,
        local_exit(TaskCommand::Wait, report, waited) == waited,
        local_exit(task, report, waited) == 0 || task is Wait || task == (TaskCommand::Submit {
            wait: true,
        }) || task == (TaskCommand::Say { wait: true }) || (task matches TaskCommand::Batch {
            wait: awaited,
            ..
        } && awaited),
        ControllerRoute::Wait.waits(),
        (ControllerRoute::Submit { wait }).waits() <==> wait,
        (ControllerRoute::Say { wait }).waits() <==> wait,
        (ControllerRoute::Batch { wait }).waits() <==> wait,
        !ControllerRoute::Status.waits() && !ControllerRoute::List.waits()
            && !ControllerRoute::Logs.waits() && !ControllerRoute::Diff.waits()
            && !ControllerRoute::Result.waits() && !ControllerRoute::Fetch.waits()
            && !ControllerRoute::Cancel.waits() && !ControllerRoute::Close.waits()
            && !ControllerRoute::Reconcile.waits(),
{
}

/// An error says that something cannot be reached by its kind and its text.
pub proof fn unavailable_errors_are_told_by_their_text(error: WorkerError, message: Seq<char>)
    ensures
        unavailable_refusal(error, message) <==> error is Unavailable && error->Unavailable_0@
            == message,
{
}

} // verus!
