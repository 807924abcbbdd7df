//! Which part of the program a command is for, and how a run of it ends.
use vstd::prelude::*;
use vstd::string::*;
use crate::error::{outcome_of, protocol_error, WorkerError};

verus! {

/// A command that a laptop sends to a host.
#[derive(Debug, Clone, Copy, PartialEq, Eq, Structural)]
pub enum HostCommand {
    Probe,
    Gc,
    LeaseAcquire,
    Status,
    LogChunk,
    StatusLogs,
    ResolveOrAbandon,
    Cancel,
    Reconcile,
    SnapshotVerify,
    Submit,
    Supervise,
    RsyncReceive,
    MigrateLayout,
    CompleteProtocolUpgrade,
    CompleteUnverifiedRollback,
    SetSlots,
    RefreshFacts,
    ReceivePack,
    UploadPack,
    TaskPrepare,
    TaskStatus,
    TaskDiff,
    TaskClose,
    TaskSession,
    TaskPrebind,
    TaskCancel,
    TaskTurn,
    AgentSettingsGet,
    AgentSettingsSet,
    FollowTurn,
    Outbox,
    OutboxRetry,
    ControllerRpc,
    ControllerReceivePack,
    ControllerUploadPack,
}

impl HostCommand {
    pub open spec fn spelling(self) -> Seq<char> {
        match self {
            HostCommand::Probe => "probe"@,
            HostCommand::Gc => "gc"@,
            HostCommand::LeaseAcquire => "lease-acquire"@,
            HostCommand::Status => "status"@,
            HostCommand::LogChunk => "log-chunk"@,
            HostCommand::StatusLogs => "status-logs"@,
            HostCommand::ResolveOrAbandon => "resolve-or-abandon"@,
            HostCommand::Cancel => "cancel"@,
            HostCommand::Reconcile => "reconcile"@,
            HostCommand::SnapshotVerify => "snapshot-verify"@,
            HostCommand::Submit => "submit"@,
            HostCommand::Supervise => "supervise"@,
            HostCommand::RsyncReceive => "rsync-receive"@,
            HostCommand::MigrateLayout => "migrate-layout"@,
            HostCommand::CompleteProtocolUpgrade => "complete-protocol-upgrade"@,
            HostCommand::CompleteUnverifiedRollback => "complete-unverified-rollback"@,
            HostCommand::SetSlots => "set-slots"@,
            HostCommand::RefreshFacts => "refresh-facts"@,
            HostCommand::ReceivePack => "receive-pack"@,
            HostCommand::UploadPack => "upload-pack"@,
            HostCommand::TaskPrepare => "task-prepare"@,
            HostCommand::TaskStatus => "task-status"@,
            HostCommand::TaskDiff => "task-diff"@,
            HostCommand::TaskClose => "task-close"@,
            HostCommand::TaskSession => "task-session"@,
            HostCommand::TaskPrebind => "task-prebind"@,
            HostCommand::TaskCancel => "task-cancel"@,
            HostCommand::TaskTurn => "task-turn"@,
            HostCommand::AgentSettingsGet => "agent-settings-get"@,
            HostCommand::AgentSettingsSet => "agent-settings-set"@,
            HostCommand::FollowTurn => "follow-turn"@,
            HostCommand::Outbox => "outbox"@,
            HostCommand::OutboxRetry => "outbox-retry"@,
            HostCommand::ControllerRpc => "controller-rpc"@,
            HostCommand::ControllerReceivePack => "controller-receive-pack"@,
            HostCommand::ControllerUploadPack => "controller-upload-pack"@,
        }
    }

    /// The name that the command has on the command line.
    pub fn name(self) -> (name: &'static str)
        ensures
            name@ == self.spelling(),
    {
        match self {
            HostCommand::Probe => "probe",
            HostCommand::Gc => "gc",
            HostCommand::LeaseAcquire => "lease-acquire",
            HostCommand::Status => "status",
            HostCommand::LogChunk => "log-chunk",
            HostCommand::StatusLogs => "status-logs",
            HostCommand::ResolveOrAbandon => "resolve-or-abandon",
            HostCommand::Cancel => "cancel",
            HostCommand::Reconcile => "reconcile",
            HostCommand::SnapshotVerify => "snapshot-verify",
            HostCommand::Submit => "submit",
            HostCommand::Supervise => "supervise",
            HostCommand::RsyncReceive => "rsync-receive",
            HostCommand::MigrateLayout => "migrate-layout",
            HostCommand::CompleteProtocolUpgrade => "complete-protocol-upgrade",
            HostCommand::CompleteUnverifiedRollback => "complete-unverified-rollback",
            HostCommand::SetSlots => "set-slots",
            HostCommand::RefreshFacts => "refresh-facts",
            HostCommand::ReceivePack => "receive-pack",
            HostCommand::UploadPack => "upload-pack",
            HostCommand::TaskPrepare => "task-prepare",
            HostCommand::TaskStatus => "task-status",
            HostCommand::TaskDiff => "task-diff",
            HostCommand::TaskClose => "task-close",
            HostCommand::TaskSession => "task-session",
            HostCommand::TaskPrebind => "task-prebind",
            HostCommand::TaskCancel => "task-cancel",
            HostCommand::TaskTurn => "task-turn",
            HostCommand::AgentSettingsGet => "agent-settings-get",
            HostCommand::AgentSettingsSet => "agent-settings-set",
            HostCommand::FollowTurn => "follow-turn",
            HostCommand::Outbox => "outbox",
            HostCommand::OutboxRetry => "outbox-retry",
            HostCommand::ControllerRpc => "controller-rpc",
            HostCommand::ControllerReceivePack => "controller-receive-pack",
            HostCommand::ControllerUploadPack => "controller-upload-pack",
        }
    }

    /// What the command needs of the process that runs it.
    pub open spec fn boundary(self) -> Seq<char> {
        match self {
            HostCommand::Supervise => " requires the inherited supervisor boundary"@,
            HostCommand::RsyncReceive
            | HostCommand::ReceivePack
            | HostCommand::UploadPack
            | HostCommand::ControllerReceivePack
            | HostCommand::ControllerUploadPack => " requires the binary stdio execution boundary"@,
            _ => " requires the stdio execution boundary"@,
        }
    }

    fn boundary_text(self) -> (text: &'static str)
        ensures
            text@ == self.boundary(),
    {
        match self {
            HostCommand::Supervise => " requires the inherited supervisor boundary",
            HostCommand::RsyncReceive
            | HostCommand::ReceivePack
            | HostCommand::UploadPack
            | HostCommand::ControllerReceivePack
            | HostCommand::ControllerUploadPack => " requires the binary stdio execution boundary",
            _ => " requires the stdio execution boundary",
        }
    }
}

/// A command about tasks, with the options that decide where it runs.
#[derive(Debug, Clone, Copy, PartialEq, Eq, Structural)]
pub enum TaskCommand {
    Submit { wait: bool },
    Batch { preview: bool, wait: bool },
    List,
    Status,
    Logs,
    Diff,
    Say { wait: bool },
    Cancel,
    Result,
    Fetch,
    Close,
    PublishRetry,
    Wait,
    Reconcile,
}

/// A command, with the options that decide where it runs.
#[derive(Debug, Clone, Copy, PartialEq, Eq, Structural)]
#[allow(inconsistent_fields)]
pub enum Command {
    Init,
    Setup,
    Doctor,
    /// `clear_auth_incidents` is handed on to the workers that are refreshed.
    Workers { refresh: bool, clear_auth_incidents: bool },
    Gc,
    Dashboard { controller_viewer: bool },
    Run,
    Task { command: TaskCommand },
    Skills,
    /// `run` is set where the controller itself is to be run.
    Controller { run: bool },
    Runner,
    /// `job_given` is set where one job is asked for by its identity.
    Status { job_given: bool },
    Logs,
    Cancel,
    Host { command: HostCommand },
}

/// What carrying out a plain command is.
#[derive(Debug, Clone, Copy, PartialEq, Eq, Structural)]
pub enum Execution {
    Init,
    Setup,
    Doctor,
    Workers { refresh: bool, clear_auth_incidents: bool },
    Skills,
    /// The fleet is reconciled first where no job was named.
    Status { reconcile_first: bool },
    Cancel,
    Probe,
}

/// How a plain command is carried out; `None` for a command that needs more
/// than its arguments.
pub open spec fn execution(command: Command) -> Option<Execution> {
    match command {
        Command::Init => Some(Execution::Init),
        Command::Setup => Some(Execution::Setup),
        Command::Doctor => Some(Execution::Doctor),
        Command::Workers { refresh, clear_auth_incidents } => Some(
            Execution::Workers { refresh, clear_auth_incidents },
        ),
        Command::Skills => Some(Execution::Skills),
        Command::Status { job_given } => Some(Execution::Status { reconcile_first: !job_given }),
        Command::Cancel => Some(Execution::Cancel),
        Command::Host { command: HostCommand::Probe } => Some(Execution::Probe),
        _ => None,
    }
}

/// Why a command cannot be carried out from its arguments alone.
pub open spec fn execution_fault(command: Command) -> Option<Seq<char>> {
    match command {
        Command::Gc => Some("public gc requires the stdio execution boundary"@),
        Command::Dashboard { .. } => Some(
            "public dashboard requires the stdio execution boundary"@,
        ),
        Command::Run => Some("public run requires the stdio execution boundary"@),
        Command::Task { .. } => Some(
            "public task commands require the stdio execution boundary"@,
        ),
        Command::Controller { .. } => Some(
            "public controller commands require the stdio execution boundary"@,
        ),
        Command::Runner => Some("hidden runner requires the stdio execution boundary"@),
        Command::Logs => Some("public logs requires the stdio execution boundary"@),
        Command::Host { command } => if command == HostCommand::Probe {
            None
        } else {
            Some("host "@ + command.spelling() + command.boundary())
        },
        _ => None,
    }
}

/// How a command is carried out from its arguments alone, or why it cannot be.
pub fn execute_with(command: Command) -> (result: Result<Execution, WorkerError>)
    ensures
        outcome_of(result, execution_fault(command)),
        result matches Ok(done) ==> execution(command) == Some(done),
{
    match command {
        Command::Init => Ok(Execution::Init),
        Command::Setup => Ok(Execution::Setup),
        Command::Doctor => Ok(Execution::Doctor),
        Command::Workers { refresh, clear_auth_incidents } => Ok(
            Execution::Workers { refresh, clear_auth_incidents },
        ),
        Command::Gc => Err(protocol_error("public gc requires the stdio execution boundary")),
        Command::Dashboard { .. } => Err(
            protocol_error("public dashboard requires the stdio execution boundary"),
        ),
        Command::Run => Err(protocol_error("public run requires the stdio execution boundary")),
        Command::Task { .. } => Err(
            protocol_error("public task commands require the stdio execution boundary"),
        ),
        Command::Skills => Ok(Execution::Skills),
        Command::Controller { .. } => Err(
            protocol_error("public controller commands require the stdio execution boundary"),
        ),
        Command::Runner => Err(
            protocol_error("hidden runner requires the stdio execution boundary"),
        ),
        Command::Status { job_given } => Ok(Execution::Status { reconcile_first: !job_given }),
        Command::Logs => Err(protocol_error("public logs requires the stdio execution boundary")),
        Command::Cancel => Ok(Execution::Cancel),
        Command::Host { command } => {
            if command == HostCommand::Probe {
                Ok(Execution::Probe)
            } else {
                Err(
                    WorkerError::Protocol(
                        "host ".to_owned().concat(command.name()).concat(command.boundary_text()),
                    ),
                )
            }
        },
    }
}

/// The part of the program that takes a command with its standard streams.
#[derive(Debug, Clone, Copy, PartialEq, Eq, Structural)]
pub enum StdioRoute {
    Dashboard { controller_viewer: bool },
    /// Output is passed on as it comes.
    Streaming,
    Task,
    Controller,
    Boundary { route: BoundaryRoute },
}

/// The part of the program that takes a command which neither streams nor
/// concerns tasks.
#[derive(Debug, Clone, Copy, PartialEq, Eq, Structural)]
pub enum BoundaryRoute {
    Gc,
    /// A host command of its own; never a probe.
    Host { command: HostCommand },
    RefreshWorkers { clear_auth_incidents: bool },
    /// The command is carried out from its arguments, and its report is written.
    /// Errors of `public` commands are shown by their public code and text, and
    /// a `raw` report is written as it is.
    Execute { public: bool, raw: bool },
}

pub open spec fn boundary_route(command: Command) -> BoundaryRoute {
    match command {
        Command::Gc => BoundaryRoute::Gc,
        Command::Host { command } => if command == HostCommand::Probe {
            BoundaryRoute::Execute { public: false, raw: true }
        } else {
            BoundaryRoute::Host { command }
        },
        Command::Workers { refresh, clear_auth_incidents } => if refresh {
            BoundaryRoute::RefreshWorkers { clear_auth_incidents }
        } else {
            BoundaryRoute::Execute { public: false, raw: false }
        },
        Command::Status { .. } | Command::Cancel => BoundaryRoute::Execute {
            public: true,
            raw: false,
        },
        _ => BoundaryRoute::Execute { public: false, raw: false },
    }
}

pub open spec fn stdio_route(command: Command) -> StdioRoute {
    match command {
        Command::Dashboard { controller_viewer } => StdioRoute::Dashboard { controller_viewer },
        Command::Run | Command::Logs => StdioRoute::Streaming,
        Command::Task { .. } | Command::Runner => StdioRoute::Task,
        Command::Controller { run } => if run {
            StdioRoute::Controller
        } else {
            StdioRoute::Boundary { route: boundary_route(command) }
        },
        _ => StdioRoute::Boundary { route: boundary_route(command) },
    }
}

pub fn run_with_rsync_executor_in_context(command: Command) -> (route: BoundaryRoute)
    ensures
        route == boundary_route(command),
{
    match command {
        Command::Gc => BoundaryRoute::Gc,
        Command::Host { command } => {
            if command == HostCommand::Probe {
                BoundaryRoute::Execute { public: false, raw: true }
            } else {
                BoundaryRoute::Host { command }
            }
        },
        Command::Workers { refresh, clear_auth_incidents } => {
            if refresh {
                BoundaryRoute::RefreshWorkers { clear_auth_incidents }
            } else {
                BoundaryRoute::Execute { public: false, raw: false }
            }
        },
        Command::Status { .. } | Command::Cancel => BoundaryRoute::Execute {
            public: true,
            raw: false,
        },
        _ => BoundaryRoute::Execute { public: false, raw: false },
    }
}

pub fn run_with_stdio(command: Command) -> (route: StdioRoute)
    ensures
        route == stdio_route(command),
{
    match command {
        Command::Dashboard { controller_viewer } => StdioRoute::Dashboard { controller_viewer },
        Command::Run | Command::Logs => StdioRoute::Streaming,
        Command::Task { .. } | Command::Runner => StdioRoute::Task,
        Command::Controller { run } => {
            if run {
                StdioRoute::Controller
            } else {
                StdioRoute::Boundary { route: run_with_rsync_executor_in_context(command) }
            }
        },
        _ => StdioRoute::Boundary { route: run_with_rsync_executor_in_context(command) },
    }
}

/// Every command finds its place: what is handed on to be carried out from its
/// arguments can be, but for controller commands other than running it.
pub proof fn every_command_has_its_place(command: Command)
    requires
        stdio_route(command) matches StdioRoute::Boundary { route } && route is Execute,
    ensures
        execution(command) is Some <==> command !is Controller,
        execution_fault(command) is None <==> execution(command) is Some,
{
}

/// Which dashboard is shown: a viewer's own, the controller's through a tunnel,
/// or the local one.
#[derive(Debug, Clone, Copy, PartialEq, Eq, Structural)]
pub enum DashboardRoute {
    Viewer,
    Tunnel,
    Local,
}

pub fn run_dashboard_command(controller_viewer: bool, controller_enabled: bool) -> (route:
    DashboardRoute)
    ensures
        route == if controller_viewer {
            DashboardRoute::Viewer
        } else if controller_enabled {
            DashboardRoute::Tunnel
        } else {
            DashboardRoute::Local
        },
{
    if controller_viewer {
        DashboardRoute::Viewer
    } else if controller_enabled {
        DashboardRoute::Tunnel
    } else {
        DashboardRoute::Local
    }
}

/// Where a command about tasks is carried out.
#[derive(Debug, Clone, Copy, PartialEq, Eq, Structural)]
pub enum TaskRoute {
    /// The plan of a batch is only shown.
    Preview,
    Controller,
    /// On this machine; `inline` where the runner lives inside this process.
    Local { command: TaskCommand, inline: bool },
    /// A runner of one turn.
    Runner,
}

pub open spec fn runs_inline(command: TaskCommand) -> bool {
    match command {
        TaskCommand::Submit { wait } => wait,
        TaskCommand::Say { wait } => wait,
        _ => false,
    }
}

pub open spec fn is_preview(command: TaskCommand) -> bool {
    command matches TaskCommand::Batch { preview, .. } && preview
}

/// Where a command goes; `None` for one that is not about tasks.
pub open spec fn task_route(command: Command, controller_enabled: bool) -> Option<TaskRoute> {
    match command {
        Command::Task { command } => if is_preview(command) {
            Some(TaskRoute::Preview)
        } else if controller_enabled {
            Some(TaskRoute::Controller)
        } else {
            Some(TaskRoute::Local { command, inline: runs_inline(command) })
        },
        _ => if controller_enabled {
            Some(TaskRoute::Controller)
        } else if command is Runner {
            Some(TaskRoute::Runner)
        } else {
            None
        },
    }
}

pub fn run_task_command(command: Command, controller_enabled: bool) -> (result: Result<
    TaskRoute,
    WorkerError,
>)
    ensures
        outcome_of(
            result,
            match task_route(command, controller_enabled) {
                Some(_) => None,
                None => Some("task dispatcher received a non-task command"@),
            },
        ),
        result matches Ok(route) ==> task_route(command, controller_enabled) == Some(route),
{
    if let Command::Task { command: TaskCommand::Batch { preview: true, .. } } = command {
        return Ok(TaskRoute::Preview);
    }
    if controller_enabled {
        return Ok(TaskRoute::Controller);
    }
    match command {
        Command::Runner => Ok(TaskRoute::Runner),
        Command::Task { command } => {
            let inline = match command {
                TaskCommand::Submit { wait } => wait,
                TaskCommand::Say { wait } => wait,
                _ => false,
            };
            Ok(TaskRoute::Local { command, inline })
        },
        _ => Err(protocol_error("task dispatcher received a non-task command")),
    }
}

/// What a controller is asked for a command about tasks.
#[derive(Debug, Clone, Copy, PartialEq, Eq, Structural)]
pub enum ControllerRoute {
    Submit { wait: bool },
    Status,
    List,
    Logs,
    Diff,
    Result,
    Fetch,
    Say { wait: bool },
    Cancel,
    Close,
    Wait,
    Reconcile,
    Batch { wait: bool },
}

pub open spec fn controller_route(command: Command) -> Option<ControllerRoute> {
    match command {
        Command::Task { command } => match command {
            TaskCommand::Submit { wait } => Some(ControllerRoute::Submit { wait }),
            TaskCommand::Batch { preview, wait } => Some(ControllerRoute::Batch { wait }),
            TaskCommand::List => Some(ControllerRoute::List),
            TaskCommand::Status => Some(ControllerRoute::Status),
            TaskCommand::Logs => Some(ControllerRoute::Logs),
            TaskCommand::Diff => Some(ControllerRoute::Diff),
            TaskCommand::Say { wait } => Some(ControllerRoute::Say { wait }),
            TaskCommand::Cancel => Some(ControllerRoute::Cancel),
            TaskCommand::Result => Some(ControllerRoute::Result),
            TaskCommand::Fetch => Some(ControllerRoute::Fetch),
            TaskCommand::Close => Some(ControllerRoute::Close),
            TaskCommand::PublishRetry => None,
            TaskCommand::Wait => Some(ControllerRoute::Wait),
            TaskCommand::Reconcile => Some(ControllerRoute::Reconcile),
        },
        _ => None,
    }
}

/// `error` says that something cannot be reached, with exactly this text.
pub open spec fn unavailable_refusal(error: WorkerError, message: Seq<char>) -> bool {
    error matches WorkerError::Unavailable(text) && text@ == message
}

/// What the controller is asked for. A batch preview never gets this far.
pub fn run_enabled_controller_task(command: Command) -> (result: Result<
    ControllerRoute,
    WorkerError,
>)
    requires
        !(command matches Command::Task { command } && is_preview(command)),
    ensures
        match result {
            Ok(route) => controller_route(command) == Some(route),
            Err(error) => controller_route(command) is None && unavailable_refusal(
                error,
                "CONTROLLER_UNAVAILABLE: controller is enabled; this command is not routed to the controller yet"@,
            ),
        },
{
    if let Command::Task { command } = command {
        match command {
            TaskCommand::Submit { wait } => {
                return Ok(ControllerRoute::Submit { wait });
            },
            TaskCommand::Batch { wait, .. } => {
                return Ok(ControllerRoute::Batch { wait });
            },
            TaskCommand::List => {
                return Ok(ControllerRoute::List);
            },
            TaskCommand::Status => {
                return Ok(ControllerRoute::Status);
            },
            TaskCommand::Logs => {
                return Ok(ControllerRoute::Logs);
            },
            TaskCommand::Diff => {
                return Ok(ControllerRoute::Diff);
            },
            TaskCommand::Say { wait } => {
                return Ok(ControllerRoute::Say { wait });
            },
            TaskCommand::Cancel => {
                return Ok(ControllerRoute::Cancel);
            },
            TaskCommand::Result => {
                return Ok(ControllerRoute::Result);
            },
            TaskCommand::Fetch => {
                return Ok(ControllerRoute::Fetch);
            },
            TaskCommand::Close => {
                return Ok(ControllerRoute::Close);
            },
            TaskCommand::Wait => {
                return Ok(ControllerRoute::Wait);
            },
            TaskCommand::Reconcile => {
                return Ok(ControllerRoute::Reconcile);
            },
            TaskCommand::PublishRetry => {},
        }
    }
    Err(
        WorkerError::Unavailable(
            "CONTROLLER_UNAVAILABLE: controller is enabled; this command is not routed to the controller yet".to_owned(),
        ),
    )
}

impl ControllerRoute {
    /// The exit of the run is that of the wait.
    pub open spec fn waits(self) -> bool {
        match self {
            ControllerRoute::Submit { wait } => wait,
            ControllerRoute::Say { wait } => wait,
            ControllerRoute::Batch { wait } => wait,
            ControllerRoute::Wait => true,
            _ => false,
        }
    }

    /// The exit code of a command that the controller carried out: what the
    /// wait gave where there was one, whatever state the task's report shows.
    pub fn exit_code(self, waited_exit: u8) -> (code: u8)
        ensures
            code == if self.waits() {
                waited_exit
            } else {
                0
            },
    {
        match self {
            ControllerRoute::Submit { wait }
            | ControllerRoute::Say { wait }
            | ControllerRoute::Batch { wait } => {
                if wait {
                    waited_exit
                } else {
                    0
                }
            },
            ControllerRoute::Wait => waited_exit,
            _ => 0,
        }
    }
}

pub open spec fn local_exit(
    command: TaskCommand,
    report_exit: Option<u8>,
    waited_exit: u8,
) -> int {
    match command {
        TaskCommand::Submit { wait } | TaskCommand::Say { wait } => if wait && report_exit is Some {
            report_exit->0 as int
        } else {
            0
        },
        TaskCommand::Batch { wait, .. } => if wait {
            waited_exit as int
        } else {
            0
        },
        TaskCommand::Wait => waited_exit as int,
        _ => 0,
    }
}

/// The exit code of a task command that ran on this machine, given the exit
/// that the task's report carries and what a wait gave. A batch preview never
/// gets this far.
pub fn run_task_subcommand(command: TaskCommand, report_exit: Option<u8>, waited_exit: u8) -> (code:
    u8)
    requires
        !is_preview(command),
    ensures
        code == local_exit(command, report_exit, waited_exit),
{
    match command {
        TaskCommand::Submit { wait } | TaskCommand::Say { wait } => {
            if wait {
                match report_exit {
                    Some(exit) => exit,
                    None => 0,
                }
            } else {
                0
            }
        },
        TaskCommand::Batch { wait, .. } => {
            if wait {
                waited_exit
            } else {
                0
            }
        },
        TaskCommand::Wait => waited_exit,
        _ => 0,
    }
}

/// The exit code of a batch preview.
pub fn preview_exit(config_errors: bool) -> (code: u8)
    ensures
        code == if config_errors {
            1u8
        } else {
            0u8
        },
{
    if config_errors {
        1
    } else {
        0
    }
}

/// A batch that is previewed touches nothing: it goes neither to the
/// controller nor to a runner.
pub proof fn previews_stay_local(command: TaskCommand, controller_enabled: bool)
    requires
        is_preview(command),
    ensures
        task_route(Command::Task { command }, controller_enabled) == Some(TaskRoute::Preview),
{
}

/// A task runs inside the submitting process exactly where that process waits
/// for it.
pub proof fn only_waiting_commands_run_inline(command: TaskCommand)
    ensures
        runs_inline(command) <==> command matches TaskCommand::Submit { wait: true }
            || command matches TaskCommand::Say { wait: true },
        !runs_inline(command) && command !is Batch && command !is Wait ==> forall|
            report: Option<u8>,
            waited: u8,
        | local_exit(command, report, waited) == 0,
{
}

/// How a run that may have failed ends.
#[derive(Debug, Clone, Copy, PartialEq, Eq, Structural)]
pub enum RunEnd {
    Exit { code: u8 },
    /// Standard output is gone: the exit says so, and nothing more is written.
    OutputLost,
    /// The error is written to standard output as one JSON event.
    ErrorEvent,
    /// The error's public code and text are written to standard error.
    ErrorText,
}

/// How a run ends, given its exit code unless it failed, and whether writing
/// JSON to standard output failed on the way.
pub fn end_of_run(json: bool, code: Option<u8>, output_failed: bool) -> (end: RunEnd)
    ensures
        end == match code {
            Some(exit) => RunEnd::Exit { code: exit },
            None => if !json {
                RunEnd::ErrorText
            } else if output_failed {
                RunEnd::OutputLost
            } else {
                RunEnd::ErrorEvent
            },
        },
{
    match code {
        Some(exit) => RunEnd::Exit { code: exit },
        None => {
            if !json {
                RunEnd::ErrorText
            } else if output_failed {
                RunEnd::OutputLost
            } else {
                RunEnd::ErrorEvent
            }
        },
    }
}

/// The exit code of a host command: its own unless the answer could not be
/// written.
pub fn exit_after_answer(own_exit: u8, io_exit: u8, written: bool) -> (code: u8)
    ensures
        code == if written {
            own_exit
        } else {
            io_exit
        },
{
    if written {
        own_exit
    } else {
        io_exit
    }
}

/// The line that shows an error's public code and text.
pub fn public_diagnostic(code: &str, message: &str) -> (line: String)
    ensures
        line@ == code@ + ": "@ + message@,
{
    code.to_owned().concat(": ").concat(message)
}

/// The exit code of a streamed command: the job's where it has ended, and 0
/// where its log is only looked at.
pub fn logs_exit(terminal_exit: Option<u8>) -> (code: u8)
    ensures
        code == match terminal_exit {
            Some(exit) => exit,
            None => 0u8,
        },
{
    match terminal_exit {
        Some(exit) => exit,
        None => 0,
    }
}

/// What the standard output of a JSON stream did with some bytes.
#[derive(Debug, Clone, Copy, PartialEq, Eq, Structural)]
pub enum SinkReply {
    Wrote { count: usize },
    Failed,
}

/// What a writer to a JSON stream is told.
#[derive(Debug, Clone, Copy, PartialEq, Eq, Structural)]
pub enum SinkAnswer {
    Wrote { count: usize },
    WroteNothing,
    Failed,
    AlreadyFailed,
}

/// Standard output while JSON events are streamed to it: once a write or a
/// flush has failed, nothing is written any more.
#[derive(Debug)]
pub struct LiveJsonStdout {
    pub failed: bool,
}

impl LiveJsonStdout {
    pub fn new() -> (live: LiveJsonStdout)
        ensures
            !live.failed,
    {
        LiveJsonStdout { failed: false }
    }

    /// Whether bytes may be handed to the output at all.
    pub fn is_open(&self) -> (open: bool)
        ensures
            open == !self.failed,
    {
        !self.failed
    }

    /// What a write of `offered` bytes comes to.
    pub fn write(&mut self, offered: usize, reply: SinkReply) -> (answer: SinkAnswer)
        ensures
            answer == if old(self).failed {
                SinkAnswer::AlreadyFailed
            } else {
                match reply {
                    SinkReply::Wrote { count } => if count == 0 && offered > 0 {
                        SinkAnswer::WroteNothing
                    } else {
                        SinkAnswer::Wrote { count }
                    },
                    SinkReply::Failed => SinkAnswer::Failed,
                }
            },
            final(self).failed == (answer !is Wrote),
    {
        if self.failed {
            return SinkAnswer::AlreadyFailed;
        }
        match reply {
            SinkReply::Wrote { count } => {
                if count == 0 && offered > 0 {
                    self.failed = true;
                    SinkAnswer::WroteNothing
                } else {
                    SinkAnswer::Wrote { count }
                }
            },
            SinkReply::Failed => {
                self.failed = true;
                SinkAnswer::Failed
            },
        }
    }

    /// What a flush comes to: whether it went through.
    pub fn flush(&mut self, flushed: bool) -> (through: bool)
        ensures
            through == (!old(self).failed && flushed),
            final(self).failed == !through,
    {
        if self.failed {
            return false;
        }
        if !flushed {
            self.failed = true;
        }
        flushed
    }
}

} // verus!
