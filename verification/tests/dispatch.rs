use mac_worker::dispatch::{
    end_of_run, execute_with, exit_after_answer, logs_exit, preview_exit, public_diagnostic,
    run_dashboard_command, run_enabled_controller_task, run_task_command, run_task_subcommand,
    run_with_rsync_executor_in_context, run_with_stdio, BoundaryRoute, Command, ControllerRoute,
    DashboardRoute, Execution, HostCommand, LiveJsonStdout, RunEnd, SinkAnswer, SinkReply,
    StdioRoute, TaskCommand, TaskRoute,
};
use mac_worker::error::WorkerError;

fn refusal(command: Command) -> String {
    match execute_with(command) {
        Err(WorkerError::Protocol(text)) => text,
        other => panic!("{other:?}"),
    }
}

#[test]
fn plain_commands_are_carried_out() {
    assert_eq!(execute_with(Command::Init).unwrap(), Execution::Init);
    assert_eq!(execute_with(Command::Setup).unwrap(), Execution::Setup);
    assert_eq!(execute_with(Command::Skills).unwrap(), Execution::Skills);
    assert_eq!(
        execute_with(Command::Status { job_given: false }).unwrap(),
        Execution::Status { reconcile_first: true }
    );
    assert_eq!(
        execute_with(Command::Status { job_given: true }).unwrap(),
        Execution::Status { reconcile_first: false }
    );
    assert_eq!(
        execute_with(Command::Host { command: HostCommand::Probe }).unwrap(),
        Execution::Probe
    );
}

#[test]
fn commands_that_need_their_streams_say_so() {
    assert_eq!(refusal(Command::Gc), "public gc requires the stdio execution boundary");
    assert_eq!(
        refusal(Command::Dashboard { controller_viewer: false }),
        "public dashboard requires the stdio execution boundary"
    );
    assert_eq!(refusal(Command::Run), "public run requires the stdio execution boundary");
    assert_eq!(refusal(Command::Logs), "public logs requires the stdio execution boundary");
    assert_eq!(
        refusal(Command::Task { command: TaskCommand::List }),
        "public task commands require the stdio execution boundary"
    );
    assert_eq!(
        refusal(Command::Controller { run: true }),
        "public controller commands require the stdio execution boundary"
    );
    assert_eq!(refusal(Command::Runner), "hidden runner requires the stdio execution boundary");
    let host = |command: HostCommand| refusal(Command::Host { command });
    assert_eq!(host(HostCommand::Gc), "host gc requires the stdio execution boundary");
    assert_eq!(
        host(HostCommand::ResolveOrAbandon),
        "host resolve-or-abandon requires the stdio execution boundary"
    );
    assert_eq!(
        host(HostCommand::Supervise),
        "host supervise requires the inherited supervisor boundary"
    );
    assert_eq!(
        host(HostCommand::RsyncReceive),
        "host rsync-receive requires the binary stdio execution boundary"
    );
    assert_eq!(
        host(HostCommand::ControllerUploadPack),
        "host controller-upload-pack requires the binary stdio execution boundary"
    );
}

#[test]
fn every_command_is_routed() {
    assert_eq!(run_with_stdio(Command::Run), StdioRoute::Streaming);
    assert_eq!(run_with_stdio(Command::Logs), StdioRoute::Streaming);
    assert_eq!(run_with_stdio(Command::Runner), StdioRoute::Task);
    assert_eq!(
        run_with_stdio(Command::Task { command: TaskCommand::Wait }),
        StdioRoute::Task
    );
    assert_eq!(run_with_stdio(Command::Controller { run: true }), StdioRoute::Controller);
    assert_eq!(
        run_with_stdio(Command::Dashboard { controller_viewer: true }),
        StdioRoute::Dashboard { controller_viewer: true }
    );
    let plain = BoundaryRoute::Execute { public: false, raw: false };
    assert_eq!(run_with_stdio(Command::Init), StdioRoute::Boundary { route: plain });
    assert_eq!(
        run_with_stdio(Command::Controller { run: false }),
        StdioRoute::Boundary { route: plain }
    );
    let route = run_with_rsync_executor_in_context;
    assert_eq!(route(Command::Gc), BoundaryRoute::Gc);
    for clear_auth_incidents in [false, true] {
        assert_eq!(
            route(Command::Workers { refresh: true, clear_auth_incidents }),
            BoundaryRoute::RefreshWorkers { clear_auth_incidents }
        );
        let shown = Command::Workers { refresh: false, clear_auth_incidents };
        assert_eq!(route(shown), plain);
        assert!(matches!(
            execute_with(shown),
            Ok(Execution::Workers { refresh: false, clear_auth_incidents: cleared })
                if cleared == clear_auth_incidents
        ));
    }
    assert_eq!(route(Command::Cancel), BoundaryRoute::Execute { public: true, raw: false });
    assert_eq!(
        route(Command::Host { command: HostCommand::Probe }),
        BoundaryRoute::Execute { public: false, raw: true }
    );
    assert_eq!(
        route(Command::Host { command: HostCommand::Submit }),
        BoundaryRoute::Host { command: HostCommand::Submit }
    );
}

#[test]
fn dashboards_go_through_an_enabled_controller() {
    assert_eq!(run_dashboard_command(true, true), DashboardRoute::Viewer);
    assert_eq!(run_dashboard_command(false, true), DashboardRoute::Tunnel);
    assert_eq!(run_dashboard_command(false, false), DashboardRoute::Local);
}

#[test]
fn task_commands_go_to_an_enabled_controller() {
    let submit = TaskCommand::Submit { wait: true };
    let task = |command: TaskCommand| Command::Task { command };
    assert_eq!(
        run_task_command(task(submit), false).unwrap(),
        TaskRoute::Local { command: submit, inline: true }
    );
    assert_eq!(
        run_task_command(task(TaskCommand::Say { wait: false }), false).unwrap(),
        TaskRoute::Local { command: TaskCommand::Say { wait: false }, inline: false }
    );
    assert_eq!(run_task_command(task(submit), true).unwrap(), TaskRoute::Controller);
    assert_eq!(
        run_task_command(task(TaskCommand::Batch { preview: true, wait: true }), true).unwrap(),
        TaskRoute::Preview
    );
    assert_eq!(run_task_command(Command::Runner, false).unwrap(), TaskRoute::Runner);
    match run_task_command(Command::Init, false) {
        Err(WorkerError::Protocol(text)) => {
            assert_eq!(text, "task dispatcher received a non-task command")
        }
        other => panic!("{other:?}"),
    }
}

#[test]
fn some_commands_are_not_routed_to_the_controller() {
    assert_eq!(
        run_enabled_controller_task(Command::Task { command: TaskCommand::Reconcile }).unwrap(),
        ControllerRoute::Reconcile
    );
    for command in [
        Command::Runner,
        Command::Task { command: TaskCommand::PublishRetry },
    ] {
        match run_enabled_controller_task(command) {
            Err(WorkerError::Unavailable(text)) => assert_eq!(
                text,
                "CONTROLLER_UNAVAILABLE: controller is enabled; this command is not routed to \
                 the controller yet"
            ),
            other => panic!("{other:?}"),
        }
    }
}

#[test]
fn a_waited_exit_wins_over_the_reports() {
    assert_eq!(ControllerRoute::Submit { wait: true }.exit_code(1), 1);
    assert_eq!(ControllerRoute::Submit { wait: false }.exit_code(1), 0);
    assert_eq!(ControllerRoute::Say { wait: true }.exit_code(3), 3);
    assert_eq!(ControllerRoute::Batch { wait: true }.exit_code(4), 4);
    assert_eq!(ControllerRoute::Wait.exit_code(5), 5);
    assert_eq!(ControllerRoute::Cancel.exit_code(5), 0);
    assert_eq!(run_task_subcommand(TaskCommand::Submit { wait: true }, Some(2), 9), 2);
    assert_eq!(run_task_subcommand(TaskCommand::Submit { wait: true }, None, 9), 0);
    assert_eq!(run_task_subcommand(TaskCommand::Submit { wait: false }, Some(2), 9), 0);
    assert_eq!(
        run_task_subcommand(TaskCommand::Batch { preview: false, wait: true }, Some(2), 9),
        9
    );
    assert_eq!(run_task_subcommand(TaskCommand::Wait, None, 9), 9);
    assert_eq!(run_task_subcommand(TaskCommand::List, Some(2), 9), 0);
    assert_eq!(preview_exit(true), 1);
    assert_eq!(preview_exit(false), 0);
}

#[test]
fn a_failed_run_reports_where_it_still_can() {
    assert_eq!(end_of_run(true, Some(3), true), RunEnd::Exit { code: 3 });
    assert_eq!(end_of_run(true, None, true), RunEnd::OutputLost);
    assert_eq!(end_of_run(true, None, false), RunEnd::ErrorEvent);
    assert_eq!(end_of_run(false, None, false), RunEnd::ErrorText);
    assert_eq!(exit_after_answer(70, 74, true), 70);
    assert_eq!(exit_after_answer(70, 74, false), 74);
    assert_eq!(logs_exit(Some(2)), 2);
    assert_eq!(logs_exit(None), 0);
    assert_eq!(
        public_diagnostic("TASK_BUSY", "task turn is being dispatched"),
        "TASK_BUSY: task turn is being dispatched"
    );
}

#[test]
fn a_broken_json_stream_stays_broken() {
    let mut live = LiveJsonStdout::new();
    assert_eq!(
        live.write(4, SinkReply::Wrote { count: 4 }),
        SinkAnswer::Wrote { count: 4 }
    );
    assert_eq!(
        live.write(0, SinkReply::Wrote { count: 0 }),
        SinkAnswer::Wrote { count: 0 }
    );
    assert!(live.flush(true));
    assert_eq!(live.write(4, SinkReply::Wrote { count: 0 }), SinkAnswer::WroteNothing);
    assert!(!live.is_open());
    assert_eq!(
        live.write(4, SinkReply::Wrote { count: 4 }),
        SinkAnswer::AlreadyFailed
    );
    assert!(!live.flush(true));
    let mut other = LiveJsonStdout::new();
    assert!(!other.flush(false));
    assert!(!other.is_open());
}

#[test]
fn public_diagnostics_print_static_task_busy_reasons() {
    let error = WorkerError::task("TASK_BUSY", "task turn is being dispatched");
    let WorkerError::Task { code, message } = error else {
        panic!("a task error was expected");
    };
    assert_eq!(
        format!("{}\n", public_diagnostic(code, &message)),
        "TASK_BUSY: task turn is being dispatched\n"
    );
}
