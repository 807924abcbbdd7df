use mac_worker::laptop::{
    binary_is_outdated, format_outdated_laptop_cli, laptop_cli_kind, laptop_setup_warnings,
    outdated_laptop_cli, parse_etime, parse_ps_line, parse_ps_table, BinaryIdentity,
    FixedBinaryIdentitySource, LaptopCliKind, LaptopProcess, Moment, OutdatedLaptopCli,
};

fn at(seconds: i64) -> Moment {
    Moment { seconds, nanos: 0 }
}

fn words(args: &[&str]) -> Vec<String> {
    args.iter().map(|arg| arg.to_string()).collect()
}

#[test]
fn laptop_cli_kind_matches_dashboard_and_controller_run_only() {
    assert_eq!(
        laptop_cli_kind(&words(&["/opt/bin/worker", "dashboard"])),
        Some(LaptopCliKind::Dashboard)
    );
    assert_eq!(
        laptop_cli_kind(&words(&["/opt/bin/worker", "controller", "run"])),
        Some(LaptopCliKind::ControllerRun)
    );
    assert_eq!(laptop_cli_kind(&words(&["/opt/bin/worker", "doctor"])), None);
    assert_eq!(laptop_cli_kind(&words(&["/opt/bin/worker", "setup"])), None);
    assert_eq!(laptop_cli_kind(&words(&["/opt/bin/other", "dashboard"])), None);
}

#[test]
fn outdated_cli_uses_start_time_against_binary_mtime() {
    let installed = at(50);
    let processes = vec![
        LaptopProcess {
            pid: 11,
            started_at: at(10),
            args: words(&["/bin/worker", "dashboard"]),
        },
        LaptopProcess {
            pid: 12,
            started_at: at(80),
            args: words(&["/bin/worker", "dashboard"]),
        },
        LaptopProcess {
            pid: 13,
            started_at: at(10),
            args: words(&["/bin/worker", "doctor"]),
        },
    ];
    let outdated = outdated_laptop_cli(&processes, installed);
    assert_eq!(
        outdated,
        vec![OutdatedLaptopCli {
            pid: 11,
            kind: LaptopCliKind::Dashboard,
        }]
    );
    assert_eq!(
        format_outdated_laptop_cli(&outdated).as_deref(),
        Some("worker dashboard (pid 11) was started before the installed binary; restart it")
    );
}

#[test]
fn ps_etime_lines_become_start_times() {
    let now = at(10_000);
    let parsed = parse_ps_table(
        b"  42  01:00 /Users/me/.local/bin/worker dashboard --port 9173\n",
        now,
    );
    assert_eq!(parsed.len(), 1);
    assert_eq!(parsed[0].pid, 42);
    assert_eq!(parsed[0].started_at, at(10_000 - 60));
    assert_eq!(parsed[0].args[1], "dashboard");
}

#[test]
fn elapsed_times_count_days_hours_minutes_and_seconds() {
    assert_eq!(parse_etime("00:07"), Some(7));
    assert_eq!(parse_etime("01:00"), Some(60));
    assert_eq!(parse_etime("02:03:04"), Some(2 * 3600 + 3 * 60 + 4));
    assert_eq!(parse_etime("1-02:03:04"), Some(86400 + 2 * 3600 + 3 * 60 + 4));
    assert_eq!(parse_etime("7"), Some(7));
    assert_eq!(parse_etime("1:2:3:4"), None);
    assert_eq!(parse_etime("x:07"), None);
    assert_eq!(parse_etime(""), None);
}

#[test]
fn lines_that_are_no_processes_are_skipped() {
    assert!(parse_ps_line("", at(5)).is_none());
    assert!(parse_ps_line("pid etime args", at(5)).is_none());
    assert!(parse_ps_line("42 01:00", at(5)).is_none());
    let parsed = parse_ps_table(b"junk\n 7 00:01 worker dashboard\n\xff\n", at(100));
    assert_eq!(parsed.len(), 1);
    assert_eq!(parsed[0].pid, 7);
}

#[test]
fn a_warning_names_all_outdated_commands() {
    let outdated = vec![
        OutdatedLaptopCli { pid: 3, kind: LaptopCliKind::Dashboard },
        OutdatedLaptopCli { pid: 4, kind: LaptopCliKind::ControllerRun },
    ];
    assert_eq!(
        format_outdated_laptop_cli(&outdated).as_deref(),
        Some(
            "worker dashboard (pid 3) and worker controller run (pid 4) were started before the \
             installed binary; restart them"
        )
    );
    assert_eq!(format_outdated_laptop_cli(&[]), None);
}

#[test]
fn at_most_eight_outdated_commands_are_named() {
    let processes: Vec<LaptopProcess> = (1..=12)
        .map(|pid| LaptopProcess {
            pid,
            started_at: at(1),
            args: words(&["worker", "dashboard"]),
        })
        .collect();
    let outdated = outdated_laptop_cli(&processes, at(2));
    assert_eq!(outdated.len(), 8);
    assert_eq!(outdated[7].pid, 8);
}

#[test]
fn setup_warns_only_where_everything_is_known() {
    let running = || {
        vec![LaptopProcess {
            pid: 9,
            started_at: at(1),
            args: words(&["worker", "dashboard"]),
        }]
    };
    assert_eq!(laptop_setup_warnings(None, Some(running())), None);
    assert_eq!(laptop_setup_warnings(Some(at(2)), None), None);
    assert_eq!(laptop_setup_warnings(Some(at(1)), Some(running())), None);
    assert_eq!(
        laptop_setup_warnings(Some(at(2)), Some(running())).as_deref(),
        Some("worker dashboard (pid 9) was started before the installed binary; restart it")
    );
}

#[test]
fn a_binary_is_outdated_once_another_is_installed() {
    let one = || BinaryIdentity {
        path: "/opt/bin/worker".to_string(),
        inode: 2,
        size: 4,
        mtime_millis: 3,
    };
    let mut other = one();
    other.inode = 9;
    let unchanged = FixedBinaryIdentitySource { started: Some(one()), installed: Some(one()) };
    let replaced = FixedBinaryIdentitySource { started: Some(one()), installed: Some(other) };
    let unknown = FixedBinaryIdentitySource { started: Some(one()), installed: None };
    assert!(!binary_is_outdated(&unchanged));
    assert!(binary_is_outdated(&replaced));
    assert!(!binary_is_outdated(&unknown));
}
