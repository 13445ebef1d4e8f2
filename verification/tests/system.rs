use tasktui::api::{
    AdminCommand, AdminResult, ApiResponse, ProcessAction, ProcessPriority, ServiceAction,
    TasktuiError, TcpPortOwner, API_VERSION,
};
use tasktui::cli::{
    is_not_started_by_scm, parse_args, parse_pid, parse_priority, port_line, response_line,
    service_mode, usage_lines, CliError, ParsedCommand, ServiceMode,
};
use tasktui::messages::{
    endpoint_opened_message, handle_local_fallback, local_fallback_needed, new_request,
    path_opened_message, process_opened_message, response_message, services_failed_message,
    OpenOutcome,
};
use tasktui::service::{
    command_needs_platform, dispatch_command, map_failure, process_request,
    request_needs_platform, PlatformFailure,
};
use tasktui::system::{
    address_text, after_resuming, after_suspending, awaited_state, client_is_connected,
    connect_error, guard_critical, guard_process, host_port, map_tcp_row, priority_class,
    priority_of_class, restart_service_steps, resume_failure, service_rows,
    service_start_type_label, service_state_label, service_wait, shell_failure,
    start_service_steps, stop_service_steps, stripped_style, suspend_failure, take_chunk,
    tcp_port_owners, tcp_sizing_failure, tcp_state_label, tcp_table_failure, threads_to_switch,
    visible_window_pids, windows_to_close, written_whole, ReadVerdict, ServiceEntry, ServiceStep,
    TcpRow, ThreadEntry, ThreadVerdict, WaitVerdict, WindowEntry,
};
use tasktui::wide::{from_utf16, to_utf16_null};

fn args(words: &[&str]) -> Vec<String> {
    words.iter().map(|word| word.to_string()).collect()
}

#[test]
fn wide_text_goes_there_and_back() {
    for text in ["", "Spooler", "Grüße", "日本", "a😀b", "\u{10FFFF}\u{FFFF}"] {
        let mut units = to_utf16_null(text);
        let expected: Vec<u16> = text.encode_utf16().chain(Some(0)).collect();
        assert_eq!(units, expected);
        assert_eq!(units.pop(), Some(0));
        assert_eq!(from_utf16(&units), text);
    }
}

#[test]
fn broken_pairs_are_replaced() {
    let broken = [
        vec![0xD800],
        vec![0xDC00, 0x41],
        vec![0x41, 0xD83D, 0x42],
        vec![0xD83D, 0xD83D, 0xDE00],
    ];
    for units in broken {
        assert_eq!(from_utf16(&units), String::from_utf16_lossy(&units));
    }
}

#[test]
fn tcp_rows_are_read() {
    let row = TcpRow {
        state: 2,
        local_addr: 0x7F00_0001,
        local_port: 0x5000,
        remote_addr: 0,
        remote_port: 0xABCD_901F,
        owning_pid: 42,
    };
    let owner = map_tcp_row(&row);
    assert_eq!(
        owner,
        TcpPortOwner {
            pid: 42,
            local_addr: "127.0.0.1".into(),
            local_port: 80,
            remote_addr: "0.0.0.0".into(),
            remote_port: 8080,
            state: "listen".into(),
        }
    );
    assert_eq!(tcp_port_owners(&vec![row, row]).len(), 2);
    assert_eq!(address_text(0xFFFE_0A01), "255.254.10.1");
    assert_eq!(host_port(0x1234), 0x3412);
    assert_eq!(host_port(0xFFFF_0100), 1);
}

#[test]
fn codes_have_names() {
    let states = [
        "unknown", "closed", "listen", "syn_sent", "syn_received", "established", "fin_wait_1",
        "fin_wait_2", "close_wait", "closing", "last_ack", "time_wait", "delete_tcb", "unknown",
    ];
    for (code, name) in states.iter().enumerate() {
        assert_eq!(tcp_state_label(code as u32), *name);
    }
    let states = [
        "unknown", "stopped", "start_pending", "stop_pending", "running", "continue_pending",
        "pause_pending", "paused", "unknown",
    ];
    for (code, name) in states.iter().enumerate() {
        assert_eq!(service_state_label(code as u32), *name);
    }
    let types = ["boot", "system", "auto", "manual", "disabled", "unknown"];
    for (code, name) in types.iter().enumerate() {
        assert_eq!(service_start_type_label(code as u32), *name);
    }
}

#[test]
fn services_are_listed_by_display_name() {
    let entry = |display: &str, name: &str, start_type: Option<u32>| ServiceEntry {
        display_name: display.encode_utf16().collect(),
        service_name: name.encode_utf16().collect(),
        state: 4,
        start_type,
    };
    let rows = service_rows(&vec![
        entry("beta", "B", Some(2)),
        entry("Alpha", "Z", None),
        entry("alpha", "A", Some(3)),
    ]);
    let names: Vec<&str> = rows.iter().map(|row| row.service_name.as_str()).collect();
    assert_eq!(names, vec!["A", "Z", "B"]);
    assert_eq!(rows[0].status, "running");
    assert_eq!(rows[0].start_type, "manual");
    assert_eq!(rows[1].start_type, "unknown");
}

#[test]
fn protected_processes_are_left_alone() {
    for pid in [0, 4, 77] {
        assert_eq!(guard_process(pid, 77), Err(TasktuiError::AccessDenied));
    }
    assert_eq!(guard_process(5, 77), Ok(()));
    assert_eq!(guard_critical(Some(true)), Err(TasktuiError::AccessDenied));
    assert_eq!(guard_critical(Some(false)), Ok(()));
    assert_eq!(guard_critical(None), Ok(()));
}

#[test]
fn priorities_have_classes() {
    let priorities = [
        (ProcessPriority::Idle, 0x40),
        (ProcessPriority::BelowNormal, 0x4000),
        (ProcessPriority::Normal, 0x20),
        (ProcessPriority::AboveNormal, 0x8000),
        (ProcessPriority::High, 0x80),
    ];
    for (priority, class) in priorities {
        assert_eq!(priority_class(priority), class);
        assert_eq!(priority_of_class(class), Ok(priority));
        assert_eq!(parse_priority(priority.label()), Ok(priority));
    }
    assert_eq!(
        priority_of_class(0),
        Err(TasktuiError::Message("GetPriorityClass failed".into()))
    );
    assert_eq!(priority_of_class(0x100), Err(TasktuiError::Unsupported));
}

#[test]
fn threads_and_windows_are_picked() {
    let thread = |owner_pid: u32, thread_id: u32| ThreadEntry { owner_pid, thread_id };
    let threads = vec![thread(1, 10), thread(2, 20), thread(1, 11)];
    assert_eq!(threads_to_switch(&threads, 1), Ok(vec![10, 11]));
    assert_eq!(threads_to_switch(&threads, 3), Err(TasktuiError::Unsupported));
    assert_eq!(after_suspending(u32::MAX), ThreadVerdict::Failed);
    assert_eq!(after_suspending(3), ThreadVerdict::Done);
    assert_eq!(after_resuming(u32::MAX), ThreadVerdict::Failed);
    assert_eq!(after_resuming(2), ThreadVerdict::Again);
    assert_eq!(after_resuming(1), ThreadVerdict::Done);
    assert_eq!(suspend_failure(5), "SuspendThread failed for thread 5");
    assert_eq!(resume_failure(5), "ResumeThread failed for thread 5");

    let window = |handle: u64, pid: u32, visible: bool| WindowEntry { handle, pid, visible };
    let windows = vec![
        window(1, 7, true),
        window(2, 8, false),
        window(3, 7, true),
        window(4, 0, true),
        window(5, 9, true),
    ];
    assert_eq!(visible_window_pids(&windows), vec![7, 9]);
    assert_eq!(windows_to_close(&windows, 7), Ok(vec![1, 3]));
    assert_eq!(windows_to_close(&windows, 8), Err(TasktuiError::NotClosable));
}

#[test]
fn services_take_their_steps() {
    let start = vec![ServiceStep::Start, ServiceStep::WaitUntilRunning];
    assert_eq!(start_service_steps(1), start);
    assert_eq!(start_service_steps(4), vec![]);
    assert_eq!(stop_service_steps(1), vec![]);
    assert_eq!(
        stop_service_steps(4),
        vec![ServiceStep::Stop, ServiceStep::WaitUntilStopped]
    );
    assert_eq!(restart_service_steps(1), start);
    assert_eq!(restart_service_steps(3).len(), 3);
    assert_eq!(restart_service_steps(3)[0], ServiceStep::WaitUntilStopped);
    assert_eq!(restart_service_steps(4).len(), 4);
    assert_eq!(restart_service_steps(4)[0], ServiceStep::Stop);
    assert_eq!(service_wait(4, 4, 99, 10), WaitVerdict::Reached);
    assert_eq!(service_wait(2, 4, 9, 10), WaitVerdict::Again);
    assert_eq!(service_wait(2, 4, 10, 10), WaitVerdict::TimedOut);
    assert_eq!(awaited_state(ServiceStep::WaitUntilRunning), Some(4));
    assert_eq!(awaited_state(ServiceStep::WaitUntilStopped), Some(1));
    assert_eq!(awaited_state(ServiceStep::Stop), None);
}

#[test]
fn pipe_messages_are_put_together() {
    let mut message = Vec::new();
    let chunk = vec![1, 2, 3];
    assert_eq!(take_chunk(&mut message, &chunk, 3, Some(234)), ReadVerdict::More);
    assert_eq!(take_chunk(&mut message, &chunk, 2, None), ReadVerdict::Complete);
    assert_eq!(message, vec![1, 2, 3, 1, 2]);
    assert_eq!(take_chunk(&mut message, &chunk, 1, Some(109)), ReadVerdict::Disconnected);
    assert_eq!(take_chunk(&mut message, &chunk, 1, Some(5)), ReadVerdict::Failed);
    assert_eq!(message.len(), 5);
    assert!(client_is_connected(535));
    assert!(!client_is_connected(2));
    assert_eq!(connect_error(2), Some(TasktuiError::ServiceUnavailable));
    assert_eq!(connect_error(5), None);
    assert!(written_whole(7, 7));
    assert!(!written_whole(6, 7));
}

#[test]
fn failures_of_the_system_are_told() {
    assert_eq!(shell_failure(33), None);
    assert_eq!(shell_failure(32), Some("ShellExecuteW failed with code 32".into()));
    assert_eq!(tcp_sizing_failure(122), None);
    assert_eq!(
        tcp_sizing_failure(0),
        Some("GetExtendedTcpTable sizing failed with code 0".into())
    );
    assert_eq!(tcp_table_failure(0), None);
    assert_eq!(tcp_table_failure(5), Some("GetExtendedTcpTable failed with code 5".into()));
    assert_eq!(stripped_style(0x00CF_0001), Some(1));
    assert_eq!(stripped_style(0x1000_0001), None);
}

#[test]
fn requests_are_numbered_and_versioned() {
    let request = new_request(AdminCommand::Ping, 1_700_000_000_123);
    assert_eq!(request.request_id, "1700000000123");
    assert_eq!(request.version, API_VERSION);
    assert_eq!(request.command, AdminCommand::Ping);
    assert!(!request_needs_platform(&request));
    assert!(command_needs_platform(&AdminCommand::SuspendProcess { pid: 1 }));
}

#[test]
fn every_command_is_dispatched() {
    let ok: Result<(), TasktuiError> = Ok(());
    let service = |name: &str| AdminCommand::StartService { service_name: name.into() };
    assert_eq!(
        dispatch_command(&AdminCommand::ForceKillProcess { pid: 7 }, ok.clone()),
        Ok(AdminResult::ProcessClosed { pid: 7, forced: true })
    );
    assert_eq!(
        dispatch_command(&AdminCommand::RequestCloseProcess { pid: 7 }, ok.clone()),
        Ok(AdminResult::ProcessClosed { pid: 7, forced: false })
    );
    assert_eq!(
        dispatch_command(&AdminCommand::RestartProcess { pid: 7 }, ok.clone()),
        Ok(AdminResult::ProcessRestarted { pid: 7 })
    );
    assert_eq!(
        dispatch_command(&AdminCommand::ResumeProcess { pid: 7 }, ok.clone()),
        Ok(AdminResult::ProcessStateChanged { pid: 7, action: ProcessAction::Resumed })
    );
    assert_eq!(
        dispatch_command(&service("Spooler"), ok.clone()),
        Ok(AdminResult::ServiceStateChanged {
            service_name: "Spooler".into(),
            action: ServiceAction::Started,
        })
    );
    assert_eq!(
        dispatch_command(&service("bad name"), ok),
        Err(TasktuiError::InvalidServiceName)
    );
    assert_eq!(
        dispatch_command(&service("Spooler"), Err(TasktuiError::Timeout)),
        Err(TasktuiError::Timeout)
    );
    assert_eq!(dispatch_command(&AdminCommand::Ping, Err(TasktuiError::Timeout)), Ok(AdminResult::Pong));
}

#[test]
fn failures_reach_the_response() {
    let request = new_request(AdminCommand::SuspendProcess { pid: 4 }, 1);
    let response = process_request(&request, Err(TasktuiError::AccessDenied));
    assert!(!response.ok);
    assert_eq!(response.error, Some(TasktuiError::AccessDenied));
    assert_eq!(response_message(&response), "Admin operation failed: operation is not allowed");
    assert_eq!(
        map_failure(PlatformFailure::Other("open process".into())),
        TasktuiError::Message("open process".into())
    );
    assert_eq!(
        map_failure(PlatformFailure::Known(TasktuiError::Timeout)),
        TasktuiError::Timeout
    );
}

#[test]
fn answers_are_told() {
    let answer = |result: Option<AdminResult>| ApiResponse {
        request_id: "1".into(),
        ok: true,
        result,
        error: None,
    };
    let cases = [
        (Some(AdminResult::Pong), "Service reachable.", "pong"),
        (
            Some(AdminResult::ProcessClosed { pid: 3, forced: true }),
            "Process 3 terminated.",
            "terminated process 3",
        ),
        (
            Some(AdminResult::ProcessClosed { pid: 3, forced: false }),
            "Close requested for process 3.",
            "requested close for process 3",
        ),
        (
            Some(AdminResult::ProcessRestarted { pid: 3 }),
            "Process 3 restarted.",
            "restarted process 3",
        ),
        (
            Some(AdminResult::ProcessStateChanged { pid: 3, action: ProcessAction::Suspended }),
            "Process 3 suspended.",
            "process 3 suspended",
        ),
        (
            Some(AdminResult::ProcessPriorityChanged {
                pid: 3,
                priority: ProcessPriority::BelowNormal,
            }),
            "Process 3 priority set to below_normal.",
            "process 3 priority set to below_normal",
        ),
        (
            Some(AdminResult::ServiceStateChanged {
                service_name: "Spooler".into(),
                action: ServiceAction::Stopped,
            }),
            "Service Spooler stopped.",
            "service Spooler stopped",
        ),
        (None, "Service returned no result.", "ok"),
    ];
    for (result, message, line) in cases {
        let response = answer(result);
        assert_eq!(response_message(&response), message);
        assert_eq!(response_line(&response), Ok(line.to_string()));
    }
    let failed = ApiResponse {
        request_id: "1".into(),
        ok: false,
        result: None,
        error: None,
    };
    assert_eq!(response_message(&failed), "Admin operation failed: service not reachable");
    assert_eq!(
        response_line(&failed),
        Err("admin operation failed: service not reachable".to_string())
    );
}

#[test]
fn process_commands_fall_back() {
    let kill = AdminCommand::ForceKillProcess { pid: 9 };
    let start = AdminCommand::StartService { service_name: "Spooler".into() };
    assert!(local_fallback_needed(&kill, "x: service not reachable"));
    assert!(!local_fallback_needed(&kill, "access denied"));
    assert!(!local_fallback_needed(&start, "service not reachable"));
    assert_eq!(
        handle_local_fallback(&kill, "service not reachable", &Ok(())),
        "Process 9 terminated. (local fallback)"
    );
    assert_eq!(
        handle_local_fallback(&kill, "service not reachable", &Err("denied".into())),
        "Admin operation failed: service not reachable; local fallback also failed: denied"
    );
    assert_eq!(
        handle_local_fallback(&kill, "broken", &Ok(())),
        "Admin operation failed: broken"
    );
    assert_eq!(
        handle_local_fallback(&start, "service not reachable", &Ok(())),
        "Admin operation failed: service not reachable"
    );
    let priority = AdminCommand::SetPriority { pid: 9, priority: ProcessPriority::High };
    assert_eq!(
        handle_local_fallback(&priority, "service not reachable", &Ok(())),
        "Process 9 priority set to high. (local fallback)"
    );
}

#[test]
fn opened_folders_are_told() {
    let failed = OpenOutcome::Failed("no shell".into());
    let unresolved = OpenOutcome::Unresolved("process not found: 5".into());
    assert_eq!(
        path_opened_message("C:\\a.exe", &OpenOutcome::Opened),
        "Opened executable folder for C:\\a.exe."
    );
    assert_eq!(path_opened_message("C:\\a.exe", &failed), "Failed to open path: no shell");
    assert_eq!(
        process_opened_message(5, &OpenOutcome::Opened),
        "Opened executable folder for PID 5."
    );
    assert_eq!(
        process_opened_message(5, &unresolved),
        "Selected process has no executable path."
    );
    assert_eq!(
        endpoint_opened_message(5, &unresolved),
        "Failed to resolve path: process not found: 5"
    );
    assert_eq!(endpoint_opened_message(5, &failed), "Failed to open path: no shell");
    assert_eq!(services_failed_message("x"), "Failed to enumerate services: x");
}

#[test]
fn command_lines_are_read() {
    assert_eq!(parse_args(&args(&[])), Ok(ParsedCommand::Help));
    assert_eq!(parse_args(&args(&["-h"])), Ok(ParsedCommand::Help));
    assert_eq!(parse_args(&args(&["list-ports"])), Ok(ParsedCommand::ListPorts));
    assert_eq!(parse_args(&args(&["ping"])), Ok(ParsedCommand::Admin(AdminCommand::Ping)));
    assert_eq!(
        parse_args(&args(&["kill-pid", "12"])),
        Ok(ParsedCommand::Admin(AdminCommand::ForceKillProcess { pid: 12 }))
    );
    assert_eq!(
        parse_args(&args(&["open-path", "12"])),
        Ok(ParsedCommand::OpenPath { pid: 12 })
    );
    assert_eq!(
        parse_args(&args(&["set-priority", "12", "above_normal"])),
        Ok(ParsedCommand::Admin(AdminCommand::SetPriority {
            pid: 12,
            priority: ProcessPriority::AboveNormal,
        }))
    );
    assert_eq!(
        parse_args(&args(&["restart-service", "Spooler"])),
        Ok(ParsedCommand::Admin(AdminCommand::RestartService {
            service_name: "Spooler".into(),
            timeout_ms: 30_000,
        }))
    );
    assert_eq!(
        parse_args(&args(&["restart-service", "Spooler", "5"])),
        Ok(ParsedCommand::Admin(AdminCommand::RestartService {
            service_name: "Spooler".into(),
            timeout_ms: 5,
        }))
    );
    assert_eq!(
        parse_args(&args(&["kill-pid", "x"])),
        Err(CliError::InvalidPid("x".into()))
    );
    assert_eq!(
        parse_args(&args(&["set-priority", "1", "fast"])),
        Err(CliError::InvalidPriority("fast".into()))
    );
    assert_eq!(
        parse_args(&args(&["restart-service", "Spooler", "soon"])),
        Err(CliError::InvalidTimeout("soon".into()))
    );
    assert_eq!(parse_args(&args(&["kill-pid"])), Err(CliError::InvalidArguments));
    assert_eq!(
        parse_args(&args(&["ping", "1", "2", "3"])),
        Err(CliError::InvalidArguments)
    );
    assert_eq!(CliError::InvalidPid("x".into()).message(), "invalid pid: x");
    assert_eq!(
        CliError::InvalidArguments.message(),
        "invalid arguments. Use --help for usage."
    );
    assert_eq!(usage_lines().len(), 13);
}

#[test]
fn numbers_are_read_like_the_system_writes_them() {
    assert_eq!(parse_pid("0"), Ok(0));
    assert_eq!(parse_pid("+7"), Ok(7));
    assert_eq!(parse_pid("007"), Ok(7));
    assert_eq!(parse_pid("4294967295"), Ok(u32::MAX));
    for wrong in ["", "+", "-1", "4294967296", "1 ", "1_0", "99999999999999999999"] {
        assert_eq!(parse_pid(wrong), Err(CliError::InvalidPid(wrong.into())));
    }
}

#[test]
fn ports_are_listed_in_columns() {
    let owner = TcpPortOwner {
        pid: 42,
        local_addr: "127.0.0.1".into(),
        local_port: 80,
        remote_addr: "0.0.0.0".into(),
        remote_port: 0,
        state: "listen".into(),
    };
    assert_eq!(
        port_line(&owner),
        format!("{:<6} {:<21} {:<21} {}", 42, "127.0.0.1:80", "0.0.0.0:0", "listen")
    );
}

#[test]
fn the_service_has_modes() {
    assert_eq!(service_mode(&None), Ok(ServiceMode::Managed));
    assert_eq!(service_mode(&Some("--console".into())), Ok(ServiceMode::Console));
    assert_eq!(service_mode(&Some("--help".into())), Ok(ServiceMode::Help));
    assert_eq!(
        service_mode(&Some("--fast".into())),
        Err(CliError::UnknownArgument("--fast".into()))
    );
    assert!(is_not_started_by_scm(Some(1063)));
    assert!(!is_not_started_by_scm(Some(5)));
    assert!(!is_not_started_by_scm(None));
}
