//! The command lines of the helper program and of the service.

use crate::api::{
    AdminCommand, AdminResult, ApiResponse, CommandView, ProcessPriority, TasktuiError,
    TcpPortOwner,
};
use crate::input::RESTART_TIMEOUT_MILLIS;
use crate::messages::labelled;
use crate::presentation::{blanks, pad_right};
use crate::refresh::{endpoint, endpoint_text};
use crate::sorting::views;
use crate::text::{decimal, decimal_text, parse_u32, parsed_u32, same_text};
use vstd::prelude::*;

verus! {

/// What the helper program is asked to do.
#[derive(Debug, PartialEq, Eq)]
pub enum ParsedCommand {
    Help,
    ListPorts,
    OpenPath { pid: u32 },
    Admin(AdminCommand),
}

/// The model of what the helper program is asked to do.
pub enum ParsedView {
    Help,
    ListPorts,
    OpenPath { pid: u32 },
    Admin(CommandView),
}

impl View for ParsedCommand {
    type V = ParsedView;

    open spec fn view(&self) -> ParsedView {
        match self {
            ParsedCommand::Help => ParsedView::Help,
            ParsedCommand::ListPorts => ParsedView::ListPorts,
            ParsedCommand::OpenPath { pid } => ParsedView::OpenPath { pid: *pid },
            ParsedCommand::Admin(command) => ParsedView::Admin(command@),
        }
    }
}

/// What can be wrong with a command line.
#[derive(Debug, PartialEq, Eq)]
pub enum CliError {
    InvalidArguments,
    InvalidPid(String),
    InvalidPriority(String),
    InvalidTimeout(String),
    UnknownArgument(String),
}

/// The model of what can be wrong with a command line.
pub enum CliErrorView {
    InvalidArguments,
    InvalidPid(Seq<char>),
    InvalidPriority(Seq<char>),
    InvalidTimeout(Seq<char>),
    UnknownArgument(Seq<char>),
}

impl View for CliError {
    type V = CliErrorView;

    open spec fn view(&self) -> CliErrorView {
        match self {
            CliError::InvalidArguments => CliErrorView::InvalidArguments,
            CliError::InvalidPid(value) => CliErrorView::InvalidPid(value@),
            CliError::InvalidPriority(value) => CliErrorView::InvalidPriority(value@),
            CliError::InvalidTimeout(value) => CliErrorView::InvalidTimeout(value@),
            CliError::UnknownArgument(value) => CliErrorView::UnknownArgument(value@),
        }
    }
}

impl CliErrorView {
    /// The sentence that tells the user of the error.
    pub open spec fn sentence(self) -> Seq<char> {
        match self {
            CliErrorView::InvalidArguments => "invalid arguments. Use --help for usage."@,
            CliErrorView::InvalidPid(value) => "invalid pid: "@ + value,
            CliErrorView::InvalidPriority(value) => "invalid priority: "@ + value,
            CliErrorView::InvalidTimeout(value) => "invalid timeout_ms: "@ + value,
            CliErrorView::UnknownArgument(value) => "unknown argument: "@ + value,
        }
    }
}

impl CliError {
    /// The sentence that tells the user of the error.
    pub fn message(&self) -> (text: String)
        ensures
            text@ == self@.sentence(),
    {
        match self {
            CliError::InvalidArguments => "invalid arguments. Use --help for usage.".to_string(),
            CliError::InvalidPid(value) => labelled("invalid pid: ", value.as_str()),
            CliError::InvalidPriority(value) => labelled("invalid priority: ", value.as_str()),
            CliError::InvalidTimeout(value) => labelled("invalid timeout_ms: ", value.as_str()),
            CliError::UnknownArgument(value) => labelled("unknown argument: ", value.as_str()),
        }
    }
}

/// The priority that a word stands for.
pub open spec fn priority_of_word(word: Seq<char>) -> Option<ProcessPriority> {
    if word == "idle"@ {
        Some(ProcessPriority::Idle)
    } else if word == "below_normal"@ {
        Some(ProcessPriority::BelowNormal)
    } else if word == "normal"@ {
        Some(ProcessPriority::Normal)
    } else if word == "above_normal"@ {
        Some(ProcessPriority::AboveNormal)
    } else if word == "high"@ {
        Some(ProcessPriority::High)
    } else {
        None
    }
}

/// Reads a process number.
pub fn parse_pid(value: &str) -> (r: Result<u32, CliError>)
    ensures
        match r {
            Ok(pid) => parsed_u32(value@) == Some(pid),
            Err(error) => parsed_u32(value@) is None && error@ == CliErrorView::InvalidPid(value@),
        },
{
    match parse_u32(value) {
        Some(pid) => Ok(pid),
        None => Err(CliError::InvalidPid(value.to_string())),
    }
}

/// Reads a priority.
pub fn parse_priority(value: &str) -> (r: Result<ProcessPriority, CliError>)
    ensures
        match r {
            Ok(priority) => priority_of_word(value@) == Some(priority),
            Err(error) => priority_of_word(value@) is None && error@
                == CliErrorView::InvalidPriority(value@),
        },
{
    if same_text(value, "idle") {
        Ok(ProcessPriority::Idle)
    } else if same_text(value, "below_normal") {
        Ok(ProcessPriority::BelowNormal)
    } else if same_text(value, "normal") {
        Ok(ProcessPriority::Normal)
    } else if same_text(value, "above_normal") {
        Ok(ProcessPriority::AboveNormal)
    } else if same_text(value, "high") {
        Ok(ProcessPriority::High)
    } else {
        Err(CliError::InvalidPriority(value.to_string()))
    }
}

/// The word for a priority is read as that priority.
pub proof fn priority_words_read_back(priority: ProcessPriority)
    ensures
        priority_of_word(priority.word()) == Some(priority),
{
    reveal_strlit("idle");
    reveal_strlit("below_normal");
    reveal_strlit("normal");
    reveal_strlit("above_normal");
    reveal_strlit("high");
    assert("below_normal"@[0] != "above_normal"@[0]);
    assert("idle"@[0] != "high"@[0]);
}

/// A command about a process, made from its number.
pub open spec fn about_process(value: Seq<char>, command: spec_fn(u32) -> CommandView) -> Result<
    ParsedView,
    CliErrorView,
> {
    match parsed_u32(value) {
        Some(pid) => Ok(ParsedView::Admin(command(pid))),
        None => Err(CliErrorView::InvalidPid(value)),
    }
}

/// What one argument asks for.
pub open spec fn parsed_one(command: Seq<char>) -> Result<ParsedView, CliErrorView> {
    if command == "--help"@ || command == "-h"@ {
        Ok(ParsedView::Help)
    } else if command == "list-ports"@ {
        Ok(ParsedView::ListPorts)
    } else if command == "ping"@ {
        Ok(ParsedView::Admin(CommandView::Ping))
    } else {
        Err(CliErrorView::InvalidArguments)
    }
}

/// What two arguments ask for.
pub open spec fn parsed_two(command: Seq<char>, value: Seq<char>) -> Result<
    ParsedView,
    CliErrorView,
> {
    if command == "kill-pid"@ {
        about_process(value, |pid: u32| CommandView::ForceKillProcess { pid })
    } else if command == "close-pid"@ {
        about_process(value, |pid: u32| CommandView::RequestCloseProcess { pid })
    } else if command == "restart-pid"@ {
        about_process(value, |pid: u32| CommandView::RestartProcess { pid })
    } else if command == "suspend-pid"@ {
        about_process(value, |pid: u32| CommandView::SuspendProcess { pid })
    } else if command == "resume-pid"@ {
        about_process(value, |pid: u32| CommandView::ResumeProcess { pid })
    } else if command == "open-path"@ {
        match parsed_u32(value) {
            Some(pid) => Ok(ParsedView::OpenPath { pid }),
            None => Err(CliErrorView::InvalidPid(value)),
        }
    } else if command == "start-service"@ {
        Ok(ParsedView::Admin(CommandView::StartService { service_name: value }))
    } else if command == "stop-service"@ {
        Ok(ParsedView::Admin(CommandView::StopService { service_name: value }))
    } else if command == "restart-service"@ {
        Ok(
            ParsedView::Admin(
                CommandView::RestartService {
                    service_name: value,
                    timeout_ms: RESTART_TIMEOUT_MILLIS,
                },
            ),
        )
    } else {
        Err(CliErrorView::InvalidArguments)
    }
}

/// What three arguments ask for.
pub open spec fn parsed_three(command: Seq<char>, value: Seq<char>, option: Seq<char>) -> Result<
    ParsedView,
    CliErrorView,
> {
    if command == "set-priority"@ {
        match (parsed_u32(value), priority_of_word(option)) {
            (None, _) => Err(CliErrorView::InvalidPid(value)),
            (_, None) => Err(CliErrorView::InvalidPriority(option)),
            (Some(pid), Some(priority)) => Ok(
                ParsedView::Admin(CommandView::SetPriority { pid, priority }),
            ),
        }
    } else if command == "restart-service"@ {
        match parsed_u32(option) {
            Some(timeout_ms) => Ok(
                ParsedView::Admin(
                    CommandView::RestartService { service_name: value, timeout_ms },
                ),
            ),
            None => Err(CliErrorView::InvalidTimeout(option)),
        }
    } else {
        Err(CliErrorView::InvalidArguments)
    }
}

/// What a command line asks for.
pub open spec fn parsed_cli(args: Seq<Seq<char>>) -> Result<ParsedView, CliErrorView> {
    if args.len() == 0 {
        Ok(ParsedView::Help)
    } else if args.len() == 1 {
        parsed_one(args[0])
    } else if args.len() == 2 {
        parsed_two(args[0], args[1])
    } else if args.len() == 3 {
        parsed_three(args[0], args[1], args[2])
    } else {
        Err(CliErrorView::InvalidArguments)
    }
}

/// Whether a result is the wanted one.
pub open spec fn is_parsed(
    r: Result<ParsedCommand, CliError>,
    wanted: Result<ParsedView, CliErrorView>,
) -> bool {
    match (r, wanted) {
        (Ok(command), Ok(view)) => command@ == view,
        (Err(error), Err(view)) => error@ == view,
        _ => false,
    }
}

/// Reads two arguments.
fn parse_two(command: &str, value: &str) -> (r: Result<ParsedCommand, CliError>)
    ensures
        is_parsed(r, parsed_two(command@, value@)),
{
    let pid: Result<u32, CliError> = parse_pid(value);
    if same_text(command, "kill-pid") {
        match pid {
            Ok(pid) => Ok(ParsedCommand::Admin(AdminCommand::ForceKillProcess { pid })),
            Err(error) => Err(error),
        }
    } else if same_text(command, "close-pid") {
        match pid {
            Ok(pid) => Ok(ParsedCommand::Admin(AdminCommand::RequestCloseProcess { pid })),
            Err(error) => Err(error),
        }
    } else if same_text(command, "restart-pid") {
        match pid {
            Ok(pid) => Ok(ParsedCommand::Admin(AdminCommand::RestartProcess { pid })),
            Err(error) => Err(error),
        }
    } else if same_text(command, "suspend-pid") {
        match pid {
            Ok(pid) => Ok(ParsedCommand::Admin(AdminCommand::SuspendProcess { pid })),
            Err(error) => Err(error),
        }
    } else if same_text(command, "resume-pid") {
        match pid {
            Ok(pid) => Ok(ParsedCommand::Admin(AdminCommand::ResumeProcess { pid })),
            Err(error) => Err(error),
        }
    } else if same_text(command, "open-path") {
        match pid {
            Ok(pid) => Ok(ParsedCommand::OpenPath { pid }),
            Err(error) => Err(error),
        }
    } else if same_text(command, "start-service") {
        Ok(ParsedCommand::Admin(AdminCommand::StartService { service_name: value.to_string() }))
    } else if same_text(command, "stop-service") {
        Ok(ParsedCommand::Admin(AdminCommand::StopService { service_name: value.to_string() }))
    } else if same_text(command, "restart-service") {
        Ok(
            ParsedCommand::Admin(
                AdminCommand::RestartService {
                    service_name: value.to_string(),
                    timeout_ms: RESTART_TIMEOUT_MILLIS,
                },
            ),
        )
    } else {
        Err(CliError::InvalidArguments)
    }
}

/// Reads three arguments.
fn parse_three(command: &str, value: &str, option: &str) -> (r: Result<ParsedCommand, CliError>)
    ensures
        is_parsed(r, parsed_three(command@, value@, option@)),
{
    if same_text(command, "set-priority") {
        match parse_pid(value) {
            Err(error) => Err(error),
            Ok(pid) => match parse_priority(option) {
                Err(error) => Err(error),
                Ok(priority) => Ok(
                    ParsedCommand::Admin(AdminCommand::SetPriority { pid, priority }),
                ),
            },
        }
    } else if same_text(command, "restart-service") {
        match parse_u32(option) {
            Some(timeout_ms) => Ok(
                ParsedCommand::Admin(
                    AdminCommand::RestartService { service_name: value.to_string(), timeout_ms },
                ),
            ),
            None => Err(CliError::InvalidTimeout(option.to_string())),
        }
    } else {
        Err(CliError::InvalidArguments)
    }
}

/// Reads a command line.
pub fn parse_args(args: &[String]) -> (r: Result<ParsedCommand, CliError>)
    ensures
        is_parsed(r, parsed_cli(views(args@))),
{
    if args.len() == 0 {
        Ok(ParsedCommand::Help)
    } else if args.len() == 1 {
        let command = args[0].as_str();
        if same_text(command, "--help") || same_text(command, "-h") {
            Ok(ParsedCommand::Help)
        } else if same_text(command, "list-ports") {
            Ok(ParsedCommand::ListPorts)
        } else if same_text(command, "ping") {
            Ok(ParsedCommand::Admin(AdminCommand::Ping))
        } else {
            Err(CliError::InvalidArguments)
        }
    } else if args.len() == 2 {
        parse_two(args[0].as_str(), args[1].as_str())
    } else if args.len() == 3 {
        parse_three(args[0].as_str(), args[1].as_str(), args[2].as_str())
    } else {
        Err(CliError::InvalidArguments)
    }
}

/// The line for what a command brought about.
pub open spec fn outcome_line(result: Option<AdminResult>) -> Seq<char> {
    match result {
        None => "ok"@,
        Some(AdminResult::Pong) => "pong"@,
        Some(AdminResult::ProcessClosed { pid, forced }) => if forced {
            "terminated process "@ + decimal(pid as nat)
        } else {
            "requested close for process "@ + decimal(pid as nat)
        },
        Some(AdminResult::ProcessRestarted { pid }) => "restarted process "@ + decimal(pid as nat),
        Some(AdminResult::ProcessStateChanged { pid, action }) => "process "@ + decimal(pid as nat)
            + " "@ + action.word(),
        Some(AdminResult::ProcessPriorityChanged { pid, priority }) => "process "@ + decimal(
            pid as nat,
        ) + " priority set to "@ + priority.word(),
        Some(AdminResult::ServiceStateChanged { service_name, action }) => "service "@
            + service_name@ + " "@ + action.word(),
    }
}

/// A beginning followed by a process number.
fn process_line_start(beginning: &str, pid: u32) -> (text: String)
    ensures
        text@ == beginning@ + decimal(pid as nat),
{
    let number = decimal_text(pid as u64);
    labelled(beginning, number.as_str())
}

/// The line for the service's answer, or the message of its failure.
pub fn response_line(response: &ApiResponse) -> (r: Result<String, String>)
    ensures
        match r {
            Ok(line) => response.ok && line@ == outcome_line(response.result),
            Err(message) => !response.ok && message@ == "admin operation failed: "@ + (
            match response.error {
                Some(error) => error.sentence(),
                None => TasktuiError::ServiceUnavailable.sentence(),
            }),
        },
{
    if !response.ok {
        let reason = match &response.error {
            Some(error) => error.message(),
            None => TasktuiError::ServiceUnavailable.message(),
        };
        return Err(labelled("admin operation failed: ", reason.as_str()));
    }
    let line = match &response.result {
        None => "ok".to_string(),
        Some(result) => match result {
            AdminResult::Pong => "pong".to_string(),
            AdminResult::ProcessClosed { pid, forced } => {
                if *forced {
                    process_line_start("terminated process ", *pid)
                } else {
                    process_line_start("requested close for process ", *pid)
                }
            },
            AdminResult::ProcessRestarted { pid } => {
                process_line_start("restarted process ", *pid)
            },
            AdminResult::ProcessStateChanged { pid, action } => {
                let mut text = process_line_start("process ", *pid);
                text.append(" ");
                text.append(action.label());
                text
            },
            AdminResult::ProcessPriorityChanged { pid, priority } => {
                let mut text = process_line_start("process ", *pid);
                text.append(" priority set to ");
                text.append(priority.label());
                text
            },
            AdminResult::ServiceStateChanged { service_name, action } => {
                let mut text = labelled("service ", service_name.as_str());
                text.append(" ");
                text.append(action.label());
                text
            },
        },
    };
    Ok(line)
}

/// A text brought to a width by spaces behind it.
pub open spec fn column(text: Seq<char>, width: int) -> Seq<char> {
    text + blanks(width - text.len())
}

/// An endpoint in one line: owner, local and remote end, and state in columns.
pub fn port_line(owner: &TcpPortOwner) -> (line: String)
    ensures
        line@ == column(decimal(owner.pid as nat), 6) + " "@ + column(
            endpoint(owner@.local_addr, owner.local_port),
            21,
        ) + " "@ + column(endpoint(owner@.remote_addr, owner.remote_port), 21) + " "@
            + owner@.state,
{
    let number = decimal_text(owner.pid as u64);
    let local = endpoint_text(owner.local_addr.as_str(), owner.local_port);
    let remote = endpoint_text(owner.remote_addr.as_str(), owner.remote_port);
    let mut line = pad_right(number.as_str(), 6);
    line.append(" ");
    let local_column = pad_right(local.as_str(), 21);
    line.append(local_column.as_str());
    line.append(" ");
    let remote_column = pad_right(remote.as_str(), 21);
    line.append(remote_column.as_str());
    line.append(" ");
    line.append(owner.state.as_str());
    line
}

/// The lines of help.
pub open spec fn usage() -> Seq<Seq<char>> {
    seq![
        "tasktuictl"@,
        "  ping"@,
        "  list-ports"@,
        "  open-path <pid>"@,
        "  close-pid <pid>"@,
        "  kill-pid <pid>"@,
        "  restart-pid <pid>"@,
        "  suspend-pid <pid>"@,
        "  resume-pid <pid>"@,
        "  set-priority <pid> <idle|below_normal|normal|above_normal|high>"@,
        "  start-service <service_name>"@,
        "  stop-service <service_name>"@,
        "  restart-service <service_name> [timeout_ms]"@,
    ]
}

/// The lines of help.
pub fn usage_lines() -> (lines: Vec<String>)
    ensures
        views(lines@) == usage(),
{
    let lines = vec![
        "tasktuictl".to_string(),
        "  ping".to_string(),
        "  list-ports".to_string(),
        "  open-path <pid>".to_string(),
        "  close-pid <pid>".to_string(),
        "  kill-pid <pid>".to_string(),
        "  restart-pid <pid>".to_string(),
        "  suspend-pid <pid>".to_string(),
        "  resume-pid <pid>".to_string(),
        "  set-priority <pid> <idle|below_normal|normal|above_normal|high>".to_string(),
        "  start-service <service_name>".to_string(),
        "  stop-service <service_name>".to_string(),
        "  restart-service <service_name> [timeout_ms]".to_string(),
    ];
    assert(views(lines@) =~= usage());
    lines
}

/// How the service is run.
#[derive(Debug, Clone, Copy, PartialEq, Eq, Structural)]
pub enum ServiceMode {
    /// By the service manager.
    Managed,
    /// In the foreground.
    Console,
    /// Not at all: its help is shown.
    Help,
}

/// How the service is run, by its first argument.
pub fn service_mode(argument: &Option<String>) -> (r: Result<ServiceMode, CliError>)
    ensures
        match *argument {
            None => r == Ok::<ServiceMode, CliError>(ServiceMode::Managed),
            Some(text) => if text@ == "--console"@ {
                r == Ok::<ServiceMode, CliError>(ServiceMode::Console)
            } else if text@ == "--help"@ || text@ == "-h"@ {
                r == Ok::<ServiceMode, CliError>(ServiceMode::Help)
            } else {
                r matches Err(error) && error@ == CliErrorView::UnknownArgument(text@)
            },
        },
{
    match argument {
        None => Ok(ServiceMode::Managed),
        Some(text) => {
            if same_text(text.as_str(), "--console") {
                Ok(ServiceMode::Console)
            } else if same_text(text.as_str(), "--help") || same_text(text.as_str(), "-h") {
                Ok(ServiceMode::Help)
            } else {
                Err(CliError::UnknownArgument(text.clone()))
            }
        },
    }
}

/// The system's code for a service program that the service manager did not start.
pub const NOT_STARTED_BY_MANAGER: i32 = 1063;

/// Whether an error code tells that the service manager did not start the program.
pub fn is_not_started_by_scm(code: Option<i32>) -> (r: bool)
    ensures
        r == (code == Some(NOT_STARTED_BY_MANAGER)),
{
    match code {
        Some(c) => c == NOT_STARTED_BY_MANAGER,
        None => false,
    }
}

/// The words for commands are different.
proof fn lemma_command_words_differ()
    ensures
        "kill-pid"@.len() == 8 && "close-pid"@.len() == 9 && "restart-pid"@.len() == 11
            && "suspend-pid"@.len() == 11 && "resume-pid"@.len() == 10 && "open-path"@.len() == 9
            && "start-service"@.len() == 13 && "stop-service"@.len() == 12
            && "restart-service"@.len() == 15 && "set-priority"@.len() == 12,
        "close-pid"@ != "open-path"@,
        "restart-pid"@ != "suspend-pid"@,
        "--help"@.len() == 6 && "-h"@.len() == 2 && "list-ports"@.len() == 10 && "ping"@.len() == 4,
        "idle"@.len() == 4 && "below_normal"@.len() == 12 && "normal"@.len() == 6
            && "above_normal"@.len() == 12 && "high"@.len() == 4,
        "below_normal"@ != "above_normal"@,
        "idle"@ != "high"@,
{
    reveal_strlit("kill-pid");
    reveal_strlit("close-pid");
    reveal_strlit("restart-pid");
    reveal_strlit("suspend-pid");
    reveal_strlit("resume-pid");
    reveal_strlit("open-path");
    reveal_strlit("start-service");
    reveal_strlit("stop-service");
    reveal_strlit("restart-service");
    reveal_strlit("set-priority");
    reveal_strlit("--help");
    reveal_strlit("-h");
    reveal_strlit("list-ports");
    reveal_strlit("ping");
    reveal_strlit("idle");
    reveal_strlit("below_normal");
    reveal_strlit("normal");
    reveal_strlit("above_normal");
    reveal_strlit("high");
    assert("close-pid"@[0] != "open-path"@[0]);
    assert("restart-pid"@[0] != "suspend-pid"@[0]);
    assert("below_normal"@[0] != "above_normal"@[0]);
    assert("idle"@[0] != "high"@[0]);
}

/// A command about a process, with a number that can be read, asks for exactly what it is called;
/// a number that cannot be read is refused.
pub proof fn process_commands_are_read(value: Seq<char>)
    ensures
        ({
            let number = parsed_u32(value);
            let kill = parsed_cli(seq!["kill-pid"@, value]);
            let close = parsed_cli(seq!["close-pid"@, value]);
            let restart = parsed_cli(seq!["restart-pid"@, value]);
            let suspend = parsed_cli(seq!["suspend-pid"@, value]);
            let resume = parsed_cli(seq!["resume-pid"@, value]);
            let open = parsed_cli(seq!["open-path"@, value]);
            &&& number matches Some(pid) ==> {
                &&& kill == Ok::<ParsedView, CliErrorView>(
                    ParsedView::Admin(CommandView::ForceKillProcess { pid }),
                )
                &&& close == Ok::<ParsedView, CliErrorView>(
                    ParsedView::Admin(CommandView::RequestCloseProcess { pid }),
                )
                &&& restart == Ok::<ParsedView, CliErrorView>(
                    ParsedView::Admin(CommandView::RestartProcess { pid }),
                )
                &&& suspend == Ok::<ParsedView, CliErrorView>(
                    ParsedView::Admin(CommandView::SuspendProcess { pid }),
                )
                &&& resume == Ok::<ParsedView, CliErrorView>(
                    ParsedView::Admin(CommandView::ResumeProcess { pid }),
                )
                &&& open == Ok::<ParsedView, CliErrorView>(ParsedView::OpenPath { pid })
            }
            &&& number is None ==> {
                let refused = Err::<ParsedView, CliErrorView>(CliErrorView::InvalidPid(value));
                &&& kill == refused && close == refused && restart == refused
                &&& suspend == refused && resume == refused && open == refused
            }
        }),
{
    lemma_command_words_differ();
}

/// A command about a service asks for exactly what it is called, of the service that it names. A
/// restart may take thirty seconds, or as many milliseconds as are given.
pub proof fn service_commands_are_read(value: Seq<char>, option: Seq<char>)
    ensures
        parsed_cli(seq!["start-service"@, value]) == Ok::<ParsedView, CliErrorView>(
            ParsedView::Admin(CommandView::StartService { service_name: value }),
        ),
        parsed_cli(seq!["stop-service"@, value]) == Ok::<ParsedView, CliErrorView>(
            ParsedView::Admin(CommandView::StopService { service_name: value }),
        ),
        parsed_cli(seq!["restart-service"@, value]) == Ok::<ParsedView, CliErrorView>(
            ParsedView::Admin(
                CommandView::RestartService { service_name: value, timeout_ms: 30000 },
            ),
        ),
        parsed_u32(option) matches Some(timeout_ms) ==> parsed_cli(
            seq!["restart-service"@, value, option],
        ) == Ok::<ParsedView, CliErrorView>(
            ParsedView::Admin(CommandView::RestartService { service_name: value, timeout_ms }),
        ),
        parsed_u32(option) is None ==> parsed_cli(seq!["restart-service"@, value, option]) == Err::<
            ParsedView,
            CliErrorView,
        >(CliErrorView::InvalidTimeout(option)),
{
    lemma_command_words_differ();
}

/// The command for a priority asks for the one that it names; a number or a word that cannot be
/// read is refused, the number first.
pub proof fn priority_commands_are_read(value: Seq<char>, option: Seq<char>)
    ensures
        ({
            let read = parsed_cli(seq!["set-priority"@, value, option]);
            let known = option == "idle"@ || option == "below_normal"@ || option == "normal"@
                || option == "above_normal"@ || option == "high"@;
            let number = parsed_u32(value);
            let wanted = |priority: ProcessPriority|
                Ok::<ParsedView, CliErrorView>(
                    ParsedView::Admin(CommandView::SetPriority { pid: number->0, priority }),
                );
            &&& number is None ==> read == Err::<ParsedView, CliErrorView>(
                CliErrorView::InvalidPid(value),
            )
            &&& number is Some && !known ==> read == Err::<ParsedView, CliErrorView>(
                CliErrorView::InvalidPriority(option),
            )
            &&& number is Some && option == "idle"@ ==> read == wanted(ProcessPriority::Idle)
            &&& number is Some && option == "below_normal"@ ==> read == wanted(
                ProcessPriority::BelowNormal,
            )
            &&& number is Some && option == "normal"@ ==> read == wanted(ProcessPriority::Normal)
            &&& number is Some && option == "above_normal"@ ==> read == wanted(
                ProcessPriority::AboveNormal,
            )
            &&& number is Some && option == "high"@ ==> read == wanted(ProcessPriority::High)
        }),
{
    lemma_command_words_differ();
}

/// Without arguments, and with one that asks for it, there is help. The ping and the list of
/// ports take no further argument. Anything else is refused.
pub proof fn other_command_lines_are_read(args: Seq<Seq<char>>)
    ensures
        parsed_cli(Seq::empty()) == Ok::<ParsedView, CliErrorView>(ParsedView::Help),
        parsed_cli(seq!["--help"@]) == Ok::<ParsedView, CliErrorView>(ParsedView::Help),
        parsed_cli(seq!["-h"@]) == Ok::<ParsedView, CliErrorView>(ParsedView::Help),
        parsed_cli(seq!["list-ports"@]) == Ok::<ParsedView, CliErrorView>(ParsedView::ListPorts),
        parsed_cli(seq!["ping"@]) == Ok::<ParsedView, CliErrorView>(
            ParsedView::Admin(CommandView::Ping),
        ),
        args.len() > 3 || (args.len() == 1 && args[0] != "--help"@ && args[0] != "-h"@ && args[0]
            != "list-ports"@ && args[0] != "ping"@) || (args.len() == 2 && args[0] != "kill-pid"@
            && args[0] != "close-pid"@ && args[0] != "restart-pid"@ && args[0] != "suspend-pid"@
            && args[0] != "resume-pid"@ && args[0] != "open-path"@ && args[0] != "start-service"@
            && args[0] != "stop-service"@ && args[0] != "restart-service"@) || (args.len() == 3
            && args[0] != "set-priority"@ && args[0] != "restart-service"@) ==> parsed_cli(args)
            == Err::<ParsedView, CliErrorView>(CliErrorView::InvalidArguments),
{
    lemma_command_words_differ();
}

/// What was done is told in a line, with the process or the service that it was done to.
pub proof fn outcomes_are_told(
    pid: u32,
    action: crate::api::ProcessAction,
    priority: ProcessPriority,
    name: String,
    change: crate::api::ServiceAction,
)
    ensures
        ({
            let number = decimal(pid as nat);
            &&& outcome_line(None) == "ok"@
            &&& outcome_line(Some(AdminResult::Pong)) == "pong"@
            &&& outcome_line(Some(AdminResult::ProcessClosed { pid, forced: true }))
                == "terminated process "@ + number
            &&& outcome_line(Some(AdminResult::ProcessClosed { pid, forced: false }))
                == "requested close for process "@ + number
            &&& outcome_line(Some(AdminResult::ProcessRestarted { pid })) == "restarted process "@
                + number
            &&& outcome_line(Some(AdminResult::ProcessStateChanged { pid, action })) == "process "@
                + number + " "@ + action.word()
            &&& outcome_line(Some(AdminResult::ProcessPriorityChanged { pid, priority }))
                == "process "@ + number + " priority set to "@ + priority.word()
            &&& outcome_line(
                Some(AdminResult::ServiceStateChanged { service_name: name, action: change }),
            ) == "service "@ + name@ + " "@ + change.word()
        }),
{
}

/// What is wrong with a command line is told with the argument that is wrong. A column is filled
/// with spaces behind its text, and an endpoint is an address and a port.
pub proof fn wrong_arguments_are_told(value: Seq<char>, width: int, port: u16, i: int)
    requires
        0 <= i,
    ensures
        CliErrorView::InvalidArguments.sentence() == "invalid arguments. Use --help for usage."@,
        CliErrorView::InvalidPid(value).sentence() == "invalid pid: "@ + value,
        CliErrorView::InvalidPriority(value).sentence() == "invalid priority: "@ + value,
        CliErrorView::InvalidTimeout(value).sentence() == "invalid timeout_ms: "@ + value,
        CliErrorView::UnknownArgument(value).sentence() == "unknown argument: "@ + value,
        endpoint(value, port) == value + ":"@ + decimal(port as nat),
        column(value, width).len() == (if width < value.len() {
            value.len() as int
        } else {
            width
        }),
        i < value.len() ==> column(value, width)[i] == value[i],
        value.len() <= i < width ==> column(value, width)[i] == ' ',
{
}

/// What was read of a command line is known as what it is.
pub proof fn parsed_models_show_what_is_held(command: ParsedCommand, error: CliError)
    ensures
        match command {
            ParsedCommand::Help => command@ is Help,
            ParsedCommand::ListPorts => command@ is ListPorts,
            ParsedCommand::OpenPath { pid } => command@ == ParsedView::OpenPath { pid },
            ParsedCommand::Admin(admin) => command@ == ParsedView::Admin(admin@),
        },
        match error {
            CliError::InvalidArguments => error@ is InvalidArguments,
            CliError::InvalidPid(value) => error@ == CliErrorView::InvalidPid(value@),
            CliError::InvalidPriority(value) => error@ == CliErrorView::InvalidPriority(value@),
            CliError::InvalidTimeout(value) => error@ == CliErrorView::InvalidTimeout(value@),
            CliError::UnknownArgument(value) => error@ == CliErrorView::UnknownArgument(value@),
        },
{
}

/// A command line is read as what it asks for, or refused with what is wrong with it.
pub proof fn command_lines_are_read_or_refused(args: &[String], r: Result<ParsedCommand, CliError>)
    requires
        call_ensures(parse_args, (args,), r),
    ensures
        parsed_cli(views(args@)) matches Ok(wanted) ==> r is Ok && r->Ok_0@ == wanted,
        parsed_cli(views(args@)) matches Err(wanted) ==> r is Err && r->Err_0@ == wanted,
{
}

/// The help names every command, with its arguments.
pub proof fn the_help_names_every_command()
    ensures
        ({
            let lines = usage();
            &&& lines.len() == 13
            &&& lines[0] == "tasktuictl"@
            &&& lines[1] == "  ping"@
            &&& lines[2] == "  list-ports"@
            &&& lines[3] == "  open-path <pid>"@
            &&& lines[4] == "  close-pid <pid>"@
            &&& lines[5] == "  kill-pid <pid>"@
            &&& lines[6] == "  restart-pid <pid>"@
            &&& lines[7] == "  suspend-pid <pid>"@
            &&& lines[8] == "  resume-pid <pid>"@
            &&& lines[9] == "  set-priority <pid> <idle|below_normal|normal|above_normal|high>"@
            &&& lines[10] == "  start-service <service_name>"@
            &&& lines[11] == "  stop-service <service_name>"@
            &&& lines[12] == "  restart-service <service_name> [timeout_ms]"@
        }),
{
}

/// The service runs under the service manager, or in the foreground if it is told so, and shows its
/// help if it is asked for it. The code 1063 tells that no service manager started it.
pub proof fn the_service_runs_as_told(
    argument: &Option<String>,
    mode: Result<ServiceMode, CliError>,
    code: Option<i32>,
    alone: bool,
)
    requires
        call_ensures(service_mode, (argument,), mode),
        call_ensures(is_not_started_by_scm, (code,), alone),
    ensures
        *argument is None ==> mode is Ok && mode->Ok_0 == ServiceMode::Managed,
        *argument matches Some(text) ==> {
            &&& text@ == "--console"@ ==> mode is Ok && mode->Ok_0 == ServiceMode::Console
            &&& text@ == "--help"@ || text@ == "-h"@ ==> mode is Ok && mode->Ok_0
                == ServiceMode::Help
            &&& text@ != "--console"@ && text@ != "--help"@ && text@ != "-h"@ ==> mode is Err
                && mode->Err_0@ == CliErrorView::UnknownArgument(text@)
        },
        alone <==> code == Some(1063i32),
{
    reveal_strlit("--console");
    reveal_strlit("--help");
    reveal_strlit("-h");
    assert("--console"@.len() == 9 && "--help"@.len() == 6 && "-h"@.len() == 2);
}

/// The answer of the service becomes a line if it is a success, and else a message with its reason.
pub proof fn answers_become_lines(response: &ApiResponse, r: Result<String, String>)
    requires
        call_ensures(response_line, (response,), r),
    ensures
        r is Ok <==> response.ok,
        r is Ok ==> r->Ok_0@ == outcome_line(response.result),
        r is Err && response.error is Some ==> r->Err_0@ == "admin operation failed: "@
            + response.error->0.sentence(),
        r is Err && response.error is None ==> r->Err_0@ == "admin operation failed: "@
            + "service not reachable"@,
{
}

/// The line of an endpoint holds its owner, its local end, its remote end, and its state.
pub proof fn port_lines_show_the_endpoint(owner: &TcpPortOwner, line: String)
    requires
        call_ensures(port_line, (owner,), line),
    ensures
        ({
            let number = decimal(owner.pid as nat);
            let local = owner.local_addr@ + ":"@ + decimal(owner.local_port as nat);
            let remote = owner.remote_addr@ + ":"@ + decimal(owner.remote_port as nat);
            line@ == column(number, 6) + " "@ + column(local, 21) + " "@ + column(remote, 21) + " "@
                + owner.state@
        }),
{
}

} // verus!
