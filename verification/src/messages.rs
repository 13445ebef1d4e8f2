//! What the program tells the user of commands and of opening folders.

use crate::api::{AdminCommand, AdminResult, ApiRequest, ApiResponse, TasktuiError, API_VERSION};
use crate::text::{contains, decimal, decimal_text, has_text};
use vstd::prelude::*;

verus! {

/// A request for a command, numbered by the time at which it is sent.
pub fn new_request(command: AdminCommand, millis: u64) -> (request: ApiRequest)
    ensures
        request.request_id@ == decimal(millis as nat),
        request.version@ == API_VERSION@,
        request.command == command,
{
    ApiRequest { request_id: decimal_text(millis), version: API_VERSION.to_string(), command }
}

/// The message that a command failed.
pub open spec fn failed_text(reason: Seq<char>) -> Seq<char> {
    "Admin operation failed: "@ + reason
}

/// The message for what a command brought about.
pub open spec fn result_text(result: AdminResult) -> Seq<char> {
    match result {
        AdminResult::Pong => "Service reachable."@,
        AdminResult::ProcessClosed { pid, forced } => if forced {
            "Process "@ + decimal(pid as nat) + " terminated."@
        } else {
            "Close requested for process "@ + decimal(pid as nat) + "."@
        },
        AdminResult::ProcessRestarted { pid } => "Process "@ + decimal(pid as nat)
            + " restarted."@,
        AdminResult::ProcessStateChanged { pid, action } => "Process "@ + decimal(pid as nat)
            + " "@ + action.word() + "."@,
        AdminResult::ProcessPriorityChanged { pid, priority } => "Process "@ + decimal(pid as nat)
            + " priority set to "@ + priority.word() + "."@,
        AdminResult::ServiceStateChanged { service_name, action } => "Service "@ + service_name@
            + " "@ + action.word() + "."@,
    }
}

/// The message for the service's answer.
pub open spec fn answer_text(response: ApiResponse) -> Seq<char> {
    if !response.ok {
        failed_text(
            match response.error {
                Some(error) => error.sentence(),
                None => TasktuiError::ServiceUnavailable.sentence(),
            },
        )
    } else {
        match response.result {
            Some(result) => result_text(result),
            None => "Service returned no result."@,
        }
    }
}

/// The message that a command failed.
pub fn failure_message(reason: &str) -> (text: String)
    ensures
        text@ == failed_text(reason@),
{
    let mut text = "Admin operation failed: ".to_string();
    text.append(reason);
    text
}

/// A sentence about a process: a beginning, its number, and an ending.
fn process_sentence(beginning: &str, pid: u32, ending: &str) -> (text: String)
    ensures
        text@ == beginning@ + decimal(pid as nat) + ending@,
{
    let mut text = beginning.to_string();
    let number = decimal_text(pid as u64);
    text.append(number.as_str());
    text.append(ending);
    text
}

/// The message for what a command brought about.
pub fn result_message(result: &AdminResult) -> (text: String)
    ensures
        text@ == result_text(*result),
{
    match result {
        AdminResult::Pong => "Service reachable.".to_string(),
        AdminResult::ProcessClosed { pid, forced } => {
            if *forced {
                process_sentence("Process ", *pid, " terminated.")
            } else {
                process_sentence("Close requested for process ", *pid, ".")
            }
        },
        AdminResult::ProcessRestarted { pid } => {
            process_sentence("Process ", *pid, " restarted.")
        },
        AdminResult::ProcessStateChanged { pid, action } => {
            let mut text = process_sentence("Process ", *pid, " ");
            text.append(action.label());
            text.append(".");
            text
        },
        AdminResult::ProcessPriorityChanged { pid, priority } => {
            let mut text = process_sentence("Process ", *pid, " priority set to ");
            text.append(priority.label());
            text.append(".");
            text
        },
        AdminResult::ServiceStateChanged { service_name, action } => {
            let mut text = "Service ".to_string();
            text.append(service_name.as_str());
            text.append(" ");
            text.append(action.label());
            text.append(".");
            text
        },
    }
}

/// The message for the service's answer.
pub fn response_message(response: &ApiResponse) -> (text: String)
    ensures
        text@ == answer_text(*response),
{
    if !response.ok {
        let reason = match &response.error {
            Some(error) => error.message(),
            None => TasktuiError::ServiceUnavailable.message(),
        };
        return failure_message(reason.as_str());
    }
    match &response.result {
        Some(result) => result_message(result),
        None => "Service returned no result.".to_string(),
    }
}

/// Whether a command can be carried out without the service: one about a process.
pub open spec fn has_local_way(command: AdminCommand) -> bool {
    match command {
        AdminCommand::RequestCloseProcess { .. } => true,
        AdminCommand::RestartProcess { .. } => true,
        AdminCommand::ForceKillProcess { .. } => true,
        AdminCommand::SuspendProcess { .. } => true,
        AdminCommand::ResumeProcess { .. } => true,
        AdminCommand::SetPriority { .. } => true,
        _ => false,
    }
}

/// Whether a command is carried out without the service: it can be, and the service was not
/// reached.
pub open spec fn goes_local(command: AdminCommand, transport_error: Seq<char>) -> bool {
    has_text(transport_error, "service not reachable"@) && has_local_way(command)
}

/// The message for a command that was carried out without the service.
pub open spec fn local_text(command: AdminCommand) -> Seq<char> {
    match command {
        AdminCommand::RequestCloseProcess { pid } => "Close requested for process "@ + decimal(
            pid as nat,
        ) + ". (local fallback)"@,
        AdminCommand::RestartProcess { pid } => "Process "@ + decimal(pid as nat)
            + " restarted. (local fallback)"@,
        AdminCommand::ForceKillProcess { pid } => "Process "@ + decimal(pid as nat)
            + " terminated. (local fallback)"@,
        AdminCommand::SuspendProcess { pid } => "Process "@ + decimal(pid as nat)
            + " suspended. (local fallback)"@,
        AdminCommand::ResumeProcess { pid } => "Process "@ + decimal(pid as nat)
            + " resumed. (local fallback)"@,
        AdminCommand::SetPriority { pid, priority } => "Process "@ + decimal(pid as nat)
            + " priority set to "@ + priority.word() + ". (local fallback)"@,
        _ => Seq::empty(),
    }
}

/// The message for a command that could not be sent, given how the attempt without the
/// service ended, if one was made.
pub open spec fn fallback_text(
    command: AdminCommand,
    transport_error: Seq<char>,
    outcome: Result<(), String>,
) -> Seq<char> {
    if !goes_local(command, transport_error) {
        failed_text(transport_error)
    } else {
        match outcome {
            Ok(_) => local_text(command),
            Err(error) => failed_text(
                "service not reachable; local fallback also failed: "@ + error@,
            ),
        }
    }
}

/// Whether a command is to be carried out without the service.
pub fn local_fallback_needed(command: &AdminCommand, transport_error: &str) -> (needed: bool)
    ensures
        needed == goes_local(*command, transport_error@),
{
    contains(transport_error, "service not reachable") && match command {
        AdminCommand::Ping => false,
        AdminCommand::StartService { .. } => false,
        AdminCommand::StopService { .. } => false,
        AdminCommand::RestartService { .. } => false,
        _ => true,
    }
}

/// The message for a command that could not be sent.
pub fn handle_local_fallback(
    command: &AdminCommand,
    transport_error: &str,
    outcome: &Result<(), String>,
) -> (text: String)
    ensures
        text@ == fallback_text(*command, transport_error@, *outcome),
{
    if !local_fallback_needed(command, transport_error) {
        return failure_message(transport_error);
    }
    if let Err(error) = outcome {
        let mut reason = "service not reachable; local fallback also failed: ".to_string();
        reason.append(error.as_str());
        return failure_message(reason.as_str());
    }
    match command {
        AdminCommand::RequestCloseProcess { pid } => {
            process_sentence("Close requested for process ", *pid, ". (local fallback)")
        },
        AdminCommand::RestartProcess { pid } => {
            process_sentence("Process ", *pid, " restarted. (local fallback)")
        },
        AdminCommand::ForceKillProcess { pid } => {
            process_sentence("Process ", *pid, " terminated. (local fallback)")
        },
        AdminCommand::SuspendProcess { pid } => {
            process_sentence("Process ", *pid, " suspended. (local fallback)")
        },
        AdminCommand::ResumeProcess { pid } => {
            process_sentence("Process ", *pid, " resumed. (local fallback)")
        },
        AdminCommand::SetPriority { pid, priority } => {
            let mut text = process_sentence("Process ", *pid, " priority set to ");
            text.append(priority.label());
            text.append(". (local fallback)");
            text
        },
        _ => String::new(),
    }
}

/// How an attempt to open a folder ended.
#[derive(Debug, PartialEq, Eq)]
pub enum OpenOutcome {
    Opened,
    /// The path of the executable could not be found out.
    Unresolved(String),
    /// The folder could not be opened.
    Failed(String),
}

/// The message for the folder of an executable.
pub open spec fn path_opened_text(path: Seq<char>, outcome: OpenOutcome) -> Seq<char> {
    match outcome {
        OpenOutcome::Opened => "Opened executable folder for "@ + path + "."@,
        OpenOutcome::Unresolved(_) => "Selected process has no executable path."@,
        OpenOutcome::Failed(error) => "Failed to open path: "@ + error@,
    }
}

/// The message for the folder of a process's executable.
pub open spec fn process_opened_text(pid: u32, outcome: OpenOutcome) -> Seq<char> {
    match outcome {
        OpenOutcome::Opened => "Opened executable folder for PID "@ + decimal(pid as nat) + "."@,
        OpenOutcome::Unresolved(_) => "Selected process has no executable path."@,
        OpenOutcome::Failed(error) => "Failed to open path: "@ + error@,
    }
}

/// The message for the folder of the executable of an endpoint's owner.
pub open spec fn endpoint_opened_text(pid: u32, outcome: OpenOutcome) -> Seq<char> {
    match outcome {
        OpenOutcome::Opened => "Opened executable folder for PID "@ + decimal(pid as nat) + "."@,
        OpenOutcome::Unresolved(error) => "Failed to resolve path: "@ + error@,
        OpenOutcome::Failed(error) => "Failed to open path: "@ + error@,
    }
}

/// A beginning followed by a text.
pub fn labelled(beginning: &str, value: &str) -> (text: String)
    ensures
        text@ == beginning@ + value@,
{
    let mut text = beginning.to_string();
    text.append(value);
    text
}

/// The message for the folder of an executable.
pub fn path_opened_message(path: &str, outcome: &OpenOutcome) -> (text: String)
    ensures
        text@ == path_opened_text(path@, *outcome),
{
    match outcome {
        OpenOutcome::Opened => {
            let mut text = labelled("Opened executable folder for ", path);
            text.append(".");
            text
        },
        OpenOutcome::Unresolved(_) => "Selected process has no executable path.".to_string(),
        OpenOutcome::Failed(error) => labelled("Failed to open path: ", error.as_str()),
    }
}

/// The message for the folder of a process's executable.
pub fn process_opened_message(pid: u32, outcome: &OpenOutcome) -> (text: String)
    ensures
        text@ == process_opened_text(pid, *outcome),
{
    match outcome {
        OpenOutcome::Opened => process_sentence("Opened executable folder for PID ", pid, "."),
        OpenOutcome::Unresolved(_) => "Selected process has no executable path.".to_string(),
        OpenOutcome::Failed(error) => labelled("Failed to open path: ", error.as_str()),
    }
}

/// The message for the folder of the executable of an endpoint's owner.
pub fn endpoint_opened_message(pid: u32, outcome: &OpenOutcome) -> (text: String)
    ensures
        text@ == endpoint_opened_text(pid, *outcome),
{
    match outcome {
        OpenOutcome::Opened => process_sentence("Opened executable folder for PID ", pid, "."),
        OpenOutcome::Unresolved(error) => labelled("Failed to resolve path: ", error.as_str()),
        OpenOutcome::Failed(error) => labelled("Failed to open path: ", error.as_str()),
    }
}

/// The message that the services could not be listed.
pub fn services_failed_message(error: &str) -> (text: String)
    ensures
        text@ == "Failed to enumerate services: "@ + error@,
{
    labelled("Failed to enumerate services: ", error)
}

/// Commands about services, and the ping, are never carried out without the service.
pub proof fn services_need_the_service(command: AdminCommand, transport_error: Seq<char>)
    requires
        command is Ping || command is StartService || command is StopService
            || command is RestartService,
    ensures
        !goes_local(command, transport_error),
{
}

/// What a command brought about is told with the number of its process or the name of its
/// service, and with what was done to it.
pub proof fn results_are_told(
    pid: u32,
    action: crate::api::ProcessAction,
    priority: crate::api::ProcessPriority,
    name: String,
    change: crate::api::ServiceAction,
)
    ensures
        ({
            let number = decimal(pid as nat);
            &&& result_text(AdminResult::Pong) == "Service reachable."@
            &&& result_text(AdminResult::ProcessClosed { pid, forced: true }) == "Process "@ + number
                + " terminated."@
            &&& result_text(AdminResult::ProcessClosed { pid, forced: false })
                == "Close requested for process "@ + number + "."@
            &&& result_text(AdminResult::ProcessRestarted { pid }) == "Process "@ + number
                + " restarted."@
            &&& result_text(AdminResult::ProcessStateChanged { pid, action }) == "Process "@ + number
                + " "@ + action.word() + "."@
            &&& result_text(AdminResult::ProcessPriorityChanged { pid, priority }) == "Process "@
                + number + " priority set to "@ + priority.word() + "."@
            &&& result_text(AdminResult::ServiceStateChanged { service_name: name, action: change })
                == "Service "@ + name@ + " "@ + change.word() + "."@
        }),
{
}

/// A refused command is answered with its reason, and with the service being out of reach if
/// there is none; any other answer is told by its result.
pub proof fn answers_are_told(response: ApiResponse, reason: Seq<char>)
    ensures
        failed_text(reason) == "Admin operation failed: "@ + reason,
        !response.ok && response.error is Some ==> answer_text(response)
            == "Admin operation failed: "@ + response.error->0.sentence(),
        !response.ok && response.error is None ==> answer_text(response)
            == "Admin operation failed: "@ + "service not reachable"@,
        response.ok && response.result is Some ==> answer_text(response) == result_text(
            response.result->0,
        ),
        response.ok && response.result is None ==> answer_text(response)
            == "Service returned no result."@,
{
}

/// A command about a process is carried out without the service exactly if the service was not
/// reached; any other failure, and any failure of another command, is told as it is. What was
/// done without the service is told as such.
pub proof fn commands_go_local_without_the_service(
    command: AdminCommand,
    transport_error: Seq<char>,
    outcome: Result<(), String>,
)
    ensures
        ({
            let about_process = command is RequestCloseProcess || command is RestartProcess
                || command is ForceKillProcess || command is SuspendProcess
                || command is ResumeProcess || command is SetPriority;
            let local = about_process && has_text(transport_error, "service not reachable"@);
            let told = fallback_text(command, transport_error, outcome);
            &&& goes_local(command, transport_error) <==> local
            &&& !local ==> told == "Admin operation failed: "@ + transport_error
            &&& local && outcome is Err ==> told == "Admin operation failed: "@ + (
            "service not reachable; local fallback also failed: "@ + outcome->Err_0@)
            &&& local && outcome is Ok ==> match command {
                AdminCommand::RequestCloseProcess { pid } => told == "Close requested for process "@
                    + decimal(pid as nat) + ". (local fallback)"@,
                AdminCommand::RestartProcess { pid } => told == "Process "@ + decimal(pid as nat)
                    + " restarted. (local fallback)"@,
                AdminCommand::ForceKillProcess { pid } => told == "Process "@ + decimal(pid as nat)
                    + " terminated. (local fallback)"@,
                AdminCommand::SuspendProcess { pid } => told == "Process "@ + decimal(pid as nat)
                    + " suspended. (local fallback)"@,
                AdminCommand::ResumeProcess { pid } => told == "Process "@ + decimal(pid as nat)
                    + " resumed. (local fallback)"@,
                AdminCommand::SetPriority { pid, priority } => told == "Process "@ + decimal(
                    pid as nat,
                ) + " priority set to "@ + priority.word() + ". (local fallback)"@,
                _ => false,
            }
        }),
{
}

/// Whether a folder was opened, and which, is told; if it was not, why.
pub proof fn opened_folders_are_told(path: Seq<char>, pid: u32, error: String)
    ensures
        path_opened_text(path, OpenOutcome::Opened) == "Opened executable folder for "@ + path
            + "."@,
        process_opened_text(pid, OpenOutcome::Opened) == "Opened executable folder for PID "@
            + decimal(pid as nat) + "."@,
        endpoint_opened_text(pid, OpenOutcome::Opened) == "Opened executable folder for PID "@
            + decimal(pid as nat) + "."@,
        path_opened_text(path, OpenOutcome::Failed(error)) == "Failed to open path: "@ + error@,
        process_opened_text(pid, OpenOutcome::Failed(error)) == "Failed to open path: "@ + error@,
        endpoint_opened_text(pid, OpenOutcome::Failed(error)) == "Failed to open path: "@ + error@,
        path_opened_text(path, OpenOutcome::Unresolved(error))
            == "Selected process has no executable path."@,
        process_opened_text(pid, OpenOutcome::Unresolved(error))
            == "Selected process has no executable path."@,
        endpoint_opened_text(pid, OpenOutcome::Unresolved(error)) == "Failed to resolve path: "@
            + error@,
{
}

/// A request carries the command, the version that both sides speak, and the time as its number.
pub proof fn requests_carry_the_command(command: AdminCommand, millis: u64, request: ApiRequest)
    requires
        call_ensures(new_request, (command, millis), request),
    ensures
        request.command == command,
        request.version@ == "v1"@,
        request.request_id@ == decimal(millis as nat),
{
}

} // verus!
