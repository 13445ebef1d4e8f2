//! The service's side: what a request asks for and how it is answered.

use crate::api::{
    validate_api_version, validate_service_name, AdminCommand, AdminResult, ApiRequest, ApiResponse,
    ProcessAction, ServiceAction, TasktuiError,
};
use vstd::prelude::*;

use crate::api::{is_service_name, is_valid_version};

verus! {

/// Why the platform could not do what it was told.
#[derive(Debug, PartialEq, Eq)]
pub enum PlatformFailure {
    /// An error that the service reports as it is.
    Known(TasktuiError),
    /// Any other error, by its description.
    Other(String),
}

/// The error that a failure is reported as.
pub open spec fn reported_error(failure: PlatformFailure) -> TasktuiError {
    match failure {
        PlatformFailure::Known(error) => error,
        PlatformFailure::Other(text) => TasktuiError::Message(text),
    }
}

/// Turns a failure of the platform into the error that is reported.
pub fn map_failure(failure: PlatformFailure) -> (error: TasktuiError)
    ensures
        error == reported_error(failure),
{
    match failure {
        PlatformFailure::Known(error) => error,
        PlatformFailure::Other(text) => TasktuiError::Message(text),
    }
}

/// The service that a command names, if it is about a service.
pub open spec fn service_of(command: AdminCommand) -> Option<String> {
    match command {
        AdminCommand::StartService { service_name } => Some(service_name),
        AdminCommand::StopService { service_name } => Some(service_name),
        AdminCommand::RestartService { service_name, .. } => Some(service_name),
        _ => None,
    }
}

/// Whether a command is admitted: one about a service has to name it properly.
pub open spec fn is_admitted(command: AdminCommand) -> bool {
    service_of(command) matches Some(name) ==> is_service_name(name@)
}

/// Whether the platform has to act for a command.
pub open spec fn needs_platform(command: AdminCommand) -> bool {
    is_admitted(command) && command != AdminCommand::Ping
}

/// What is reported when a command has been carried out.
pub open spec fn report_of(command: AdminCommand) -> AdminResult {
    match command {
        AdminCommand::Ping => AdminResult::Pong,
        AdminCommand::ForceKillProcess { pid } => AdminResult::ProcessClosed { pid, forced: true },
        AdminCommand::RequestCloseProcess { pid } => AdminResult::ProcessClosed {
            pid,
            forced: false,
        },
        AdminCommand::RestartProcess { pid } => AdminResult::ProcessRestarted { pid },
        AdminCommand::SuspendProcess { pid } => AdminResult::ProcessStateChanged {
            pid,
            action: ProcessAction::Suspended,
        },
        AdminCommand::ResumeProcess { pid } => AdminResult::ProcessStateChanged {
            pid,
            action: ProcessAction::Resumed,
        },
        AdminCommand::SetPriority { pid, priority } => AdminResult::ProcessPriorityChanged {
            pid,
            priority,
        },
        AdminCommand::StartService { service_name } => AdminResult::ServiceStateChanged {
            service_name,
            action: ServiceAction::Started,
        },
        AdminCommand::StopService { service_name } => AdminResult::ServiceStateChanged {
            service_name,
            action: ServiceAction::Stopped,
        },
        AdminCommand::RestartService { service_name, .. } => AdminResult::ServiceStateChanged {
            service_name,
            action: ServiceAction::Restarted,
        },
    }
}

/// The result of a command, given what the platform said if it had to act.
pub open spec fn dispatched(command: AdminCommand, outcome: Result<(), TasktuiError>) -> Result<
    AdminResult,
    TasktuiError,
> {
    if !is_admitted(command) {
        Err(TasktuiError::InvalidServiceName)
    } else if command == AdminCommand::Ping {
        Ok(AdminResult::Pong)
    } else {
        match outcome {
            Ok(_) => Ok(report_of(command)),
            Err(error) => Err(error),
        }
    }
}

/// The answer to a request, given what the platform said if it had to act.
pub open spec fn answered(request: ApiRequest, outcome: Result<(), TasktuiError>) -> ApiResponse {
    let result = if is_valid_version(request.version@) {
        dispatched(request.command, outcome)
    } else {
        Err(TasktuiError::InvalidVersion)
    };
    match result {
        Ok(report) => ApiResponse {
            request_id: request.request_id,
            ok: true,
            result: Some(report),
            error: None,
        },
        Err(error) => ApiResponse {
            request_id: request.request_id,
            ok: false,
            result: None,
            error: Some(error),
        },
    }
}

/// Refuses a command about a service whose name no service can have.
fn admit_command(command: &AdminCommand) -> (r: Result<(), TasktuiError>)
    ensures
        r == (if is_admitted(*command) {
            Ok::<(), TasktuiError>(())
        } else {
            Err(TasktuiError::InvalidServiceName)
        }),
{
    match command {
        AdminCommand::StartService { service_name } => validate_service_name(service_name),
        AdminCommand::StopService { service_name } => validate_service_name(service_name),
        AdminCommand::RestartService { service_name, .. } => validate_service_name(service_name),
        _ => Ok(()),
    }
}

/// Whether the platform has to act for a command before it can be answered.
pub fn command_needs_platform(command: &AdminCommand) -> (needed: bool)
    ensures
        needed == needs_platform(*command),
{
    match admit_command(command) {
        Ok(_) => match command {
            AdminCommand::Ping => false,
            _ => true,
        },
        Err(_) => false,
    }
}

/// Whether the platform has to act for a request before it can be answered: the request
/// speaks the right version and its command needs the platform.
pub fn request_needs_platform(request: &ApiRequest) -> (needed: bool)
    ensures
        needed == (is_valid_version(request.version@) && needs_platform(request.command)),
{
    match validate_api_version(&request.version) {
        Ok(_) => command_needs_platform(&request.command),
        Err(_) => false,
    }
}

/// The result of a command. `outcome` is what the platform said; it counts only where the
/// command needs the platform.
pub fn dispatch_command(command: &AdminCommand, outcome: Result<(), TasktuiError>) -> (r: Result<
    AdminResult,
    TasktuiError,
>)
    ensures
        r == dispatched(*command, outcome),
{
    match admit_command(command) {
        Ok(_) => {},
        Err(error) => {
            return Err(error);
        },
    }
    if let AdminCommand::Ping = command {
        return Ok(AdminResult::Pong);
    }
    match outcome {
        Ok(_) => {},
        Err(error) => {
            return Err(error);
        },
    }
    match command {
        AdminCommand::Ping => Ok(AdminResult::Pong),
        AdminCommand::ForceKillProcess { pid } => Ok(
            AdminResult::ProcessClosed { pid: *pid, forced: true },
        ),
        AdminCommand::RequestCloseProcess { pid } => Ok(
            AdminResult::ProcessClosed { pid: *pid, forced: false },
        ),
        AdminCommand::RestartProcess { pid } => Ok(AdminResult::ProcessRestarted { pid: *pid }),
        AdminCommand::SuspendProcess { pid } => Ok(
            AdminResult::ProcessStateChanged { pid: *pid, action: ProcessAction::Suspended },
        ),
        AdminCommand::ResumeProcess { pid } => Ok(
            AdminResult::ProcessStateChanged { pid: *pid, action: ProcessAction::Resumed },
        ),
        AdminCommand::SetPriority { pid, priority } => Ok(
            AdminResult::ProcessPriorityChanged { pid: *pid, priority: *priority },
        ),
        AdminCommand::StartService { service_name } => Ok(
            AdminResult::ServiceStateChanged {
                service_name: service_name.clone(),
                action: ServiceAction::Started,
            },
        ),
        AdminCommand::StopService { service_name } => Ok(
            AdminResult::ServiceStateChanged {
                service_name: service_name.clone(),
                action: ServiceAction::Stopped,
            },
        ),
        AdminCommand::RestartService { service_name, .. } => Ok(
            AdminResult::ServiceStateChanged {
                service_name: service_name.clone(),
                action: ServiceAction::Restarted,
            },
        ),
    }
}

/// Answers a request. `outcome` is what the platform said; it counts only where the request
/// needs the platform.
pub fn process_request(request: &ApiRequest, outcome: Result<(), TasktuiError>) -> (response:
    ApiResponse)
    ensures
        response == answered(*request, outcome),
{
    let result = match validate_api_version(&request.version) {
        Ok(_) => dispatch_command(&request.command, outcome),
        Err(error) => Err(error),
    };
    match result {
        Ok(report) => ApiResponse::success(request.request_id.clone(), report),
        Err(error) => ApiResponse::failure(request.request_id.clone(), error),
    }
}

/// Every answer carries the identifier of its request, and is either a success with a result
/// and no error or a failure with an error and no result.
pub proof fn answers_are_consistent(request: ApiRequest, outcome: Result<(), TasktuiError>)
    ensures
        answered(request, outcome).request_id == request.request_id,
        answered(request, outcome).is_consistent(),
{
}

/// A request in another version is refused with that error, whatever its command, and the
/// platform is not asked.
pub proof fn wrong_version_is_refused(request: ApiRequest, outcome: Result<(), TasktuiError>)
    requires
        !is_valid_version(request.version@),
    ensures
        !answered(request, outcome).ok,
        answered(request, outcome).error == Some(TasktuiError::InvalidVersion),
{
}

/// A command about a service with an impossible name is refused with that error, and the
/// platform is not asked.
pub proof fn impossible_service_is_refused(request: ApiRequest, outcome: Result<(), TasktuiError>)
    requires
        is_valid_version(request.version@),
        service_of(request.command) matches Some(name) && !is_service_name(name@),
    ensures
        !needs_platform(request.command),
        answered(request, outcome).error == Some(TasktuiError::InvalidServiceName),
{
}

/// Where the platform is not needed, what it is said to have answered changes nothing.
pub proof fn unneeded_outcome_is_ignored(
    request: ApiRequest,
    first: Result<(), TasktuiError>,
    second: Result<(), TasktuiError>,
)
    requires
        !(is_valid_version(request.version@) && needs_platform(request.command)),
    ensures
        answered(request, first) == answered(request, second),
{
}

/// Where the platform is needed, the request succeeds exactly if the platform did.
pub proof fn platform_decides_success(request: ApiRequest, outcome: Result<(), TasktuiError>)
    requires
        is_valid_version(request.version@),
        needs_platform(request.command),
    ensures
        answered(request, outcome).ok == (outcome is Ok),
        outcome matches Err(error) ==> answered(request, outcome).error == Some(error),
        outcome is Ok ==> answered(request, outcome).result == Some(report_of(request.command)),
{
}

/// A request in the right version whose command was carried out is answered with what was done
/// and to which process or service: a kill is told from a close, a suspension from a
/// resumption, and a start from a stop and a restart.
pub proof fn done_commands_are_reported(request: ApiRequest)
    requires
        request.version@ == "v1"@,
    ensures
        ({
            let response = answered(request, Ok(()));
            match request.command {
                AdminCommand::Ping => response.result == Some(AdminResult::Pong),
                AdminCommand::ForceKillProcess { pid } => response.result == Some(
                    AdminResult::ProcessClosed { pid, forced: true },
                ),
                AdminCommand::RequestCloseProcess { pid } => response.result == Some(
                    AdminResult::ProcessClosed { pid, forced: false },
                ),
                AdminCommand::RestartProcess { pid } => response.result == Some(
                    AdminResult::ProcessRestarted { pid },
                ),
                AdminCommand::SuspendProcess { pid } => response.result == Some(
                    AdminResult::ProcessStateChanged { pid, action: ProcessAction::Suspended },
                ),
                AdminCommand::ResumeProcess { pid } => response.result == Some(
                    AdminResult::ProcessStateChanged { pid, action: ProcessAction::Resumed },
                ),
                AdminCommand::SetPriority { pid, priority } => response.result == Some(
                    AdminResult::ProcessPriorityChanged { pid, priority },
                ),
                AdminCommand::StartService { service_name } => is_service_name(service_name@)
                    ==> response.result == Some(
                    AdminResult::ServiceStateChanged {
                        service_name,
                        action: ServiceAction::Started,
                    },
                ),
                AdminCommand::StopService { service_name } => is_service_name(service_name@)
                    ==> response.result == Some(
                    AdminResult::ServiceStateChanged {
                        service_name,
                        action: ServiceAction::Stopped,
                    },
                ),
                AdminCommand::RestartService { service_name, .. } => is_service_name(service_name@)
                    ==> response.result == Some(
                    AdminResult::ServiceStateChanged {
                        service_name,
                        action: ServiceAction::Restarted,
                    },
                ),
            }
        }),
{
}

/// Every request is answered under its own identifier. It succeeds exactly if it is in the right
/// version, names a service properly if it names one, and was carried out, but for a ping, of
/// which nothing has to be carried out. A failure tells the first of these that did not hold.
pub proof fn requests_are_answered_by_what_failed(
    request: ApiRequest,
    outcome: Result<(), TasktuiError>,
)
    ensures
        ({
            let response = answered(request, outcome);
            let named = match request.command {
                AdminCommand::StartService { service_name } => is_service_name(service_name@),
                AdminCommand::StopService { service_name } => is_service_name(service_name@),
                AdminCommand::RestartService { service_name, .. } => is_service_name(service_name@),
                _ => true,
            };
            let right = request.version@ == "v1"@;
            let ping = request.command is Ping;
            &&& response.request_id == request.request_id
            &&& response.ok <==> right && named && (ping || outcome is Ok)
            &&& response.ok <==> response.result is Some
            &&& response.ok <==> response.error is None
            &&& !right ==> response.error == Some(TasktuiError::InvalidVersion)
            &&& right && !named ==> response.error == Some(TasktuiError::InvalidServiceName)
            &&& right && named && !ping && outcome is Err ==> response.error == Some(
                outcome->Err_0,
            )
            &&& needs_platform(request.command) <==> named && !ping
        }),
{
}

/// A failure of the platform is reported as it is, or by its description.
pub proof fn failures_are_reported(error: TasktuiError, text: String)
    ensures
        reported_error(PlatformFailure::Known(error)) == error,
        reported_error(PlatformFailure::Other(text)) == TasktuiError::Message(text),
{
}

} // verus!
