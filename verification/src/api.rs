//! The messages between the terminal program and its privileged service.

use crate::text::{same_text, to_chars};
use vstd::prelude::*;

verus! {

/// The version of the messages that both sides speak.
pub const API_VERSION: &'static str = "v1";

/// The named pipe that the service listens on.
pub const PIPE_NAME: &'static str = "\\\\.\\pipe\\tasktui.v1";

/// The greatest length of a service name.
pub const MAX_SERVICE_NAME_LEN: usize = 256;

/// A TCP endpoint and the process that owns it.
#[derive(Debug, Clone, PartialEq, Eq)]
pub struct TcpPortOwner {
    pub pid: u32,
    pub local_addr: String,
    pub local_port: u16,
    pub remote_addr: String,
    pub remote_port: u16,
    pub state: String,
}

/// The model of an endpoint's owner.
pub struct TcpPortOwnerView {
    pub pid: u32,
    pub local_addr: Seq<char>,
    pub local_port: u16,
    pub remote_addr: Seq<char>,
    pub remote_port: u16,
    pub state: Seq<char>,
}

impl View for TcpPortOwner {
    type V = TcpPortOwnerView;

    open spec fn view(&self) -> TcpPortOwnerView {
        TcpPortOwnerView {
            pid: self.pid,
            local_addr: self.local_addr@,
            local_port: self.local_port,
            remote_addr: self.remote_addr@,
            remote_port: self.remote_port,
            state: self.state@,
        }
    }
}

/// A Windows service as it is listed.
#[derive(Debug, PartialEq, Eq)]
pub struct ServiceRow {
    pub display_name: String,
    pub service_name: String,
    pub status: String,
    pub start_type: String,
}

/// The model of a service row.
pub struct ServiceRowView {
    pub display_name: Seq<char>,
    pub service_name: Seq<char>,
    pub status: Seq<char>,
    pub start_type: Seq<char>,
}

impl View for ServiceRow {
    type V = ServiceRowView;

    open spec fn view(&self) -> ServiceRowView {
        ServiceRowView {
            display_name: self.display_name@,
            service_name: self.service_name@,
            status: self.status@,
            start_type: self.start_type@,
        }
    }
}

impl Clone for ServiceRow {
    fn clone(&self) -> (copy: Self)
        ensures
            copy == *self,
    {
        ServiceRow {
            display_name: self.display_name.clone(),
            service_name: self.service_name.clone(),
            status: self.status.clone(),
            start_type: self.start_type.clone(),
        }
    }
}

/// What a process was made to do.
#[derive(Debug, Clone, Copy, PartialEq, Eq, Structural)]
pub enum ProcessAction {
    Suspended,
    Resumed,
}

impl ProcessAction {
    /// The word for the action.
    pub open spec fn word(self) -> Seq<char> {
        match self {
            ProcessAction::Suspended => "suspended"@,
            ProcessAction::Resumed => "resumed"@,
        }
    }

    /// The word for the action.
    pub fn label(self) -> (text: &'static str)
        ensures
            text@ == self.word(),
    {
        match self {
            ProcessAction::Suspended => "suspended",
            ProcessAction::Resumed => "resumed",
        }
    }
}

/// The scheduling priorities that a process can be given.
#[derive(Debug, Clone, Copy, PartialEq, Eq, Structural)]
pub enum ProcessPriority {
    Idle,
    BelowNormal,
    Normal,
    AboveNormal,
    High,
}

impl ProcessPriority {
    /// The word for the priority.
    pub open spec fn word(self) -> Seq<char> {
        match self {
            ProcessPriority::Idle => "idle"@,
            ProcessPriority::BelowNormal => "below_normal"@,
            ProcessPriority::Normal => "normal"@,
            ProcessPriority::AboveNormal => "above_normal"@,
            ProcessPriority::High => "high"@,
        }
    }

    /// The word for the priority.
    pub fn label(self) -> (text: &'static str)
        ensures
            text@ == self.word(),
    {
        match self {
            ProcessPriority::Idle => "idle",
            ProcessPriority::BelowNormal => "below_normal",
            ProcessPriority::Normal => "normal",
            ProcessPriority::AboveNormal => "above_normal",
            ProcessPriority::High => "high",
        }
    }
}

/// What a service was made to do.
#[derive(Debug, Clone, Copy, PartialEq, Eq, Structural)]
pub enum ServiceAction {
    Started,
    Stopped,
    Restarted,
}

impl ServiceAction {
    /// The word for the action.
    pub open spec fn word(self) -> Seq<char> {
        match self {
            ServiceAction::Started => "started"@,
            ServiceAction::Stopped => "stopped"@,
            ServiceAction::Restarted => "restarted"@,
        }
    }

    /// The word for the action.
    pub fn label(self) -> (text: &'static str)
        ensures
            text@ == self.word(),
    {
        match self {
            ServiceAction::Started => "started",
            ServiceAction::Stopped => "stopped",
            ServiceAction::Restarted => "restarted",
        }
    }
}

/// The commands that the service accepts.
#[derive(Debug, PartialEq, Eq)]
pub enum AdminCommand {
    Ping,
    ForceKillProcess { pid: u32 },
    RequestCloseProcess { pid: u32 },
    RestartProcess { pid: u32 },
    SuspendProcess { pid: u32 },
    ResumeProcess { pid: u32 },
    SetPriority { pid: u32, priority: ProcessPriority },
    StartService { service_name: String },
    StopService { service_name: String },
    RestartService { service_name: String, timeout_ms: u32 },
}

/// The model of a command.
pub enum CommandView {
    Ping,
    ForceKillProcess { pid: u32 },
    RequestCloseProcess { pid: u32 },
    RestartProcess { pid: u32 },
    SuspendProcess { pid: u32 },
    ResumeProcess { pid: u32 },
    SetPriority { pid: u32, priority: ProcessPriority },
    StartService { service_name: Seq<char> },
    StopService { service_name: Seq<char> },
    RestartService { service_name: Seq<char>, timeout_ms: u32 },
}

impl View for AdminCommand {
    type V = CommandView;

    open spec fn view(&self) -> CommandView {
        match self {
            AdminCommand::Ping => CommandView::Ping,
            AdminCommand::ForceKillProcess { pid } => CommandView::ForceKillProcess { pid: *pid },
            AdminCommand::RequestCloseProcess { pid } => CommandView::RequestCloseProcess {
                pid: *pid,
            },
            AdminCommand::RestartProcess { pid } => CommandView::RestartProcess { pid: *pid },
            AdminCommand::SuspendProcess { pid } => CommandView::SuspendProcess { pid: *pid },
            AdminCommand::ResumeProcess { pid } => CommandView::ResumeProcess { pid: *pid },
            AdminCommand::SetPriority { pid, priority } => CommandView::SetPriority {
                pid: *pid,
                priority: *priority,
            },
            AdminCommand::StartService { service_name } => CommandView::StartService {
                service_name: service_name@,
            },
            AdminCommand::StopService { service_name } => CommandView::StopService {
                service_name: service_name@,
            },
            AdminCommand::RestartService { service_name, timeout_ms } => {
                CommandView::RestartService {
                    service_name: service_name@,
                    timeout_ms: *timeout_ms,
                }
            },
        }
    }
}

impl Clone for AdminCommand {
    fn clone(&self) -> (copy: Self)
        ensures
            copy == *self,
    {
        match self {
            AdminCommand::Ping => AdminCommand::Ping,
            AdminCommand::ForceKillProcess { pid } => AdminCommand::ForceKillProcess { pid: *pid },
            AdminCommand::RequestCloseProcess { pid } => AdminCommand::RequestCloseProcess {
                pid: *pid,
            },
            AdminCommand::RestartProcess { pid } => AdminCommand::RestartProcess { pid: *pid },
            AdminCommand::SuspendProcess { pid } => AdminCommand::SuspendProcess { pid: *pid },
            AdminCommand::ResumeProcess { pid } => AdminCommand::ResumeProcess { pid: *pid },
            AdminCommand::SetPriority { pid, priority } => AdminCommand::SetPriority {
                pid: *pid,
                priority: *priority,
            },
            AdminCommand::StartService { service_name } => AdminCommand::StartService {
                service_name: service_name.clone(),
            },
            AdminCommand::StopService { service_name } => AdminCommand::StopService {
                service_name: service_name.clone(),
            },
            AdminCommand::RestartService { service_name, timeout_ms } => {
                AdminCommand::RestartService {
                    service_name: service_name.clone(),
                    timeout_ms: *timeout_ms,
                }
            },
        }
    }
}

/// What the service reports when a command succeeded.
#[derive(Debug, Clone, PartialEq, Eq)]
pub enum AdminResult {
    Pong,
    ProcessClosed { pid: u32, forced: bool },
    ProcessRestarted { pid: u32 },
    ProcessStateChanged { pid: u32, action: ProcessAction },
    ProcessPriorityChanged { pid: u32, priority: ProcessPriority },
    ServiceStateChanged { service_name: String, action: ServiceAction },
}

/// What can go wrong with a command.
#[derive(Debug, PartialEq, Eq)]
pub enum TasktuiError {
    InvalidVersion,
    ServiceUnavailable,
    InvalidServiceName,
    NotClosable,
    AccessDenied,
    Timeout,
    Unsupported,
    Message(String),
}

impl Clone for TasktuiError {
    fn clone(&self) -> (copy: Self)
        ensures
            copy == *self,
    {
        match self {
            TasktuiError::InvalidVersion => TasktuiError::InvalidVersion,
            TasktuiError::ServiceUnavailable => TasktuiError::ServiceUnavailable,
            TasktuiError::InvalidServiceName => TasktuiError::InvalidServiceName,
            TasktuiError::NotClosable => TasktuiError::NotClosable,
            TasktuiError::AccessDenied => TasktuiError::AccessDenied,
            TasktuiError::Timeout => TasktuiError::Timeout,
            TasktuiError::Unsupported => TasktuiError::Unsupported,
            TasktuiError::Message(text) => TasktuiError::Message(text.clone()),
        }
    }
}

impl TasktuiError {
    /// The sentence that tells the user of the error.
    pub open spec fn sentence(self) -> Seq<char> {
        match self {
            TasktuiError::InvalidVersion => "invalid API version"@,
            TasktuiError::ServiceUnavailable => "service not reachable"@,
            TasktuiError::InvalidServiceName => "service name is invalid"@,
            TasktuiError::NotClosable => "process cannot be closed gracefully"@,
            TasktuiError::AccessDenied => "operation is not allowed"@,
            TasktuiError::Timeout => "operation timed out"@,
            TasktuiError::Unsupported => "operation is unsupported"@,
            TasktuiError::Message(text) => text@,
        }
    }

    /// The sentence that tells the user of the error.
    pub fn message(&self) -> (text: String)
        ensures
            text@ == self.sentence(),
    {
        match self {
            TasktuiError::InvalidVersion => "invalid API version".to_string(),
            TasktuiError::ServiceUnavailable => "service not reachable".to_string(),
            TasktuiError::InvalidServiceName => "service name is invalid".to_string(),
            TasktuiError::NotClosable => "process cannot be closed gracefully".to_string(),
            TasktuiError::AccessDenied => "operation is not allowed".to_string(),
            TasktuiError::Timeout => "operation timed out".to_string(),
            TasktuiError::Unsupported => "operation is unsupported".to_string(),
            TasktuiError::Message(text) => text.clone(),
        }
    }
}

/// A command on its way to the service.
#[derive(Debug, Clone, PartialEq, Eq)]
pub struct ApiRequest {
    pub request_id: String,
    pub version: String,
    pub command: AdminCommand,
}

/// The service's answer to a request.
#[derive(Debug, Clone, PartialEq, Eq)]
pub struct ApiResponse {
    pub request_id: String,
    pub ok: bool,
    pub result: Option<AdminResult>,
    pub error: Option<TasktuiError>,
}

impl ApiResponse {
    /// Whether the answer is a success with a result and no error, or a failure with an
    /// error and no result.
    pub open spec fn is_consistent(self) -> bool {
        &&& self.ok == (self.result is Some)
        &&& self.ok == (self.error is None)
    }

    /// The answer to a request that succeeded.
    pub fn success(request_id: String, result: AdminResult) -> (response: Self)
        ensures
            response == (ApiResponse { request_id, ok: true, result: Some(result), error: None }),
            response.is_consistent(),
    {
        ApiResponse { request_id, ok: true, result: Some(result), error: None }
    }

    /// The answer to a request that failed.
    pub fn failure(request_id: String, error: TasktuiError) -> (response: Self)
        ensures
            response == (ApiResponse { request_id, ok: false, result: None, error: Some(error) }),
            response.is_consistent(),
    {
        ApiResponse { request_id, ok: false, result: None, error: Some(error) }
    }
}

/// Whether a message version is the one that this program speaks.
pub open spec fn is_valid_version(version: Seq<char>) -> bool {
    version == API_VERSION@
}

/// Accepts the one version of the messages that this program speaks.
pub fn validate_api_version(version: &str) -> (r: Result<(), TasktuiError>)
    ensures
        r == (if is_valid_version(version@) {
            Ok::<(), TasktuiError>(())
        } else {
            Err(TasktuiError::InvalidVersion)
        }),
{
    if same_text(version, API_VERSION) {
        Ok(())
    } else {
        Err(TasktuiError::InvalidVersion)
    }
}

/// The characters of service names: ASCII letters and digits, `_`, `-` and `.`.
pub open spec fn is_name_char(c: char) -> bool {
    'a' <= c <= 'z' || 'A' <= c <= 'Z' || '0' <= c <= '9' || c == '_' || c == '-' || c == '.'
}

/// Whether a text can name a service: not empty, not too long, and of name characters only.
pub open spec fn is_service_name(name: Seq<char>) -> bool {
    &&& 0 < name.len() <= MAX_SERVICE_NAME_LEN
    &&& forall|i: int| 0 <= i < name.len() ==> is_name_char(#[trigger] name[i])
}

/// Accepts the names that a service can have.
pub fn validate_service_name(service_name: &str) -> (r: Result<(), TasktuiError>)
    ensures
        r == (if is_service_name(service_name@) {
            Ok::<(), TasktuiError>(())
        } else {
            Err(TasktuiError::InvalidServiceName)
        }),
{
    let chars = to_chars(service_name);
    if chars.len() == 0 || chars.len() > MAX_SERVICE_NAME_LEN {
        return Err(TasktuiError::InvalidServiceName);
    }
    let mut i: usize = 0;
    while i < chars.len()
        invariant
            i <= chars.len(),
            chars@ == service_name@,
            forall|k: int| 0 <= k < i ==> is_name_char(#[trigger] chars@[k]),
        decreases chars.len() - i,
    {
        let c: char = chars[i];
        let allowed = ('a' <= c && c <= 'z') || ('A' <= c && c <= 'Z') || ('0' <= c && c <= '9')
            || c == '_' || c == '-' || c == '.';
        if !allowed {
            assert(!is_name_char(service_name@[i as int]));
            return Err(TasktuiError::InvalidServiceName);
        }
        i = i + 1;
    }
    Ok(())
}

/// The words for priorities and actions, as users type and read them.
pub proof fn words_are_the_usual_ones()
    ensures
        ProcessPriority::Idle.word() == "idle"@,
        ProcessPriority::BelowNormal.word() == "below_normal"@,
        ProcessPriority::Normal.word() == "normal"@,
        ProcessPriority::AboveNormal.word() == "above_normal"@,
        ProcessPriority::High.word() == "high"@,
        ProcessAction::Suspended.word() == "suspended"@,
        ProcessAction::Resumed.word() == "resumed"@,
        ServiceAction::Started.word() == "started"@,
        ServiceAction::Stopped.word() == "stopped"@,
        ServiceAction::Restarted.word() == "restarted"@,
{
}

/// Every error tells the user what it is; a message is told as it is.
pub proof fn errors_tell_what_they_are(text: String)
    ensures
        TasktuiError::InvalidVersion.sentence() == "invalid API version"@,
        TasktuiError::ServiceUnavailable.sentence() == "service not reachable"@,
        TasktuiError::InvalidServiceName.sentence() == "service name is invalid"@,
        TasktuiError::NotClosable.sentence() == "process cannot be closed gracefully"@,
        TasktuiError::AccessDenied.sentence() == "operation is not allowed"@,
        TasktuiError::Timeout.sentence() == "operation timed out"@,
        TasktuiError::Unsupported.sentence() == "operation is unsupported"@,
        TasktuiError::Message(text).sentence() == text@,
{
}

/// The one version that is accepted is the first.
pub proof fn only_the_first_version_is_valid(version: Seq<char>)
    ensures
        is_valid_version(version) <==> version == "v1"@,
{
}

/// A service name has between 1 and 256 characters, each of them an ASCII letter or digit, an
/// underscore, a hyphen, or a dot. With one such character more a name stays a name, as long as
/// it is not too long; with any other it is none.
pub proof fn service_names_are_built_of_name_characters(name: Seq<char>, c: char)
    ensures
        ({
            let code = c as int;
            let fits = 97 <= code <= 122 || 65 <= code <= 90 || 48 <= code <= 57 || c == '_' || c
                == '-' || c == '.';
            &&& !is_service_name(Seq::empty())
            &&& is_service_name(seq![c]) <==> fits
            &&& is_service_name(name.push(c)) <==> fits && name.len() < 256 && (name.len() == 0
                || is_service_name(name))
        }),
{
    let longer = name.push(c);
    assert(seq![c][0] == c);
    assert(longer[name.len() as int] == c);
    if is_service_name(longer) {
        assert forall|i: int| 0 <= i < name.len() implies is_name_char(#[trigger] name[i]) by {
            assert(longer[i] == name[i]);
        }
    }
}

/// What is known of a row, a command, or an endpoint is what it holds.
pub proof fn models_show_what_is_held(owner: TcpPortOwner, row: ServiceRow)
    ensures
        owner@.pid == owner.pid && owner@.local_addr == owner.local_addr@ && owner@.local_port
            == owner.local_port && owner@.remote_addr == owner.remote_addr@ && owner@.remote_port
            == owner.remote_port && owner@.state == owner.state@,
        row@.display_name == row.display_name@ && row@.service_name == row.service_name@
            && row@.status == row.status@ && row@.start_type == row.start_type@,
{
}

/// A command is known as what it is, with its process, priority, service, and time.
pub proof fn command_models_show_what_is_held(command: AdminCommand)
    ensures
        match command {
            AdminCommand::Ping => command@ is Ping,
            AdminCommand::ForceKillProcess { pid } => command@ == CommandView::ForceKillProcess {
                pid,
            },
            AdminCommand::RequestCloseProcess { pid } => command@
                == CommandView::RequestCloseProcess { pid },
            AdminCommand::RestartProcess { pid } => command@ == CommandView::RestartProcess { pid },
            AdminCommand::SuspendProcess { pid } => command@ == CommandView::SuspendProcess { pid },
            AdminCommand::ResumeProcess { pid } => command@ == CommandView::ResumeProcess { pid },
            AdminCommand::SetPriority { pid, priority } => command@ == CommandView::SetPriority {
                pid,
                priority,
            },
            AdminCommand::StartService { service_name } => command@ == CommandView::StartService {
                service_name: service_name@,
            },
            AdminCommand::StopService { service_name } => command@ == CommandView::StopService {
                service_name: service_name@,
            },
            AdminCommand::RestartService { service_name, timeout_ms } => command@
                == CommandView::RestartService { service_name: service_name@, timeout_ms },
        },
{
}

/// A version is accepted exactly if it is the first, and a service name exactly if a service can
/// have it; what is refused is refused with its own error. Both sides meet at one pipe.
pub proof fn only_what_is_valid_is_accepted(
    version: &str,
    name: &str,
    by_version: Result<(), TasktuiError>,
    by_name: Result<(), TasktuiError>,
)
    requires
        call_ensures(validate_api_version, (version,), by_version),
        call_ensures(validate_service_name, (name,), by_name),
    ensures
        by_version is Ok <==> version@ == "v1"@,
        by_version is Err ==> by_version->Err_0 == TasktuiError::InvalidVersion,
        by_name is Ok <==> is_service_name(name@),
        by_name is Err ==> by_name->Err_0 == TasktuiError::InvalidServiceName,
        PIPE_NAME@ == "\\\\.\\pipe\\tasktui.v1"@,
{
}

} // verus!
