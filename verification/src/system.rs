//! What the program decides about the Windows system: the meaning of the system's codes, what
//! may be done to a process, and the steps of service control and of the pipe.

use crate::api::{
    ProcessPriority, ServiceRow, ServiceRowView, TasktuiError, TcpPortOwner, TcpPortOwnerView,
};
use crate::listing::{service_le, sort_services};
use crate::navigation::has_pid;
use crate::sorting::{stable_sort, views};
use crate::text::{decimal, decimal_text};
use crate::wide::{from_utf16, units_text};
use vstd::prelude::*;

verus! {

/// A row of the system's TCP table.
#[derive(Debug, Clone, Copy, PartialEq, Eq, Structural)]
pub struct TcpRow {
    pub state: u32,
    pub local_addr: u32,
    pub local_port: u32,
    pub remote_addr: u32,
    pub remote_port: u32,
    pub owning_pid: u32,
}

/// The name of a TCP state.
pub open spec fn tcp_state(state: u32) -> Seq<char> {
    match state {
        1 => "closed"@,
        2 => "listen"@,
        3 => "syn_sent"@,
        4 => "syn_received"@,
        5 => "established"@,
        6 => "fin_wait_1"@,
        7 => "fin_wait_2"@,
        8 => "close_wait"@,
        9 => "closing"@,
        10 => "last_ack"@,
        11 => "time_wait"@,
        12 => "delete_tcb"@,
        _ => "unknown"@,
    }
}

/// The name of a TCP state.
pub fn tcp_state_label(state: u32) -> (label: &'static str)
    ensures
        label@ == tcp_state(state),
{
    match state {
        1 => "closed",
        2 => "listen",
        3 => "syn_sent",
        4 => "syn_received",
        5 => "established",
        6 => "fin_wait_1",
        7 => "fin_wait_2",
        8 => "close_wait",
        9 => "closing",
        10 => "last_ack",
        11 => "time_wait",
        12 => "delete_tcb",
        _ => "unknown",
    }
}

/// An address in dotted notation, the most significant byte first.
pub open spec fn dotted(address: u32) -> Seq<char> {
    let a = address as nat;
    decimal(a / 0x100_0000) + "."@ + decimal((a / 0x1_0000) % 0x100) + "."@ + decimal(
        (a / 0x100) % 0x100,
    ) + "."@ + decimal(a % 0x100)
}

/// An address in dotted notation.
pub fn address_text(address: u32) -> (text: String)
    ensures
        text@ == dotted(address),
{
    let mut text = decimal_text((address / 0x100_0000) as u64);
    text.append(".");
    let second = decimal_text(((address / 0x1_0000) % 0x100) as u64);
    text.append(second.as_str());
    text.append(".");
    let third = decimal_text(((address / 0x100) % 0x100) as u64);
    text.append(third.as_str());
    text.append(".");
    let fourth = decimal_text((address % 0x100) as u64);
    text.append(fourth.as_str());
    text
}

/// The port in the low half of a table entry, with its two bytes exchanged.
pub open spec fn port_of(entry: u32) -> u16 {
    ((entry as int % 0x100) * 0x100 + (entry as int / 0x100) % 0x100) as u16
}

/// The port in the low half of a table entry.
pub fn host_port(entry: u32) -> (port: u16)
    ensures
        port == port_of(entry),
{
    ((entry % 0x100) * 0x100 + (entry / 0x100) % 0x100) as u16
}

/// An endpoint and its owner, from a row of the TCP table.
pub open spec fn owner_of_row(row: TcpRow) -> TcpPortOwnerView {
    TcpPortOwnerView {
        pid: row.owning_pid,
        local_addr: dotted(row.local_addr),
        local_port: port_of(row.local_port),
        remote_addr: dotted(row.remote_addr),
        remote_port: port_of(row.remote_port),
        state: tcp_state(row.state),
    }
}

/// An endpoint and its owner, from a row of the TCP table.
pub fn map_tcp_row(row: &TcpRow) -> (owner: TcpPortOwner)
    ensures
        owner@ == owner_of_row(*row),
{
    TcpPortOwner {
        pid: row.owning_pid,
        local_addr: address_text(row.local_addr),
        local_port: host_port(row.local_port),
        remote_addr: address_text(row.remote_addr),
        remote_port: host_port(row.remote_port),
        state: tcp_state_label(row.state).to_string(),
    }
}

/// The code of a stopped service.
pub const SERVICE_STOPPED: u32 = 1;

/// The code of a service that is starting.
pub const SERVICE_START_PENDING: u32 = 2;

/// The code of a service that is stopping.
pub const SERVICE_STOP_PENDING: u32 = 3;

/// The code of a running service.
pub const SERVICE_RUNNING: u32 = 4;

/// The name of a service's state.
pub open spec fn service_state(state: u32) -> Seq<char> {
    match state {
        1 => "stopped"@,
        2 => "start_pending"@,
        3 => "stop_pending"@,
        4 => "running"@,
        5 => "continue_pending"@,
        6 => "pause_pending"@,
        7 => "paused"@,
        _ => "unknown"@,
    }
}

/// The name of a service's state.
pub fn service_state_label(state: u32) -> (label: &'static str)
    ensures
        label@ == service_state(state),
{
    match state {
        1 => "stopped",
        2 => "start_pending",
        3 => "stop_pending",
        4 => "running",
        5 => "continue_pending",
        6 => "pause_pending",
        7 => "paused",
        _ => "unknown",
    }
}

/// The name of the way in which a service starts.
pub open spec fn service_start_type(start_type: u32) -> Seq<char> {
    match start_type {
        0 => "boot"@,
        1 => "system"@,
        2 => "auto"@,
        3 => "manual"@,
        4 => "disabled"@,
        _ => "unknown"@,
    }
}

/// The name of the way in which a service starts.
pub fn service_start_type_label(start_type: u32) -> (label: &'static str)
    ensures
        label@ == service_start_type(start_type),
{
    match start_type {
        0 => "boot",
        1 => "system",
        2 => "auto",
        3 => "manual",
        4 => "disabled",
        _ => "unknown",
    }
}

/// Whether nothing may be done to a process: the idle process, the system process, and the
/// program itself.
pub open spec fn is_protected(pid: u32, own_pid: u32) -> bool {
    pid == 0 || pid == 4 || pid == own_pid
}

/// Refuses what must not be done to a process.
pub fn guard_process(pid: u32, own_pid: u32) -> (r: Result<(), TasktuiError>)
    ensures
        r == (if is_protected(pid, own_pid) {
            Err::<(), _>(TasktuiError::AccessDenied)
        } else {
            Ok(())
        }),
{
    if pid == 0 || pid == 4 || pid == own_pid {
        Err(TasktuiError::AccessDenied)
    } else {
        Ok(())
    }
}

/// Refuses to kill a process that the system cannot do without, where the system tells.
pub fn guard_critical(critical: Option<bool>) -> (r: Result<(), TasktuiError>)
    ensures
        r == (if critical == Some(true) {
            Err::<(), _>(TasktuiError::AccessDenied)
        } else {
            Ok(())
        }),
{
    match critical {
        Some(is_critical) => {
            if is_critical {
                Err(TasktuiError::AccessDenied)
            } else {
                Ok(())
            }
        },
        None => Ok(()),
    }
}

/// The system's code of a priority.
pub open spec fn class_of(priority: ProcessPriority) -> u32 {
    match priority {
        ProcessPriority::Idle => 0x40,
        ProcessPriority::BelowNormal => 0x4000,
        ProcessPriority::Normal => 0x20,
        ProcessPriority::AboveNormal => 0x8000,
        ProcessPriority::High => 0x80,
    }
}

/// The system's code of a priority.
pub fn priority_class(priority: ProcessPriority) -> (class: u32)
    ensures
        class == class_of(priority),
{
    match priority {
        ProcessPriority::Idle => 0x40,
        ProcessPriority::BelowNormal => 0x4000,
        ProcessPriority::Normal => 0x20,
        ProcessPriority::AboveNormal => 0x8000,
        ProcessPriority::High => 0x80,
    }
}

/// The priority of a code, if it is one that the program knows.
pub open spec fn known_class(class: u32) -> Option<ProcessPriority> {
    if class == 0x40 {
        Some(ProcessPriority::Idle)
    } else if class == 0x4000 {
        Some(ProcessPriority::BelowNormal)
    } else if class == 0x20 {
        Some(ProcessPriority::Normal)
    } else if class == 0x8000 {
        Some(ProcessPriority::AboveNormal)
    } else if class == 0x80 {
        Some(ProcessPriority::High)
    } else {
        None
    }
}

/// The priority of a code; zero tells that the system could not say.
pub fn priority_of_class(class: u32) -> (r: Result<ProcessPriority, TasktuiError>)
    ensures
        match r {
            Ok(priority) => known_class(class) == Some(priority),
            Err(TasktuiError::Message(text)) => class == 0 && text@ == "GetPriorityClass failed"@,
            Err(error) => class != 0 && known_class(class) is None && error
                == TasktuiError::Unsupported,
        },
{
    if class == 0 {
        Err(TasktuiError::Message("GetPriorityClass failed".to_string()))
    } else if class == 0x40 {
        Ok(ProcessPriority::Idle)
    } else if class == 0x4000 {
        Ok(ProcessPriority::BelowNormal)
    } else if class == 0x20 {
        Ok(ProcessPriority::Normal)
    } else if class == 0x8000 {
        Ok(ProcessPriority::AboveNormal)
    } else if class == 0x80 {
        Ok(ProcessPriority::High)
    } else {
        Err(TasktuiError::Unsupported)
    }
}

/// A priority that was set is read as that priority.
pub proof fn priority_reads_back(priority: ProcessPriority)
    ensures
        known_class(class_of(priority)) == Some(priority),
{
}

/// A thread and the process that it belongs to.
#[derive(Debug, Clone, Copy, PartialEq, Eq, Structural)]
pub struct ThreadEntry {
    pub owner_pid: u32,
    pub thread_id: u32,
}

/// The threads of a process, in order.
pub open spec fn threads_of(threads: Seq<ThreadEntry>, pid: u32) -> Seq<u32>
    decreases threads.len(),
{
    if threads.len() == 0 {
        Seq::empty()
    } else {
        let before = threads_of(threads.drop_last(), pid);
        if threads.last().owner_pid == pid {
            before.push(threads.last().thread_id)
        } else {
            before
        }
    }
}

/// The threads of a process that is to be suspended or resumed; a process without threads
/// cannot be.
pub fn threads_to_switch(threads: &Vec<ThreadEntry>, pid: u32) -> (r: Result<
    Vec<u32>,
    TasktuiError,
>)
    ensures
        match r {
            Ok(ids) => ids@ == threads_of(threads@, pid) && ids.len() > 0,
            Err(error) => error == TasktuiError::Unsupported && threads_of(threads@, pid).len()
                == 0,
        },
{
    let mut ids: Vec<u32> = Vec::new();
    let mut i: usize = 0;
    while i < threads.len()
        invariant
            i <= threads.len(),
            ids@ == threads_of(threads@.take(i as int), pid),
        decreases threads.len() - i,
    {
        assert(threads@.take(i + 1).drop_last() =~= threads@.take(i as int));
        if threads[i].owner_pid == pid {
            ids.push(threads[i].thread_id);
        }
        i = i + 1;
    }
    assert(threads@.take(i as int) =~= threads@);
    if ids.len() == 0 {
        Err(TasktuiError::Unsupported)
    } else {
        Ok(ids)
    }
}

/// What the suspend count of a thread tells after an attempt to change it.
#[derive(Debug, Clone, Copy, PartialEq, Eq, Structural)]
pub enum ThreadVerdict {
    Done,
    Again,
    Failed,
}

/// What the count before a suspension tells: the greatest number stands for a failure.
pub fn after_suspending(previous: u32) -> (verdict: ThreadVerdict)
    ensures
        verdict == (if previous == u32::MAX {
            ThreadVerdict::Failed
        } else {
            ThreadVerdict::Done
        }),
{
    if previous == u32::MAX {
        ThreadVerdict::Failed
    } else {
        ThreadVerdict::Done
    }
}

/// What the count before a resumption tells: above one, the thread is still suspended.
pub fn after_resuming(previous: u32) -> (verdict: ThreadVerdict)
    ensures
        verdict == (if previous == u32::MAX {
            ThreadVerdict::Failed
        } else if previous > 1 {
            ThreadVerdict::Again
        } else {
            ThreadVerdict::Done
        }),
{
    if previous == u32::MAX {
        ThreadVerdict::Failed
    } else if previous > 1 {
        ThreadVerdict::Again
    } else {
        ThreadVerdict::Done
    }
}

/// A top-level window.
#[derive(Debug, Clone, Copy, PartialEq, Eq, Structural)]
pub struct WindowEntry {
    pub handle: u64,
    pub pid: u32,
    pub visible: bool,
}

/// The processes that own visible windows, each once, in the order of their first windows.
pub open spec fn window_owners(windows: Seq<WindowEntry>) -> Seq<u32>
    decreases windows.len(),
{
    if windows.len() == 0 {
        Seq::empty()
    } else {
        let before = window_owners(windows.drop_last());
        let last = windows.last();
        if last.visible && last.pid != 0 && !before.contains(last.pid) {
            before.push(last.pid)
        } else {
            before
        }
    }
}

/// The processes that own visible windows.
pub fn visible_window_pids(windows: &Vec<WindowEntry>) -> (pids: Vec<u32>)
    ensures
        pids@ == window_owners(windows@),
{
    let mut pids: Vec<u32> = Vec::new();
    let mut i: usize = 0;
    while i < windows.len()
        invariant
            i <= windows.len(),
            pids@ == window_owners(windows@.take(i as int)),
        decreases windows.len() - i,
    {
        assert(windows@.take(i + 1).drop_last() =~= windows@.take(i as int));
        let window = windows[i];
        if window.visible && window.pid != 0 && !has_pid(&pids, window.pid) {
            pids.push(window.pid);
        }
        i = i + 1;
    }
    assert(windows@.take(i as int) =~= windows@);
    pids
}

/// Every process with a visible window is named once, and no other process.
pub proof fn window_owners_are_distinct(windows: Seq<WindowEntry>)
    ensures
        window_owners(windows).no_duplicates(),
        forall|pid: u32| #[trigger]
            window_owners(windows).contains(pid) <==> pid != 0 && exists|i: int|
                0 <= i < windows.len() && (#[trigger] windows[i]).visible && windows[i].pid == pid,
    decreases windows.len(),
{
    let owners = window_owners(windows);
    if windows.len() > 0 {
        let front = windows.drop_last();
        let before = window_owners(front);
        window_owners_are_distinct(front);
        assert forall|pid: u32| #[trigger] owners.contains(pid) <==> pid != 0 && exists|i: int|
            0 <= i < windows.len() && (#[trigger] windows[i]).visible && windows[i].pid == pid by {
            if owners.contains(pid) {
                let k = choose|k: int| 0 <= k < owners.len() && owners[k] == pid;
                if k < before.len() {
                    assert(before[k] == pid);
                    assert(before.contains(pid));
                    let i = choose|i: int|
                        0 <= i < front.len() && (#[trigger] front[i]).visible && front[i].pid
                            == pid;
                    assert(windows[i] == front[i]);
                } else {
                    assert(windows[windows.len() - 1].pid == pid);
                }
            }
            if pid != 0 && exists|i: int|
                0 <= i < windows.len() && (#[trigger] windows[i]).visible && windows[i].pid
                    == pid {
                let i = choose|i: int|
                    0 <= i < windows.len() && (#[trigger] windows[i]).visible && windows[i].pid
                        == pid;
                if i < front.len() {
                    assert(front[i] == windows[i]);
                    assert(before.contains(pid));
                }
                if before.contains(pid) {
                    let k = choose|k: int| 0 <= k < before.len() && before[k] == pid;
                    assert(owners[k] == pid);
                } else {
                    assert(owners[before.len() as int] == pid);
                }
            }
        }
    }
}

/// The visible windows of a process, in order.
pub open spec fn windows_of(windows: Seq<WindowEntry>, pid: u32) -> Seq<u64>
    decreases windows.len(),
{
    if windows.len() == 0 {
        Seq::empty()
    } else {
        let before = windows_of(windows.drop_last(), pid);
        if windows.last().pid == pid && windows.last().visible {
            before.push(windows.last().handle)
        } else {
            before
        }
    }
}

/// The windows that are asked to close; a process without one cannot be closed.
pub fn windows_to_close(windows: &Vec<WindowEntry>, pid: u32) -> (r: Result<
    Vec<u64>,
    TasktuiError,
>)
    ensures
        match r {
            Ok(handles) => handles@ == windows_of(windows@, pid) && handles.len() > 0,
            Err(error) => error == TasktuiError::NotClosable && windows_of(windows@, pid).len()
                == 0,
        },
{
    let mut handles: Vec<u64> = Vec::new();
    let mut i: usize = 0;
    while i < windows.len()
        invariant
            i <= windows.len(),
            handles@ == windows_of(windows@.take(i as int), pid),
        decreases windows.len() - i,
    {
        assert(windows@.take(i + 1).drop_last() =~= windows@.take(i as int));
        let window = windows[i];
        if window.pid == pid && window.visible {
            handles.push(window.handle);
        }
        i = i + 1;
    }
    assert(windows@.take(i as int) =~= windows@);
    if handles.len() == 0 {
        Err(TasktuiError::NotClosable)
    } else {
        Ok(handles)
    }
}

/// A step of service control.
#[derive(Debug, Clone, Copy, PartialEq, Eq, Structural)]
pub enum ServiceStep {
    Start,
    Stop,
    WaitUntilRunning,
    WaitUntilStopped,
}

/// The steps that start a service from a state.
pub open spec fn steps_to_start(state: u32) -> Seq<ServiceStep> {
    if state == SERVICE_RUNNING {
        Seq::empty()
    } else {
        seq![ServiceStep::Start, ServiceStep::WaitUntilRunning]
    }
}

/// The steps that stop a service from a state.
pub open spec fn steps_to_stop(state: u32) -> Seq<ServiceStep> {
    if state == SERVICE_STOPPED {
        Seq::empty()
    } else {
        seq![ServiceStep::Stop, ServiceStep::WaitUntilStopped]
    }
}

/// The steps that restart a service from a state: it is stopped first, unless it is stopped
/// or stopping already.
pub open spec fn steps_to_restart(state: u32) -> Seq<ServiceStep> {
    let start = seq![ServiceStep::Start, ServiceStep::WaitUntilRunning];
    if state == SERVICE_STOPPED {
        start
    } else if state == SERVICE_STOP_PENDING {
        seq![ServiceStep::WaitUntilStopped] + start
    } else {
        seq![ServiceStep::Stop, ServiceStep::WaitUntilStopped] + start
    }
}

/// The steps that start a service from a state.
pub fn start_service_steps(state: u32) -> (steps: Vec<ServiceStep>)
    ensures
        steps@ == steps_to_start(state),
{
    let mut steps: Vec<ServiceStep> = Vec::new();
    if state != SERVICE_RUNNING {
        steps.push(ServiceStep::Start);
        steps.push(ServiceStep::WaitUntilRunning);
    }
    assert(steps@ =~= steps_to_start(state));
    steps
}

/// The steps that stop a service from a state.
pub fn stop_service_steps(state: u32) -> (steps: Vec<ServiceStep>)
    ensures
        steps@ == steps_to_stop(state),
{
    let mut steps: Vec<ServiceStep> = Vec::new();
    if state != SERVICE_STOPPED {
        steps.push(ServiceStep::Stop);
        steps.push(ServiceStep::WaitUntilStopped);
    }
    assert(steps@ =~= steps_to_stop(state));
    steps
}

/// The steps that restart a service from a state.
pub fn restart_service_steps(state: u32) -> (steps: Vec<ServiceStep>)
    ensures
        steps@ == steps_to_restart(state),
{
    let mut steps: Vec<ServiceStep> = Vec::new();
    if state != SERVICE_STOPPED && state != SERVICE_STOP_PENDING {
        steps.push(ServiceStep::Stop);
    }
    if state != SERVICE_STOPPED {
        steps.push(ServiceStep::WaitUntilStopped);
    }
    steps.push(ServiceStep::Start);
    steps.push(ServiceStep::WaitUntilRunning);
    assert(steps@ =~= steps_to_restart(state));
    steps
}

/// Whatever its state, a restart first has the service stopped, unless it is, and ends with
/// it started again.
pub proof fn restart_stops_before_starting(state: u32)
    ensures
        ({
            let steps = steps_to_restart(state);
            &&& steps.len() >= 2
            &&& steps[steps.len() - 2] == ServiceStep::Start
            &&& steps[steps.len() - 1] == ServiceStep::WaitUntilRunning
            &&& state == SERVICE_STOPPED <==> steps.len() == 2
            &&& state != SERVICE_STOPPED ==> steps[steps.len() - 3]
                == ServiceStep::WaitUntilStopped
        }),
{
}

/// How long the start or the stop of a service may take, in milliseconds.
pub const SERVICE_WAIT_MILLIS: u64 = 30000;

/// What a look at something that is waited for tells.
#[derive(Debug, Clone, Copy, PartialEq, Eq, Structural)]
pub enum WaitVerdict {
    Reached,
    Again,
    TimedOut,
}

/// What a look at a service's state tells: reaching the state counts even after the time is
/// up.
pub fn service_wait(state: u32, wanted: u32, elapsed_millis: u64, timeout_millis: u64) -> (verdict:
    WaitVerdict)
    ensures
        verdict == (if state == wanted {
            WaitVerdict::Reached
        } else if elapsed_millis >= timeout_millis {
            WaitVerdict::TimedOut
        } else {
            WaitVerdict::Again
        }),
{
    if state == wanted {
        WaitVerdict::Reached
    } else if elapsed_millis >= timeout_millis {
        WaitVerdict::TimedOut
    } else {
        WaitVerdict::Again
    }
}

/// The state that a waiting step waits for.
pub open spec fn awaited(step: ServiceStep) -> Option<u32> {
    match step {
        ServiceStep::WaitUntilRunning => Some(SERVICE_RUNNING),
        ServiceStep::WaitUntilStopped => Some(SERVICE_STOPPED),
        _ => None,
    }
}

/// The state that a waiting step waits for.
pub fn awaited_state(step: ServiceStep) -> (state: Option<u32>)
    ensures
        state == awaited(step),
{
    match step {
        ServiceStep::WaitUntilRunning => Some(SERVICE_RUNNING),
        ServiceStep::WaitUntilStopped => Some(SERVICE_STOPPED),
        _ => None,
    }
}

/// The system's code for a file that does not exist.
pub const ERROR_FILE_NOT_FOUND: u32 = 2;

/// The system's code for a pipe whose other end is gone.
pub const ERROR_BROKEN_PIPE: u32 = 109;

/// The system's code for a message of which more is to be read.
pub const ERROR_MORE_DATA: u32 = 234;

/// The system's code for a pipe that a client opened before it was waited for.
pub const ERROR_PIPE_CONNECTED: u32 = 535;

/// Whether a failure to wait for a client tells that the client is there already.
pub fn client_is_connected(code: u32) -> (connected: bool)
    ensures
        connected == (code == ERROR_PIPE_CONNECTED),
{
    code == ERROR_PIPE_CONNECTED
}

/// The error for a pipe that could not be opened: without the pipe the service is not there.
pub fn connect_error(code: u32) -> (error: Option<TasktuiError>)
    ensures
        error == (if code == ERROR_FILE_NOT_FOUND {
            Some(TasktuiError::ServiceUnavailable)
        } else {
            None::<TasktuiError>
        }),
{
    if code == ERROR_FILE_NOT_FOUND {
        Some(TasktuiError::ServiceUnavailable)
    } else {
        None
    }
}

/// What a read from the pipe tells.
#[derive(Debug, Clone, Copy, PartialEq, Eq, Structural)]
pub enum ReadVerdict {
    /// The message is complete.
    Complete,
    /// More of the message is to be read.
    More,
    /// The other end is gone.
    Disconnected,
    /// The read failed.
    Failed,
}

/// What a read that ended with a code, or without one, tells.
pub open spec fn read_verdict(code: Option<u32>) -> ReadVerdict {
    match code {
        None => ReadVerdict::Complete,
        Some(c) => if c == ERROR_MORE_DATA {
            ReadVerdict::More
        } else if c == ERROR_BROKEN_PIPE {
            ReadVerdict::Disconnected
        } else {
            ReadVerdict::Failed
        },
    }
}

/// Takes in a read from the pipe: the bytes of a part are appended to the message.
pub fn take_chunk(message: &mut Vec<u8>, chunk: &Vec<u8>, read: usize, code: Option<u32>) -> (
    verdict: ReadVerdict)
    requires
        read <= chunk.len(),
    ensures
        verdict == read_verdict(code),
        final(message)@ == (match verdict {
            ReadVerdict::Complete | ReadVerdict::More => old(message)@ + chunk@.take(read as int),
            _ => old(message)@,
        }),
{
    let verdict = match code {
        None => ReadVerdict::Complete,
        Some(c) => {
            if c == ERROR_MORE_DATA {
                ReadVerdict::More
            } else if c == ERROR_BROKEN_PIPE {
                ReadVerdict::Disconnected
            } else {
                ReadVerdict::Failed
            }
        },
    };
    if verdict == ReadVerdict::Complete || verdict == ReadVerdict::More {
        let ghost start = message@;
        let mut i: usize = 0;
        assert(start + chunk@.take(0) =~= start);
        while i < read
            invariant
                i <= read <= chunk.len(),
                message@ == start + chunk@.take(i as int),
            decreases read - i,
        {
            message.push(chunk[i]);
            i = i + 1;
            assert(message@ =~= start + chunk@.take(i as int));
        }
    }
    verdict
}

/// Whether a message was written whole.
pub fn written_whole(written: u32, length: usize) -> (whole: bool)
    ensures
        whole == (written as int == length as int),
{
    written as u64 == length as u64
}

/// The message for a program that the shell was asked to open; codes up to 32 are failures.
pub fn shell_failure(code: u64) -> (message: Option<String>)
    ensures
        message is Some <==> code <= 32,
        message matches Some(text) ==> text@ == "ShellExecuteW failed with code "@ + decimal(
            code as nat,
        ),
{
    if code <= 32 {
        Some(with_number("ShellExecuteW failed with code ", code))
    } else {
        None
    }
}

/// The style bits of a window's title bar, frame, and buttons.
pub const TITLE_BAR_BITS: u32 = 0x00CF_0000;

/// The style of a window without its title bar, if it has one.
pub fn stripped_style(style: u32) -> (r: Option<u32>)
    ensures
        r == (if style & !TITLE_BAR_BITS == style {
            None
        } else {
            Some(style & !TITLE_BAR_BITS)
        }),
{
    let stripped: u32 = style & !TITLE_BAR_BITS;
    if stripped == style {
        None
    } else {
        Some(stripped)
    }
}

/// A stripped style has nothing more to strip.
pub proof fn stripping_is_final(style: u32)
    ensures
        (style & !TITLE_BAR_BITS) & !TITLE_BAR_BITS == style & !TITLE_BAR_BITS,
{
    assert((style & !0x00CF_0000u32) & !0x00CF_0000u32 == style & !0x00CF_0000u32)
        by (bit_vector);
}

/// A service as the system lists it; how it starts may be unknown.
#[derive(Debug, PartialEq, Eq)]
pub struct ServiceEntry {
    pub display_name: Vec<u16>,
    pub service_name: Vec<u16>,
    pub state: u32,
    pub start_type: Option<u32>,
}

/// The row of a listed service.
pub open spec fn service_row(entry: ServiceEntry) -> ServiceRowView {
    ServiceRowView {
        display_name: units_text(entry.display_name@),
        service_name: units_text(entry.service_name@),
        status: service_state(entry.state),
        start_type: match entry.start_type {
            Some(start_type) => service_start_type(start_type),
            None => "unknown"@,
        },
    }
}

/// The rows of the listed services, in the order of the service list.
pub fn service_rows(entries: &Vec<ServiceEntry>) -> (rows: Vec<ServiceRow>)
    ensures
        views(rows@) == stable_sort(
            Seq::new(entries@.len(), |i: int| service_row(entries@[i])),
            |a: ServiceRowView, b: ServiceRowView| service_le(a, b),
        ),
{
    let mut rows: Vec<ServiceRow> = Vec::new();
    let mut i: usize = 0;
    while i < entries.len()
        invariant
            i <= entries.len(),
            rows.len() == i,
            forall|k: int| 0 <= k < i ==> (#[trigger] rows@[k])@ == service_row(entries@[k]),
        decreases entries.len() - i,
    {
        let entry = &entries[i];
        let start_type = match entry.start_type {
            Some(code) => service_start_type_label(code),
            None => "unknown",
        };
        rows.push(
            ServiceRow {
                display_name: from_utf16(&entry.display_name),
                service_name: from_utf16(&entry.service_name),
                status: service_state_label(entry.state).to_string(),
                start_type: start_type.to_string(),
            },
        );
        i = i + 1;
    }
    assert(views(rows@) =~= Seq::new(entries@.len(), |k: int| service_row(entries@[k])));
    sort_services(rows)
}

/// The owners of the endpoints in the system's TCP table, in its order.
pub fn tcp_port_owners(rows: &Vec<TcpRow>) -> (owners: Vec<TcpPortOwner>)
    ensures
        views(owners@) == Seq::new(rows@.len(), |i: int| owner_of_row(rows@[i])),
{
    let mut owners: Vec<TcpPortOwner> = Vec::new();
    let mut i: usize = 0;
    while i < rows.len()
        invariant
            i <= rows.len(),
            owners.len() == i,
            forall|k: int| 0 <= k < i ==> (#[trigger] owners@[k])@ == owner_of_row(rows@[k]),
        decreases rows.len() - i,
    {
        owners.push(map_tcp_row(&rows[i]));
        i = i + 1;
    }
    assert(views(owners@) =~= Seq::new(rows@.len(), |k: int| owner_of_row(rows@[k])));
    owners
}

/// The system's code for a buffer that is too small.
pub const ERROR_INSUFFICIENT_BUFFER: u32 = 122;

/// The message for the question how large the TCP table is: only the answer that no buffer
/// is too small is in order.
pub fn tcp_sizing_failure(code: u32) -> (message: Option<String>)
    ensures
        message is Some <==> code != ERROR_INSUFFICIENT_BUFFER,
        message matches Some(text) ==> text@ == "GetExtendedTcpTable sizing failed with code "@
            + decimal(code as nat),
{
    if code != ERROR_INSUFFICIENT_BUFFER {
        Some(with_number("GetExtendedTcpTable sizing failed with code ", code as u64))
    } else {
        None
    }
}

/// The message for a reading of the TCP table; zero tells that it was read.
pub fn tcp_table_failure(code: u32) -> (message: Option<String>)
    ensures
        message is Some <==> code != 0,
        message matches Some(text) ==> text@ == "GetExtendedTcpTable failed with code "@ + decimal(
            code as nat,
        ),
{
    if code != 0 {
        Some(with_number("GetExtendedTcpTable failed with code ", code as u64))
    } else {
        None
    }
}

/// A beginning followed by a number.
fn with_number(beginning: &str, number: u64) -> (text: String)
    ensures
        text@ == beginning@ + decimal(number as nat),
{
    let mut text = beginning.to_string();
    let digits = decimal_text(number);
    text.append(digits.as_str());
    text
}

/// The message for a thread that could not be suspended.
pub fn suspend_failure(thread_id: u32) -> (text: String)
    ensures
        text@ == "SuspendThread failed for thread "@ + decimal(thread_id as nat),
{
    with_number("SuspendThread failed for thread ", thread_id as u64)
}

/// The message for a thread that could not be resumed.
pub fn resume_failure(thread_id: u32) -> (text: String)
    ensures
        text@ == "ResumeThread failed for thread "@ + decimal(thread_id as nat),
{
    with_number("ResumeThread failed for thread ", thread_id as u64)
}

/// The codes of TCP states, service states, and start types mean what the system says they mean;
/// a code that it does not know is unknown.
pub proof fn codes_have_their_meanings(code: u32)
    ensures
        tcp_state(1) == "closed"@ && tcp_state(2) == "listen"@ && tcp_state(3) == "syn_sent"@,
        tcp_state(4) == "syn_received"@ && tcp_state(5) == "established"@,
        tcp_state(6) == "fin_wait_1"@ && tcp_state(7) == "fin_wait_2"@,
        tcp_state(8) == "close_wait"@ && tcp_state(9) == "closing"@ && tcp_state(10)
            == "last_ack"@,
        tcp_state(11) == "time_wait"@ && tcp_state(12) == "delete_tcb"@,
        code == 0 || code > 12 ==> tcp_state(code) == "unknown"@,
        service_state(1) == "stopped"@ && service_state(2) == "start_pending"@,
        service_state(3) == "stop_pending"@ && service_state(4) == "running"@,
        service_state(5) == "continue_pending"@ && service_state(6) == "pause_pending"@,
        service_state(7) == "paused"@,
        code == 0 || code > 7 ==> service_state(code) == "unknown"@,
        service_start_type(0) == "boot"@ && service_start_type(1) == "system"@,
        service_start_type(2) == "auto"@ && service_start_type(3) == "manual"@,
        service_start_type(4) == "disabled"@,
        code > 4 ==> service_start_type(code) == "unknown"@,
{
}

/// The codes of priorities are the system's, each priority has its own, and a code is read as a
/// priority exactly if it is that priority's.
pub proof fn priorities_have_their_codes(class: u32, priority: ProcessPriority)
    ensures
        class_of(ProcessPriority::Normal) == 32,
        class_of(ProcessPriority::Idle) == 64,
        class_of(ProcessPriority::High) == 128,
        class_of(ProcessPriority::BelowNormal) == 16384,
        class_of(ProcessPriority::AboveNormal) == 32768,
        known_class(class) == Some(priority) <==> class == class_of(priority),
{
}

/// An address of four bytes is written with the most significant one first and dots between them,
/// and a port is read with its two bytes exchanged, whatever stands above them.
pub proof fn addresses_are_written_by_bytes(a: u8, b: u8, c: u8, d: u8, above: u16)
    ensures
        dotted((a * 0x100_0000 + b * 0x1_0000 + c * 0x100 + d) as u32) == decimal(a as nat)
            + seq!['.'] + decimal(b as nat) + seq!['.'] + decimal(c as nat) + seq!['.'] + decimal(
            d as nat,
        ),
        port_of((above * 0x1_0000 + a * 0x100 + b) as u32) == b * 0x100 + a,
{
    reveal_strlit(".");
    assert("."@ =~= seq!['.']);
    let address = a * 0x100_0000 + b * 0x1_0000 + c * 0x100 + d;
    assert(address / 0x100_0000 == a);
    assert((address / 0x1_0000) % 0x100 == b);
    assert((address / 0x100) % 0x100 == c);
    assert(address % 0x100 == d);
    let entry = above * 0x1_0000 + a * 0x100 + b;
    assert(entry % 0x100 == b);
    assert((entry / 0x100) % 0x100 == a);
}

/// An endpoint has the owner, the two addresses and ports, and the state of its row in the TCP
/// table, each in its place.
pub proof fn owners_show_their_row(row: TcpRow)
    ensures
        ({
            let owner = owner_of_row(row);
            &&& owner.pid == row.owning_pid
            &&& owner.local_addr == dotted(row.local_addr)
            &&& owner.local_port == port_of(row.local_port)
            &&& owner.remote_addr == dotted(row.remote_addr)
            &&& owner.remote_port == port_of(row.remote_port)
            &&& owner.state == tcp_state(row.state)
        }),
{
}

/// A listed service has the two names, the state, and the start type that the system gives, each
/// in its place; a start type that could not be found out is unknown.
pub proof fn service_rows_show_their_entry(entry: ServiceEntry)
    ensures
        ({
            let row = service_row(entry);
            &&& row.display_name == units_text(entry.display_name@)
            &&& row.service_name == units_text(entry.service_name@)
            &&& row.status == service_state(entry.state)
            &&& entry.start_type is Some ==> row.start_type == service_start_type(
                entry.start_type->0,
            )
            &&& entry.start_type is None ==> row.start_type == "unknown"@
        }),
{
}

/// Nothing is done to the idle process, the system process, and the program itself; anything may
/// be done to other processes.
pub proof fn only_three_processes_are_protected(pid: u32, own_pid: u32)
    ensures
        is_protected(0, own_pid),
        is_protected(4, own_pid),
        is_protected(own_pid, own_pid),
        pid != 0 && pid != 4 && pid != own_pid ==> !is_protected(pid, own_pid),
{
}

/// Of a list of threads those of a process are taken, and no others, in their order: one more
/// thread is taken exactly if it belongs to the process.
pub proof fn threads_are_those_of_the_process(
    threads: Seq<ThreadEntry>,
    next: ThreadEntry,
    pid: u32,
)
    ensures
        threads_of(Seq::empty(), pid).len() == 0,
        next.owner_pid == pid ==> threads_of(threads.push(next), pid) == threads_of(
            threads,
            pid,
        ).push(next.thread_id),
        next.owner_pid != pid ==> threads_of(threads.push(next), pid) == threads_of(threads, pid),
{
    assert(threads.push(next).drop_last() =~= threads);
}

/// Of a list of windows the visible ones of a process are taken, and no others, in their order. The
/// owners of visible windows are listed in the order of their first windows, but for the process
/// with number zero.
pub proof fn windows_are_the_visible_ones(
    windows: Seq<WindowEntry>,
    next: WindowEntry,
    pid: u32,
)
    ensures
        windows_of(Seq::empty(), pid).len() == 0,
        next.visible && next.pid == pid ==> windows_of(windows.push(next), pid) == windows_of(
            windows,
            pid,
        ).push(next.handle),
        !next.visible || next.pid != pid ==> windows_of(windows.push(next), pid) == windows_of(
            windows,
            pid,
        ),
        window_owners(Seq::empty()).len() == 0,
        !next.visible || next.pid == 0 || window_owners(windows).contains(next.pid)
            ==> window_owners(windows.push(next)) == window_owners(windows),
        next.visible && next.pid != 0 && !window_owners(windows).contains(next.pid)
            ==> window_owners(windows.push(next)) == window_owners(windows).push(next.pid),
{
    assert(windows.push(next).drop_last() =~= windows);
}

/// A service is started unless it runs, and stopped unless it is stopped, and each is waited for.
/// A restart stops the service, unless it is stopped or stopping, waits until it is stopped, and
/// starts it.
pub proof fn services_are_controlled_by_steps(state: u32)
    ensures
        state == 4 ==> steps_to_start(state).len() == 0,
        state != 4 ==> steps_to_start(state) == seq![
            ServiceStep::Start,
            ServiceStep::WaitUntilRunning,
        ],
        state == 1 ==> steps_to_stop(state).len() == 0,
        state != 1 ==> steps_to_stop(state) == seq![
            ServiceStep::Stop,
            ServiceStep::WaitUntilStopped,
        ],
        state == 1 ==> steps_to_restart(state) == seq![
            ServiceStep::Start,
            ServiceStep::WaitUntilRunning,
        ],
        state == 3 ==> steps_to_restart(state) == seq![
            ServiceStep::WaitUntilStopped,
            ServiceStep::Start,
            ServiceStep::WaitUntilRunning,
        ],
        state != 1 && state != 3 ==> steps_to_restart(state) == seq![
            ServiceStep::Stop,
            ServiceStep::WaitUntilStopped,
            ServiceStep::Start,
            ServiceStep::WaitUntilRunning,
        ],
        awaited(ServiceStep::WaitUntilRunning) == Some(4u32),
        awaited(ServiceStep::WaitUntilStopped) == Some(1u32),
        awaited(ServiceStep::Start) is None && awaited(ServiceStep::Stop) is None,
{
    let tail = seq![ServiceStep::Start, ServiceStep::WaitUntilRunning];
    assert(seq![ServiceStep::WaitUntilStopped] + tail =~= seq![
        ServiceStep::WaitUntilStopped,
        ServiceStep::Start,
        ServiceStep::WaitUntilRunning,
    ]);
    assert(seq![ServiceStep::Stop, ServiceStep::WaitUntilStopped] + tail =~= seq![
        ServiceStep::Stop,
        ServiceStep::WaitUntilStopped,
        ServiceStep::Start,
        ServiceStep::WaitUntilRunning,
    ]);
}

/// A read that ended without a code completes a message, one with the code for more data goes on,
/// one with the code for a broken pipe ends the connection, and any other failed.
pub proof fn reads_tell_by_their_code(code: u32)
    ensures
        read_verdict(None) == ReadVerdict::Complete,
        read_verdict(Some(code)) == ReadVerdict::More <==> code == 234,
        read_verdict(Some(code)) == ReadVerdict::Disconnected <==> code == 109,
        read_verdict(Some(code)) == ReadVerdict::Failed <==> code != 234 && code != 109,
{
}

/// What must not be done to a process is refused as not allowed: anything to the three protected
/// ones, and to kill one that the system needs.
pub proof fn protected_processes_are_refused(
    pid: u32,
    own_pid: u32,
    critical: Option<bool>,
    guarded: Result<(), TasktuiError>,
    kept: Result<(), TasktuiError>,
)
    requires
        call_ensures(guard_process, (pid, own_pid), guarded),
        call_ensures(guard_critical, (critical,), kept),
    ensures
        guarded is Err <==> pid == 0 || pid == 4 || pid == own_pid,
        guarded is Err ==> guarded->Err_0 == TasktuiError::AccessDenied,
        kept is Err <==> critical == Some(true),
        kept is Err ==> kept->Err_0 == TasktuiError::AccessDenied,
{
}

/// A thread whose suspend count was above one before it was resumed has to be resumed again; the
/// greatest count tells of a failure, and any other that it is done.
pub proof fn suspend_counts_tell(previous: u32, suspended: ThreadVerdict, resumed: ThreadVerdict)
    requires
        call_ensures(after_suspending, (previous,), suspended),
        call_ensures(after_resuming, (previous,), resumed),
    ensures
        suspended == ThreadVerdict::Failed <==> previous == 0xffff_ffff,
        suspended == ThreadVerdict::Done <==> previous != 0xffff_ffff,
        resumed == ThreadVerdict::Failed <==> previous == 0xffff_ffff,
        resumed == ThreadVerdict::Again <==> 1 < previous < 0xffff_ffff,
        resumed == ThreadVerdict::Done <==> previous <= 1,
{
}

/// A wait for a service ends when its state is the wanted one, and else when the time is up. A
/// start or a stop may take thirty seconds.
pub proof fn waits_end_by_state_or_time(
    state: u32,
    wanted: u32,
    elapsed: u64,
    timeout: u64,
    verdict: WaitVerdict,
)
    requires
        call_ensures(service_wait, (state, wanted, elapsed, timeout), verdict),
    ensures
        verdict == WaitVerdict::Reached <==> state == wanted,
        verdict == WaitVerdict::TimedOut <==> state != wanted && elapsed >= timeout,
        verdict == WaitVerdict::Again <==> state != wanted && elapsed < timeout,
        SERVICE_WAIT_MILLIS == 30000,
        SERVICE_STOPPED == 1 && SERVICE_START_PENDING == 2,
        SERVICE_STOP_PENDING == 3 && SERVICE_RUNNING == 4,
{
}

/// The code 535 tells that a client is connected already, and the code 2 that there is no pipe, so
/// that the service is out of reach.
pub proof fn pipe_codes_tell(code: u32, connected: bool, error: Option<TasktuiError>)
    requires
        call_ensures(client_is_connected, (code,), connected),
        call_ensures(connect_error, (code,), error),
    ensures
        connected <==> code == 535,
        code == 2 ==> error == Some(TasktuiError::ServiceUnavailable),
        code != 2 ==> error is None,
{
}

/// The shell failed if it answers with at most 32. The question for the size of the TCP table is
/// answered with 122, and a reading of it with zero; any other code is a failure. A failure is
/// told with its code.
pub proof fn failures_are_told_by_code(
    shell: u64,
    code: u32,
    opened: Option<String>,
    sized: Option<String>,
    read: Option<String>,
)
    requires
        call_ensures(shell_failure, (shell,), opened),
        call_ensures(tcp_sizing_failure, (code,), sized),
        call_ensures(tcp_table_failure, (code,), read),
    ensures
        opened is Some <==> shell <= 32,
        opened is Some ==> opened->0@ == "ShellExecuteW failed with code "@ + decimal(shell as nat),
        sized is Some <==> code != 122,
        sized is Some ==> sized->0@ == "GetExtendedTcpTable sizing failed with code "@ + decimal(
            code as nat,
        ),
        read is Some <==> code != 0,
        read is Some ==> read->0@ == "GetExtendedTcpTable failed with code "@ + decimal(code as nat),
{
}

/// A window loses the style bits of its title bar, frame, and buttons, and keeps all others; a window
/// that has none of them stays as it is.
pub proof fn title_bars_are_stripped(style: u32, stripped: Option<u32>)
    requires
        call_ensures(stripped_style, (style,), stripped),
    ensures
        stripped is None ==> style & 0x00CF_0000 == 0,
        stripped is Some ==> stripped->0 & 0x00CF_0000 == 0 && stripped->0 | (style & 0x00CF_0000)
            == style && style & 0x00CF_0000 != 0,
{
    assert((style & !0x00CF_0000u32) & 0x00CF_0000 == 0) by (bit_vector);
    assert((style & !0x00CF_0000u32) | (style & 0x00CF_0000) == style) by (bit_vector);
    assert(style & !0x00CF_0000u32 == style ==> style & 0x00CF_0000 == 0) by (bit_vector);
    assert(style & !0x00CF_0000u32 != style ==> style & 0x00CF_0000 != 0) by (bit_vector);
}

/// A process without threads cannot be suspended or resumed, and one without a visible window cannot
/// be closed; of any other all threads and all visible windows are taken.
pub proof fn processes_need_threads_and_windows(
    threads: &Vec<ThreadEntry>,
    windows: &Vec<WindowEntry>,
    pid: u32,
    switched: Result<Vec<u32>, TasktuiError>,
    closed: Result<Vec<u64>, TasktuiError>,
)
    requires
        call_ensures(threads_to_switch, (threads, pid), switched),
        call_ensures(windows_to_close, (windows, pid), closed),
    ensures
        switched is Err <==> threads_of(threads@, pid).len() == 0,
        switched is Ok ==> switched->Ok_0@ == threads_of(threads@, pid),
        switched is Err ==> switched->Err_0 == TasktuiError::Unsupported,
        closed is Err <==> windows_of(windows@, pid).len() == 0,
        closed is Ok ==> closed->Ok_0@ == windows_of(windows@, pid),
        closed is Err ==> closed->Err_0 == TasktuiError::NotClosable,
{
}

} // verus!
