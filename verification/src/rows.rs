//! The rows that the program lists: processes, services, and TCP endpoints.

use vstd::prelude::*;

verus! {

/// A CPU load in percent, held as the bit pattern of a non-negative single-precision number.
///
/// Such bit patterns are ordered as the numbers are, so that loads can be ranked without
/// floating-point arithmetic.
#[derive(Debug, Clone, Copy, PartialEq, Eq, Structural)]
pub struct CpuPercent {
    pub bits: u32,
}

/// Whether a process owns a visible window.
#[derive(Debug, Clone, Copy, PartialEq, Eq, Structural)]
pub enum ProcessCategory {
    App,
    Background,
}

impl ProcessCategory {
    /// The place of a category in the grouped list: apps come first.
    pub open spec fn rank(self) -> int {
        match self {
            ProcessCategory::App => 0,
            ProcessCategory::Background => 1,
        }
    }
}

/// A process as it is listed.
#[derive(Debug, PartialEq)]
pub struct ProcessRow {
    pub pid: u32,
    pub parent_pid: Option<u32>,
    pub depth: usize,
    pub category: ProcessCategory,
    pub name: String,
    pub exe_path: Option<String>,
    pub priority: String,
    pub cpu_percent: CpuPercent,
    pub memory_bytes: u64,
    pub runtime_secs: u64,
}

/// The model of a process row.
pub struct ProcessRowView {
    pub pid: u32,
    pub parent_pid: Option<u32>,
    pub depth: nat,
    pub category: ProcessCategory,
    pub name: Seq<char>,
    pub exe_path: Option<Seq<char>>,
    pub priority: Seq<char>,
    pub cpu_percent: CpuPercent,
    pub memory_bytes: u64,
    pub runtime_secs: u64,
}

/// The model of an optional string.
pub open spec fn text_option(text: Option<String>) -> Option<Seq<char>> {
    match text {
        Some(t) => Some(t@),
        None => None,
    }
}

impl View for ProcessRow {
    type V = ProcessRowView;

    open spec fn view(&self) -> ProcessRowView {
        ProcessRowView {
            pid: self.pid,
            parent_pid: self.parent_pid,
            depth: self.depth as nat,
            category: self.category,
            name: self.name@,
            exe_path: text_option(self.exe_path),
            priority: self.priority@,
            cpu_percent: self.cpu_percent,
            memory_bytes: self.memory_bytes,
            runtime_secs: self.runtime_secs,
        }
    }
}

/// A copy of an optional string.
pub fn clone_text_option(text: &Option<String>) -> (copy: Option<String>)
    ensures
        copy == *text,
{
    match text {
        Some(t) => Some(t.clone()),
        None => None,
    }
}

impl Clone for ProcessRow {
    fn clone(&self) -> (copy: Self)
        ensures
            copy == *self,
    {
        ProcessRow {
            pid: self.pid,
            parent_pid: self.parent_pid,
            depth: self.depth,
            category: self.category,
            name: self.name.clone(),
            exe_path: clone_text_option(&self.exe_path),
            priority: self.priority.clone(),
            cpu_percent: self.cpu_percent,
            memory_bytes: self.memory_bytes,
            runtime_secs: self.runtime_secs,
        }
    }
}

/// A process as its detail pane shows it: a missing path is shown as a dash.
#[derive(Debug, PartialEq)]
pub struct ProcessDetailView {
    pub pid: u32,
    pub parent_pid: Option<u32>,
    pub name: String,
    pub exe_path: String,
    pub priority: String,
    pub cpu_percent: CpuPercent,
    pub memory_bytes: u64,
    pub runtime_secs: u64,
}

/// The text for a path that may be missing.
pub open spec fn shown_path(path: Option<Seq<char>>) -> Seq<char> {
    match path {
        Some(p) => p,
        None => "-"@,
    }
}

/// Whether a detail view shows a process row.
pub open spec fn is_detail_of(detail: ProcessDetailView, row: ProcessRowView) -> bool {
    &&& detail.pid == row.pid
    &&& detail.parent_pid == row.parent_pid
    &&& detail.name@ == row.name
    &&& detail.exe_path@ == shown_path(row.exe_path)
    &&& detail.priority@ == row.priority
    &&& detail.cpu_percent == row.cpu_percent
    &&& detail.memory_bytes == row.memory_bytes
    &&& detail.runtime_secs == row.runtime_secs
}

impl ProcessDetailView {
    /// The detail view of a process row.
    pub fn of_row(row: &ProcessRow) -> (detail: Self)
        ensures
            is_detail_of(detail, row@),
    {
        ProcessDetailView {
            pid: row.pid,
            parent_pid: row.parent_pid,
            name: row.name.clone(),
            exe_path: match &row.exe_path {
                Some(path) => path.clone(),
                None => "-".to_string(),
            },
            priority: row.priority.clone(),
            cpu_percent: row.cpu_percent,
            memory_bytes: row.memory_bytes,
            runtime_secs: row.runtime_secs,
        }
    }
}

/// A TCP endpoint as it is listed, with the name of the process that owns it.
#[derive(Debug, PartialEq, Eq)]
pub struct NetworkRow {
    pub pid: u32,
    pub process_name: String,
    pub local_endpoint: String,
    pub remote_endpoint: String,
    pub state: String,
}

/// The model of an endpoint row.
pub struct NetworkRowView {
    pub pid: u32,
    pub process_name: Seq<char>,
    pub local_endpoint: Seq<char>,
    pub remote_endpoint: Seq<char>,
    pub state: Seq<char>,
}

impl View for NetworkRow {
    type V = NetworkRowView;

    open spec fn view(&self) -> NetworkRowView {
        NetworkRowView {
            pid: self.pid,
            process_name: self.process_name@,
            local_endpoint: self.local_endpoint@,
            remote_endpoint: self.remote_endpoint@,
            state: self.state@,
        }
    }
}

impl Clone for NetworkRow {
    fn clone(&self) -> (copy: Self)
        ensures
            copy == *self,
    {
        NetworkRow {
            pid: self.pid,
            process_name: self.process_name.clone(),
            local_endpoint: self.local_endpoint.clone(),
            remote_endpoint: self.remote_endpoint.clone(),
            state: self.state.clone(),
        }
    }
}

/// What is known of a row is what it holds.
pub proof fn row_models_show_what_is_held(row: ProcessRow, endpoint: NetworkRow)
    ensures
        row@.pid == row.pid,
        row@.parent_pid == row.parent_pid,
        row@.depth == row.depth,
        row@.category == row.category,
        row@.name == row.name@,
        row@.exe_path is Some == row.exe_path is Some,
        row.exe_path matches Some(path) ==> row@.exe_path == Some(path@),
        row@.priority == row.priority@,
        row@.cpu_percent == row.cpu_percent,
        row@.memory_bytes == row.memory_bytes,
        row@.runtime_secs == row.runtime_secs,
        endpoint@.pid == endpoint.pid,
        endpoint@.process_name == endpoint.process_name@,
        endpoint@.local_endpoint == endpoint.local_endpoint@,
        endpoint@.remote_endpoint == endpoint.remote_endpoint@,
        endpoint@.state == endpoint.state@,
{
}

/// The details of a process agree with its row in everything; a missing path is a dash.
pub proof fn details_agree_with_the_row(detail: ProcessDetailView, row: ProcessRowView)
    requires
        is_detail_of(detail, row),
    ensures
        detail.pid == row.pid,
        detail.parent_pid == row.parent_pid,
        detail.name@ == row.name,
        row.exe_path matches Some(path) ==> detail.exe_path@ == path,
        row.exe_path is None ==> detail.exe_path@ == "-"@,
        detail.priority@ == row.priority,
        detail.cpu_percent == row.cpu_percent,
        detail.memory_bytes == row.memory_bytes,
        detail.runtime_secs == row.runtime_secs,
{
}

} // verus!
