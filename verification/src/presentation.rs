//! What the screen shows: texts, tones, and the rows in a window.

use crate::api::{ProcessPriority, ServiceRow, ServiceRowView};
use crate::layout::{bordered_index, plain_index};
use crate::listing::{entries_of, indexes_of, place_in, selected_display_index, ProcessListEntry};
use crate::messages::labelled;
use crate::model::{
    ActiveTab, ContextMenuKind, NetworkStateFilter, Overlay, OverlayView, ServiceActionIntent,
    SortMode,
};
use crate::navigation::{rows_in, shown, FrameAreas};
use crate::rows::{
    shown_path, NetworkRow, NetworkRowView, ProcessCategory, ProcessDetailView, ProcessRow,
    ProcessRowView,
};
use crate::sorting::views;
use crate::state::{position_of, AppState, AppView, SystemSummary};
use crate::text::{
    contains, decimal, decimal_text, from_chars, has_text, lowered, same_ignoring_case,
    slice_chars, to_chars,
};
use crate::window::{
    clamped_index, max_of, max_usize, visible_window, window_is_stable, window_offset,
    window_rests_when_selection_shows, window_shows_selection,
};
use vstd::prelude::*;

verus! {

/// How a text stands out.
#[derive(Debug, Clone, Copy, PartialEq, Eq, Structural)]
pub enum Tone {
    Plain,
    /// Light red and bold.
    Critical,
    /// Yellow.
    Heavy,
    /// Light yellow.
    Raised,
    /// Light green and bold.
    Running,
    /// Light green.
    Listening,
    /// Cyan.
    Connected,
    /// Gray.
    Quiet,
    /// Light red.
    Unreachable,
    /// Black on yellow and bold.
    Chosen,
    /// Green.
    Steady,
}

/// The bit pattern of 80 as a single-precision number.
pub const EIGHTY_PERCENT_BITS: u32 = 0x42A0_0000;

/// The bit pattern of 40 as a single-precision number.
pub const FORTY_PERCENT_BITS: u32 = 0x4220_0000;

/// One gibibyte.
pub const GIB: u64 = 0x4000_0000;

/// The tone of a process: a CPU load from 80 percent on comes first, then a gibibyte of
/// memory, then a CPU load from 40 percent on.
pub open spec fn process_tone(row: ProcessRowView) -> Tone {
    if row.cpu_percent.bits >= EIGHTY_PERCENT_BITS {
        Tone::Critical
    } else if row.memory_bytes >= GIB {
        Tone::Heavy
    } else if row.cpu_percent.bits >= FORTY_PERCENT_BITS {
        Tone::Raised
    } else {
        Tone::Plain
    }
}

/// The tone of a process.
pub fn process_row_style(row: &ProcessRow) -> (tone: Tone)
    ensures
        tone == process_tone(row@),
{
    if row.cpu_percent.bits >= EIGHTY_PERCENT_BITS {
        Tone::Critical
    } else if row.memory_bytes >= GIB {
        Tone::Heavy
    } else if row.cpu_percent.bits >= FORTY_PERCENT_BITS {
        Tone::Raised
    } else {
        Tone::Plain
    }
}

/// The tone of a CPU load, given by its bit pattern.
pub open spec fn load_tone(bits: u32) -> Tone {
    if bits >= EIGHTY_PERCENT_BITS {
        Tone::Critical
    } else if bits >= FORTY_PERCENT_BITS {
        Tone::Raised
    } else {
        Tone::Plain
    }
}

/// The tone of a CPU load, given by its bit pattern.
pub fn cpu_style(bits: u32) -> (tone: Tone)
    ensures
        tone == load_tone(bits),
{
    if bits >= EIGHTY_PERCENT_BITS {
        Tone::Critical
    } else if bits >= FORTY_PERCENT_BITS {
        Tone::Raised
    } else {
        Tone::Plain
    }
}

/// The tone of an amount of memory.
pub open spec fn size_tone(memory_bytes: u64) -> Tone {
    if memory_bytes >= 2 * GIB {
        Tone::Critical
    } else if memory_bytes >= GIB {
        Tone::Heavy
    } else {
        Tone::Plain
    }
}

/// The tone of an amount of memory.
pub fn memory_style(memory_bytes: u64) -> (tone: Tone)
    ensures
        tone == size_tone(memory_bytes),
{
    if memory_bytes >= 2 * GIB {
        Tone::Critical
    } else if memory_bytes >= GIB {
        Tone::Heavy
    } else {
        Tone::Plain
    }
}

/// The tone of a service's status.
pub fn service_status_style(status: &str) -> (tone: Tone)
    ensures
        tone == (if lowered(status@) == lowered("running"@) {
            Tone::Running
        } else if lowered(status@) == lowered("stopped"@) {
            Tone::Quiet
        } else {
            Tone::Heavy
        }),
{
    if same_ignoring_case(status, "running") {
        Tone::Running
    } else if same_ignoring_case(status, "stopped") {
        Tone::Quiet
    } else {
        Tone::Heavy
    }
}

/// The tone of an endpoint's state.
pub fn network_state_style(state: &str) -> (tone: Tone)
    ensures
        tone == (if lowered(state@) == lowered("listen"@) {
            Tone::Listening
        } else if lowered(state@) == lowered("established"@) {
            Tone::Connected
        } else {
            Tone::Quiet
        }),
{
    if same_ignoring_case(state, "listen") {
        Tone::Listening
    } else if same_ignoring_case(state, "established") {
        Tone::Connected
    } else {
        Tone::Quiet
    }
}

/// The text and tone of an entry of the filter bar.
pub fn filter_chip(filter: NetworkStateFilter, active: NetworkStateFilter) -> (chip: (String, Tone))
    ensures
        chip.0@ == " "@ + filter.word() + " "@,
        chip.1 == (if filter == active {
            Tone::Chosen
        } else {
            Tone::Quiet
        }),
{
    let mut text = " ".to_string();
    text.append(filter.label());
    text.append(" ");
    let tone = if filter == active {
        Tone::Chosen
    } else {
        Tone::Quiet
    };
    (text, tone)
}

/// A number below one hundred with two digits; greater numbers with all their digits.
pub open spec fn two_digits(n: nat) -> Seq<char> {
    if n < 10 {
        "0"@ + decimal(n)
    } else {
        decimal(n)
    }
}

/// A number with at least two digits.
fn two_digit_text(n: u64) -> (text: String)
    ensures
        text@ == two_digits(n as nat),
{
    let number = decimal_text(n);
    if n < 10 {
        labelled("0", number.as_str())
    } else {
        number
    }
}

/// A time span in hours, minutes, and seconds.
pub open spec fn runtime_text(secs: nat) -> Seq<char> {
    two_digits(secs / 3600) + ":"@ + two_digits((secs % 3600) / 60) + ":"@ + two_digits(secs % 60)
}

/// A time span in hours, minutes, and seconds.
pub fn format_runtime(runtime_secs: u64) -> (text: String)
    ensures
        text@ == runtime_text(runtime_secs as nat),
{
    let mut text = two_digit_text(runtime_secs / 3600);
    text.append(":");
    let minutes = two_digit_text((runtime_secs % 3600) / 60);
    text.append(minutes.as_str());
    text.append(":");
    let seconds = two_digit_text(runtime_secs % 60);
    text.append(seconds.as_str());
    text
}

/// The given number of spaces.
pub open spec fn blanks(count: int) -> Seq<char> {
    Seq::new(
        (if count < 0 {
            0
        } else {
            count
        }) as nat,
        |i: int| ' ',
    )
}

/// The given number of spaces.
fn spaces(count: usize) -> (text: String)
    ensures
        text@ == blanks(count as int),
{
    let mut text = String::new();
    let mut i: usize = 0;
    while i < count
        invariant
            i <= count,
            text@ == blanks(i as int),
        decreases count - i,
    {
        text.push(' ');
        i = i + 1;
        assert(text@ =~= blanks(i as int));
    }
    text
}

/// A text brought to a width by spaces behind it.
pub fn pad_right(text: &str, width: usize) -> (padded: String)
    ensures
        padded@ == text@ + blanks(width - text@.len()),
{
    let chars = to_chars(text);
    let fill = spaces(width.saturating_sub(chars.len()));
    labelled(text, fill.as_str())
}

/// A text brought to a width by spaces before it.
pub fn pad_left(text: &str, width: usize) -> (padded: String)
    ensures
        padded@ == blanks(width - text@.len()) + text@,
{
    let chars = to_chars(text);
    let fill = spaces(width.saturating_sub(chars.len()));
    labelled(fill.as_str(), text)
}

/// The heading of a group of processes.
pub open spec fn group_heading(category: ProcessCategory, count: nat) -> Seq<char> {
    " "@ + match category {
        ProcessCategory::App => "APPS"@,
        ProcessCategory::Background => "BACKGROUND"@,
    } + " ("@ + decimal(count) + ") "@
}

/// A text cut or filled with spaces to a width.
pub open spec fn band(text: Seq<char>, width: int) -> Seq<char> {
    if text.len() < width {
        text + blanks(width - text.len())
    } else {
        text.take(width)
    }
}

/// The band over a group of processes: its heading, as wide as the list.
pub fn process_group_band(category: ProcessCategory, count: usize, width: u16) -> (text: String)
    ensures
        text@ == band(group_heading(category, count as nat), width as int),
{
    let mut heading = " ".to_string();
    match category {
        ProcessCategory::App => heading.append("APPS"),
        ProcessCategory::Background => heading.append("BACKGROUND"),
    }
    heading.append(" (");
    let number = decimal_text(count as u64);
    heading.append(number.as_str());
    heading.append(") ");
    let chars = to_chars(heading.as_str());
    if chars.len() < width as usize {
        pad_right(heading.as_str(), width as usize)
    } else {
        let part = slice_chars(&chars, 0, width as usize);
        assert(part@ =~= heading@.take(width as int));
        from_chars(part.as_slice())
    }
}

/// A name under its parent in the tree: two spaces for each level.
pub open spec fn indented(name: Seq<char>, depth: nat) -> Seq<char> {
    blanks(2 * depth as int) + name
}

/// A name under its parent in the tree.
pub fn indented_name(row: &ProcessRow) -> (text: String)
    requires
        2 * row.depth <= usize::MAX,
    ensures
        text@ == indented(row@.name, row@.depth),
{
    let fill = spaces(2 * row.depth);
    labelled(fill.as_str(), row.name.as_str())
}

/// What stands behind a process's name in the tree: its number, loads, and priority.
pub fn tree_figures(row: &ProcessRow, cpu: &str, memory: &str) -> (text: String)
    ensures
        text@ == " ["@ + decimal(row.pid as nat) + "] "@ + cpu@ + "% "@ + memory@ + " "@
            + row@.priority,
{
    let mut text = " [".to_string();
    let number = decimal_text(row.pid as u64);
    text.append(number.as_str());
    text.append("] ");
    text.append(cpu);
    text.append("% ");
    text.append(memory);
    text.append(" ");
    text.append(row.priority.as_str());
    text
}

/// A process in one line: number, loads, runtime, priority, and name in columns.
pub fn process_line(row: &ProcessRow, cpu: &str, memory: &str) -> (text: String)
    ensures
        text@ == (decimal(row.pid as nat) + blanks(7 - decimal(row.pid as nat).len())) + " "@ + (
        blanks(5 - cpu@.len()) + cpu@) + " "@ + (blanks(10 - memory@.len()) + memory@) + " "@ + (
        blanks(8 - runtime_text(row.runtime_secs as nat).len()) + runtime_text(
            row.runtime_secs as nat,
        )) + " "@ + (row@.priority + blanks(13 - row@.priority.len())) + " "@ + row@.name,
{
    let number = decimal_text(row.pid as u64);
    let runtime = format_runtime(row.runtime_secs);
    let mut text = pad_right(number.as_str(), 7);
    text.append(" ");
    let cpu_column = pad_left(cpu, 5);
    text.append(cpu_column.as_str());
    text.append(" ");
    let memory_column = pad_left(memory, 10);
    text.append(memory_column.as_str());
    text.append(" ");
    let runtime_column = pad_left(runtime.as_str(), 8);
    text.append(runtime_column.as_str());
    text.append(" ");
    let priority_column = pad_right(row.priority.as_str(), 13);
    text.append(priority_column.as_str());
    text.append(" ");
    text.append(row.name.as_str());
    text
}

/// The title over the sorted process table.
pub open spec fn table_title(sorted: bool, mode: SortMode, tree: bool) -> Seq<char> {
    "Processes | "@ + (if sorted {
        "sort="@ + mode.word()
    } else {
        "sort=off"@
    }) + " | tree="@ + (if tree {
        "on"@
    } else {
        "off"@
    }) + " | / search | right-click actions"@
}

/// The number of a parent process, or a dash.
pub open spec fn parent_text(parent: Option<u32>) -> Seq<char> {
    match parent {
        Some(pid) => decimal(pid as nat),
        None => "-"@,
    }
}

/// The keys that act on a process.
pub open spec fn process_keys() -> Seq<char> {
    "Actions: k close | K kill | r restart | z/x suspend-resume | 4-8 priority | o open folder"@
}

/// The lines of the detail pane for a process, given its loads as texts.
pub open spec fn process_detail(row: ProcessRowView, cpu: Seq<char>, memory: Seq<char>) -> Seq<
    Seq<char>,
> {
    seq![
        "Name: "@ + row.name,
        "PID: "@ + decimal(row.pid as nat),
        "Parent PID: "@ + parent_text(row.parent_pid),
        "CPU: "@ + cpu + "%"@,
        "Memory: "@ + memory,
        "Runtime: "@ + runtime_text(row.runtime_secs as nat),
        "Priority: "@ + row.priority,
        ""@,
        "Exe: "@ + shown_path(row.exe_path),
        ""@,
        process_keys(),
    ]
}

/// The lines of the detail pane for a service.
pub open spec fn service_detail(row: ServiceRowView) -> Seq<Seq<char>> {
    seq![
        "Display name: "@ + row.display_name,
        "Service name: "@ + row.service_name,
        "Status: "@ + row.status,
        "Start type: "@ + row.start_type,
        ""@,
        "Actions: 1 start | 2 stop | 3 restart | right-click actions"@,
    ]
}

/// The lines of the detail pane for an endpoint.
pub open spec fn network_detail(row: NetworkRowView) -> Seq<Seq<char>> {
    seq![
        "PID: "@ + decimal(row.pid as nat),
        "Process: "@ + row.process_name,
        "Local: "@ + row.local_endpoint,
        "Remote: "@ + row.remote_endpoint,
        "State: "@ + row.state,
        ""@,
        process_keys(),
    ]
}

/// The lines of help for a page, with the latest message.
pub open spec fn help_lines(tab: ActiveTab, feedback: Seq<char>) -> Seq<Seq<char>> {
    let keys =
        "k close | K kill | r restart | z/x suspend-resume | 4 idle | 5 below | 6 normal | 7 above | 8 high"@;
    match tab {
        ActiveTab::Processes => seq![
            "Tab/Shift+Tab switch pages | / search | s sort/off | t tree | Enter toggle pane focus | Shift+F10 menu"@,
            keys,
            feedback,
        ],
        ActiveTab::Performance => seq![
            "Tab/Shift+Tab switch pages | / search leaves query active for other tabs"@,
            "Performance keeps the last 60 samples of CPU and memory."@,
            feedback,
        ],
        ActiveTab::Services => seq![
            "Tab/Shift+Tab switch pages | / search | 1 start | 2 stop | 3 restart | Shift+F10 menu"@,
            "Use right-click for a service context menu."@,
            feedback,
        ],
        ActiveTab::Network => seq![
            "Tab/Shift+Tab switch pages | / search | f state filter | Enter toggle pane focus | Shift+F10 menu"@,
            keys,
            feedback,
        ],
    }
}

/// The tone of the help, by the latest message.
pub open spec fn help_tone(feedback: Seq<char>) -> Tone {
    if has_text(feedback, "Service unavailable"@) {
        Tone::Unreachable
    } else if has_text(feedback, "failed"@) || has_text(feedback, "Failed"@) {
        Tone::Heavy
    } else {
        Tone::Connected
    }
}

/// How a dialog is answered.
pub open spec fn answer_keys() -> Seq<char> {
    "Press Y or Enter to continue. Press N or Esc to cancel."@
}

/// The lines of the dialog before a force kill: a name under its label, and its number.
pub open spec fn force_kill_dialog(label: Seq<char>, name: Seq<char>, pid: u32) -> Seq<Seq<char>> {
    seq![
        "Force kill confirmation"@,
        ""@,
        label + name,
        "PID: "@ + decimal(pid as nat),
        ""@,
        "This uses TerminateProcess and can leave app state inconsistent."@,
        ""@,
        answer_keys(),
    ]
}

impl AppView {
    /// The lines of the dialog before a force kill.
    pub open spec fn force_kill_text(self) -> Seq<Seq<char>> {
        match self.active_tab {
            ActiveTab::Processes => match self.selected_process() {
                Some(row) => force_kill_dialog("Name: "@, row.name, row.pid),
                None => seq!["No process selected."@],
            },
            ActiveTab::Network => match self.chosen_endpoint() {
                Some(row) => force_kill_dialog("Process: "@, row.process_name, row.pid),
                None => seq!["No endpoint selected."@],
            },
            _ => seq!["Force kill is only available on Processes and Network."@],
        }
    }

    /// The lines of the dialog before a service action.
    pub open spec fn service_dialog(self, intent: ServiceActionIntent) -> Seq<Seq<char>> {
        match self.chosen_service() {
            Some(row) => seq![
                "Service action confirmation"@,
                ""@,
                "Action: "@ + intent.word(),
                "Display: "@ + row.display_name,
                "Service: "@ + row.service_name,
                ""@,
                "Press Y or Enter to continue."@,
                "Press N or Esc to cancel."@,
            ],
            None => seq!["No service selected."@],
        }
    }

    /// The lines of the dialog before a change of priority.
    pub open spec fn priority_dialog(self, priority: ProcessPriority) -> Seq<Seq<char>> {
        match self.active_tab {
            ActiveTab::Processes => match self.selected_process() {
                Some(row) => seq![
                    "Priority change confirmation"@,
                    ""@,
                    "Name: "@ + row.name,
                    "PID: "@ + decimal(row.pid as nat),
                    "Current: "@ + row.priority,
                    "New: "@ + priority.word(),
                    ""@,
                    answer_keys(),
                ],
                None => seq!["No process selected."@],
            },
            ActiveTab::Network => match self.chosen_endpoint() {
                Some(row) => seq![
                    "Priority change confirmation"@,
                    ""@,
                    "Process: "@ + row.process_name,
                    "PID: "@ + decimal(row.pid as nat),
                    "New: "@ + priority.word(),
                    ""@,
                    answer_keys(),
                ],
                None => seq!["No endpoint selected."@],
            },
            _ => seq!["Priority changes are only available on Processes and Network."@],
        }
    }

    /// The title over the open context menu.
    pub open spec fn menu_title(self) -> Seq<char> {
        match self.overlay {
            OverlayView::ContextMenu(menu) => match menu.kind {
                ContextMenuKind::Process => "Process Actions"@,
                ContextMenuKind::Service => "Service Actions"@,
                ContextMenuKind::Network => "Network Actions"@,
            },
            _ => "Actions"@,
        }
    }

    /// The rows of the sorted process list that a window of the given height shows, and the
    /// place of the selected one among them.
    pub open spec fn process_window_rows(self, height: u16, taken: int) -> Seq<usize> {
        shown(
            self.listed(),
            self.process_window_offset(height, taken),
            rows_in(height, taken) as int,
        )
    }

    /// The rows that the window on a group shows, by their indexes.
    pub open spec fn group_rows(self, category: ProcessCategory, height: u16) -> Seq<usize> {
        shown(
            indexes_of(self.filtered_rows, category),
            match category {
                ProcessCategory::App => self.grouped_process_view.apps_offset as int,
                ProcessCategory::Background => self.grouped_process_view.background_offset as int,
            },
            max_of(height as int, 1),
        )
    }

    /// The place of the selected row in the list, or the top.
    pub open spec fn selected_place(self) -> int {
        match place_in(entries_of(self.listed()), self.process_view.selected) {
            Some(place) => place,
            None => 0,
        }
    }

    /// The first row that a window of the given height shows.
    pub open spec fn process_window_offset(self, height: u16, taken: int) -> int {
        window_offset(
            self.listed().len() as int,
            self.selected_place(),
            self.process_view.offset as int,
            rows_in(height, taken) as int,
        )
    }
}

/// Rows in a window, by their indexes, and the marked one by its place in the window.
#[derive(Debug, PartialEq, Eq)]
pub struct ListWindow {
    pub rows: Vec<usize>,
    pub marked: Option<usize>,
}

/// The part of `indexes` that a window shows.
fn shown_part(indexes: &Vec<usize>, offset: usize, count: usize) -> (part: Vec<usize>)
    ensures
        part@ == shown(indexes@, offset as int, count as int),
{
    let ghost wanted = shown(indexes@, offset as int, count as int);
    let mut part: Vec<usize> = Vec::new();
    let mut i: usize = offset;
    while i < indexes.len() && part.len() < count
        invariant
            offset <= i,
            i == offset + part.len(),
            part.len() <= count,
            part.len() == 0 || i <= indexes.len(),
            wanted == shown(indexes@, offset as int, count as int),
            part.len() <= wanted.len(),
            part@ == wanted.take(part.len() as int),
        decreases count - part.len(),
    {
        assert(wanted[part.len() as int] == indexes@[i as int]);
        let ghost before = part@;
        part.push(indexes[i]);
        assert(part@ =~= wanted.take(before.len() as int + 1));
        i = i + 1;
    }
    assert(wanted.take(part.len() as int) =~= wanted);
    part
}

/// The numbers from zero up to a count.
fn all_indexes(count: usize) -> (indexes: Vec<usize>)
    ensures
        indexes@ == Seq::new(count as nat, |i: int| i as usize),
{
    let mut indexes: Vec<usize> = Vec::new();
    let mut i: usize = 0;
    while i < count
        invariant
            i <= count,
            indexes@ == Seq::new(i as nat, |k: int| k as usize),
        decreases count - i,
    {
        indexes.push(i);
        i = i + 1;
        assert(indexes@ =~= Seq::new(i as nat, |k: int| k as usize));
    }
    indexes
}

/// The window of a plain list: its rows and the marked one.
pub open spec fn is_list_window(
    window: ListWindow,
    total: nat,
    selected: int,
    offset: int,
    height: u16,
) -> bool {
    let visible = rows_in(height, 3) as int;
    let start = window_offset(total as int, selected, offset, visible);
    &&& window.rows@ == shown(Seq::new(total, |i: int| i as usize), start, visible)
    &&& window.marked == (if total == 0 {
        None::<usize>
    } else {
        Some((clamped_index(total as int, selected) - start) as usize)
    })
}

/// The window of a plain list in a table of the given height.
pub fn list_window(total: usize, selected: usize, offset: usize, height: u16) -> (window:
    ListWindow)
    ensures
        is_list_window(window, total as nat, selected as int, offset as int, height),
{
    let visible: usize = max_usize(height.saturating_sub(3) as usize, 1);
    let (start, marked) = visible_window(total, selected, offset, visible);
    let indexes = all_indexes(total);
    ListWindow { rows: shown_part(&indexes, start, visible), marked }
}

/// The lines of the detail pane for a process, given its loads as texts.
pub fn process_detail_lines(row: &ProcessRow, cpu: &str, memory: &str) -> (lines: Vec<String>)
    ensures
        views(lines@) == process_detail(row@, cpu@, memory@),
{
    let detail = ProcessDetailView::of_row(row);
    let mut cpu_line = labelled("CPU: ", cpu);
    cpu_line.append("%");
    let parent = match detail.parent_pid {
        Some(pid) => decimal_text(pid as u64),
        None => "-".to_string(),
    };
    let number = decimal_text(detail.pid as u64);
    let runtime = format_runtime(detail.runtime_secs);
    let lines = vec![
        labelled("Name: ", detail.name.as_str()),
        labelled("PID: ", number.as_str()),
        labelled("Parent PID: ", parent.as_str()),
        cpu_line,
        labelled("Memory: ", memory),
        labelled("Runtime: ", runtime.as_str()),
        labelled("Priority: ", detail.priority.as_str()),
        "".to_string(),
        labelled("Exe: ", detail.exe_path.as_str()),
        "".to_string(),
        "Actions: k close | K kill | r restart | z/x suspend-resume | 4-8 priority | o open folder".to_string(),
    ];
    assert(views(lines@) =~= process_detail(row@, cpu@, memory@));
    lines
}

/// The lines of the detail pane for a service.
pub fn service_detail_lines(row: &ServiceRow) -> (lines: Vec<String>)
    ensures
        views(lines@) == service_detail(row@),
{
    let lines = vec![
        labelled("Display name: ", row.display_name.as_str()),
        labelled("Service name: ", row.service_name.as_str()),
        labelled("Status: ", row.status.as_str()),
        labelled("Start type: ", row.start_type.as_str()),
        "".to_string(),
        "Actions: 1 start | 2 stop | 3 restart | right-click actions".to_string(),
    ];
    assert(views(lines@) =~= service_detail(row@));
    lines
}

/// The lines of the detail pane for an endpoint.
pub fn network_detail_lines(row: &NetworkRow) -> (lines: Vec<String>)
    ensures
        views(lines@) == network_detail(row@),
{
    let number = decimal_text(row.pid as u64);
    let lines = vec![
        labelled("PID: ", number.as_str()),
        labelled("Process: ", row.process_name.as_str()),
        labelled("Local: ", row.local_endpoint.as_str()),
        labelled("Remote: ", row.remote_endpoint.as_str()),
        labelled("State: ", row.state.as_str()),
        "".to_string(),
        "Actions: k close | K kill | r restart | z/x suspend-resume | 4-8 priority | o open folder".to_string(),
    ];
    assert(views(lines@) =~= network_detail(row@));
    lines
}

/// The lines of the dialog before a force kill.
fn force_kill_lines_for(label: &str, name: &str, pid: u32) -> (lines: Vec<String>)
    ensures
        views(lines@) == force_kill_dialog(label@, name@, pid),
{
    let number = decimal_text(pid as u64);
    let lines = vec![
        "Force kill confirmation".to_string(),
        "".to_string(),
        labelled(label, name),
        labelled("PID: ", number.as_str()),
        "".to_string(),
        "This uses TerminateProcess and can leave app state inconsistent.".to_string(),
        "".to_string(),
        "Press Y or Enter to continue. Press N or Esc to cancel.".to_string(),
    ];
    assert(views(lines@) =~= force_kill_dialog(label@, name@, pid));
    lines
}

/// One line.
fn single_line(text: &str) -> (lines: Vec<String>)
    ensures
        views(lines@) == seq![text@],
{
    let lines = vec![text.to_string()];
    assert(views(lines@) =~= seq![text@]);
    lines
}

/// The lines of help for a page, with the latest message.
pub fn footer_lines(tab: ActiveTab, feedback: &str) -> (lines: Vec<String>)
    ensures
        views(lines@) == help_lines(tab, feedback@),
{
    let process_keys_line =
        "k close | K kill | r restart | z/x suspend-resume | 4 idle | 5 below | 6 normal | 7 above | 8 high";
    let (first, second) = match tab {
        ActiveTab::Processes => (
            "Tab/Shift+Tab switch pages | / search | s sort/off | t tree | Enter toggle pane focus | Shift+F10 menu",
            process_keys_line,
        ),
        ActiveTab::Performance => (
            "Tab/Shift+Tab switch pages | / search leaves query active for other tabs",
            "Performance keeps the last 60 samples of CPU and memory.",
        ),
        ActiveTab::Services => (
            "Tab/Shift+Tab switch pages | / search | 1 start | 2 stop | 3 restart | Shift+F10 menu",
            "Use right-click for a service context menu.",
        ),
        ActiveTab::Network => (
            "Tab/Shift+Tab switch pages | / search | f state filter | Enter toggle pane focus | Shift+F10 menu",
            process_keys_line,
        ),
    };
    let lines = vec![first.to_string(), second.to_string(), feedback.to_string()];
    assert(views(lines@) =~= help_lines(tab, feedback@));
    lines
}

/// The tone of the help, by the latest message.
pub fn footer_style(feedback: &str) -> (tone: Tone)
    ensures
        tone == help_tone(feedback@),
{
    if contains(feedback, "Service unavailable") {
        Tone::Unreachable
    } else if contains(feedback, "failed") || contains(feedback, "Failed") {
        Tone::Heavy
    } else {
        Tone::Connected
    }
}

impl AppState {
    /// The title over the sorted process table.
    pub fn process_table_title(&self) -> (text: String)
        ensures
            text@ == table_title(self.process_sort_enabled, self.sort_mode, self.show_tree),
    {
        let sort = if self.process_sort_enabled {
            labelled("sort=", self.sort_mode.label())
        } else {
            "sort=off".to_string()
        };
        let mut text = labelled("Processes | ", sort.as_str());
        text.append(" | tree=");
        if self.show_tree {
            text.append("on");
        } else {
            text.append("off");
        }
        text.append(" | / search | right-click actions");
        text
    }

    /// The lines of the dialog before a force kill.
    pub fn force_kill_lines(&self) -> (lines: Vec<String>)
        ensures
            views(lines@) == self@.force_kill_text(),
    {
        match self.active_tab {
            ActiveTab::Processes => match self.selected_process_detail() {
                Some(detail) => force_kill_lines_for("Name: ", detail.name.as_str(), detail.pid),
                None => single_line("No process selected."),
            },
            ActiveTab::Network => match self.selected_network() {
                Some(row) => force_kill_lines_for("Process: ", row.process_name.as_str(), row.pid),
                None => single_line("No endpoint selected."),
            },
            _ => single_line("Force kill is only available on Processes and Network."),
        }
    }

    /// The lines of the dialog before a service action.
    pub fn service_confirmation_lines(&self, intent: ServiceActionIntent) -> (lines: Vec<String>)
        ensures
            views(lines@) == self@.service_dialog(intent),
    {
        match self.selected_service() {
            Some(row) => {
                let lines = vec![
                    "Service action confirmation".to_string(),
                    "".to_string(),
                    labelled("Action: ", intent.label()),
                    labelled("Display: ", row.display_name.as_str()),
                    labelled("Service: ", row.service_name.as_str()),
                    "".to_string(),
                    "Press Y or Enter to continue.".to_string(),
                    "Press N or Esc to cancel.".to_string(),
                ];
                assert(views(lines@) =~= self@.service_dialog(intent));
                lines
            },
            None => single_line("No service selected."),
        }
    }

    /// The lines of the dialog before a change of priority.
    pub fn priority_confirmation_lines(&self, priority: ProcessPriority) -> (lines: Vec<String>)
        ensures
            views(lines@) == self@.priority_dialog(priority),
    {
        match self.active_tab {
            ActiveTab::Processes => match self.selected_process_detail() {
                Some(detail) => {
                    let number = decimal_text(detail.pid as u64);
                    let lines = vec![
                        "Priority change confirmation".to_string(),
                        "".to_string(),
                        labelled("Name: ", detail.name.as_str()),
                        labelled("PID: ", number.as_str()),
                        labelled("Current: ", detail.priority.as_str()),
                        labelled("New: ", priority.label()),
                        "".to_string(),
                        "Press Y or Enter to continue. Press N or Esc to cancel.".to_string(),
                    ];
                    assert(views(lines@) =~= self@.priority_dialog(priority));
                    lines
                },
                None => single_line("No process selected."),
            },
            ActiveTab::Network => match self.selected_network() {
                Some(row) => {
                    let number = decimal_text(row.pid as u64);
                    let lines = vec![
                        "Priority change confirmation".to_string(),
                        "".to_string(),
                        labelled("Process: ", row.process_name.as_str()),
                        labelled("PID: ", number.as_str()),
                        labelled("New: ", priority.label()),
                        "".to_string(),
                        "Press Y or Enter to continue. Press N or Esc to cancel.".to_string(),
                    ];
                    assert(views(lines@) =~= self@.priority_dialog(priority));
                    lines
                },
                None => single_line("No endpoint selected."),
            },
            _ => single_line("Priority changes are only available on Processes and Network."),
        }
    }

    /// The title over the open context menu.
    pub fn context_menu_title(&self) -> (title: &'static str)
        ensures
            title@ == self@.menu_title(),
    {
        match &self.overlay {
            Overlay::ContextMenu(menu) => match menu.kind {
                ContextMenuKind::Process => "Process Actions",
                ContextMenuKind::Service => "Service Actions",
                ContextMenuKind::Network => "Network Actions",
            },
            _ => "Actions",
        }
    }

    /// The rows of the sorted process list in an area of the given height, of which some
    /// rows are taken by borders and a header.
    pub fn process_window(&self, height: u16, taken: u16) -> (window: ListWindow)
        ensures
            window.rows@ == self@.process_window_rows(height, taken as int),
            window.marked == (if self@.listed().len() == 0 {
                None::<usize>
            } else {
                Some(
                    (self@.selected_place() - self@.process_window_offset(
                        height,
                        taken as int,
                    )) as usize,
                )
            }),
    {
        let entries = self.process_entries();
        proof {
            entries@.index_of_first_ensures(ProcessListEntry::Row(self.process_view.selected));
        }
        let place: usize = match selected_display_index(
            entries.as_slice(),
            self.process_view.selected,
        ) {
            Some(i) => i,
            None => 0,
        };
        let visible: usize = max_usize(height.saturating_sub(taken) as usize, 1);
        let (offset, marked) = visible_window(
            entries.len(),
            place,
            self.process_view.offset,
            visible,
        );
        let mut indexes: Vec<usize> = Vec::new();
        let mut i: usize = 0;
        while i < entries.len()
            invariant
                i == indexes.len(),
                i <= entries.len(),
                entries@ == entries_of(self@.listed()),
                indexes@ == self@.listed().take(i as int),
            decreases entries.len() - i,
        {
            let ProcessListEntry::Row(index) = entries[i];
            assert(entries@[i as int] == ProcessListEntry::Row(self@.listed()[i as int]));
            indexes.push(index);
            i = i + 1;
            assert(indexes@ =~= self@.listed().take(i as int));
        }
        assert(indexes@ =~= self@.listed());
        ListWindow { rows: shown_part(&indexes, offset, visible), marked }
    }

    /// The rows of a group of processes in an area of the given height; the selected one is
    /// marked if it belongs to the group.
    pub fn group_window(&self, category: ProcessCategory, height: u16) -> (window: ListWindow)
        ensures
            ({
                let indexes = indexes_of(self@.filtered_rows, category);
                let visible = max_of(height as int, 1);
                let offset = match category {
                    ProcessCategory::App => self.grouped_process_view.apps_offset,
                    ProcessCategory::Background => self.grouped_process_view.background_offset,
                };
                &&& window.rows@ == self@.group_rows(category, height)
                &&& window.marked == (match indexes.index_of_first(self.process_view.selected) {
                    Some(place) => Some(
                        (place - window_offset(
                            indexes.len() as int,
                            place,
                            offset as int,
                            visible,
                        )) as usize,
                    ),
                    None => None::<usize>,
                })
            }),
    {
        let (apps, background) = self.grouped_process_indexes();
        let (indexes, offset) = match category {
            ProcessCategory::App => (apps, self.grouped_process_view.apps_offset),
            ProcessCategory::Background => (
                background,
                self.grouped_process_view.background_offset,
            ),
        };
        let visible: usize = max_usize(height as usize, 1);
        let marked: Option<usize> = match position_of(&indexes, self.process_view.selected) {
            Some(place) => visible_window(indexes.len(), place, offset, visible).1,
            None => None,
        };
        ListWindow { rows: shown_part(&indexes, offset, visible), marked }
    }

    /// The rows of the service list in a table of the given height.
    pub fn service_window(&self, height: u16) -> (window: ListWindow)
        ensures
            is_list_window(
                window,
                self@.filtered_services.len(),
                self.service_view.selected as int,
                self.service_view.offset as int,
                height,
            ),
    {
        list_window(
            self.filtered_services.len(),
            self.service_view.selected,
            self.service_view.offset,
            height,
        )
    }

    /// The rows of the endpoint list in a table of the given height.
    pub fn network_window(&self, height: u16) -> (window: ListWindow)
        ensures
            is_list_window(
                window,
                self@.filtered_network.len(),
                self.network_view.selected as int,
                self.network_view.offset as int,
                height,
            ),
    {
        list_window(
            self.filtered_network.len(),
            self.network_view.selected,
            self.network_view.offset,
            height,
        )
    }
}

/// A card of the summary.
#[derive(Debug, PartialEq, Eq)]
pub struct SummaryCard {
    pub title: String,
    pub value: String,
    pub tone: Tone,
}

/// The model of a card of the summary.
pub struct CardView {
    pub title: Seq<char>,
    pub value: Seq<char>,
    pub tone: Tone,
}

impl View for SummaryCard {
    type V = CardView;

    open spec fn view(&self) -> CardView {
        CardView { title: self.title@, value: self.value@, tone: self.tone }
    }
}

/// The memory in use and all memory.
pub open spec fn memory_share(used: Seq<char>, total: Seq<char>) -> Seq<char> {
    used + " / "@ + total
}

/// The memory in use and all memory.
fn memory_share_text(used: &str, total: &str) -> (text: String)
    ensures
        text@ == memory_share(used@, total@),
{
    let mut text = used.to_string();
    text.append(" / ");
    text.append(total);
    text
}

/// The cards of the summary, given the load and the sizes as they are shown.
pub open spec fn cards_of(
    summary: SystemSummary,
    cpu: Seq<char>,
    used: Seq<char>,
    total: Seq<char>,
) -> Seq<CardView> {
    seq![
        CardView {
            title: "CPU"@,
            value: cpu + "%"@,
            tone: load_tone(summary.cpu_percent.bits),
        },
        CardView {
            title: "Memory"@,
            value: memory_share(used, total),
            tone: size_tone(summary.used_memory),
        },
        CardView {
            title: "Processes"@,
            value: decimal(summary.process_count as nat),
            tone: Tone::Connected,
        },
        CardView {
            title: "TCP Endpoints"@,
            value: decimal(summary.tcp_endpoint_count as nat),
            tone: Tone::Steady,
        },
    ]
}

/// The cards of the summary, given the load and the sizes as they are shown.
pub fn summary_cards(summary: &SystemSummary, cpu: &str, used: &str, total: &str) -> (cards: Vec<
    SummaryCard,
>)
    ensures
        views(cards@) == cards_of(*summary, cpu@, used@, total@),
{
    let cards = vec![
        SummaryCard {
            title: "CPU".to_string(),
            value: labelled(cpu, "%"),
            tone: cpu_style(summary.cpu_percent.bits),
        },
        SummaryCard {
            title: "Memory".to_string(),
            value: memory_share_text(used, total),
            tone: memory_style(summary.used_memory),
        },
        SummaryCard {
            title: "Processes".to_string(),
            value: decimal_text(summary.process_count as u64),
            tone: Tone::Connected,
        },
        SummaryCard {
            title: "TCP Endpoints".to_string(),
            value: decimal_text(summary.tcp_endpoint_count as u64),
            tone: Tone::Steady,
        },
    ];
    assert(views(cards@) =~= cards_of(*summary, cpu@, used@, total@));
    cards
}

/// The figures of the performance page.
pub open spec fn performance_figures(
    summary: SystemSummary,
    cpu: Seq<char>,
    used: Seq<char>,
    total: Seq<char>,
) -> Seq<Seq<char>> {
    seq![
        "CPU usage: "@ + (cpu + "%"@),
        "Memory: "@ + memory_share(used, total),
        "Processes: "@ + decimal(summary.process_count as nat),
        "TCP endpoints: "@ + decimal(summary.tcp_endpoint_count as nat),
        ""@,
        "This page tracks whole-system trends."@,
        "Disk, GPU, and per-core graphs are reserved for a later pass."@,
    ]
}

/// The figures of the performance page, given the load and the sizes as they are shown.
pub fn performance_lines(summary: &SystemSummary, cpu: &str, used: &str, total: &str) -> (lines:
    Vec<String>)
    ensures
        views(lines@) == performance_figures(*summary, cpu@, used@, total@),
{
    let load = labelled(cpu, "%");
    let memory = memory_share_text(used, total);
    let processes = decimal_text(summary.process_count as u64);
    let endpoints = decimal_text(summary.tcp_endpoint_count as u64);
    let lines = vec![
        labelled("CPU usage: ", load.as_str()),
        labelled("Memory: ", memory.as_str()),
        labelled("Processes: ", processes.as_str()),
        labelled("TCP endpoints: ", endpoints.as_str()),
        "".to_string(),
        "This page tracks whole-system trends.".to_string(),
        "Disk, GPU, and per-core graphs are reserved for a later pass.".to_string(),
    ];
    assert(views(lines@) =~= performance_figures(*summary, cpu@, used@, total@));
    lines
}

/// The cells of a process in the sorted table.
pub open spec fn process_columns(row: ProcessRowView, cpu: Seq<char>, memory: Seq<char>) -> Seq<
    Seq<char>,
> {
    seq![
        decimal(row.pid as nat),
        cpu,
        memory,
        runtime_text(row.runtime_secs as nat),
        row.priority,
        row.name,
    ]
}

/// The cells of a process in the sorted table, given its load and its memory as they are shown.
pub fn process_cells(row: &ProcessRow, cpu: &str, memory: &str) -> (cells: Vec<String>)
    ensures
        views(cells@) == process_columns(row@, cpu@, memory@),
{
    let cells = vec![
        decimal_text(row.pid as u64),
        cpu.to_string(),
        memory.to_string(),
        format_runtime(row.runtime_secs),
        row.priority.clone(),
        row.name.clone(),
    ];
    assert(views(cells@) =~= process_columns(row@, cpu@, memory@));
    cells
}

/// The cells of a service.
pub fn service_cells(row: &ServiceRow) -> (cells: Vec<String>)
    ensures
        views(cells@) == seq![
            row@.display_name,
            row@.service_name,
            row@.status,
            row@.start_type,
        ],
{
    let cells = vec![
        row.display_name.clone(),
        row.service_name.clone(),
        row.status.clone(),
        row.start_type.clone(),
    ];
    assert(views(cells@) =~= seq![
        row@.display_name,
        row@.service_name,
        row@.status,
        row@.start_type,
    ]);
    cells
}

/// The cells of an endpoint.
pub open spec fn network_columns(row: NetworkRowView) -> Seq<Seq<char>> {
    seq![
        decimal(row.pid as nat),
        row.process_name,
        row.local_endpoint,
        row.remote_endpoint,
        row.state,
    ]
}

/// The cells of an endpoint.
pub fn network_cells(row: &NetworkRow) -> (cells: Vec<String>)
    ensures
        views(cells@) == network_columns(row@),
{
    let cells = vec![
        decimal_text(row.pid as u64),
        row.process_name.clone(),
        row.local_endpoint.clone(),
        row.remote_endpoint.clone(),
        row.state.clone(),
    ];
    assert(views(cells@) =~= network_columns(row@));
    cells
}

impl AppState {
    /// The lines of the process pane, given the load and the memory of the selected process as
    /// they are shown.
    pub fn process_pane_lines(&self, cpu: &str, memory: &str) -> (lines: Vec<String>)
        ensures
            views(lines@) == (if self.process_view.selected < self@.filtered_rows.len() {
                process_detail(
                    self@.filtered_rows[self.process_view.selected as int],
                    cpu@,
                    memory@,
                )
            } else {
                seq!["No process selected."@]
            }),
    {
        if self.process_view.selected < self.filtered_rows.len() {
            return process_detail_lines(
                &self.filtered_rows[self.process_view.selected],
                cpu,
                memory,
            );
        }
        let lines = vec!["No process selected.".to_string()];
        assert(views(lines@) =~= seq!["No process selected."@]);
        lines
    }

    /// The lines of the service pane.
    pub fn service_pane_lines(&self) -> (lines: Vec<String>)
        ensures
            views(lines@) == (if self.service_view.selected < self@.filtered_services.len() {
                service_detail(self@.filtered_services[self.service_view.selected as int])
            } else {
                seq!["No service selected."@]
            }),
    {
        if self.service_view.selected < self.filtered_services.len() {
            return service_detail_lines(&self.filtered_services[self.service_view.selected]);
        }
        let lines = vec!["No service selected.".to_string()];
        assert(views(lines@) =~= seq!["No service selected."@]);
        lines
    }

    /// The lines of the endpoint pane.
    pub fn network_pane_lines(&self) -> (lines: Vec<String>)
        ensures
            views(lines@) == (if self.network_view.selected < self@.filtered_network.len() {
                network_detail(self@.filtered_network[self.network_view.selected as int])
            } else {
                seq!["No endpoint selected."@]
            }),
    {
        if self.network_view.selected < self.filtered_network.len() {
            return network_detail_lines(&self.filtered_network[self.network_view.selected]);
        }
        let lines = vec!["No endpoint selected.".to_string()];
        assert(views(lines@) =~= seq!["No endpoint selected."@]);
        lines
    }
}

/// A time span is shown as it is: the shown hours, minutes, and seconds add up to it.
pub proof fn runtime_adds_up(secs: nat)
    ensures
        (secs / 3600) * 3600 + ((secs % 3600) / 60) * 60 + secs % 60 == secs,
        (secs % 3600) / 60 < 60,
        secs % 60 < 60,
{
}

/// The band over a group is as wide as its list.
pub proof fn band_fills_width(text: Seq<char>, width: int)
    requires
        0 <= width,
    ensures
        band(text, width).len() == width,
{
}

/// A click on a row of the service list selects the service that the screen shows there, also in a
/// list that is scrolled, and leaves the list where it is.
pub proof fn clicking_selects_the_service_shown(
    before: AppView,
    areas: FrameAreas,
    row: int,
    window: ListWindow,
)
    requires
        before.active_tab is Services,
        before.filtered_services.len() <= usize::MAX,
        ({
            let view = before.measured(areas).service_view;
            is_list_window(
                window,
                before.filtered_services.len(),
                view.selected as int,
                view.offset as int,
                areas.list.height,
            )
        }),
        bordered_index(areas.list, row, true) matches Some(index) && index < window.rows@.len(),
    ensures
        ({
            let index = bordered_index(areas.list, row, true).unwrap();
            let shown = before.measured(areas);
            let after = shown.with_row_at(areas, row).service_view;
            &&& after.selected == window.rows@[index as int]
            &&& after.offset == shown.service_view.offset
        }),
{
    let total = before.filtered_services.len() as int;
    let visible = rows_in(areas.list.height, 3) as int;
    let view = before.measured(areas).service_view;
    let index = bordered_index(areas.list, row, true).unwrap() as int;
    let chosen = clamped_index(total, before.service_view.selected as int);
    window_shows_selection(total, chosen, before.service_view.offset as int, visible);
    window_is_stable(total, chosen, before.service_view.offset as int, visible);
    assert(window.rows@[index] == view.offset + index);
    window_rests_when_selection_shows(total, view.offset + index, view.offset as int, visible);
}

/// A click on a row of the endpoint list selects the endpoint that the screen shows there, also
/// in a list that is scrolled, and leaves the list where it is.
pub proof fn clicking_selects_the_endpoint_shown(
    before: AppView,
    areas: FrameAreas,
    row: int,
    window: ListWindow,
)
    requires
        before.active_tab is Network,
        before.filtered_network.len() <= usize::MAX,
        ({
            let view = before.measured(areas).network_view;
            is_list_window(
                window,
                before.filtered_network.len(),
                view.selected as int,
                view.offset as int,
                areas.endpoints.height,
            )
        }),
        bordered_index(areas.endpoints, row, true) matches Some(index) && index
            < window.rows@.len(),
    ensures
        ({
            let index = bordered_index(areas.endpoints, row, true).unwrap();
            let shown = before.measured(areas);
            let after = shown.with_row_at(areas, row).network_view;
            &&& after.selected == window.rows@[index as int]
            &&& after.offset == shown.network_view.offset
        }),
{
    let total = before.filtered_network.len() as int;
    let visible = rows_in(areas.endpoints.height, 3) as int;
    let view = before.measured(areas).network_view;
    let index = bordered_index(areas.endpoints, row, true).unwrap() as int;
    let chosen = clamped_index(total, before.network_view.selected as int);
    window_shows_selection(total, chosen, before.network_view.offset as int, visible);
    window_is_stable(total, chosen, before.network_view.offset as int, visible);
    assert(window.rows@[index] == view.offset + index);
    window_rests_when_selection_shows(total, view.offset + index, view.offset as int, visible);
}

/// A click on a row of the sorted process list selects the process that the screen shows
/// there, also in a list that is scrolled.
pub proof fn clicking_selects_the_process_shown(before: AppView, areas: FrameAreas, row: int)
    requires
        before.active_tab is Processes,
        before.process_sort_enabled,
        before.filtered_rows.len() <= usize::MAX,
        ({
            let rows = before.measured(areas).process_window_rows(
                areas.list.height,
                if before.show_tree {
                    2
                } else {
                    3
                },
            );
            bordered_index(areas.list, row, !before.show_tree) matches Some(index) && index
                < rows.len()
        }),
    ensures
        ({
            let index = bordered_index(areas.list, row, !before.show_tree).unwrap();
            let shown = before.measured(areas);
            shown.with_row_at(areas, row).process_view.selected == shown.process_window_rows(
                areas.list.height,
                if before.show_tree {
                    2
                } else {
                    3
                },
            )[index as int]
        }),
{
    let shown = before.measured(areas);
    let taken: int = if before.show_tree {
        2
    } else {
        3
    };
    let visible = rows_in(areas.list.height, taken) as int;
    let total = shown.listed().len() as int;
    let entries = entries_of(shown.listed());
    entries.index_of_first_ensures(ProcessListEntry::Row(shown.process_view.selected));
    window_shows_selection(
        total,
        shown.selected_place(),
        before.process_view.offset as int,
        visible,
    );
    window_is_stable(total, shown.selected_place(), before.process_view.offset as int, visible);
    assert(shown.process_view.offset == shown.process_window_offset(areas.list.height, taken));
}

/// A click on a row of a group of processes selects the process that the screen shows there,
/// also in a group that is scrolled. A row that lies in both groups counts for the apps.
pub proof fn clicking_selects_the_grouped_process_shown(
    app: AppView,
    areas: FrameAreas,
    row: int,
    category: ProcessCategory,
)
    requires
        app.active_tab is Processes,
        !app.process_sort_enabled,
        category is Background ==> plain_index(areas.apps_list, row) is None,
        plain_index(areas.group(category), row) matches Some(index) && index < app.group_rows(
            category,
            areas.group(category).height,
        ).len(),
    ensures
        ({
            let index = plain_index(areas.group(category), row).unwrap();
            app.with_row_at(areas, row).process_view.selected == app.group_rows(
                category,
                areas.group(category).height,
            )[index as int]
        }),
{
}

/// A row stands out by its load: from 80 percent of CPU on as critical, else from a gibibyte of
/// memory on as heavy, else from 40 percent of CPU on as raised, and else not at all. The loads
/// are compared as the bit patterns of 80 and 40 in single precision.
pub proof fn rows_stand_out_by_their_load(row: ProcessRowView, bits: u32, bytes: u64)
    ensures
        ({
            let cpu = row.cpu_percent.bits;
            &&& process_tone(row) == Tone::Critical <==> cpu >= 0x42A0_0000
            &&& process_tone(row) == Tone::Heavy <==> cpu < 0x42A0_0000 && row.memory_bytes
                >= 1073741824
            &&& process_tone(row) == Tone::Raised <==> 0x4220_0000 <= cpu < 0x42A0_0000
                && row.memory_bytes < 1073741824
            &&& process_tone(row) == Tone::Plain <==> cpu < 0x4220_0000 && row.memory_bytes
                < 1073741824
            &&& load_tone(bits) == Tone::Critical <==> bits >= 0x42A0_0000
            &&& load_tone(bits) == Tone::Raised <==> 0x4220_0000 <= bits < 0x42A0_0000
            &&& load_tone(bits) == Tone::Plain <==> bits < 0x4220_0000
            &&& size_tone(bytes) == Tone::Critical <==> bytes >= 2147483648
            &&& size_tone(bytes) == Tone::Heavy <==> 1073741824 <= bytes < 2147483648
            &&& size_tone(bytes) == Tone::Plain <==> bytes < 1073741824
        }),
{
}

/// A time of some hours, minutes, and seconds is shown as these three numbers with colons, each
/// with a zero before a single digit.
pub proof fn times_are_shown_by_hours_minutes_seconds(hours: nat, minutes: nat, seconds: nat)
    requires
        minutes < 60,
        seconds < 60,
    ensures
        ({
            let shown = |n: nat|
                if n < 10 {
                    seq!['0'] + decimal(n)
                } else {
                    decimal(n)
                };
            runtime_text(3600 * hours + 60 * minutes + seconds) == shown(hours) + seq![':'] + shown(
                minutes,
            ) + seq![':'] + shown(seconds)
        }),
{
    reveal_strlit("0");
    reveal_strlit(":");
    assert("0"@ =~= seq!['0']);
    assert(":"@ =~= seq![':']);
    let secs = 3600 * hours + 60 * minutes + seconds;
    assert(secs / 3600 == hours && secs % 3600 == 60 * minutes + seconds);
    assert((secs % 3600) / 60 == minutes);
    assert(secs % 60 == seconds);
}

/// Spaces are spaces, and as many as asked for. A text is brought to a width by spaces behind it,
/// or cut off behind it. A name in the tree has two spaces before it for each level.
pub proof fn texts_are_filled_with_spaces(text: Seq<char>, width: int, depth: nat, i: int)
    requires
        0 <= width,
        0 <= i,
    ensures
        blanks(width).len() == width,
        blanks(-1 - width).len() == 0,
        i < width ==> blanks(width)[i] == ' ',
        band(text, width).len() == width,
        i < width && i < text.len() ==> band(text, width)[i] == text[i],
        text.len() <= i < width ==> band(text, width)[i] == ' ',
        indented(text, depth).len() == 2 * depth + text.len(),
        i < 2 * depth ==> indented(text, depth)[i] == ' ',
        i < text.len() ==> indented(text, depth)[2 * depth + i] == text[i],
{
}

/// The heading of a group tells which it is and how many processes it has.
pub proof fn headings_count_their_group(count: nat)
    ensures
        group_heading(ProcessCategory::App, count) == " APPS ("@ + decimal(count) + ") "@,
        group_heading(ProcessCategory::Background, count) == " BACKGROUND ("@ + decimal(count)
            + ") "@,
{
    reveal_strlit(" ");
    reveal_strlit("APPS");
    reveal_strlit("BACKGROUND");
    reveal_strlit(" (");
    reveal_strlit(" APPS (");
    reveal_strlit(" BACKGROUND (");
    assert(" "@ + "APPS"@ + " ("@ =~= " APPS ("@);
    assert(" "@ + "BACKGROUND"@ + " ("@ =~= " BACKGROUND ("@);
}

/// The title over the processes tells the sort, or that there is none, and whether the tree is
/// on.
pub proof fn titles_tell_the_sort(mode: SortMode, tree: bool)
    ensures
        ({
            let rest = if tree {
                " | tree="@ + "on"@ + " | / search | right-click actions"@
            } else {
                " | tree="@ + "off"@ + " | / search | right-click actions"@
            };
            let word = match mode {
                SortMode::CpuDesc => "CPU"@,
                SortMode::MemoryDesc => "Memory"@,
                SortMode::PidAsc => "PID"@,
                SortMode::NameAsc => "Name"@,
            };
            &&& table_title(true, mode, tree) == "Processes | "@ + ("sort="@ + word) + rest
            &&& table_title(false, mode, tree) == "Processes | "@ + "sort=off"@ + rest
        }),
{
    let word = mode.word();
    let flag = if tree {
        "on"@
    } else {
        "off"@
    };
    let (head, tail) = (" | tree="@, " | / search | right-click actions"@);
    let first = "Processes | "@ + ("sort="@ + word);
    let second = "Processes | "@ + "sort=off"@;
    assert(first + head + flag + tail =~= first + (head + flag + tail));
    assert(second + head + flag + tail =~= second + (head + flag + tail));
}

/// The details of a process tell its name, its number, its parent's number or a dash, its loads
/// as they are shown, its runtime, its priority, and its path or a dash, and the keys that act
/// on it.
pub proof fn process_details_tell_everything(
    row: ProcessRowView,
    cpu: Seq<char>,
    memory: Seq<char>,
)
    ensures
        ({
            let lines = process_detail(row, cpu, memory);
            let cells = process_columns(row, cpu, memory);
            &&& lines.len() == 11
            &&& lines[0] == "Name: "@ + row.name
            &&& lines[1] == "PID: "@ + decimal(row.pid as nat)
            &&& row.parent_pid matches Some(parent) ==> lines[2] == "Parent PID: "@ + decimal(
                parent as nat,
            )
            &&& row.parent_pid is None ==> lines[2] == "Parent PID: "@ + "-"@
            &&& lines[3] == "CPU: "@ + cpu + "%"@
            &&& lines[4] == "Memory: "@ + memory
            &&& lines[5] == "Runtime: "@ + runtime_text(row.runtime_secs as nat)
            &&& lines[6] == "Priority: "@ + row.priority
            &&& row.exe_path matches Some(path) ==> lines[8] == "Exe: "@ + path
            &&& row.exe_path is None ==> lines[8] == "Exe: "@ + "-"@
            &&& lines[7].len() == 0 && lines[9].len() == 0
            &&& lines[10]
                == "Actions: k close | K kill | r restart | z/x suspend-resume | 4-8 priority | o open folder"@
            &&& cells.len() == 6
            &&& cells[0] == decimal(row.pid as nat)
            &&& cells[1] == cpu
            &&& cells[2] == memory
            &&& cells[3] == runtime_text(row.runtime_secs as nat)
            &&& cells[4] == row.priority
            &&& cells[5] == row.name
        }),
{
    reveal_strlit("");
}

/// The details of a service tell its two names, its status, and its start type; those of an
/// endpoint its process, its two ends, and its state. The cells of an endpoint do so too.
pub proof fn service_and_endpoint_details_tell_everything(
    service: ServiceRowView,
    endpoint: NetworkRowView,
)
    ensures
        ({
            let lines = service_detail(service);
            &&& lines.len() == 6
            &&& lines[0] == "Display name: "@ + service.display_name
            &&& lines[1] == "Service name: "@ + service.service_name
            &&& lines[2] == "Status: "@ + service.status
            &&& lines[3] == "Start type: "@ + service.start_type
            &&& lines[4].len() == 0
            &&& lines[5] == "Actions: 1 start | 2 stop | 3 restart | right-click actions"@
        }),
        ({
            let lines = network_detail(endpoint);
            let cells = network_columns(endpoint);
            &&& lines.len() == 7
            &&& lines[0] == "PID: "@ + decimal(endpoint.pid as nat)
            &&& lines[1] == "Process: "@ + endpoint.process_name
            &&& lines[2] == "Local: "@ + endpoint.local_endpoint
            &&& lines[3] == "Remote: "@ + endpoint.remote_endpoint
            &&& lines[4] == "State: "@ + endpoint.state
            &&& lines[5].len() == 0
            &&& lines[6]
                == "Actions: k close | K kill | r restart | z/x suspend-resume | 4-8 priority | o open folder"@
            &&& cells.len() == 5
            &&& cells[0] == decimal(endpoint.pid as nat)
            &&& cells[1] == endpoint.process_name
            &&& cells[2] == endpoint.local_endpoint
            &&& cells[3] == endpoint.remote_endpoint
            &&& cells[4] == endpoint.state
        }),
{
    reveal_strlit("");
}

/// The help of every page has three lines, of which the last is the latest message. The message
/// makes the help stand out if it tells of a failure, and more if the service cannot be reached.
pub proof fn help_ends_with_the_message(tab: ActiveTab, feedback: Seq<char>)
    ensures
        help_lines(tab, feedback).len() == 3,
        help_lines(tab, feedback)[2] == feedback,
        tab == ActiveTab::Processes ==> help_lines(tab, feedback)[0]
            == "Tab/Shift+Tab switch pages | / search | s sort/off | t tree | Enter toggle pane focus | Shift+F10 menu"@,
        tab == ActiveTab::Performance ==> help_lines(tab, feedback)[0]
            == "Tab/Shift+Tab switch pages | / search leaves query active for other tabs"@
            && help_lines(tab, feedback)[1]
            == "Performance keeps the last 60 samples of CPU and memory."@,
        tab == ActiveTab::Services ==> help_lines(tab, feedback)[0]
            == "Tab/Shift+Tab switch pages | / search | 1 start | 2 stop | 3 restart | Shift+F10 menu"@
            && help_lines(tab, feedback)[1] == "Use right-click for a service context menu."@,
        tab == ActiveTab::Network ==> help_lines(tab, feedback)[0]
            == "Tab/Shift+Tab switch pages | / search | f state filter | Enter toggle pane focus | Shift+F10 menu"@,
        tab == ActiveTab::Processes || tab == ActiveTab::Network ==> help_lines(tab, feedback)[1]
            == "k close | K kill | r restart | z/x suspend-resume | 4 idle | 5 below | 6 normal | 7 above | 8 high"@,
        help_tone(feedback) == Tone::Unreachable <==> has_text(feedback, "Service unavailable"@),
        help_tone(feedback) == Tone::Heavy <==> !has_text(feedback, "Service unavailable"@) && (
        has_text(feedback, "failed"@) || has_text(feedback, "Failed"@)),
        help_tone(feedback) == Tone::Connected <==> !has_text(feedback, "Service unavailable"@)
            && !has_text(feedback, "failed"@) && !has_text(feedback, "Failed"@),
{
}

/// A dialog names what would be acted on: the selected process, or the selected endpoint's, or
/// the selected service, and what would be done to it. Without a selection it says so.
pub proof fn dialogs_name_what_they_are_about(
    app: AppView,
    intent: ServiceActionIntent,
    priority: ProcessPriority,
)
    ensures
        ({
            let process = app.process_view.selected as int;
            let endpoint = app.network_view.selected as int;
            let service = app.service_view.selected as int;
            let has_process = app.active_tab == ActiveTab::Processes && process
                < app.filtered_rows.len();
            let has_endpoint = app.active_tab == ActiveTab::Network && endpoint
                < app.filtered_network.len();
            let has_service = service < app.filtered_services.len();
            let kill = app.force_kill_text();
            let change = app.priority_dialog(priority);
            let act = app.service_dialog(intent);
            &&& has_process ==> {
                let row = app.filtered_rows[process];
                &&& kill[2] == "Name: "@ + row.name && kill[3] == "PID: "@ + decimal(row.pid as nat)
                &&& change[2] == "Name: "@ + row.name && change[3] == "PID: "@ + decimal(
                    row.pid as nat,
                )
                &&& change[4] == "Current: "@ + row.priority
                &&& change[5] == "New: "@ + priority.word()
                &&& change.len() == 8
            }
            &&& has_endpoint ==> {
                let row = app.filtered_network[endpoint];
                &&& kill[2] == "Process: "@ + row.process_name && kill[3] == "PID: "@ + decimal(
                    row.pid as nat,
                )
                &&& change[2] == "Process: "@ + row.process_name && change[3] == "PID: "@ + decimal(
                    row.pid as nat,
                )
                &&& change[4] == "New: "@ + priority.word()
                &&& change.len() == 7
            }
            &&& has_process || has_endpoint ==> {
                &&& kill.len() == 8 && kill[0] == "Force kill confirmation"@
                &&& kill[5] == "This uses TerminateProcess and can leave app state inconsistent."@
                &&& kill[7] == "Press Y or Enter to continue. Press N or Esc to cancel."@
                &&& change[0] == "Priority change confirmation"@
                &&& change.last() == "Press Y or Enter to continue. Press N or Esc to cancel."@
            }
            &&& app.active_tab == ActiveTab::Processes && !has_process ==> kill
                == seq!["No process selected."@] && change == seq!["No process selected."@]
            &&& app.active_tab == ActiveTab::Network && !has_endpoint ==> kill
                == seq!["No endpoint selected."@] && change == seq!["No endpoint selected."@]
            &&& app.active_tab != ActiveTab::Processes && app.active_tab != ActiveTab::Network
                ==> kill == seq!["Force kill is only available on Processes and Network."@]
                && change == seq!["Priority changes are only available on Processes and Network."@]
            &&& has_service ==> {
                let row = app.filtered_services[service];
                &&& act.len() == 8 && act[0] == "Service action confirmation"@
                &&& act[2] == "Action: "@ + (match intent {
                    ServiceActionIntent::Start => "start"@,
                    ServiceActionIntent::Stop => "stop"@,
                    ServiceActionIntent::Restart => "restart"@,
                })
                &&& act[3] == "Display: "@ + row.display_name
                &&& act[4] == "Service: "@ + row.service_name
                &&& act[6] == "Press Y or Enter to continue."@
                &&& act[7] == "Press N or Esc to cancel."@
            }
            &&& !has_service ==> act == seq!["No service selected."@]
            &&& app.overlay matches OverlayView::ContextMenu(menu) ==> app.menu_title() == (
            match menu.kind {
                ContextMenuKind::Process => "Process Actions"@,
                ContextMenuKind::Service => "Service Actions"@,
                ContextMenuKind::Network => "Network Actions"@,
            })
            &&& !(app.overlay is ContextMenu) ==> app.menu_title() == "Actions"@
        }),
{
}

/// The summary shows the CPU load, the memory in use and all memory, and how many processes and
/// endpoints there are; the loads stand out as they do in the lists. The performance page tells
/// the same.
pub proof fn the_summary_shows_the_system(
    summary: SystemSummary,
    cpu: Seq<char>,
    used: Seq<char>,
    total: Seq<char>,
)
    ensures
        ({
            let cards = cards_of(summary, cpu, used, total);
            let lines = performance_figures(summary, cpu, used, total);
            &&& cards.len() == 4
            &&& cards[0].title == "CPU"@ && cards[0].value == cpu + "%"@ && cards[0].tone
                == load_tone(summary.cpu_percent.bits)
            &&& cards[1].title == "Memory"@ && cards[1].value == used + " / "@ + total
                && cards[1].tone == size_tone(summary.used_memory)
            &&& cards[2].title == "Processes"@ && cards[2].value == decimal(
                summary.process_count as nat,
            ) && cards[2].tone == Tone::Connected
            &&& cards[3].title == "TCP Endpoints"@ && cards[3].value == decimal(
                summary.tcp_endpoint_count as nat,
            ) && cards[3].tone == Tone::Steady
            &&& lines.len() == 7
            &&& lines[0] == "CPU usage: "@ + (cpu + "%"@)
            &&& lines[1] == "Memory: "@ + (used + " / "@ + total)
            &&& lines[2] == "Processes: "@ + decimal(summary.process_count as nat)
            &&& lines[3] == "TCP endpoints: "@ + decimal(summary.tcp_endpoint_count as nat)
            &&& lines[5] == "This page tracks whole-system trends."@
            &&& lines[6] == "Disk, GPU, and per-core graphs are reserved for a later pass."@
        }),
{
}

/// The window on a table shows the rows that follow each other from its offset on, as many as fit
/// between the borders and below the header, and among them the selected one, which it marks.
pub proof fn tables_show_the_selected_row(
    window: ListWindow,
    total: nat,
    selected: int,
    offset: int,
    height: u16,
    k: int,
)
    requires
        is_list_window(window, total, selected, offset, height),
        total <= usize::MAX,
        0 <= selected,
        0 <= offset,
    ensures
        ({
            let rows = if height < 4 {
                1
            } else {
                height - 3
            };
            let start = window_offset(total as int, selected, offset, rows);
            &&& total == 0 ==> window.rows@.len() == 0 && window.marked is None
            &&& total > 0 ==> window.rows@.len() == (if total - start < rows {
                total - start
            } else {
                rows
            })
            &&& 0 <= k < window.rows@.len() ==> window.rows@[k] == start + k
            &&& selected < total ==> (window.marked matches Some(mark) && mark < window.rows@.len()
                && window.rows@[mark as int] == selected)
            &&& 0 < total <= selected ==> (window.marked matches Some(mark) && mark
                < window.rows@.len() && window.rows@[mark as int] == total - 1)
        }),
{
    let visible = rows_in(height, 3) as int;
    if total > 0 {
        window_shows_selection(total as int, selected, offset, visible);
    }
}

/// The window on the sorted processes shows the rows that follow each other from its offset on,
/// which is moved to show the selected one; that on a group shows those of the group.
pub proof fn process_windows_show_their_rows(
    app: AppView,
    category: ProcessCategory,
    height: u16,
    taken: int,
    k: int,
)
    requires
        0 <= taken,
        app.filtered_rows.len() <= usize::MAX,
    ensures
        ({
            let rows = if height - taken < 1 {
                1
            } else {
                height - taken
            };
            let start = window_offset(
                app.filtered_rows.len() as int,
                app.process_view.selected as int,
                app.process_view.offset as int,
                rows,
            );
            let seen = app.process_window_rows(height, taken);
            let sorted = app.process_sort_enabled && app.process_view.selected
                < app.filtered_rows.len();
            let group = indexes_of(app.filtered_rows, category);
            let offset = match category {
                ProcessCategory::App => app.grouped_process_view.apps_offset as int,
                ProcessCategory::Background => app.grouped_process_view.background_offset as int,
            };
            let room = if height < 1 {
                1
            } else {
                height as int
            };
            let members = app.group_rows(category, height);
            &&& sorted ==> seen.len() == (if app.filtered_rows.len() - start < rows {
                app.filtered_rows.len() - start
            } else {
                rows
            })
            &&& sorted && 0 <= k < seen.len() ==> seen[k] == start + k
            &&& sorted ==> app.selected_place() == app.process_view.selected
                && app.process_window_offset(height, taken) == start
            &&& members.len() == (if offset >= group.len() {
                0
            } else if group.len() - offset < room {
                group.len() - offset
            } else {
                room
            })
            &&& 0 <= k < members.len() ==> members[k] == group[offset + k]
        }),
{
    let selected = app.process_view.selected;
    if app.process_sort_enabled && selected < app.filtered_rows.len() {
        let entries = entries_of(app.listed());
        let row = ProcessListEntry::Row(selected);
        entries.index_of_first_ensures(row);
        assert(entries[selected as int] == row);
        assert(entries.contains(row));
        let first = entries.index_of_first(row).unwrap();
        assert(entries[first] == ProcessListEntry::Row(first as usize));
        window_shows_selection(
            app.filtered_rows.len() as int,
            selected as int,
            app.process_view.offset as int,
            rows_in(height, taken) as int,
        );
    }
}

/// A running service, a listening endpoint, and an established connection stand out, whatever the
/// case of the words for them; what is stopped, or in another state of a connection, is quiet.
pub proof fn states_have_their_tones(text: &str, status: Tone, state: Tone)
    requires
        call_ensures(service_status_style, (text,), status),
        call_ensures(network_state_style, (text,), state),
    ensures
        status == Tone::Running <==> lowered(text@) == "running"@,
        status == Tone::Quiet <==> lowered(text@) == "stopped"@,
        status == Tone::Heavy <==> lowered(text@) != "running"@ && lowered(text@) != "stopped"@,
        state == Tone::Listening <==> lowered(text@) == "listen"@,
        state == Tone::Connected <==> lowered(text@) == "established"@,
        state == Tone::Quiet <==> lowered(text@) != "listen"@ && lowered(text@) != "established"@,
{
    reveal_strlit("running");
    reveal_strlit("stopped");
    reveal_strlit("listen");
    reveal_strlit("established");
    assert(lowered("running"@) =~= "running"@);
    assert(lowered("stopped"@) =~= "stopped"@);
    assert(lowered("listen"@) =~= "listen"@);
    assert(lowered("established"@) =~= "established"@);
    assert("running"@[0] != "stopped"@[0]);
    assert("listen"@[0] != "established"@[0]);
}

/// In the filter bar every filter is named, and the one that is on stands out.
pub proof fn the_active_filter_stands_out(
    filter: NetworkStateFilter,
    active: NetworkStateFilter,
    chip: (String, Tone),
)
    requires
        call_ensures(filter_chip, (filter, active), chip),
    ensures
        chip.0@ == seq![' '] + filter.word() + seq![' '],
        chip.1 == Tone::Chosen <==> filter == active,
        chip.1 == Tone::Quiet <==> filter != active,
{
    reveal_strlit(" ");
    assert(" "@ =~= seq![' ']);
}

/// The line of a process holds its number, its loads as they are shown, its runtime, its priority,
/// and its name; in the tree its number, its loads, and its priority stand behind its name.
pub proof fn process_lines_show_the_process(
    row: &ProcessRow,
    cpu: &str,
    memory: &str,
    line: String,
    figures: String,
)
    requires
        call_ensures(process_line, (row, cpu, memory), line),
        call_ensures(tree_figures, (row, cpu, memory), figures),
    ensures
        ({
            let number = decimal(row.pid as nat);
            let time = runtime_text(row.runtime_secs as nat);
            &&& figures@ == " ["@ + number + "] "@ + cpu@ + "% "@ + memory@ + " "@ + row.priority@
            &&& line@ == (number + blanks(7 - number.len())) + " "@ + (blanks(5 - cpu@.len()) + cpu@)
                + " "@ + (blanks(10 - memory@.len()) + memory@) + " "@ + (blanks(8 - time.len())
                + time) + " "@ + (row.priority@ + blanks(13 - row.priority@.len())) + " "@
                + row.name@
        }),
{
}

/// A card is known as what it shows, and a service has a cell for each of its four texts.
pub proof fn cards_and_cells_show_what_is_held(
    card: SummaryCard,
    row: &ServiceRow,
    cells: Vec<String>,
)
    requires
        call_ensures(service_cells, (row,), cells),
    ensures
        card@.title == card.title@ && card@.value == card.value@ && card@.tone == card.tone,
        cells.len() == 4,
        cells@[0]@ == row.display_name@,
        cells@[1]@ == row.service_name@,
        cells@[2]@ == row.status@,
        cells@[3]@ == row.start_type@,
{
    let shown = views(cells@);
    assert(shown.len() == 4);
    assert(shown[0] == cells@[0]@ && shown[1] == cells@[1]@);
    assert(shown[2] == cells@[2]@ && shown[3] == cells@[3]@);
}

} // verus!
