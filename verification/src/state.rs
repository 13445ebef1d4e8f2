//! The state of the program between two events, and how it changes.

use crate::api::{ServiceRow, ServiceRowView};
use crate::filtering::{
    find_endpoints, find_processes, find_services, found_endpoints, found_processes,
    found_services,
};
use crate::listing::{
    adjusted_process_offset, entries_of, group_le, grouped_process_indexes,
    indexes_are_the_category, indexes_of, list_entries, listed_indexes, process_offset,
    sort_by_group, sort_by_mode, sort_mode_le, sorted_by_group, sorted_by_mode,
    ProcessListEntry,
};
use crate::model::{ActiveTab, NetworkStateFilter, Overlay, OverlayView, PaneFocus, SortMode};
use crate::rows::{
    CpuPercent, NetworkRow, NetworkRowView, ProcessCategory, ProcessRow, ProcessRowView,
};
use crate::sorting::{stable_sort, stable_sort_keeps_images, views};
use crate::tree::{
    at_depth, depthless, flatten_process_tree, flattened, flattening_keeps_every_row,
};
use crate::window::{
    adjusted_offset, clamp_index, clamped_index, max_of, max_usize, min_of, min_usize,
    window_offset, window_shows_selection, ViewState,
};
use std::collections::{HashMap, VecDeque};
use vstd::prelude::*;

verus! {

/// How many load samples of a process are averaged.
pub const CPU_WINDOW: usize = 3;

/// How many load samples of the whole system are kept.
pub const PERFORMANCE_HISTORY: usize = 60;

/// The load of the whole system.
#[derive(Debug, Clone, Copy, PartialEq, Eq, Structural)]
pub struct SystemSummary {
    pub cpu_percent: CpuPercent,
    pub used_memory: u64,
    pub total_memory: u64,
    pub process_count: usize,
    pub tcp_endpoint_count: usize,
}

impl Default for SystemSummary {
    fn default() -> (r: Self)
        ensures
            r == (SystemSummary {
                cpu_percent: CpuPercent { bits: 0 },
                used_memory: 0,
                total_memory: 0,
                process_count: 0,
                tcp_endpoint_count: 0,
            }),
    {
        SystemSummary {
            cpu_percent: CpuPercent { bits: 0 },
            used_memory: 0,
            total_memory: 0,
            process_count: 0,
            tcp_endpoint_count: 0,
        }
    }
}

/// The windows on the two parts of the grouped process list.
#[derive(Debug, Clone, Copy, PartialEq, Eq, Structural)]
pub struct GroupedProcessViewState {
    pub apps_offset: usize,
    pub background_offset: usize,
    pub apps_visible_rows: usize,
    pub background_visible_rows: usize,
}

impl Default for GroupedProcessViewState {
    fn default() -> (r: Self)
        ensures
            r == (GroupedProcessViewState {
                apps_offset: 0,
                background_offset: 0,
                apps_visible_rows: 0,
                background_visible_rows: 0,
            }),
    {
        GroupedProcessViewState {
            apps_offset: 0,
            background_offset: 0,
            apps_visible_rows: 0,
            background_visible_rows: 0,
        }
    }
}

/// Everything that the program knows and shows, but for the clock and the system itself.
pub struct AppState {
    pub process_rows: Vec<ProcessRow>,
    pub filtered_rows: Vec<ProcessRow>,
    pub service_rows: Vec<ServiceRow>,
    pub filtered_services: Vec<ServiceRow>,
    pub network_rows: Vec<NetworkRow>,
    pub filtered_network: Vec<NetworkRow>,
    pub cpu_history: HashMap<u32, VecDeque<CpuPercent>>,
    pub system_cpu_history: VecDeque<u64>,
    pub system_memory_history: VecDeque<u64>,
    pub summary: SystemSummary,
    pub active_tab: ActiveTab,
    pub sort_mode: SortMode,
    pub process_sort_enabled: bool,
    pub query: String,
    pub show_tree: bool,
    pub pane_focus: PaneFocus,
    pub network_filter: NetworkStateFilter,
    pub overlay: Overlay,
    pub process_view: ViewState,
    pub grouped_process_view: GroupedProcessViewState,
    pub service_view: ViewState,
    pub network_view: ViewState,
    pub priority_cache: HashMap<u32, String>,
    pub process_stable_order: HashMap<u32, usize>,
    pub next_process_order: usize,
    pub process_detail_scroll: u16,
    pub service_detail_scroll: u16,
    pub network_detail_scroll: u16,
    pub feedback: String,
}

/// The model of the program's state.
#[verifier::ext_equal]
pub struct AppView {
    pub process_rows: Seq<ProcessRowView>,
    pub filtered_rows: Seq<ProcessRowView>,
    pub service_rows: Seq<ServiceRowView>,
    pub filtered_services: Seq<ServiceRowView>,
    pub network_rows: Seq<NetworkRowView>,
    pub filtered_network: Seq<NetworkRowView>,
    pub cpu_history: Map<u32, Seq<CpuPercent>>,
    pub system_cpu_history: Seq<u64>,
    pub system_memory_history: Seq<u64>,
    pub summary: SystemSummary,
    pub active_tab: ActiveTab,
    pub sort_mode: SortMode,
    pub process_sort_enabled: bool,
    pub query: Seq<char>,
    pub show_tree: bool,
    pub pane_focus: PaneFocus,
    pub network_filter: NetworkStateFilter,
    pub overlay: OverlayView,
    pub process_view: ViewState,
    pub grouped_process_view: GroupedProcessViewState,
    pub service_view: ViewState,
    pub network_view: ViewState,
    pub priority_cache: Map<u32, Seq<char>>,
    pub process_stable_order: Map<u32, usize>,
    pub next_process_order: usize,
    pub process_detail_scroll: u16,
    pub service_detail_scroll: u16,
    pub network_detail_scroll: u16,
    pub feedback: Seq<char>,
}

/// The model of a map of texts.
pub open spec fn text_map(map: Map<u32, String>) -> Map<u32, Seq<char>> {
    map.map_values(|text: String| text@)
}

/// The model of a map of load samples.
pub open spec fn load_map(map: Map<u32, VecDeque<CpuPercent>>) -> Map<u32, Seq<CpuPercent>> {
    map.map_values(|samples: VecDeque<CpuPercent>| samples@)
}

impl View for AppState {
    type V = AppView;

    open spec fn view(&self) -> AppView {
        AppView {
            process_rows: views(self.process_rows@),
            filtered_rows: views(self.filtered_rows@),
            service_rows: views(self.service_rows@),
            filtered_services: views(self.filtered_services@),
            network_rows: views(self.network_rows@),
            filtered_network: views(self.filtered_network@),
            cpu_history: load_map(self.cpu_history@),
            system_cpu_history: self.system_cpu_history@,
            system_memory_history: self.system_memory_history@,
            summary: self.summary,
            active_tab: self.active_tab,
            sort_mode: self.sort_mode,
            process_sort_enabled: self.process_sort_enabled,
            query: self.query@,
            show_tree: self.show_tree,
            pane_focus: self.pane_focus,
            network_filter: self.network_filter,
            overlay: self.overlay@,
            process_view: self.process_view,
            grouped_process_view: self.grouped_process_view,
            service_view: self.service_view,
            network_view: self.network_view,
            priority_cache: text_map(self.priority_cache@),
            process_stable_order: self.process_stable_order@,
            next_process_order: self.next_process_order,
            process_detail_scroll: self.process_detail_scroll,
            service_detail_scroll: self.service_detail_scroll,
            network_detail_scroll: self.network_detail_scroll,
            feedback: self.feedback@,
        }
    }
}

/// The text that greets the user.
pub open spec fn greeting() -> Seq<char> {
    "Tab/Shift+Tab to switch pages. / to search."@
}

/// An empty list whose window shows one row.
pub open spec fn first_view() -> ViewState {
    ViewState { selected: 0, offset: 0, visible_rows: 1 }
}

impl AppView {
    /// The state at the start: nothing listed, no sort, the process page on show.
    pub open spec fn at_start() -> AppView {
        AppView {
            process_rows: Seq::empty(),
            filtered_rows: Seq::empty(),
            service_rows: Seq::empty(),
            filtered_services: Seq::empty(),
            network_rows: Seq::empty(),
            filtered_network: Seq::empty(),
            cpu_history: Map::empty(),
            system_cpu_history: Seq::empty(),
            system_memory_history: Seq::empty(),
            summary: SystemSummary {
                cpu_percent: CpuPercent { bits: 0 },
                used_memory: 0,
                total_memory: 0,
                process_count: 0,
                tcp_endpoint_count: 0,
            },
            active_tab: ActiveTab::Processes,
            sort_mode: SortMode::CpuDesc,
            process_sort_enabled: false,
            query: Seq::empty(),
            show_tree: false,
            pane_focus: PaneFocus::List,
            network_filter: NetworkStateFilter::All,
            overlay: OverlayView::Closed,
            process_view: first_view(),
            grouped_process_view: GroupedProcessViewState {
                apps_offset: 0,
                background_offset: 0,
                apps_visible_rows: 1,
                background_visible_rows: 1,
            },
            service_view: first_view(),
            network_view: first_view(),
            priority_cache: Map::empty(),
            process_stable_order: Map::empty(),
            next_process_order: 0,
            process_detail_scroll: 0,
            service_detail_scroll: 0,
            network_detail_scroll: 0,
            feedback: greeting(),
        }
    }

    /// The rows of the process list from top to bottom.
    pub open spec fn listed(self) -> Seq<usize> {
        listed_indexes(self.filtered_rows, self.process_sort_enabled)
    }

    /// The indexes of the apps among the filtered rows.
    pub open spec fn apps(self) -> Seq<usize> {
        indexes_of(self.filtered_rows, ProcessCategory::App)
    }

    /// The indexes of the background processes among the filtered rows.
    pub open spec fn background(self) -> Seq<usize> {
        indexes_of(self.filtered_rows, ProcessCategory::Background)
    }

    /// The processes in the order of the list, before the search.
    pub open spec fn arranged(self) -> Seq<ProcessRowView> {
        let rows = if self.process_sort_enabled {
            sorted_by_mode(self.process_rows, self.sort_mode)
        } else {
            sorted_by_group(self.process_rows, self.process_stable_order)
        };
        if self.show_tree {
            flattened(rows)
        } else {
            rows
        }
    }

    /// The process at the selection.
    pub open spec fn selected_process(self) -> Option<ProcessRowView> {
        if self.process_view.selected < self.filtered_rows.len() {
            Some(self.filtered_rows[self.process_view.selected as int])
        } else {
            None
        }
    }

    /// The service at the selection.
    pub open spec fn chosen_service(self) -> Option<ServiceRowView> {
        if self.service_view.selected < self.filtered_services.len() {
            Some(self.filtered_services[self.service_view.selected as int])
        } else {
            None
        }
    }

    /// The endpoint at the selection.
    pub open spec fn chosen_endpoint(self) -> Option<NetworkRowView> {
        if self.network_view.selected < self.filtered_network.len() {
            Some(self.filtered_network[self.network_view.selected as int])
        } else {
            None
        }
    }

    /// The process that a command acts on: the selected one, or the owner of the selected
    /// endpoint.
    pub open spec fn target(self) -> Option<u32> {
        match self.active_tab {
            ActiveTab::Processes => match self.selected_process() {
                Some(row) => Some(row.pid),
                None => None,
            },
            ActiveTab::Network => match self.chosen_endpoint() {
                Some(row) => Some(row.pid),
                None => None,
            },
            _ => None,
        }
    }

    /// The windows of the grouped list, moved no further than to show its ends and the
    /// selection.
    pub open spec fn synced_groups(self) -> GroupedProcessViewState {
        let old = self.grouped_process_view;
        let apps = self.apps();
        let background = self.background();
        let apps_visible = max_of(old.apps_visible_rows as int, 1);
        let background_visible = max_of(old.background_visible_rows as int, 1);
        let apps_offset = min_of(old.apps_offset as int, max_of(apps.len() - apps_visible, 0));
        let background_offset = min_of(
            old.background_offset as int,
            max_of(background.len() - background_visible, 0),
        );
        let selected = self.process_view.selected;
        let apps_place = apps.index_of_first(selected);
        let background_place = background.index_of_first(selected);
        GroupedProcessViewState {
            apps_offset: match apps_place {
                Some(place) => window_offset(
                    apps.len() as int,
                    place,
                    apps_offset,
                    apps_visible,
                ) as usize,
                None => apps_offset as usize,
            },
            background_offset: match background_place {
                Some(place) => window_offset(
                    background.len() as int,
                    place,
                    background_offset,
                    background_visible,
                ) as usize,
                None => background_offset as usize,
            },
            apps_visible_rows: old.apps_visible_rows,
            background_visible_rows: old.background_visible_rows,
        }
    }

    /// The state with the windows of the process list moved to show the selection.
    pub open spec fn synced(self) -> AppView {
        if self.process_sort_enabled {
            AppView {
                process_view: ViewState {
                    offset: process_offset(
                        entries_of(self.listed()),
                        self.process_view.selected,
                        self.process_view.offset as int,
                        self.process_view.visible_rows as int,
                    ) as usize,
                    ..self.process_view
                },
                ..self
            }
        } else {
            AppView { grouped_process_view: self.synced_groups(), ..self }
        }
    }

    /// The state with a row of the process list selected and shown.
    pub open spec fn with_process(self, selected: int) -> AppView {
        AppView {
            process_view: ViewState { selected: selected as usize, ..self.process_view },
            ..self
        }.synced()
    }

    /// The state with the process list made anew: the selection stays with its process, or
    /// else within the list.
    pub open spec fn rebuilt_processes(self) -> AppView {
        let rows = found_processes(self.arranged(), self.query);
        let kept = match self.selected_process() {
            Some(row) => pids_of(rows).index_of_first(row.pid),
            None => None,
        };
        let selected = match kept {
            Some(index) => index,
            None => clamped_index(rows.len() as int, self.process_view.selected as int),
        };
        AppView { filtered_rows: rows, ..self }.with_process(selected)
    }

    /// The state with the service list made anew.
    pub open spec fn rebuilt_services(self) -> AppView {
        let rows = found_services(self.service_rows, self.query);
        AppView {
            filtered_services: rows,
            service_view: self.service_view.clamped(rows.len() as int),
            ..self
        }
    }

    /// The state with the endpoint list made anew.
    pub open spec fn rebuilt_network(self) -> AppView {
        let rows = found_endpoints(self.network_rows, self.query, self.network_filter);
        AppView {
            filtered_network: rows,
            network_view: self.network_view.clamped(rows.len() as int),
            ..self
        }
    }
}

/// The numbers of processes, in order.
pub open spec fn pids_of(rows: Seq<ProcessRowView>) -> Seq<u32> {
    Seq::new(rows.len(), |i: int| rows[i].pid)
}

/// The place of a number in a list of numbers.
pub fn position_of(list: &Vec<usize>, value: usize) -> (place: Option<usize>)
    ensures
        match place {
            Some(i) => i < list.len() && list@.index_of_first(value) == Some(i as int),
            None => list@.index_of_first(value) is None,
        },
{
    proof {
        list@.index_of_first_ensures(value);
    }
    let mut i: usize = 0;
    while i < list.len()
        invariant
            i <= list.len(),
            forall|k: int| 0 <= k < i ==> #[trigger] list@[k] != value,
            match list@.index_of_first(value) {
                Some(index) => {
                    &&& 0 <= index < list@.len()
                    &&& list@[index] == value
                    &&& forall|j: int| 0 <= j < index < list@.len() ==> list@[j] != value
                },
                None => !list@.contains(value),
            },
        decreases list.len() - i,
    {
        if list[i] == value {
            assert(list@.contains(list@[i as int]));
            return Some(i);
        }
        i = i + 1;
    }
    None
}

/// The place of a process in a list of rows.
pub fn position_of_pid(rows: &Vec<ProcessRow>, pid: u32) -> (place: Option<usize>)
    ensures
        match place {
            Some(i) => i < rows.len() && pids_of(views(rows@)).index_of_first(pid) == Some(
                i as int,
            ),
            None => pids_of(views(rows@)).index_of_first(pid) is None,
        },
{
    let ghost pids = pids_of(views(rows@));
    proof {
        pids.index_of_first_ensures(pid);
    }
    let mut i: usize = 0;
    while i < rows.len()
        invariant
            i <= rows.len(),
            pids == pids_of(views(rows@)),
            forall|k: int| 0 <= k < i ==> #[trigger] pids[k] != pid,
            match pids.index_of_first(pid) {
                Some(index) => {
                    &&& 0 <= index < pids.len()
                    &&& pids[index] == pid
                    &&& forall|j: int| 0 <= j < index < pids.len() ==> pids[j] != pid
                },
                None => !pids.contains(pid),
            },
        decreases rows.len() - i,
    {
        assert(pids[i as int] == rows@[i as int].pid);
        if rows[i].pid == pid {
            assert(pids.contains(pids[i as int]));
            return Some(i);
        }
        i = i + 1;
    }
    None
}

/// A copy of process rows.
pub fn copy_processes(rows: &Vec<ProcessRow>) -> (copy: Vec<ProcessRow>)
    ensures
        views(copy@) == views(rows@),
{
    let copy = rows.clone();
    assert(views(copy@) =~= views(rows@));
    copy
}

/// A copy of service rows.
pub fn copy_services(rows: &Vec<ServiceRow>) -> (copy: Vec<ServiceRow>)
    ensures
        views(copy@) == views(rows@),
{
    let copy = rows.clone();
    assert(views(copy@) =~= views(rows@));
    copy
}

/// A copy of endpoint rows.
pub fn copy_endpoints(rows: &Vec<NetworkRow>) -> (copy: Vec<NetworkRow>)
    ensures
        views(copy@) == views(rows@),
{
    let copy = rows.clone();
    assert(views(copy@) =~= views(rows@));
    copy
}

impl AppState {
    /// The state at the start.
    pub fn new() -> (r: Self)
        ensures
            r@ == AppView::at_start(),
    {
        broadcast use vstd::std_specs::hash::group_hash_axioms;

        let first = ViewState { selected: 0, offset: 0, visible_rows: 1 };
        let r = AppState {
            process_rows: Vec::new(),
            filtered_rows: Vec::new(),
            service_rows: Vec::new(),
            filtered_services: Vec::new(),
            network_rows: Vec::new(),
            filtered_network: Vec::new(),
            cpu_history: HashMap::new(),
            system_cpu_history: VecDeque::new(),
            system_memory_history: VecDeque::new(),
            summary: SystemSummary::default(),
            active_tab: ActiveTab::Processes,
            sort_mode: SortMode::CpuDesc,
            process_sort_enabled: false,
            query: String::new(),
            show_tree: false,
            pane_focus: PaneFocus::List,
            network_filter: NetworkStateFilter::All,
            overlay: Overlay::Closed,
            process_view: first,
            grouped_process_view: GroupedProcessViewState {
                apps_offset: 0,
                background_offset: 0,
                apps_visible_rows: 1,
                background_visible_rows: 1,
            },
            service_view: first,
            network_view: first,
            priority_cache: HashMap::new(),
            process_stable_order: HashMap::new(),
            next_process_order: 0,
            process_detail_scroll: 0,
            service_detail_scroll: 0,
            network_detail_scroll: 0,
            feedback: "Tab/Shift+Tab to switch pages. / to search.".to_string(),
        };
        assert(r@ =~= AppView::at_start());
        r
    }

    /// The entries of the process list from top to bottom.
    pub fn process_entries(&self) -> (entries: Vec<ProcessListEntry>)
        ensures
            entries@ == entries_of(self@.listed()),
    {
        list_entries(self.filtered_rows.as_slice(), self.process_sort_enabled)
    }

    /// The indexes of the apps and of the background processes among the filtered rows.
    pub fn grouped_process_indexes(&self) -> (r: (Vec<usize>, Vec<usize>))
        ensures
            r.0@ == self@.apps(),
            r.1@ == self@.background(),
    {
        grouped_process_indexes(self.filtered_rows.as_slice())
    }

    /// Moves the windows of the process list to show the selection.
    pub fn sync_process_view_state(&mut self)
        ensures
            final(self)@ == old(self)@.synced(),
    {
        if self.process_sort_enabled {
            let entries = self.process_entries();
            self.process_view.offset =
            adjusted_process_offset(
                entries.as_slice(),
                self.process_view.selected,
                self.process_view.offset,
                self.process_view.visible_rows,
            );
            return;
        }
        let (apps, background) = self.grouped_process_indexes();
        let apps_visible: usize = max_usize(self.grouped_process_view.apps_visible_rows, 1);
        let background_visible: usize = max_usize(
            self.grouped_process_view.background_visible_rows,
            1,
        );
        self.grouped_process_view.apps_offset =
        min_usize(
            self.grouped_process_view.apps_offset,
            apps.len().saturating_sub(apps_visible),
        );
        self.grouped_process_view.background_offset =
        min_usize(
            self.grouped_process_view.background_offset,
            background.len().saturating_sub(background_visible),
        );
        if let Some(place) = position_of(&apps, self.process_view.selected) {
            self.grouped_process_view.apps_offset =
            adjusted_offset(
                apps.len(),
                place,
                self.grouped_process_view.apps_offset,
                apps_visible,
            );
        }
        if let Some(place) = position_of(&background, self.process_view.selected) {
            self.grouped_process_view.background_offset =
            adjusted_offset(
                background.len(),
                place,
                self.grouped_process_view.background_offset,
                background_visible,
            );
        }
    }

    /// Selects a row of the process list and shows it.
    fn select_process(&mut self, selected: usize)
        ensures
            final(self)@ == old(self)@.with_process(selected as int),
    {
        self.process_view.selected = selected;
        self.sync_process_view_state();
    }

    /// Puts processes in the order of the sort mode.
    pub fn apply_process_sort(&self, rows: &mut Vec<ProcessRow>)
        ensures
            views(final(rows)@) == sorted_by_mode(views(old(rows)@), self.sort_mode),
    {
        let mut taken: Vec<ProcessRow> = Vec::new();
        std::mem::swap(rows, &mut taken);
        let mut sorted = sort_by_mode(taken, self.sort_mode);
        std::mem::swap(rows, &mut sorted);
    }

    /// The processes that the query finds.
    pub fn apply_process_filter(&self, rows: Vec<ProcessRow>) -> (found: Vec<ProcessRow>)
        ensures
            views(found@) == found_processes(views(rows@), self.query@),
    {
        find_processes(rows, self.query.as_str())
    }

    /// The services that the query finds.
    pub fn apply_service_filter(&self, rows: Vec<ServiceRow>) -> (found: Vec<ServiceRow>)
        ensures
            views(found@) == found_services(views(rows@), self.query@),
    {
        find_services(rows, self.query.as_str())
    }

    /// The endpoints that the state filter and the query admit.
    pub fn apply_network_filter(&self, rows: Vec<NetworkRow>) -> (found: Vec<NetworkRow>)
        ensures
            views(found@) == found_endpoints(views(rows@), self.query@, self.network_filter),
    {
        find_endpoints(rows, self.query.as_str(), self.network_filter)
    }

    /// Makes the process list anew, keeping the selected process selected.
    pub fn rebuild_process_view(&mut self)
        ensures
            final(self)@ == old(self)@.rebuilt_processes(),
    {
        let selected: usize = self.process_view.selected;
        let selected_pid: Option<u32> = if selected < self.filtered_rows.len() {
            Some(self.filtered_rows[selected].pid)
        } else {
            None
        };
        let mut rows = copy_processes(&self.process_rows);
        if self.process_sort_enabled {
            self.apply_process_sort(&mut rows);
        } else {
            rows = sort_by_group(rows, &self.process_stable_order);
        }
        if self.show_tree {
            rows = flatten_process_tree(rows.as_slice());
        }
        let found = self.apply_process_filter(rows);
        let kept: Option<usize> = match selected_pid {
            Some(pid) => position_of_pid(&found, pid),
            None => None,
        };
        let next: usize = match kept {
            Some(index) => index,
            None => clamp_index(found.len(), selected),
        };
        self.filtered_rows = found;
        self.select_process(next);
    }

    /// Makes the service list anew.
    pub fn rebuild_service_view(&mut self)
        ensures
            final(self)@ == old(self)@.rebuilt_services(),
    {
        let rows = copy_services(&self.service_rows);
        self.filtered_services = self.apply_service_filter(rows);
        let len: usize = self.filtered_services.len();
        self.service_view.clamp(len);
    }

    /// Makes the endpoint list anew.
    pub fn rebuild_network_view(&mut self)
        ensures
            final(self)@ == old(self)@.rebuilt_network(),
    {
        let rows = copy_endpoints(&self.network_rows);
        self.filtered_network = self.apply_network_filter(rows);
        let len: usize = self.filtered_network.len();
        self.network_view.clamp(len);
    }
}

/// Moving the windows changes nothing but the windows.
pub proof fn syncing_moves_only_windows(app: AppView)
    ensures
        app.synced().process_view.selected == app.process_view.selected,
        app.synced() == (AppView {
            process_view: app.synced().process_view,
            grouped_process_view: app.synced().grouped_process_view,
            ..app
        }),
{
}

/// After the windows are moved, the one on the sorted list shows the selected row.
pub proof fn synced_window_shows_selection(app: AppView)
    requires
        app.process_sort_enabled,
        app.process_view.selected < app.filtered_rows.len() <= usize::MAX,
    ensures
        ({
            let view = app.synced().process_view;
            view.offset <= view.selected < view.offset + max_of(view.visible_rows as int, 1)
        }),
{
    let entries = entries_of(app.listed());
    let selected = app.process_view.selected;
    let row = ProcessListEntry::Row(selected);
    entries.index_of_first_ensures(row);
    assert(entries[selected as int] == row);
    assert(entries.contains(row));
    let place = entries.index_of_first(row).unwrap();
    assert(entries[place] == ProcessListEntry::Row(place as usize));
}

/// After the windows are moved, the one on the group of the selected row shows it.
pub proof fn synced_groups_show_selection(app: AppView)
    requires
        !app.process_sort_enabled,
        app.process_view.selected < app.filtered_rows.len() <= usize::MAX,
    ensures
        ({
            let view = app.synced().grouped_process_view;
            let selected = app.process_view.selected;
            match app.filtered_rows[selected as int].category {
                ProcessCategory::App => exists|place: int|
                    0 <= place < app.apps().len() && #[trigger] app.apps()[place] == selected
                        && view.apps_offset <= place < view.apps_offset + max_of(
                        view.apps_visible_rows as int,
                        1,
                    ),
                ProcessCategory::Background => exists|place: int|
                    0 <= place < app.background().len() && #[trigger] app.background()[place]
                        == selected && view.background_offset <= place < view.background_offset
                        + max_of(view.background_visible_rows as int, 1),
            }
        }),
{
    let selected = app.process_view.selected;
    let category = app.filtered_rows[selected as int].category;
    let indexes = indexes_of(app.filtered_rows, category);
    indexes_are_the_category(app.filtered_rows, category);
    assert(indexes.contains(selected));
    indexes.index_of_first_ensures(selected);
    let place = indexes.index_of_first(selected).unwrap();
    let old_view = app.grouped_process_view;
    let view = app.synced().grouped_process_view;
    match category {
        ProcessCategory::App => {
            assert(app.apps()[place] == selected);
            let visible = max_of(old_view.apps_visible_rows as int, 1);
            let offset = min_of(
                old_view.apps_offset as int,
                max_of(app.apps().len() - visible, 0),
            );
            window_shows_selection(app.apps().len() as int, place, offset, visible);
            assert(view.apps_offset == window_offset(
                app.apps().len() as int,
                place,
                offset,
                visible,
            ));
        },
        ProcessCategory::Background => {
            assert(app.background()[place] == selected);
            let visible = max_of(old_view.background_visible_rows as int, 1);
            let offset = min_of(
                old_view.background_offset as int,
                max_of(app.background().len() - visible, 0),
            );
            window_shows_selection(app.background().len() as int, place, offset, visible);
            assert(view.background_offset == window_offset(
                app.background().len() as int,
                place,
                offset,
                visible,
            ));
        },
    }
}

/// Making the list anew keeps the selected process selected, as long as it is found; else a
/// row of the list stays selected, if there is one.
pub proof fn rebuilding_keeps_selection(app: AppView)
    requires
        found_processes(app.arranged(), app.query).len() <= usize::MAX,
    ensures
        ({
            let after = app.rebuilt_processes();
            let found = found_processes(app.arranged(), app.query);
            &&& after.filtered_rows == found
            &&& found.len() > 0 ==> after.process_view.selected < found.len()
            &&& match app.selected_process() {
                Some(row) => pids_of(found).contains(row.pid) ==> (
                after.selected_process() matches Some(now) && now.pid == row.pid),
                None => true,
            }
        }),
{
    let found = found_processes(app.arranged(), app.query);
    match app.selected_process() {
        Some(row) => {
            pids_of(found).index_of_first_ensures(row.pid);
        },
        None => {},
    }
}

/// The processes without their places in the tree are the same before and after arranging.
pub proof fn arranging_keeps_every_process(app: AppView)
    ensures
        depthless(app.arranged()).to_multiset() == depthless(app.process_rows).to_multiset(),
{
    let leveled = |row: ProcessRowView| at_depth(row, 0);
    let rows = if app.process_sort_enabled {
        let le = |a: ProcessRowView, b: ProcessRowView| sort_mode_le(app.sort_mode, a, b);
        stable_sort_keeps_images(app.process_rows, le, leveled);
        stable_sort(app.process_rows, le)
    } else {
        let order = app.process_stable_order;
        let le = |a: ProcessRowView, b: ProcessRowView| group_le(order, a, b);
        stable_sort_keeps_images(app.process_rows, le, leveled);
        stable_sort(app.process_rows, le)
    };
    flattening_keeps_every_row(rows);
}

/// The program starts on the process page, with nothing listed, no query, no sort, no tree, all
/// endpoints let through, nothing lying over the page, and the focus on the list.
pub proof fn the_start_is_empty()
    ensures
        ({
            let start = AppView::at_start();
            &&& start.process_rows.len() == 0 && start.filtered_rows.len() == 0
            &&& start.service_rows.len() == 0 && start.filtered_services.len() == 0
            &&& start.network_rows.len() == 0 && start.filtered_network.len() == 0
            &&& start.cpu_history.dom() == Set::<u32>::empty()
            &&& start.priority_cache.dom() == Set::<u32>::empty()
            &&& start.process_stable_order.dom() == Set::<u32>::empty()
            &&& start.next_process_order == 0
            &&& start.system_cpu_history.len() == 0 && start.system_memory_history.len() == 0
            &&& start.active_tab == ActiveTab::Processes
            &&& start.sort_mode == SortMode::CpuDesc && !start.process_sort_enabled
            &&& start.query.len() == 0 && !start.show_tree
            &&& start.pane_focus == PaneFocus::List
            &&& start.network_filter == NetworkStateFilter::All
            &&& start.overlay == OverlayView::Closed
            &&& start.process_view == (ViewState { selected: 0, offset: 0, visible_rows: 1 })
            &&& start.service_view == start.process_view
            &&& start.network_view == start.process_view
            &&& start.grouped_process_view.apps_offset == 0
            &&& start.grouped_process_view.background_offset == 0
            &&& start.grouped_process_view.apps_visible_rows == 1
            &&& start.grouped_process_view.background_visible_rows == 1
            &&& start.process_detail_scroll == 0 && start.service_detail_scroll == 0
                && start.network_detail_scroll == 0
            &&& start.summary.process_count == 0 && start.summary.tcp_endpoint_count == 0
            &&& start.summary.used_memory == 0 && start.summary.total_memory == 0
            &&& start.summary.cpu_percent.bits == 0
            &&& start.feedback == "Tab/Shift+Tab to switch pages. / to search."@
        }),
{
    assert(AppView::at_start().cpu_history.dom() =~= Set::<u32>::empty());
    assert(AppView::at_start().priority_cache.dom() =~= Set::<u32>::empty());
    assert(AppView::at_start().process_stable_order.dom() =~= Set::<u32>::empty());
}

/// The list of processes is arranged as the user asked: sorted by the chosen column or else
/// grouped, and as a tree or else as it is.
pub proof fn processes_are_arranged_as_asked(app: AppView)
    ensures
        app.process_sort_enabled && !app.show_tree ==> app.arranged() == sorted_by_mode(
            app.process_rows,
            app.sort_mode,
        ),
        !app.process_sort_enabled && !app.show_tree ==> app.arranged() == sorted_by_group(
            app.process_rows,
            app.process_stable_order,
        ),
        app.process_sort_enabled && app.show_tree ==> app.arranged() == flattened(
            sorted_by_mode(app.process_rows, app.sort_mode),
        ),
        !app.process_sort_enabled && app.show_tree ==> app.arranged() == flattened(
            sorted_by_group(app.process_rows, app.process_stable_order),
        ),
{
}

/// The selected process, service, and endpoint are the rows at the selections of the lists of
/// what was found. A command acts on the selected process on the process page, on the owner of
/// the selected endpoint on the network page, and on no process elsewhere.
pub proof fn selections_are_the_rows_selected(app: AppView)
    ensures
        app.process_view.selected < app.filtered_rows.len() ==> app.selected_process() == Some(
            app.filtered_rows[app.process_view.selected as int],
        ),
        app.process_view.selected >= app.filtered_rows.len() ==> app.selected_process() is None,
        app.service_view.selected < app.filtered_services.len() ==> app.chosen_service() == Some(
            app.filtered_services[app.service_view.selected as int],
        ),
        app.service_view.selected >= app.filtered_services.len() ==> app.chosen_service() is None,
        app.network_view.selected < app.filtered_network.len() ==> app.chosen_endpoint() == Some(
            app.filtered_network[app.network_view.selected as int],
        ),
        app.network_view.selected >= app.filtered_network.len() ==> app.chosen_endpoint() is None,
        app.target() == (if app.active_tab == ActiveTab::Processes && app.process_view.selected
            < app.filtered_rows.len() {
            Some(app.filtered_rows[app.process_view.selected as int].pid)
        } else if app.active_tab == ActiveTab::Network && app.network_view.selected
            < app.filtered_network.len() {
            Some(app.filtered_network[app.network_view.selected as int].pid)
        } else {
            None
        }),
{
}

/// Making the list of processes anew lists what the query finds among the arranged processes.
/// The process that was selected stays selected at its first place in the new list; if it is
/// not there any more, the place stays selected, or the last one in a shorter list. Nothing
/// else changes but the windows on the list.
pub proof fn rebuilt_processes_are_found(app: AppView, place: int)
    requires
        found_processes(app.arranged(), app.query).len() <= usize::MAX,
    ensures
        ({
            let after = app.rebuilt_processes();
            let rows = after.filtered_rows;
            let old = app.process_view.selected;
            let had = old < app.filtered_rows.len();
            &&& rows == found_processes(app.arranged(), app.query)
            &&& had && 0 <= place < rows.len() && rows[place].pid == app.filtered_rows[old as int].pid
                && (forall|k: int|
                0 <= k < place ==> (#[trigger] rows[k]).pid != app.filtered_rows[old as int].pid)
                ==> after.process_view.selected == place
            &&& !had || (forall|k: int|
                0 <= k < rows.len() ==> (#[trigger] rows[k]).pid != app.filtered_rows[old as int].pid)
                ==> after.process_view.selected == (if rows.len() == 0 {
                0
            } else if old < rows.len() {
                old as int
            } else {
                rows.len() - 1
            })
            &&& after.process_view.visible_rows == app.process_view.visible_rows
            &&& after.grouped_process_view.apps_visible_rows
                == app.grouped_process_view.apps_visible_rows
            &&& after.grouped_process_view.background_visible_rows
                == app.grouped_process_view.background_visible_rows
            &&& after == (AppView {
                filtered_rows: rows,
                process_view: after.process_view,
                grouped_process_view: after.grouped_process_view,
                ..app
            })
        }),
{
    let rows = found_processes(app.arranged(), app.query);
    let pids = pids_of(rows);
    let old = app.process_view.selected as int;
    if old < app.filtered_rows.len() {
        let pid = app.filtered_rows[old].pid;
        pids.index_of_first_ensures(pid);
        if pids.contains(pid) {
            let first = pids.index_of_first(pid).unwrap();
            assert(rows[first].pid == pid);
            if 0 <= place < rows.len() && rows[place].pid == pid && (forall|k: int|
                0 <= k < place ==> (#[trigger] rows[k]).pid != pid) {
                assert(pids[place] == pid);
                assert(first == place);
            }
        } else if 0 <= place < rows.len() {
            assert(pids[place] == rows[place].pid);
            assert(pids.contains(pids[place]));
        }
    }
}

/// Making the lists of services and of endpoints anew lists what the query and the filter find.
/// The place that was selected stays selected, or the last one in a shorter list, and the window
/// shows it. Nothing else changes.
pub proof fn rebuilt_lists_are_found(app: AppView)
    requires
        found_services(app.service_rows, app.query).len() <= usize::MAX,
        found_endpoints(app.network_rows, app.query, app.network_filter).len() <= usize::MAX,
    ensures
        ({
            let after = app.rebuilt_services();
            let rows = after.filtered_services;
            &&& rows == found_services(app.service_rows, app.query)
            &&& after.service_view == app.service_view.clamped(rows.len() as int)
            &&& after == (AppView {
                filtered_services: rows,
                service_view: after.service_view,
                ..app
            })
        }),
        ({
            let after = app.rebuilt_network();
            let rows = after.filtered_network;
            &&& rows == found_endpoints(app.network_rows, app.query, app.network_filter)
            &&& after.network_view == app.network_view.clamped(rows.len() as int)
            &&& after == (AppView {
                filtered_network: rows,
                network_view: after.network_view,
                ..app
            })
        }),
{
}

/// Selecting a row of the process list selects it, moves the window on the sorted list so that
/// it shows the row, or the windows on the two groups, and changes nothing else. The window on
/// the group of the row is moved to show the row; the other one is only kept from showing
/// empty rows that it could fill. A window has at least one row.
pub proof fn selecting_moves_the_windows(app: AppView, selected: usize, place: int)
    requires
        app.filtered_rows.len() <= usize::MAX,
    ensures
        ({
            let after = app.with_process(selected as int);
            let groups = app.grouped_process_view;
            let apps = indexes_of(app.filtered_rows, ProcessCategory::App);
            let background = indexes_of(app.filtered_rows, ProcessCategory::Background);
            let rows = if app.process_view.visible_rows < 1 {
                1
            } else {
                app.process_view.visible_rows as int
            };
            let apps_rows = if groups.apps_visible_rows < 1 {
                1
            } else {
                groups.apps_visible_rows as int
            };
            let background_rows = if groups.background_visible_rows < 1 {
                1
            } else {
                groups.background_visible_rows as int
            };
            let apps_lowest = if apps.len() < apps_rows {
                0
            } else {
                apps.len() - apps_rows
            };
            let background_lowest = if background.len() < background_rows {
                0
            } else {
                background.len() - background_rows
            };
            let apps_start = if groups.apps_offset < apps_lowest {
                groups.apps_offset as int
            } else {
                apps_lowest
            };
            let background_start = if groups.background_offset < background_lowest {
                groups.background_offset as int
            } else {
                background_lowest
            };
            &&& after.process_view.selected == selected
            &&& after.process_view.visible_rows == app.process_view.visible_rows
            &&& app.process_sort_enabled ==> after.grouped_process_view == groups
            &&& !app.process_sort_enabled ==> after.process_view.offset == app.process_view.offset
            &&& app.process_sort_enabled && selected < app.filtered_rows.len()
                ==> after.process_view.offset == window_offset(
                app.filtered_rows.len() as int,
                selected as int,
                app.process_view.offset as int,
                rows,
            )
            &&& !app.process_sort_enabled && 0 <= place < apps.len() && apps[place] == selected
                ==> after.grouped_process_view.apps_offset == window_offset(
                apps.len() as int,
                place,
                apps_start,
                apps_rows,
            ) && after.grouped_process_view.background_offset == background_start
            &&& !app.process_sort_enabled && 0 <= place < background.len() && background[place]
                == selected ==> after.grouped_process_view.background_offset == window_offset(
                background.len() as int,
                place,
                background_start,
                background_rows,
            ) && after.grouped_process_view.apps_offset == apps_start
            &&& !app.process_sort_enabled && selected >= app.filtered_rows.len()
                ==> after.grouped_process_view.apps_offset == apps_start
                && after.grouped_process_view.background_offset == background_start
            &&& after.grouped_process_view.apps_visible_rows == groups.apps_visible_rows
            &&& after.grouped_process_view.background_visible_rows
                == groups.background_visible_rows
            &&& after == (AppView {
                process_view: after.process_view,
                grouped_process_view: after.grouped_process_view,
                ..app
            })
        }),
{
    let apps = indexes_of(app.filtered_rows, ProcessCategory::App);
    let background = indexes_of(app.filtered_rows, ProcessCategory::Background);
    indexes_are_the_category(app.filtered_rows, ProcessCategory::App);
    indexes_are_the_category(app.filtered_rows, ProcessCategory::Background);
    apps.index_of_first_ensures(selected);
    background.index_of_first_ensures(selected);
    if 0 <= place < apps.len() && apps[place] == selected {
        assert(apps.contains(apps[place]));
        assert(!background.contains(selected));
        let first = apps.index_of_first(selected).unwrap();
        assert(first == place) by {
            if first < place {
                assert(apps[first] < apps[place]);
            } else if place < first {
                assert(apps[place] < apps[first]);
            }
        }
    }
    if 0 <= place < background.len() && background[place] == selected {
        assert(background.contains(background[place]));
        assert(!apps.contains(selected));
        let first = background.index_of_first(selected).unwrap();
        assert(first == place) by {
            if first < place {
                assert(background[first] < background[place]);
            } else if place < first {
                assert(background[place] < background[first]);
            }
        }
    }
    if selected >= app.filtered_rows.len() {
        assert(!apps.contains(selected));
        assert(!background.contains(selected));
    }
    if app.process_sort_enabled && selected < app.filtered_rows.len() {
        let entries = entries_of(app.listed());
        let row = ProcessListEntry::Row(selected);
        entries.index_of_first_ensures(row);
        assert(entries[selected as int] == row);
        assert(entries.contains(row));
        let first = entries.index_of_first(row).unwrap();
        assert(entries[first] == ProcessListEntry::Row(first as usize));
    }
}

/// What is known of the state is what it holds.
pub proof fn state_models_show_what_is_held(app: AppState, i: int, pid: u32)
    ensures
        app@.process_rows.len() == app.process_rows.len(),
        app@.filtered_rows.len() == app.filtered_rows.len(),
        app@.service_rows.len() == app.service_rows.len(),
        app@.filtered_services.len() == app.filtered_services.len(),
        app@.network_rows.len() == app.network_rows.len(),
        app@.filtered_network.len() == app.filtered_network.len(),
        0 <= i < app.process_rows.len() ==> app@.process_rows[i] == app.process_rows@[i]@,
        0 <= i < app.filtered_rows.len() ==> app@.filtered_rows[i] == app.filtered_rows@[i]@,
        0 <= i < app.service_rows.len() ==> app@.service_rows[i] == app.service_rows@[i]@,
        0 <= i < app.filtered_services.len() ==> app@.filtered_services[i]
            == app.filtered_services@[i]@,
        0 <= i < app.network_rows.len() ==> app@.network_rows[i] == app.network_rows@[i]@,
        0 <= i < app.filtered_network.len() ==> app@.filtered_network[i]
            == app.filtered_network@[i]@,
        app@.cpu_history.contains_key(pid) <==> app.cpu_history@.contains_key(pid),
        app.cpu_history@.contains_key(pid) ==> app@.cpu_history[pid] == app.cpu_history@[pid]@,
        app@.priority_cache.contains_key(pid) <==> app.priority_cache@.contains_key(pid),
        app.priority_cache@.contains_key(pid) ==> app@.priority_cache[pid]
            == app.priority_cache@[pid]@,
        app@.process_stable_order == app.process_stable_order@,
        app@.next_process_order == app.next_process_order,
        app@.system_cpu_history == app.system_cpu_history@,
        app@.system_memory_history == app.system_memory_history@,
        app@.summary == app.summary,
        app@.active_tab == app.active_tab,
        app@.sort_mode == app.sort_mode,
        app@.process_sort_enabled == app.process_sort_enabled,
        app@.query == app.query@,
        app@.show_tree == app.show_tree,
        app@.pane_focus == app.pane_focus,
        app@.network_filter == app.network_filter,
        app@.overlay == app.overlay@,
        app@.process_view == app.process_view,
        app@.grouped_process_view == app.grouped_process_view,
        app@.service_view == app.service_view,
        app@.network_view == app.network_view,
        app@.process_detail_scroll == app.process_detail_scroll,
        app@.service_detail_scroll == app.service_detail_scroll,
        app@.network_detail_scroll == app.network_detail_scroll,
        app@.feedback == app.feedback@,
{
}

} // verus!
