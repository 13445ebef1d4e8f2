//! Moving through the pages and lists, and what the screen has room for.

use crate::api::ServiceRow;
use crate::layout::{
    band_edges, bar_height, body_sections, bordered_index, extent, grouped_process_sections,
    inside_border, is_piece, list_index_at_row, network_list_sections, piece, plain_index,
    plain_list_index_at_row, plus, root_sections, Axis, Rect,
};
use crate::listing::{
    display_to_process_index, down_then_up_returns, entries_of, every_row_is_listed_once,
    indexes_are_the_category, next_process_index, prev_process_index, row_above, row_below,
    selected_display_index, place_in, ProcessListEntry,
};
use crate::model::{
    context_actions, menu_actions, ActiveTab, ContextAction, ContextMenuKind, ContextMenuState,
    ContextMenuTarget, MenuView, NetworkStateFilter, Overlay, OverlayView, PaneFocus, SortMode,
    TargetView,
};
use crate::rows::{
    is_detail_of, NetworkRow, ProcessCategory, ProcessDetailView, ProcessRow, ProcessRowView,
};
use crate::sorting::views;
use crate::state::{AppState, AppView, GroupedProcessViewState};
use crate::window::{
    clamp_index, clamped_index, max_of, max_usize, min_of, visible_window, window_offset,
    ViewState,
};
use vstd::prelude::*;

verus! {

/// A part of a list as its window shows it.
pub open spec fn shown<A>(list: Seq<A>, offset: int, count: int) -> Seq<A> {
    if offset >= list.len() {
        Seq::empty()
    } else {
        list.subrange(offset, min_of(offset + count, list.len() as int))
    }
}

/// The processes at the given indexes.
pub open spec fn pids_at(rows: Seq<ProcessRowView>, indexes: Seq<usize>) -> Seq<u32> {
    Seq::new(indexes.len(), |i: int| rows[indexes[i] as int].pid)
}

/// The areas of the screen that the program shows its lists in.
#[derive(Debug, Clone, Copy, PartialEq, Eq, Structural)]
pub struct FrameAreas {
    pub summary: Rect,
    pub tabs: Rect,
    pub list: Rect,
    pub detail: Rect,
    pub footer: Rect,
    pub apps_list: Rect,
    pub background_list: Rect,
    pub filter_bar: Rect,
    pub endpoints: Rect,
}

impl FrameAreas {
    /// The area that a group of processes is listed in.
    pub open spec fn group(self, category: ProcessCategory) -> Rect {
        match category {
            ProcessCategory::App => self.apps_list,
            ProcessCategory::Background => self.background_list,
        }
    }
}

/// Whether the areas divide the screen: bands from top to bottom, the list and the details side
/// by side in the body, and the groups or the filter bar and the endpoints in the list. There
/// is only one way to divide a screen that ends within the coordinates.
pub open spec fn divides(frame: Rect, areas: FrameAreas) -> bool {
    let edges = band_edges(extent(frame, Axis::Vertical));
    let body = piece(frame, Axis::Vertical, edges[2], edges[3]);
    let width = extent(body, Axis::Horizontal);
    let middle = (64 * width + 50) / 100;
    let inner = inside_border(areas.list);
    let half = (inner.height - 2) / 2;
    let list_height = extent(areas.list, Axis::Vertical);
    &&& areas.summary == piece(frame, Axis::Vertical, edges[0], edges[1])
    &&& areas.tabs == piece(frame, Axis::Vertical, edges[1], edges[2])
    &&& areas.footer == piece(frame, Axis::Vertical, edges[3], edges[4])
    &&& areas.list == piece(body, Axis::Horizontal, 0, middle)
    &&& areas.detail == piece(body, Axis::Horizontal, middle, width)
    &&& areas.filter_bar == piece(areas.list, Axis::Vertical, 0, bar_height(list_height))
    &&& areas.endpoints == piece(
        areas.list,
        Axis::Vertical,
        bar_height(list_height),
        list_height,
    )
    &&& inner.height < 4 ==> {
        let empty = Rect::of(inner.x as int, plus(inner.y, 1), inner.width as int, 0);
        areas.apps_list == empty && areas.background_list == empty
    }
    &&& 4 <= inner.height && inner.y + inner.height <= u16::MAX ==> {
        &&& areas.apps_list == piece(inner, Axis::Vertical, 1, 1 + half)
        &&& areas.background_list == piece(
            inner,
            Axis::Vertical,
            2 + half,
            inner.height as int,
        )
    }
    &&& 4 <= inner.height && inner.y + inner.height > u16::MAX ==> {
        &&& is_piece(inner, Axis::Vertical, areas.apps_list)
        &&& is_piece(inner, Axis::Vertical, areas.background_list)
        &&& areas.apps_list.y + areas.apps_list.height <= areas.background_list.y
        &&& areas.background_list.y + areas.background_list.height == u16::MAX
    }
}

/// Divides the screen.
pub fn frame_areas(frame: Rect) -> (areas: FrameAreas)
    ensures
        divides(frame, areas),
{
    let bands = root_sections(frame);
    let body: Rect = bands[2];
    let panes = body_sections(body);
    let list: Rect = panes[0];
    let parts = network_list_sections(list);
    let groups = grouped_process_sections(list);
    FrameAreas {
        summary: bands[0],
        tabs: bands[1],
        list,
        detail: panes[1],
        footer: bands[3],
        apps_list: groups.1,
        background_list: groups.3,
        filter_bar: parts[0],
        endpoints: parts[1],
    }
}

/// A height less some rows for borders and headers, but at least one row.
pub open spec fn rows_in(height: u16, taken: int) -> usize {
    max_of(height - taken, 1) as usize
}

/// A height less some rows for borders and headers, but at least one row.
fn rows_within(height: u16, taken: u16) -> (r: usize)
    ensures
        r == rows_in(height, taken as int),
{
    max_usize(height.saturating_sub(taken) as usize, 1)
}

impl AppView {
    /// The state with the next entry of the list on show selected.
    pub open spec fn after_next(self) -> AppView {
        match self.active_tab {
            ActiveTab::Processes => self.with_process(
                match row_below(entries_of(self.listed()), self.process_view.selected) {
                    Some(index) => index as int,
                    None => self.process_view.selected as int,
                },
            ),
            ActiveTab::Services => AppView {
                service_view: self.service_view.after_next(self.filtered_services.len() as int),
                ..self
            },
            ActiveTab::Network => AppView {
                network_view: self.network_view.after_next(self.filtered_network.len() as int),
                ..self
            },
            ActiveTab::Performance => self,
        }
    }

    /// The state with the previous entry of the list on show selected.
    pub open spec fn after_prev(self) -> AppView {
        match self.active_tab {
            ActiveTab::Processes => self.with_process(
                match row_above(entries_of(self.listed()), self.process_view.selected) {
                    Some(index) => index as int,
                    None => self.process_view.selected as int,
                },
            ),
            ActiveTab::Services => AppView {
                service_view: self.service_view.after_prev(self.filtered_services.len() as int),
                ..self
            },
            ActiveTab::Network => AppView {
                network_view: self.network_view.after_prev(self.filtered_network.len() as int),
                ..self
            },
            ActiveTab::Performance => self,
        }
    }

    /// The state on another page: nothing lies over it, and its list has the focus.
    pub open spec fn on_tab(self, tab: ActiveTab) -> AppView {
        AppView {
            active_tab: tab,
            overlay: OverlayView::Closed,
            pane_focus: PaneFocus::List,
            ..self
        }
    }

    /// The state with the next sort: off, CPU, memory, number, name, and off again.
    pub open spec fn with_next_sort(self) -> AppView {
        let next = if !self.process_sort_enabled {
            AppView { process_sort_enabled: true, sort_mode: SortMode::CpuDesc, ..self }
        } else {
            match self.sort_mode {
                SortMode::CpuDesc => AppView { sort_mode: SortMode::MemoryDesc, ..self },
                SortMode::MemoryDesc => AppView { sort_mode: SortMode::PidAsc, ..self },
                SortMode::PidAsc => AppView { sort_mode: SortMode::NameAsc, ..self },
                SortMode::NameAsc => AppView { process_sort_enabled: false, ..self },
            }
        };
        next.rebuilt_processes()
    }

    /// The state with the endpoint list filtered by a state.
    pub open spec fn with_network_filter(self, filter: NetworkStateFilter) -> AppView {
        AppView { network_filter: filter, ..self }.rebuilt_network()
    }

    /// The state with the list of the page made anew.
    pub open spec fn rebuilt_tab(self) -> AppView {
        match self.active_tab {
            ActiveTab::Processes => self.rebuilt_processes(),
            ActiveTab::Performance => self,
            ActiveTab::Services => self.rebuilt_services(),
            ActiveTab::Network => self.rebuilt_network(),
        }
    }

    /// The state with the details of the page moved up by one line, as far as can be counted.
    pub open spec fn scrolled_down(self) -> AppView {
        match self.active_tab {
            ActiveTab::Processes => AppView {
                process_detail_scroll: plus(self.process_detail_scroll, 1) as u16,
                ..self
            },
            ActiveTab::Services => AppView {
                service_detail_scroll: plus(self.service_detail_scroll, 1) as u16,
                ..self
            },
            ActiveTab::Network => AppView {
                network_detail_scroll: plus(self.network_detail_scroll, 1) as u16,
                ..self
            },
            ActiveTab::Performance => self,
        }
    }

    /// The state with the details of the page moved down by one line, at most to the top.
    pub open spec fn scrolled_up(self) -> AppView {
        match self.active_tab {
            ActiveTab::Processes => AppView {
                process_detail_scroll: max_of(self.process_detail_scroll - 1, 0) as u16,
                ..self
            },
            ActiveTab::Services => AppView {
                service_detail_scroll: max_of(self.service_detail_scroll - 1, 0) as u16,
                ..self
            },
            ActiveTab::Network => AppView {
                network_detail_scroll: max_of(self.network_detail_scroll - 1, 0) as u16,
                ..self
            },
            ActiveTab::Performance => self,
        }
    }

    /// The state with the sizes of the lists taken from the areas of the screen.
    pub open spec fn measured(self, areas: FrameAreas) -> AppView {
        let grouped = if self.process_sort_enabled {
            self.grouped_process_view
        } else {
            GroupedProcessViewState {
                apps_visible_rows: areas.apps_list.height as usize,
                background_visible_rows: areas.background_list.height as usize,
                ..self.grouped_process_view
            }
        };
        let processes = ViewState {
            visible_rows: rows_in(
                areas.list.height,
                if self.show_tree || !self.process_sort_enabled {
                    2
                } else {
                    3
                },
            ),
            ..self.process_view
        };
        let services = ViewState {
            visible_rows: rows_in(areas.list.height, 3),
            ..self.service_view
        };
        let endpoints = ViewState {
            visible_rows: rows_in(areas.endpoints.height, 3),
            ..self.network_view
        };
        AppView {
            process_view: processes,
            grouped_process_view: grouped,
            service_view: services.clamped(self.filtered_services.len() as int),
            network_view: endpoints.clamped(self.filtered_network.len() as int),
            ..self
        }.with_process(
            clamped_index(self.filtered_rows.len() as int, self.process_view.selected as int),
        )
    }

    /// The processes that the window on the process list shows.
    pub open spec fn visible_pids(self) -> Seq<u32> {
        if !self.process_sort_enabled {
            let groups = self.grouped_process_view;
            pids_at(
                self.filtered_rows,
                shown(
                    self.apps(),
                    groups.apps_offset as int,
                    max_of(groups.apps_visible_rows as int, 1),
                ) + shown(
                    self.background(),
                    groups.background_offset as int,
                    max_of(groups.background_visible_rows as int, 1),
                ),
            )
        } else {
            let entries = entries_of(self.listed());
            let visible = max_of(self.process_view.visible_rows as int, 1);
            let place = match place_in(entries, self.process_view.selected) {
                Some(i) => i,
                None => 0,
            };
            let offset = window_offset(
                entries.len() as int,
                place,
                self.process_view.offset as int,
                visible,
            );
            pids_at(self.filtered_rows, shown(self.listed(), offset, visible))
        }
    }

    /// The processes whose priorities are looked up: those on show, and the selected one.
    pub open spec fn priority_pids(self) -> Seq<u32> {
        let visible = self.visible_pids();
        match self.selected_process() {
            Some(row) => if visible.contains(row.pid) {
                visible
            } else {
                visible.push(row.pid)
            },
            None => visible,
        }
    }

    /// The entries of the open context menu.
    pub open spec fn open_menu_actions(self) -> Seq<ContextAction> {
        match self.overlay {
            OverlayView::ContextMenu(menu) => menu_actions(menu.kind),
            _ => Seq::empty(),
        }
    }

    /// The context menu for the selection of the page.
    pub open spec fn selection_menu(self) -> OverlayView {
        let menu = match self.active_tab {
            ActiveTab::Processes => match self.target() {
                Some(pid) => Some((ContextMenuKind::Process, TargetView::ProcessPid(pid))),
                None => None,
            },
            ActiveTab::Services => match self.chosen_service() {
                Some(row) => Some(
                    (ContextMenuKind::Service, TargetView::ServiceName(row.service_name)),
                ),
                None => None,
            },
            ActiveTab::Network => match self.target() {
                Some(pid) => Some((ContextMenuKind::Network, TargetView::NetworkPid(pid))),
                None => None,
            },
            ActiveTab::Performance => None,
        };
        match menu {
            Some((kind, target)) => OverlayView::ContextMenu(
                MenuView { kind, selected_index: 0, target },
            ),
            None => OverlayView::Closed,
        }
    }

    /// The state with the context menu for the selection open, if there is a selection.
    pub open spec fn with_menu(self) -> AppView {
        AppView { pane_focus: PaneFocus::List, overlay: self.selection_menu(), ..self }
    }

    /// The state with the entry at a row of the screen selected.
    pub open spec fn with_row_at(self, areas: FrameAreas, row: int) -> AppView {
        match self.active_tab {
            ActiveTab::Processes => if !self.process_sort_enabled {
                match plain_index(areas.apps_list, row) {
                    Some(index) => {
                        let place = index + self.grouped_process_view.apps_offset;
                        if place < self.apps().len() {
                            self.with_process(self.apps()[place] as int)
                        } else {
                            self
                        }
                    },
                    None => match plain_index(areas.background_list, row) {
                        Some(index) => {
                            let place = index + self.grouped_process_view.background_offset;
                            if place < self.background().len() {
                                self.with_process(self.background()[place] as int)
                            } else {
                                self
                            }
                        },
                        None => self,
                    },
                }
            } else {
                match bordered_index(areas.list, row, !self.show_tree) {
                    Some(index) => {
                        let place = index + self.process_view.offset;
                        if place < self.listed().len() {
                            self.with_process(self.listed()[place] as int)
                        } else {
                            self.synced()
                        }
                    },
                    None => self,
                }
            },
            ActiveTab::Services => match bordered_index(areas.list, row, true) {
                Some(index) => AppView {
                    service_view: ViewState {
                        selected: min_of(
                            index + self.service_view.offset,
                            usize::MAX as int,
                        ) as usize,
                        ..self.service_view
                    }.clamped(self.filtered_services.len() as int),
                    ..self
                },
                None => self,
            },
            ActiveTab::Network => match bordered_index(areas.endpoints, row, true) {
                Some(index) => AppView {
                    network_view: ViewState {
                        selected: min_of(
                            index + self.network_view.offset,
                            usize::MAX as int,
                        ) as usize,
                        ..self.network_view
                    }.clamped(self.filtered_network.len() as int),
                    ..self
                },
                None => self,
            },
            ActiveTab::Performance => self,
        }
    }
}

/// Appends the processes at the part of `indexes` that a window shows.
fn append_shown(
    pids: &mut Vec<u32>,
    rows: &Vec<ProcessRow>,
    indexes: &Vec<usize>,
    offset: usize,
    count: usize,
)
    requires
        forall|i: int| 0 <= i < indexes.len() ==> (#[trigger] indexes@[i]) < rows.len(),
    ensures
        final(pids)@ == old(pids)@ + pids_at(
            views(rows@),
            shown(indexes@, offset as int, count as int),
        ),
{
    let ghost start = pids@;
    let ghost part = shown(indexes@, offset as int, count as int);
    let mut taken: usize = 0;
    let mut i: usize = offset;
    while i < indexes.len() && taken < count
        invariant
            offset <= i,
            i == offset + taken,
            taken <= count,
            taken == 0 || i <= indexes.len(),
            taken <= part.len(),
            part == shown(indexes@, offset as int, count as int),
            forall|k: int| 0 <= k < indexes.len() ==> (#[trigger] indexes@[k]) < rows.len(),
            pids@ == start + pids_at(views(rows@), part.take(taken as int)),
        decreases count - taken,
    {
        let index: usize = indexes[i];
        assert(part[taken as int] == index);
        pids.push(rows[index].pid);
        assert(part.take(taken + 1) =~= part.take(taken as int).push(index));
        taken = taken + 1;
        i = i + 1;
        assert(pids@ =~= start + pids_at(views(rows@), part.take(taken as int)));
    }
    assert(part.take(taken as int) =~= part);
}

impl AppState {
    /// Selects the next entry of the list on show.
    pub fn select_next(&mut self)
        ensures
            final(self)@ == old(self)@.after_next(),
    {
        match self.active_tab {
            ActiveTab::Processes => {
                let entries = self.process_entries();
                if let Some(index) = next_process_index(
                    entries.as_slice(),
                    self.process_view.selected,
                ) {
                    self.process_view.selected = index;
                }
                self.sync_process_view_state();
            },
            ActiveTab::Services => {
                let len: usize = self.filtered_services.len();
                self.service_view.select_next(len);
            },
            ActiveTab::Network => {
                let len: usize = self.filtered_network.len();
                self.network_view.select_next(len);
            },
            ActiveTab::Performance => {},
        }
    }

    /// Selects the previous entry of the list on show.
    pub fn select_prev(&mut self)
        ensures
            final(self)@ == old(self)@.after_prev(),
    {
        match self.active_tab {
            ActiveTab::Processes => {
                let entries = self.process_entries();
                if let Some(index) = prev_process_index(
                    entries.as_slice(),
                    self.process_view.selected,
                ) {
                    self.process_view.selected = index;
                }
                self.sync_process_view_state();
            },
            ActiveTab::Services => {
                let len: usize = self.filtered_services.len();
                self.service_view.select_prev(len);
            },
            ActiveTab::Network => {
                let len: usize = self.filtered_network.len();
                self.network_view.select_prev(len);
            },
            ActiveTab::Performance => {},
        }
    }

    /// The details of the selected process.
    pub fn selected_process_detail(&self) -> (r: Option<ProcessDetailView>)
        ensures
            match (r, self@.selected_process()) {
                (Some(detail), Some(row)) => is_detail_of(detail, row),
                (None, None) => true,
                _ => false,
            },
    {
        let selected: usize = self.process_view.selected;
        if selected < self.filtered_rows.len() {
            Some(ProcessDetailView::of_row(&self.filtered_rows[selected]))
        } else {
            None
        }
    }

    /// The selected service.
    pub fn selected_service(&self) -> (r: Option<&ServiceRow>)
        ensures
            match (r, self@.chosen_service()) {
                (Some(service), Some(row)) => service@ == row,
                (None, None) => true,
                _ => false,
            },
    {
        let selected: usize = self.service_view.selected;
        if selected < self.filtered_services.len() {
            Some(&self.filtered_services[selected])
        } else {
            None
        }
    }

    /// The selected endpoint.
    pub fn selected_network(&self) -> (r: Option<&NetworkRow>)
        ensures
            match (r, self@.chosen_endpoint()) {
                (Some(endpoint), Some(row)) => endpoint@ == row,
                (None, None) => true,
                _ => false,
            },
    {
        let selected: usize = self.network_view.selected;
        if selected < self.filtered_network.len() {
            Some(&self.filtered_network[selected])
        } else {
            None
        }
    }

    /// The process that a command acts on.
    pub fn selected_target_pid(&self) -> (r: Option<u32>)
        ensures
            r == self@.target(),
    {
        match self.active_tab {
            ActiveTab::Processes => {
                let selected: usize = self.process_view.selected;
                if selected < self.filtered_rows.len() {
                    Some(self.filtered_rows[selected].pid)
                } else {
                    None
                }
            },
            ActiveTab::Network => match self.selected_network() {
                Some(row) => Some(row.pid),
                None => None,
            },
            _ => None,
        }
    }

    /// The name of the selected service.
    pub fn selected_service_name(&self) -> (r: Option<String>)
        ensures
            match (r, self@.chosen_service()) {
                (Some(name), Some(row)) => name@ == row.service_name,
                (None, None) => true,
                _ => false,
            },
    {
        match self.selected_service() {
            Some(row) => Some(row.service_name.clone()),
            None => None,
        }
    }

    /// Goes to a page; tells whether the services are wanted now.
    pub fn set_active_tab(&mut self, tab: ActiveTab) -> (services_wanted: bool)
        ensures
            final(self)@ == old(self)@.on_tab(tab),
            services_wanted == (tab == ActiveTab::Services),
    {
        self.active_tab = tab;
        self.overlay = Overlay::Closed;
        self.pane_focus = PaneFocus::List;
        tab == ActiveTab::Services
    }

    /// Goes on to the next filter of the endpoint list.
    pub fn cycle_network_filter(&mut self)
        ensures
            final(self)@ == old(self)@.with_network_filter(old(self).network_filter.following()),
    {
        self.network_filter = self.network_filter.next();
        self.rebuild_network_view();
    }

    /// Goes on to the next sort of the process list.
    pub fn cycle_process_sort_mode(&mut self)
        ensures
            final(self)@ == old(self)@.with_next_sort(),
    {
        if !self.process_sort_enabled {
            self.process_sort_enabled = true;
            self.sort_mode = SortMode::CpuDesc;
        } else {
            match self.sort_mode {
                SortMode::CpuDesc => {
                    self.sort_mode = SortMode::MemoryDesc;
                },
                SortMode::MemoryDesc => {
                    self.sort_mode = SortMode::PidAsc;
                },
                SortMode::PidAsc => {
                    self.sort_mode = SortMode::NameAsc;
                },
                SortMode::NameAsc => {
                    self.process_sort_enabled = false;
                },
            }
        }
        self.rebuild_process_view();
    }

    /// Takes the sizes of the lists from the areas of the screen.
    pub fn measure(&mut self, areas: &FrameAreas)
        ensures
            final(self)@ == old(self)@.measured(*areas),
    {
        let taken: u16 = if self.show_tree || !self.process_sort_enabled {
            2
        } else {
            3
        };
        self.process_view.visible_rows = rows_within(areas.list.height, taken);
        if !self.process_sort_enabled {
            self.grouped_process_view.apps_visible_rows = areas.apps_list.height as usize;
            self.grouped_process_view.background_visible_rows =
            areas.background_list.height as usize;
        }
        self.service_view.visible_rows = rows_within(areas.list.height, 3);
        self.network_view.visible_rows = rows_within(areas.endpoints.height, 3);
        self.process_view.selected =
        clamp_index(self.filtered_rows.len(), self.process_view.selected);
        let services: usize = self.filtered_services.len();
        self.service_view.clamp(services);
        let endpoints: usize = self.filtered_network.len();
        self.network_view.clamp(endpoints);
        self.sync_process_view_state();
    }

    /// Takes the sizes of the lists from the screen.
    pub fn update_view_metrics(&mut self, area: Rect)
        ensures
            exists|areas: FrameAreas| #[trigger]
                divides(area, areas) && final(self)@ == old(self)@.measured(areas),
    {
        let areas = frame_areas(area);
        self.measure(&areas);
    }

    /// The entries of the open context menu.
    pub fn current_context_actions(&self) -> (r: Vec<ContextAction>)
        ensures
            r@ == self@.open_menu_actions(),
    {
        match &self.overlay {
            Overlay::ContextMenu(menu) => context_actions(menu.kind),
            _ => Vec::new(),
        }
    }

    /// The processes that the window on the process list shows.
    pub fn visible_process_pids(&self) -> (r: Vec<u32>)
        ensures
            r@ == self@.visible_pids(),
    {
        let ghost rows = self@.filtered_rows;
        let count: usize = self.filtered_rows.len();
        let mut pids: Vec<u32> = Vec::new();
        proof {
            assert(rows.len() == count);
            indexes_are_the_category(rows, ProcessCategory::App);
            indexes_are_the_category(rows, ProcessCategory::Background);
        }
        if !self.process_sort_enabled {
            let (apps, background) = self.grouped_process_indexes();
            assert forall|i: int| 0 <= i < apps.len() implies (#[trigger] apps@[i])
                < self.filtered_rows.len() by {
                assert(apps@.contains(apps@[i]));
            }
            assert forall|i: int| 0 <= i < background.len() implies (#[trigger] background@[i])
                < self.filtered_rows.len() by {
                assert(background@.contains(background@[i]));
            }
            append_shown(
                &mut pids,
                &self.filtered_rows,
                &apps,
                self.grouped_process_view.apps_offset,
                max_usize(self.grouped_process_view.apps_visible_rows, 1),
            );
            append_shown(
                &mut pids,
                &self.filtered_rows,
                &background,
                self.grouped_process_view.background_offset,
                max_usize(self.grouped_process_view.background_visible_rows, 1),
            );
            assert(pids@ =~= self@.visible_pids());
            return pids;
        }
        let entries = self.process_entries();
        let place: usize = match selected_display_index(
            entries.as_slice(),
            self.process_view.selected,
        ) {
            Some(i) => i,
            None => 0,
        };
        let visible: usize = max_usize(self.process_view.visible_rows, 1);
        let (offset, _) = visible_window(
            entries.len(),
            place,
            self.process_view.offset,
            visible,
        );
        let indexes = row_indexes(&entries);
        assert(indexes@ =~= self@.listed());
        append_shown(&mut pids, &self.filtered_rows, &indexes, offset, visible);
        assert(pids@ =~= self@.visible_pids());
        pids
    }

    /// The processes whose priorities are looked up.
    pub fn priority_targets(&self) -> (r: Vec<u32>)
        ensures
            r@ == self@.priority_pids(),
    {
        let mut targets = self.visible_process_pids();
        let selected: usize = self.process_view.selected;
        if selected < self.filtered_rows.len() {
            let pid: u32 = self.filtered_rows[selected].pid;
            if !has_pid(&targets, pid) {
                targets.push(pid);
            }
        }
        targets
    }

    /// Opens the context menu for the selection of the page.
    pub fn open_context_menu_for_selection(&mut self)
        ensures
            final(self)@ == old(self)@.with_menu(),
    {
        self.pane_focus = PaneFocus::List;
        let menu: Option<ContextMenuState> = match self.active_tab {
            ActiveTab::Processes => match self.selected_target_pid() {
                Some(pid) => Some(
                    ContextMenuState {
                        kind: ContextMenuKind::Process,
                        selected_index: 0,
                        target: ContextMenuTarget::ProcessPid(pid),
                    },
                ),
                None => None,
            },
            ActiveTab::Services => match self.selected_service_name() {
                Some(name) => Some(
                    ContextMenuState {
                        kind: ContextMenuKind::Service,
                        selected_index: 0,
                        target: ContextMenuTarget::ServiceName(name),
                    },
                ),
                None => None,
            },
            ActiveTab::Network => match self.selected_target_pid() {
                Some(pid) => Some(
                    ContextMenuState {
                        kind: ContextMenuKind::Network,
                        selected_index: 0,
                        target: ContextMenuTarget::NetworkPid(pid),
                    },
                ),
                None => None,
            },
            ActiveTab::Performance => None,
        };
        self.overlay =
        match menu {
            Some(state) => Overlay::ContextMenu(state),
            None => Overlay::Closed,
        };
    }

    /// Makes the list of the page anew.
    pub fn rebuild_active_tab(&mut self)
        ensures
            final(self)@ == old(self)@.rebuilt_tab(),
    {
        match self.active_tab {
            ActiveTab::Processes => self.rebuild_process_view(),
            ActiveTab::Performance => {},
            ActiveTab::Services => self.rebuild_service_view(),
            ActiveTab::Network => self.rebuild_network_view(),
        }
    }

    /// Moves the details of the page up by one line.
    pub fn increment_detail_scroll(&mut self)
        ensures
            final(self)@ == old(self)@.scrolled_down(),
    {
        match self.active_tab {
            ActiveTab::Processes => {
                self.process_detail_scroll = self.process_detail_scroll.saturating_add(1);
            },
            ActiveTab::Services => {
                self.service_detail_scroll = self.service_detail_scroll.saturating_add(1);
            },
            ActiveTab::Network => {
                self.network_detail_scroll = self.network_detail_scroll.saturating_add(1);
            },
            ActiveTab::Performance => {},
        }
    }

    /// Moves the details of the page down by one line.
    pub fn decrement_detail_scroll(&mut self)
        ensures
            final(self)@ == old(self)@.scrolled_up(),
    {
        match self.active_tab {
            ActiveTab::Processes => {
                self.process_detail_scroll = self.process_detail_scroll.saturating_sub(1);
            },
            ActiveTab::Services => {
                self.service_detail_scroll = self.service_detail_scroll.saturating_sub(1);
            },
            ActiveTab::Network => {
                self.network_detail_scroll = self.network_detail_scroll.saturating_sub(1);
            },
            ActiveTab::Performance => {},
        }
    }

    /// Selects the entry at a row of the screen.
    pub fn select_row_at(&mut self, areas: &FrameAreas, row: u16)
        ensures
            final(self)@ == old(self)@.with_row_at(*areas, row as int),
    {
        match self.active_tab {
            ActiveTab::Processes => {
                if !self.process_sort_enabled {
                    let (apps, background) = self.grouped_process_indexes();
                    if let Some(index) = plain_list_index_at_row(areas.apps_list, row) {
                        let place: usize = index.saturating_add(
                            self.grouped_process_view.apps_offset,
                        );
                        if place < apps.len() {
                            self.process_view.selected = apps[place];
                            self.sync_process_view_state();
                        }
                    } else if let Some(index) = plain_list_index_at_row(
                        areas.background_list,
                        row,
                    ) {
                        let place: usize = index.saturating_add(
                            self.grouped_process_view.background_offset,
                        );
                        if place < background.len() {
                            self.process_view.selected = background[place];
                            self.sync_process_view_state();
                        }
                    }
                } else if let Some(index) = list_index_at_row(areas.list, row, !self.show_tree) {
                    let entries = self.process_entries();
                    let place: usize = index.saturating_add(self.process_view.offset);
                    if let Some(selected) = display_to_process_index(entries.as_slice(), place) {
                        self.process_view.selected =
                        clamp_index(self.filtered_rows.len(), selected);
                    }
                    self.sync_process_view_state();
                }
            },
            ActiveTab::Services => {
                if let Some(index) = list_index_at_row(areas.list, row, true) {
                    let len: usize = self.filtered_services.len();
                    self.service_view.selected = index.saturating_add(self.service_view.offset);
                    self.service_view.clamp(len);
                }
            },
            ActiveTab::Network => {
                if let Some(index) = list_index_at_row(areas.endpoints, row, true) {
                    let len: usize = self.filtered_network.len();
                    self.network_view.selected = index.saturating_add(self.network_view.offset);
                    self.network_view.clamp(len);
                }
            },
            ActiveTab::Performance => {},
        }
    }
}

/// The rows of entries.
fn row_indexes(entries: &Vec<ProcessListEntry>) -> (r: Vec<usize>)
    ensures
        r.len() == entries.len(),
        forall|k: int|
            0 <= k < r.len() ==> ProcessListEntry::Row(#[trigger] r@[k]) == entries@[k],
{
    let mut indexes: Vec<usize> = Vec::new();
    let mut i: usize = 0;
    while i < entries.len()
        invariant
            i == indexes.len(),
            i <= entries.len(),
            forall|k: int|
                0 <= k < i ==> ProcessListEntry::Row(#[trigger] indexes@[k]) == entries@[k],
        decreases entries.len() - i,
    {
        let ProcessListEntry::Row(index) = entries[i];
        indexes.push(index);
        i = i + 1;
    }
    indexes
}

/// Whether a process is among the given ones.
pub fn has_pid(pids: &Vec<u32>, pid: u32) -> (found: bool)
    ensures
        found == pids@.contains(pid),
{
    let mut i: usize = 0;
    while i < pids.len()
        invariant
            i <= pids.len(),
            forall|k: int| 0 <= k < i ==> #[trigger] pids@[k] != pid,
        decreases pids.len() - i,
    {
        if pids[i] == pid {
            return true;
        }
        i = i + 1;
    }
    false
}

/// Five steps through the sorts lead back to the one that was on.
pub proof fn sorts_form_a_cycle(app: AppView)
    ensures
        ({
            let after =
                app.with_next_sort().with_next_sort().with_next_sort().with_next_sort().with_next_sort();
            &&& after.process_sort_enabled == app.process_sort_enabled
            &&& app.process_sort_enabled ==> after.sort_mode == app.sort_mode
        }),
{
    lemma_rebuilding_keeps_sort(
        AppView { process_sort_enabled: true, sort_mode: SortMode::CpuDesc, ..app },
    );
}

/// Making the list anew keeps the sort.
proof fn lemma_rebuilding_keeps_sort(app: AppView)
    ensures
        app.rebuilt_processes().process_sort_enabled == app.process_sort_enabled,
        app.rebuilt_processes().sort_mode == app.sort_mode,
{
}

/// Scrolling the details down and up again returns to the line, unless the count is at its
/// end.
pub proof fn scrolling_back_returns(app: AppView)
    requires
        app.process_detail_scroll < u16::MAX,
        app.service_detail_scroll < u16::MAX,
        app.network_detail_scroll < u16::MAX,
    ensures
        app.scrolled_down().scrolled_up() == app,
{
}

/// Moving the selection down and up again returns to the process, unless it is the last one
/// of the list.
pub proof fn process_selection_returns(app: AppView)
    requires
        app.active_tab == ActiveTab::Processes,
        app.process_view.selected < app.filtered_rows.len() <= usize::MAX,
        app.listed().last() != app.process_view.selected,
    ensures
        app.after_next().after_prev().process_view.selected == app.process_view.selected,
{
    let rows = app.filtered_rows;
    let selected = app.process_view.selected;
    let entries = entries_of(app.listed());
    every_row_is_listed_once(rows, app.process_sort_enabled);
    assert(app.listed().contains(selected));
    let k = choose|k: int| 0 <= k < app.listed().len() && app.listed()[k] == selected;
    assert(entries[k] == ProcessListEntry::Row(selected));
    assert forall|i: int, j: int|
        0 <= i < entries.len() && 0 <= j < entries.len() && i != j implies entries[i]
        != entries[j] by {
        assert(app.listed()[i] != app.listed()[j]);
    }
    down_then_up_returns(entries, selected);
}

/// A window shows the entries of a list from its offset on, in their order, as many as it has
/// rows for and as there are.
pub proof fn windows_show_what_follows_their_offset<A>(list: Seq<A>, offset: int, count: int, k: int)
    requires
        0 <= offset,
        0 <= count,
    ensures
        shown(list, offset, count).len() == (if offset >= list.len() {
            0
        } else if list.len() - offset < count {
            list.len() - offset
        } else {
            count
        }),
        0 <= k < shown(list, offset, count).len() ==> shown(list, offset, count)[k] == list[offset
            + k],
{
}

/// Moving down or up selects the next or the previous entry of the list on show, as far as the
/// list goes, and changes nothing but the selection and the windows of that list. In the process
/// list the entries follow each other as they are listed.
pub proof fn moving_selects_the_neighbour(app: AppView, place: int)
    requires
        app.filtered_rows.len() <= usize::MAX,
        app.filtered_services.len() <= usize::MAX,
        app.filtered_network.len() <= usize::MAX,
    ensures
        ({
            let next = app.after_next();
            let prev = app.after_prev();
            let listed = app.listed();
            let here = 0 <= place < listed.len() && listed[place] == app.process_view.selected;
            &&& app.active_tab == ActiveTab::Processes && here ==> next.process_view.selected == (
            if place + 1 < listed.len() {
                listed[place + 1]
            } else {
                listed[place]
            }) && prev.process_view.selected == (if place > 0 {
                listed[place - 1]
            } else {
                listed[place]
            })
            &&& app.active_tab == ActiveTab::Processes && app.process_view.selected
                >= app.filtered_rows.len() ==> next.process_view.selected
                == app.process_view.selected && prev.process_view.selected
                == app.process_view.selected
            &&& app.active_tab == ActiveTab::Processes ==> next == app.with_process(
                next.process_view.selected as int,
            ) && prev == app.with_process(prev.process_view.selected as int)
            &&& app.active_tab == ActiveTab::Services ==> next == (AppView {
                service_view: app.service_view.after_next(app.filtered_services.len() as int),
                ..app
            }) && prev == (AppView {
                service_view: app.service_view.after_prev(app.filtered_services.len() as int),
                ..app
            })
            &&& app.active_tab == ActiveTab::Network ==> next == (AppView {
                network_view: app.network_view.after_next(app.filtered_network.len() as int),
                ..app
            }) && prev == (AppView {
                network_view: app.network_view.after_prev(app.filtered_network.len() as int),
                ..app
            })
            &&& app.active_tab == ActiveTab::Performance ==> next == app && prev == app
            &&& listed == crate::listing::listed_indexes(
                app.filtered_rows,
                app.process_sort_enabled,
            )
        }),
{
    let listed = app.listed();
    let entries = entries_of(listed);
    let selected = app.process_view.selected;
    every_row_is_listed_once(app.filtered_rows, app.process_sort_enabled);
    let row = ProcessListEntry::Row(selected);
    entries.index_of_first_ensures(row);
    if 0 <= place < listed.len() && listed[place] == selected {
        assert(entries[place] == row);
        assert(entries.contains(row));
        let first = entries.index_of_first(row).unwrap();
        assert(entries[first] == row);
        assert(listed[first] == listed[place]);
        assert(first == place);
    }
    if selected >= app.filtered_rows.len() {
        assert(!listed.contains(selected));
        if entries.contains(row) {
            let k = choose|k: int| 0 <= k < entries.len() && entries[k] == row;
            assert(listed[k] == selected);
        }
    }
}

/// Scrolling moves the details of the page by one line, down as far as can be counted and up to
/// the top, and changes nothing else; the performance page has no details.
pub proof fn scrolling_moves_by_one_line(app: AppView)
    ensures
        ({
            let down = app.scrolled_down();
            let up = app.scrolled_up();
            let more = |line: u16|
                if line < 65535 {
                    line + 1
                } else {
                    65535
                };
            let less = |line: u16|
                if line > 0 {
                    line - 1
                } else {
                    0
                };
            &&& app.active_tab == ActiveTab::Processes ==> down.process_detail_scroll == more(
                app.process_detail_scroll,
            ) && up.process_detail_scroll == less(app.process_detail_scroll)
            &&& app.active_tab == ActiveTab::Services ==> down.service_detail_scroll == more(
                app.service_detail_scroll,
            ) && up.service_detail_scroll == less(app.service_detail_scroll)
            &&& app.active_tab == ActiveTab::Network ==> down.network_detail_scroll == more(
                app.network_detail_scroll,
            ) && up.network_detail_scroll == less(app.network_detail_scroll)
            &&& app.active_tab == ActiveTab::Performance ==> down == app && up == app
            &&& down == (AppView {
                process_detail_scroll: down.process_detail_scroll,
                service_detail_scroll: down.service_detail_scroll,
                network_detail_scroll: down.network_detail_scroll,
                ..app
            })
            &&& up == (AppView {
                process_detail_scroll: up.process_detail_scroll,
                service_detail_scroll: up.service_detail_scroll,
                network_detail_scroll: up.network_detail_scroll,
                ..app
            })
            &&& app.active_tab != ActiveTab::Processes ==> down.process_detail_scroll
                == app.process_detail_scroll && up.process_detail_scroll
                == app.process_detail_scroll
            &&& app.active_tab != ActiveTab::Services ==> down.service_detail_scroll
                == app.service_detail_scroll && up.service_detail_scroll
                == app.service_detail_scroll
            &&& app.active_tab != ActiveTab::Network ==> down.network_detail_scroll
                == app.network_detail_scroll && up.network_detail_scroll
                == app.network_detail_scroll
        }),
{
}

/// The sorts follow each other: off, CPU, memory, number, name, and off again. After each step
/// the list is made anew, and nothing else changes.
pub proof fn sorts_follow_each_other(app: AppView)
    ensures
        ({
            let after = app.with_next_sort();
            let mode = app.sort_mode;
            let on = app.process_sort_enabled;
            &&& !on ==> after.process_sort_enabled && after.sort_mode == SortMode::CpuDesc
            &&& on && mode == SortMode::CpuDesc ==> after.process_sort_enabled && after.sort_mode
                == SortMode::MemoryDesc
            &&& on && mode == SortMode::MemoryDesc ==> after.process_sort_enabled
                && after.sort_mode == SortMode::PidAsc
            &&& on && mode == SortMode::PidAsc ==> after.process_sort_enabled && after.sort_mode
                == SortMode::NameAsc
            &&& on && mode == SortMode::NameAsc ==> !after.process_sort_enabled
            &&& after == (AppView {
                process_sort_enabled: after.process_sort_enabled,
                sort_mode: after.sort_mode,
                ..app
            }).rebuilt_processes()
        }),
{
}

/// Going to a page shows it, closes what lies over it, puts the focus on its list, and changes
/// nothing else. Filtering endpoints sets the filter and makes their list anew.
pub proof fn pages_and_filters_are_set(app: AppView, tab: ActiveTab, filter: NetworkStateFilter)
    ensures
        app.on_tab(tab).active_tab == tab,
        app.on_tab(tab).overlay == OverlayView::Closed,
        app.on_tab(tab).pane_focus == PaneFocus::List,
        app.on_tab(tab) == (AppView {
            active_tab: tab,
            overlay: OverlayView::Closed,
            pane_focus: PaneFocus::List,
            ..app
        }),
        app.with_network_filter(filter).network_filter == filter,
        app.with_network_filter(filter) == (AppView {
            network_filter: filter,
            ..app
        }).rebuilt_network(),
        app.active_tab == ActiveTab::Processes ==> app.rebuilt_tab() == app.rebuilt_processes(),
        app.active_tab == ActiveTab::Services ==> app.rebuilt_tab() == app.rebuilt_services(),
        app.active_tab == ActiveTab::Network ==> app.rebuilt_tab() == app.rebuilt_network(),
        app.active_tab == ActiveTab::Performance ==> app.rebuilt_tab() == app,
{
}

/// The context menu that opens is about the selected process, service, or endpoint of the page,
/// with its first entry marked. Without a selection, and on the performance page, none opens.
/// The focus goes to the list, and nothing else changes.
pub proof fn menus_are_about_the_selection(app: AppView)
    ensures
        ({
            let after = app.with_menu();
            let process = app.process_view.selected as int;
            let service = app.service_view.selected as int;
            let endpoint = app.network_view.selected as int;
            &&& app.active_tab == ActiveTab::Processes && process < app.filtered_rows.len()
                ==> after.overlay == OverlayView::ContextMenu(
                MenuView {
                    kind: ContextMenuKind::Process,
                    selected_index: 0,
                    target: TargetView::ProcessPid(app.filtered_rows[process].pid),
                },
            )
            &&& app.active_tab == ActiveTab::Services && service < app.filtered_services.len()
                ==> after.overlay == OverlayView::ContextMenu(
                MenuView {
                    kind: ContextMenuKind::Service,
                    selected_index: 0,
                    target: TargetView::ServiceName(app.filtered_services[service].service_name),
                },
            )
            &&& app.active_tab == ActiveTab::Network && endpoint < app.filtered_network.len()
                ==> after.overlay == OverlayView::ContextMenu(
                MenuView {
                    kind: ContextMenuKind::Network,
                    selected_index: 0,
                    target: TargetView::NetworkPid(app.filtered_network[endpoint].pid),
                },
            )
            &&& app.active_tab == ActiveTab::Processes && process >= app.filtered_rows.len()
                ==> after.overlay == OverlayView::Closed
            &&& app.active_tab == ActiveTab::Services && service >= app.filtered_services.len()
                ==> after.overlay == OverlayView::Closed
            &&& app.active_tab == ActiveTab::Network && endpoint >= app.filtered_network.len()
                ==> after.overlay == OverlayView::Closed
            &&& app.active_tab == ActiveTab::Performance ==> after.overlay == OverlayView::Closed
            &&& after.pane_focus == PaneFocus::List
            &&& after == (AppView { overlay: after.overlay, pane_focus: PaneFocus::List, ..app })
        }),
{
}

/// The lists have room for what their areas hold: the borders take two rows, and the header of a
/// table one more. A list has room for one row at least, but the two groups of processes for
/// what their areas hold exactly; they are measured only where they are shown. The selections
/// are fitted to their lists, and nothing else changes but the windows.
pub proof fn lists_are_measured_by_their_areas(app: AppView, areas: FrameAreas)
    ensures
        ({
            let after = app.measured(areas);
            let tables = if areas.list.height >= 4 {
                areas.list.height - 3
            } else {
                1
            };
            let plain = if areas.list.height >= 3 {
                areas.list.height - 2
            } else {
                1
            };
            let endpoints = if areas.endpoints.height >= 4 {
                areas.endpoints.height - 3
            } else {
                1
            };
            &&& after.process_view.visible_rows == (if app.process_sort_enabled && !app.show_tree {
                tables
            } else {
                plain
            })
            &&& after.service_view.visible_rows == tables
            &&& after.network_view.visible_rows == endpoints
            &&& !app.process_sort_enabled ==> after.grouped_process_view.apps_visible_rows
                == areas.apps_list.height && after.grouped_process_view.background_visible_rows
                == areas.background_list.height
            &&& app.process_sort_enabled ==> after.grouped_process_view == app.grouped_process_view
            &&& after.service_view == (ViewState {
                visible_rows: tables as usize,
                ..app.service_view
            }).clamped(app.filtered_services.len() as int)
            &&& after.network_view == (ViewState {
                visible_rows: endpoints as usize,
                ..app.network_view
            }).clamped(app.filtered_network.len() as int)
            &&& app.filtered_rows.len() <= usize::MAX ==> after.process_view.selected == (
            if app.filtered_rows.len() == 0 {
                0
            } else if app.process_view.selected < app.filtered_rows.len() {
                app.process_view.selected as int
            } else {
                app.filtered_rows.len() - 1
            })
            &&& after == (AppView {
                process_view: ViewState {
                    visible_rows: after.process_view.visible_rows,
                    ..app.process_view
                },
                grouped_process_view: GroupedProcessViewState {
                    apps_visible_rows: after.grouped_process_view.apps_visible_rows,
                    background_visible_rows: after.grouped_process_view.background_visible_rows,
                    ..app.grouped_process_view
                },
                service_view: after.service_view,
                network_view: after.network_view,
                ..app
            }).with_process(
                clamped_index(app.filtered_rows.len() as int, app.process_view.selected as int),
            )
        }),
{
}

/// The processes on show are those at the entries that the windows show: of the sorted list from
/// its offset on, which is moved to show the selection, and of the grouped list first the apps
/// and then the background processes. Priorities are looked up of these and of the selected
/// process, and of no process twice that is selected and on show.
pub proof fn processes_on_show_are_looked_up(app: AppView, k: int)
    requires
        app.filtered_rows.len() <= usize::MAX,
    ensures
        ({
            let pids = app.visible_pids();
            let selected = app.process_view.selected as int;
            let groups = app.grouped_process_view;
            let apps = crate::listing::indexes_of(app.filtered_rows, ProcessCategory::App);
            let background = crate::listing::indexes_of(
                app.filtered_rows,
                ProcessCategory::Background,
            );
            let rows = if app.process_view.visible_rows < 1 {
                1
            } else {
                app.process_view.visible_rows as int
            };
            let offset = window_offset(
                app.filtered_rows.len() as int,
                selected,
                app.process_view.offset as int,
                rows,
            );
            let upper = shown(
                apps,
                groups.apps_offset as int,
                if groups.apps_visible_rows < 1 {
                    1
                } else {
                    groups.apps_visible_rows as int
                },
            );
            let lower = shown(
                background,
                groups.background_offset as int,
                if groups.background_visible_rows < 1 {
                    1
                } else {
                    groups.background_visible_rows as int
                },
            );
            &&& app.process_sort_enabled && selected < app.filtered_rows.len() ==> pids.len() == (
            if app.filtered_rows.len() - offset < rows {
                app.filtered_rows.len() - offset
            } else {
                rows
            })
            &&& app.process_sort_enabled && selected < app.filtered_rows.len() && 0 <= k
                < pids.len() ==> pids[k] == app.filtered_rows[offset + k].pid
            &&& !app.process_sort_enabled ==> pids.len() == upper.len() + lower.len()
            &&& !app.process_sort_enabled && 0 <= k < upper.len() ==> pids[k]
                == app.filtered_rows[upper[k] as int].pid
            &&& !app.process_sort_enabled && 0 <= k < lower.len() ==> pids[upper.len() + k]
                == app.filtered_rows[lower[k] as int].pid
            &&& selected >= app.filtered_rows.len() ==> app.priority_pids() == pids
            &&& selected < app.filtered_rows.len() && pids.contains(
                app.filtered_rows[selected].pid,
            ) ==> app.priority_pids() == pids
            &&& selected < app.filtered_rows.len() && !pids.contains(
                app.filtered_rows[selected].pid,
            ) ==> app.priority_pids() == pids.push(app.filtered_rows[selected].pid)
        }),
{
    let selected = app.process_view.selected;
    if app.process_sort_enabled && selected < app.filtered_rows.len() {
        let listed = app.listed();
        let entries = entries_of(listed);
        let row = ProcessListEntry::Row(selected);
        entries.index_of_first_ensures(row);
        assert(entries[selected as int] == row);
        assert(entries.contains(row));
        let first = entries.index_of_first(row).unwrap();
        assert(entries[first] == ProcessListEntry::Row(first as usize));
        crate::window::window_shows_selection(
            listed.len() as int,
            selected as int,
            app.process_view.offset as int,
            max_of(app.process_view.visible_rows as int, 1),
        );
    }
}

/// Clicking on a row of the screen selects the entry of the list that lies there. The first entry
/// of a table lies two rows below the top of its area, that of the tree one row, and that of a
/// group on its first row; a list that is scrolled begins with the entry at its offset. A
/// click elsewhere, and on a row without an entry, leaves the selected process as it is.
pub proof fn clicks_select_by_row(app: AppView, areas: FrameAreas, row: int)
    requires
        0 <= row <= u16::MAX,
        areas.list.y + areas.list.height <= u16::MAX,
        areas.endpoints.y + areas.endpoints.height <= u16::MAX,
        areas.apps_list.y + areas.apps_list.height <= u16::MAX,
        areas.background_list.y + areas.background_list.height <= u16::MAX,
        app.filtered_rows.len() <= usize::MAX,
        app.filtered_services.len() <= usize::MAX,
        app.filtered_network.len() <= usize::MAX,
    ensures
        ({
            let after = app.with_row_at(areas, row);
            let on_list = areas.list.y < row < areas.list.y + areas.list.height - 1;
            let in_table = on_list && row >= areas.list.y + 2;
            let in_endpoints = areas.endpoints.y + 2 <= row < areas.endpoints.y
                + areas.endpoints.height - 1;
            let in_apps = areas.apps_list.y <= row < areas.apps_list.y + areas.apps_list.height;
            let in_background = areas.background_list.y <= row < areas.background_list.y
                + areas.background_list.height;
            let apps = crate::listing::indexes_of(app.filtered_rows, ProcessCategory::App);
            let background = crate::listing::indexes_of(
                app.filtered_rows,
                ProcessCategory::Background,
            );
            let app_place = row - areas.apps_list.y + app.grouped_process_view.apps_offset;
            let background_place = row - areas.background_list.y
                + app.grouped_process_view.background_offset;
            let sorted = app.process_sort_enabled;
            let on_processes = app.active_tab == ActiveTab::Processes;
            let tree_place = row - areas.list.y - 1 + app.process_view.offset;
            let table_place = tree_place - 1;
            let place = if app.show_tree {
                tree_place
            } else {
                table_place
            };
            let service = row - areas.list.y - 2 + app.service_view.offset;
            let endpoint = row - areas.endpoints.y - 2 + app.network_view.offset;
            &&& on_processes && sorted && (if app.show_tree {
                on_list
            } else {
                in_table
            }) && place < app.filtered_rows.len() ==> after == app.with_process(place)
            &&& on_processes && sorted && !(if app.show_tree {
                on_list
            } else {
                in_table
            }) ==> after == app
            &&& on_processes && sorted ==> place >= app.filtered_rows.len()
                ==> after.process_view.selected == app.process_view.selected
            &&& on_processes && !sorted && in_apps && app_place < apps.len() ==> after
                == app.with_process(apps[app_place] as int)
            &&& on_processes && !sorted && in_apps && app_place >= apps.len() ==> after == app
            &&& on_processes && !sorted && !in_apps && in_background && background_place
                < background.len() ==> after == app.with_process(
                background[background_place] as int,
            )
            &&& on_processes && !sorted && !in_apps && in_background && background_place
                >= background.len() ==> after == app
            &&& on_processes && !sorted && !in_apps && !in_background ==> after == app
            &&& app.active_tab == ActiveTab::Services && in_table && service <= usize::MAX
                ==> after == (AppView {
                service_view: ViewState {
                    selected: service as usize,
                    ..app.service_view
                }.clamped(app.filtered_services.len() as int),
                ..app
            })
            &&& app.active_tab == ActiveTab::Services && !in_table ==> after == app
            &&& app.active_tab == ActiveTab::Network && in_endpoints && endpoint <= usize::MAX
                ==> after == (AppView {
                network_view: ViewState {
                    selected: endpoint as usize,
                    ..app.network_view
                }.clamped(app.filtered_network.len() as int),
                ..app
            })
            &&& app.active_tab == ActiveTab::Network && !in_endpoints ==> after == app
            &&& app.active_tab == ActiveTab::Performance ==> after == app
        }),
{
    every_row_is_listed_once(app.filtered_rows, app.process_sort_enabled);
}

/// The areas of a screen that ends within the coordinates do not overlap, but for those in the
/// list.
pub proof fn lemma_areas_are_apart(frame: Rect, areas: FrameAreas)
    requires
        divides(frame, areas),
        frame.x + frame.width <= u16::MAX,
        frame.y + frame.height <= u16::MAX,
    ensures
        frame.y == areas.summary.y,
        areas.summary.y + areas.summary.height == areas.tabs.y,
        areas.tabs.y + areas.tabs.height == areas.list.y,
        areas.list.y == areas.detail.y,
        areas.list.height == areas.detail.height,
        areas.list.y + areas.list.height == areas.footer.y,
        areas.footer.y + areas.footer.height == frame.y + frame.height,
        areas.list.x + areas.list.width == areas.detail.x,
        areas.list.x == frame.x,
        areas.detail.x + areas.detail.width == frame.x + frame.width,
        areas.filter_bar.y == areas.list.y,
        areas.filter_bar.x == areas.list.x,
        areas.filter_bar.width == areas.list.width,
        areas.filter_bar.height <= areas.list.height,
{
}

/// A screen that ends within the coordinates is divided from top to bottom into the summary, the
/// tabs, the body, and the footer. Of the body the list has the left 64 hundredths, to the
/// nearest column, and the details the others. Inside the border of the list the two groups of
/// processes have a header row each and halve the rest, with an odd row for the background. The
/// filter bar lies over the endpoints.
pub proof fn screens_are_divided(frame: Rect, areas: FrameAreas)
    requires
        divides(frame, areas),
        frame.x + frame.width <= u16::MAX,
        frame.y + frame.height <= u16::MAX,
    ensures
        ({
            let rows = areas.list.height - 4;
            &&& areas.summary.x == frame.x && areas.summary.width == frame.width
            &&& areas.tabs.x == frame.x && areas.tabs.width == frame.width
            &&& areas.footer.x == frame.x && areas.footer.width == frame.width
            &&& frame.height >= 21 ==> areas.summary.height == 3 && areas.tabs.height == 3
                && areas.footer.height == 5 && areas.list.height == frame.height - 11
            &&& 10 <= frame.height < 21 ==> areas.list.height == 10
            &&& frame.height < 10 ==> areas.list.height == frame.height
            &&& areas.list.width == (64 * frame.width + 50) / 100
            &&& areas.filter_bar.height + areas.endpoints.height == areas.list.height
            &&& areas.endpoints.y == areas.list.y + areas.filter_bar.height
            &&& areas.endpoints.x == areas.list.x && areas.endpoints.width == areas.list.width
            &&& areas.list.height >= 8 ==> areas.filter_bar.height == 3
            &&& 5 <= areas.list.height < 8 ==> areas.endpoints.height == 5
            &&& areas.list.height < 5 ==> areas.filter_bar.height == 0
            &&& areas.list.height >= 6 && areas.list.width >= 2 ==> {
                &&& areas.apps_list.x == areas.list.x + 1
                &&& areas.apps_list.width == areas.list.width - 2
                &&& areas.apps_list.y == areas.list.y + 2
                &&& areas.apps_list.height == rows / 2
                &&& areas.background_list.x == areas.list.x + 1
                &&& areas.background_list.width == areas.list.width - 2
                &&& areas.background_list.y == areas.apps_list.y + areas.apps_list.height + 1
                &&& areas.background_list.height == rows - rows / 2
            }
            &&& areas.list.height < 6 ==> areas.apps_list.height == 0
                && areas.background_list.height == 0
        }),
{
    lemma_areas_are_apart(frame, areas);
}

} // verus!
