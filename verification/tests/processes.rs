use std::collections::VecDeque;
use tasktui::api::{ProcessPriority, ServiceRow, TcpPortOwner};
use tasktui::history::{fit_history_to_width, push_sample};
use tasktui::listing::{
    display_to_process_index, grouped_process_indexes, list_entries, next_process_index,
    prev_process_index, selected_display_index, ProcessListEntry,
};
use tasktui::model::{
    context_actions, ActiveTab, ContextAction, ContextMenuKind, ContextMenuState,
    ContextMenuTarget, NetworkStateFilter, Overlay, PaneFocus, SortMode,
};
use tasktui::refresh::{
    priority_refresh_due, process_refresh_due, service_refresh_due, ProcessSample,
};
use tasktui::rows::{CpuPercent, NetworkRow, ProcessCategory, ProcessRow};
use tasktui::state::{AppState, CPU_WINDOW};
use tasktui::tree::flatten_process_tree;
use tasktui::window::{visible_window, ViewState};

fn percent(value: f32) -> CpuPercent {
    CpuPercent { bits: value.to_bits() }
}

fn row(pid: u32, parent_pid: Option<u32>, category: ProcessCategory, name: &str) -> ProcessRow {
    ProcessRow {
        pid,
        parent_pid,
        depth: 0,
        category,
        name: name.into(),
        exe_path: None,
        priority: "normal".into(),
        cpu_percent: percent(0.0),
        memory_bytes: 0,
        runtime_secs: 0,
    }
}

fn sample_rows() -> Vec<ProcessRow> {
    vec![
        ProcessRow {
            pid: 10,
            parent_pid: None,
            depth: 0,
            category: ProcessCategory::App,
            name: "alpha".into(),
            exe_path: None,
            priority: "normal".into(),
            cpu_percent: percent(1.0),
            memory_bytes: 100,
            runtime_secs: 10,
        },
        ProcessRow {
            pid: 11,
            parent_pid: Some(10),
            depth: 0,
            category: ProcessCategory::Background,
            name: "beta".into(),
            exe_path: None,
            priority: "normal".into(),
            cpu_percent: percent(3.0),
            memory_bytes: 300,
            runtime_secs: 20,
        },
        ProcessRow {
            pid: 12,
            parent_pid: Some(10),
            depth: 0,
            category: ProcessCategory::Background,
            name: "gamma".into(),
            exe_path: None,
            priority: "normal".into(),
            cpu_percent: percent(2.0),
            memory_bytes: 200,
            runtime_secs: 30,
        },
    ]
}

fn sample(pid: u32, name: &str) -> ProcessSample {
    ProcessSample {
        pid,
        parent_pid: None,
        name: name.into(),
        exe_path: None,
        cpu_percent: percent(0.0),
        memory_bytes: 0,
        runtime_secs: 0,
    }
}

fn pids(rows: &[ProcessRow]) -> Vec<u32> {
    rows.iter().map(|row| row.pid).collect()
}

#[test]
fn sorts_by_cpu_desc() {
    let mut rows = sample_rows();
    let app = AppState::new();
    app.apply_process_sort(&mut rows);
    assert_eq!(pids(&rows), vec![11, 12, 10]);
}

#[test]
fn process_sort_is_off_by_default() {
    let app = AppState::new();
    assert!(!app.process_sort_enabled);
}

#[test]
fn filters_services_by_status() {
    let app = AppState {
        query: "run".into(),
        ..AppState::new()
    };
    let rows = app.apply_service_filter(vec![
        ServiceRow {
            display_name: "Print Spooler".into(),
            service_name: "Spooler".into(),
            status: "running".into(),
            start_type: "auto".into(),
        },
        ServiceRow {
            display_name: "Updater".into(),
            service_name: "UpdaterSvc".into(),
            status: "stopped".into(),
            start_type: "manual".into(),
        },
    ]);
    assert_eq!(rows.len(), 1);
    assert_eq!(rows[0].service_name, "Spooler");
}

#[test]
fn network_filter_matches_expected_states() {
    assert!(NetworkStateFilter::All.matches("listen"));
    assert!(NetworkStateFilter::Listening.matches("listen"));
    assert!(!NetworkStateFilter::Listening.matches("established"));
    assert!(NetworkStateFilter::Established.matches("established"));
}

#[test]
fn builds_tree_depths() {
    let rows = flatten_process_tree(&sample_rows());
    assert_eq!(rows[0].pid, 10);
    assert_eq!(rows[0].depth, 0);
    assert_eq!(rows[1].depth, 1);
    assert_eq!(rows[2].depth, 1);
}

#[test]
fn visible_window_keeps_selection_in_view() {
    let (offset, selected) = visible_window(100, 99, 0, 8);
    assert_eq!(offset, 92);
    assert_eq!(selected, Some(7));

    let (offset, selected) = visible_window(100, 95, 92, 8);
    assert_eq!(offset, 92);
    assert_eq!(selected, Some(3));
}

#[test]
fn history_buffer_rotates() {
    let mut samples = VecDeque::new();
    for value in 0..70 {
        push_sample(&mut samples, value, 60);
    }
    assert_eq!(samples.len(), 60);
    assert_eq!(samples.front().copied(), Some(10));
    assert_eq!(samples.back().copied(), Some(69));
}

#[test]
fn history_resamples_to_requested_width() {
    let samples = vec![10, 20, 30];
    assert_eq!(
        fit_history_to_width(&samples, 5),
        vec![None, None, Some(10), Some(20), Some(30)]
    );
    assert_eq!(fit_history_to_width(&samples, 2), vec![Some(10), Some(30)]);
}

#[test]
fn context_menu_contains_above_normal_priority() {
    assert!(context_actions(ContextMenuKind::Process)
        .contains(&ContextAction::SetPriority(ProcessPriority::AboveNormal)));
    assert!(context_actions(ContextMenuKind::Network)
        .contains(&ContextAction::SetPriority(ProcessPriority::AboveNormal)));
}

#[test]
fn process_priority_refresh_targets_visible_rows() {
    let mut app = AppState::new();
    app.filtered_rows = (0..5)
        .map(|pid| ProcessRow {
            pid,
            parent_pid: None,
            depth: 0,
            category: ProcessCategory::Background,
            name: format!("p{pid}"),
            exe_path: None,
            priority: "unknown".into(),
            cpu_percent: percent(0.0),
            memory_bytes: 0,
            runtime_secs: 0,
        })
        .collect();
    app.process_view.visible_rows = 2;
    app.process_view.selected = 3;
    app.process_view.offset = 2;
    app.process_sort_enabled = true;
    assert_eq!(app.visible_process_pids(), vec![2, 3]);
}

#[test]
fn detail_focus_scrolls_detail_instead_of_selection() {
    let mut app = AppState::new();
    app.pane_focus = PaneFocus::Detail;
    app.process_detail_scroll = 0;
    app.process_view.selected = 4;
    app.increment_detail_scroll();
    assert_eq!(app.process_detail_scroll, 1);
    assert_eq!(app.process_view.selected, 4);
}

#[test]
fn grouped_process_indexes_keep_apps_before_background() {
    let rows = vec![
        row(1, None, ProcessCategory::App, "app"),
        row(2, None, ProcessCategory::Background, "bg"),
        row(3, None, ProcessCategory::App, "app2"),
    ];
    let (apps, background) = grouped_process_indexes(&rows);
    assert_eq!(apps, vec![0, 2]);
    assert_eq!(background, vec![1]);
}

#[test]
fn process_entries_are_grouped_without_header_rows_when_sort_is_off() {
    let rows = vec![
        row(1, None, ProcessCategory::App, "app"),
        row(2, None, ProcessCategory::Background, "bg"),
    ];
    let mut app = AppState::new();
    app.filtered_rows = rows;
    let entries = app.process_entries();
    assert_eq!(entries, vec![ProcessListEntry::Row(0), ProcessListEntry::Row(1)]);
}

#[test]
fn shift_f10_opens_process_context_menu_for_selected_row() {
    let mut app = AppState::new();
    app.filtered_rows = sample_rows();
    app.process_view.selected = 1;
    app.open_context_menu_for_selection();
    assert!(matches!(
        app.overlay,
        Overlay::ContextMenu(ContextMenuState {
            kind: ContextMenuKind::Process,
            target: ContextMenuTarget::ProcessPid(11),
            ..
        })
    ));
}

#[test]
fn process_entries_are_flat_when_sort_enabled() {
    let mut app = AppState::new();
    app.filtered_rows = sample_rows();
    app.process_sort_enabled = true;
    let entries = app.process_entries();
    assert_eq!(
        entries,
        vec![
            ProcessListEntry::Row(0),
            ProcessListEntry::Row(1),
            ProcessListEntry::Row(2),
        ]
    );
}

#[test]
fn stable_order_is_preserved_for_existing_pids() {
    let mut app = AppState::new();
    app.process_stable_order.insert(10, 0);
    app.process_stable_order.insert(12, 1);
    app.next_process_order = 2;
    app.process_rows = vec![
        row(12, None, ProcessCategory::Background, "later"),
        row(10, None, ProcessCategory::Background, "first"),
    ];
    app.rebuild_process_view();
    assert_eq!(app.filtered_rows[0].pid, 10);
    assert_eq!(app.filtered_rows[1].pid, 12);
}

#[test]
fn display_index_maps_to_process_row() {
    let entries = vec![ProcessListEntry::Row(0), ProcessListEntry::Row(1)];
    assert_eq!(display_to_process_index(&entries, 0), Some(0));
    assert_eq!(display_to_process_index(&entries, 1), Some(1));
}

#[test]
fn process_navigation_follows_grouped_display_order() {
    let entries = vec![
        ProcessListEntry::Row(2),
        ProcessListEntry::Row(4),
        ProcessListEntry::Row(1),
    ];
    assert_eq!(next_process_index(&entries, 2), Some(4));
    assert_eq!(next_process_index(&entries, 4), Some(1));
    assert_eq!(prev_process_index(&entries, 1), Some(4));
}

#[test]
fn navigation_stops_at_the_ends() {
    let entries = vec![ProcessListEntry::Row(2), ProcessListEntry::Row(4)];
    assert_eq!(next_process_index(&entries, 4), Some(4));
    assert_eq!(prev_process_index(&entries, 2), Some(2));
    assert_eq!(next_process_index(&entries, 7), None);
    assert_eq!(prev_process_index(&entries, 7), None);
    assert_eq!(selected_display_index(&entries, 4), Some(1));
    assert_eq!(selected_display_index(&entries, 5), None);
    assert_eq!(display_to_process_index(&entries, 2), None);
}

#[test]
fn every_sort_mode_orders_its_column() {
    let mut rows = sample_rows();
    rows[0].name = "Zeta".into();
    rows[2].memory_bytes = 300;
    let mut app = AppState::new();

    app.sort_mode = SortMode::MemoryDesc;
    let mut by_memory = rows.clone();
    app.apply_process_sort(&mut by_memory);
    assert_eq!(pids(&by_memory), vec![11, 12, 10]);

    app.sort_mode = SortMode::PidAsc;
    let mut by_pid: Vec<ProcessRow> = rows.iter().rev().cloned().collect();
    app.apply_process_sort(&mut by_pid);
    assert_eq!(pids(&by_pid), vec![10, 11, 12]);

    app.sort_mode = SortMode::NameAsc;
    let mut by_name = rows.clone();
    app.apply_process_sort(&mut by_name);
    assert_eq!(pids(&by_name), vec![11, 12, 10]);
}

#[test]
fn names_sort_without_regard_to_case_and_by_prefix() {
    let mut rows = vec![
        row(3, None, ProcessCategory::App, "Abc"),
        row(1, None, ProcessCategory::App, "abcd"),
        row(2, None, ProcessCategory::App, "abC"),
    ];
    let mut app = AppState::new();
    app.sort_mode = SortMode::NameAsc;
    app.apply_process_sort(&mut rows);
    assert_eq!(pids(&rows), vec![2, 3, 1]);
}

#[test]
fn sort_modes_cycle_and_switch_off() {
    let mut app = AppState::new();
    let mut seen = Vec::new();
    for _ in 0..5 {
        app.cycle_process_sort_mode();
        seen.push((app.process_sort_enabled, app.sort_mode));
    }
    assert_eq!(
        seen,
        vec![
            (true, SortMode::CpuDesc),
            (true, SortMode::MemoryDesc),
            (true, SortMode::PidAsc),
            (true, SortMode::NameAsc),
            (false, SortMode::NameAsc),
        ]
    );
}

#[test]
fn rebuilding_keeps_the_selected_process() {
    let mut app = AppState::new();
    app.process_rows = sample_rows();
    app.rebuild_process_view();
    app.process_view.selected = 2;
    assert_eq!(app.filtered_rows[2].pid, 12);
    app.cycle_process_sort_mode();
    assert_eq!(pids(&app.filtered_rows), vec![11, 12, 10]);
    assert_eq!(app.process_view.selected, 1);

    app.query = "alpha".into();
    app.rebuild_process_view();
    assert_eq!(pids(&app.filtered_rows), vec![10]);
    assert_eq!(app.process_view.selected, 0);
}

#[test]
fn search_covers_all_fields_of_a_process() {
    let mut rows = sample_rows();
    rows[1].exe_path = Some("C:\\Tools\\Beta.exe".into());
    rows[2].priority = "above_normal".into();
    let found = |query: &str| {
        let app = AppState {
            query: query.into(),
            ..AppState::new()
        };
        pids(&app.apply_process_filter(rows.clone()))
    };
    assert_eq!(found("ALPHA"), vec![10]);
    assert_eq!(found("  tools "), vec![11]);
    assert_eq!(found("above"), vec![12]);
    assert_eq!(found("1"), vec![10, 11, 12]);
    assert_eq!(found("   "), vec![10, 11, 12]);
    assert_eq!(found("nothing like it"), Vec::<u32>::new());
}

#[test]
fn search_and_state_filter_narrow_the_endpoints() {
    let endpoint = |pid: u32, name: &str, state: &str| NetworkRow {
        pid,
        process_name: name.into(),
        local_endpoint: "127.0.0.1:8080".into(),
        remote_endpoint: "0.0.0.0:0".into(),
        state: state.into(),
    };
    let rows = vec![
        endpoint(1, "web", "listen"),
        endpoint(2, "Browser", "established"),
        endpoint(3, "web", "close_wait"),
    ];
    let mut app = AppState::new();
    app.network_rows = rows;
    app.rebuild_network_view();
    assert_eq!(app.filtered_network.len(), 3);

    app.cycle_network_filter();
    assert_eq!(app.network_filter, NetworkStateFilter::Listening);
    assert_eq!(app.filtered_network.len(), 1);
    assert_eq!(app.filtered_network[0].pid, 1);

    app.cycle_network_filter();
    assert_eq!(app.filtered_network[0].pid, 2);

    app.cycle_network_filter();
    app.query = "browser".into();
    app.rebuild_network_view();
    assert_eq!(app.filtered_network.len(), 1);
    app.query = ":8080".into();
    app.rebuild_network_view();
    assert_eq!(app.filtered_network.len(), 3);
}

#[test]
fn orphans_and_cycles_stay_in_the_tree() {
    let rows = vec![
        row(5, Some(99), ProcessCategory::App, "orphan"),
        row(2, None, ProcessCategory::App, "root"),
        row(4, Some(2), ProcessCategory::App, "child"),
        row(3, Some(2), ProcessCategory::App, "child"),
        row(6, Some(4), ProcessCategory::App, "grandchild"),
        row(7, Some(8), ProcessCategory::App, "loop"),
        row(8, Some(7), ProcessCategory::App, "loop"),
    ];
    let flat = flatten_process_tree(&rows);
    assert_eq!(pids(&flat), vec![2, 3, 4, 6, 8, 7, 5]);
    let depths: Vec<usize> = flat.iter().map(|row| row.depth).collect();
    assert_eq!(depths, vec![0, 1, 1, 2, 0, 0, 0]);
}

#[test]
fn the_nearest_shallower_row_is_the_parent() {
    let rows = vec![
        row(1, None, ProcessCategory::App, "root"),
        row(2, Some(1), ProcessCategory::App, "first"),
        row(3, Some(2), ProcessCategory::App, "below first"),
        row(4, Some(1), ProcessCategory::App, "second"),
        row(5, Some(4), ProcessCategory::App, "below second"),
        row(6, None, ProcessCategory::App, "other root"),
        row(7, Some(6), ProcessCategory::App, "below other"),
    ];
    let flat = flatten_process_tree(&rows);
    assert_eq!(pids(&flat), vec![1, 2, 3, 4, 5, 6, 7]);
    for (index, row) in flat.iter().enumerate() {
        let above = flat[..index].iter().rev().find(|other| other.depth < row.depth);
        assert_eq!(above.map(|other| other.pid), row.parent_pid);
        assert_eq!(above.map_or(0, |other| other.depth + 1), row.depth);
    }
}

#[test]
fn a_sampling_follows_the_living() {
    let mut app = AppState::new();
    for live in [vec![1, 2, 3], vec![2, 3, 4], vec![4, 2], vec![2, 5], vec![2]] {
        let samples: Vec<ProcessSample> = live.iter().map(|pid| sample(*pid, "p")).collect();
        let first = app.next_process_order;
        let before = app.process_stable_order.clone();
        for pid in &live {
            app.record_cpu_sample(*pid, percent(1.0));
        }
        app.apply_process_samples(&samples, &vec![]);
        assert_eq!(app.process_stable_order.len(), live.len());
        assert_eq!(app.cpu_history.len(), live.len());
        for pid in &live {
            let rank = app.process_stable_order[pid];
            assert_eq!(before.get(pid).copied().unwrap_or(rank), rank);
            assert!(before.contains_key(pid) || rank >= first);
            assert!(rank < app.next_process_order);
            assert!((1..=3).contains(&app.cpu_history[pid].len()));
        }
    }
    assert_eq!(app.cpu_history[&2].len(), 3);
}

#[test]
fn a_sampling_fills_and_forgets() {
    let mut app = AppState::new();
    app.priority_cache.insert(1, "high".into());
    app.priority_cache.insert(9, "idle".into());
    app.record_cpu_sample(9, percent(1.0));
    app.apply_process_samples(&vec![sample(2, "two"), sample(1, "one")], &vec![1]);
    assert_eq!(app.process_rows[0].priority, "unknown");
    assert_eq!(app.process_rows[1].priority, "high");
    assert_eq!(app.process_rows[1].category, ProcessCategory::App);
    assert_eq!(pids(&app.filtered_rows), vec![1, 2]);
    assert!(!app.priority_cache.contains_key(&9));
    assert!(!app.cpu_history.contains_key(&9));
    assert_eq!(app.process_stable_order[&2], 0);
    assert_eq!(app.process_stable_order[&1], 1);

    app.apply_process_samples(&vec![sample(3, "three"), sample(1, "one")], &vec![]);
    assert_eq!(app.process_stable_order[&1], 1);
    assert_eq!(app.process_stable_order[&3], 2);
    assert!(!app.process_stable_order.contains_key(&2));
    assert_eq!(pids(&app.filtered_rows), vec![1, 3]);
    assert_eq!(app.next_process_order, 3);
}

#[test]
fn only_the_newest_loads_are_averaged() {
    let mut app = AppState::new();
    let mut recent = Vec::new();
    for value in [1.0, 2.0, 3.0, 4.0] {
        recent = app.record_cpu_sample(7, percent(value));
    }
    assert_eq!(recent, vec![percent(2.0), percent(3.0), percent(4.0)]);
    assert_eq!(recent.len(), CPU_WINDOW);
    assert_eq!(app.record_cpu_sample(8, percent(5.0)), vec![percent(5.0)]);
}

#[test]
fn endpoints_get_the_names_of_their_owners() {
    let mut app = AppState::new();
    app.process_rows = sample_rows();
    let owner = |pid: u32| TcpPortOwner {
        pid,
        local_addr: "127.0.0.1".into(),
        local_port: 80,
        remote_addr: "10.0.0.1".into(),
        remote_port: 65535,
        state: "listen".into(),
    };
    app.refresh_network_rows(&vec![owner(11), owner(77)]);
    assert_eq!(app.filtered_network[0].process_name, "beta");
    assert_eq!(app.filtered_network[0].local_endpoint, "127.0.0.1:80");
    assert_eq!(app.filtered_network[0].remote_endpoint, "10.0.0.1:65535");
    assert_eq!(app.filtered_network[1].process_name, "<unknown>");
}

#[test]
fn the_summary_counts_and_keeps_sixty_samples() {
    let mut app = AppState::new();
    app.process_rows = sample_rows();
    for load in 0..61 {
        app.record_summary(percent(1.5), load, 10, 20, 50);
    }
    assert_eq!(app.summary.process_count, 3);
    assert_eq!(app.summary.tcp_endpoint_count, 0);
    assert_eq!(app.system_cpu_history.len(), 60);
    assert_eq!(app.system_cpu_history.front().copied(), Some(1));
    assert_eq!(app.system_memory_history.back().copied(), Some(50));
}

#[test]
fn looked_up_priorities_reach_the_rows() {
    let mut app = AppState::new();
    app.process_rows = sample_rows();
    app.rebuild_process_view();
    app.apply_priorities(&vec![(11, ProcessPriority::High)]);
    assert_eq!(app.process_rows[1].priority, "high");
    assert_eq!(app.process_rows[0].priority, "unknown");

    app.process_rows[0].priority = "untouched".into();
    app.apply_priorities(&vec![(11, ProcessPriority::High)]);
    assert_eq!(app.process_rows[0].priority, "untouched");
}

#[test]
fn priorities_are_looked_up_for_what_shows_and_what_is_selected() {
    let mut app = AppState::new();
    app.filtered_rows = sample_rows();
    app.grouped_process_view.apps_visible_rows = 1;
    app.grouped_process_view.background_visible_rows = 1;
    app.process_view.selected = 2;
    assert_eq!(app.visible_process_pids(), vec![10, 11]);
    assert_eq!(app.priority_targets(), vec![10, 11, 12]);
    app.process_view.selected = 1;
    assert_eq!(app.priority_targets(), vec![10, 11]);
}

#[test]
fn windows_move_to_the_selection() {
    let mut state = ViewState { selected: 9, offset: 0, visible_rows: 3 };
    state.clamp(5);
    assert_eq!(state, ViewState { selected: 4, offset: 2, visible_rows: 3 });
    state.select_prev(5);
    state.select_prev(5);
    state.select_prev(5);
    assert_eq!(state, ViewState { selected: 1, offset: 1, visible_rows: 3 });
    state.select_next(5);
    assert_eq!(state.selected, 2);
    state.select_next(0);
    assert_eq!(state, ViewState { selected: 0, offset: 0, visible_rows: 3 });
    assert_eq!(visible_window(0, 3, 2, 5), (0, None));
    assert_eq!(visible_window(3, 1, 2, 0), (0, None));
}

#[test]
fn groups_scroll_on_their_own() {
    let mut app = AppState::new();
    app.filtered_rows = (0..6)
        .map(|pid| {
            let category = if pid < 2 { ProcessCategory::App } else { ProcessCategory::Background };
            row(pid, None, category, "p")
        })
        .collect();
    app.grouped_process_view.apps_visible_rows = 2;
    app.grouped_process_view.background_visible_rows = 2;
    app.process_view.selected = 5;
    app.sync_process_view_state();
    assert_eq!(app.grouped_process_view.background_offset, 2);
    assert_eq!(app.grouped_process_view.apps_offset, 0);
    assert_eq!(app.visible_process_pids(), vec![0, 1, 4, 5]);
}

#[test]
fn selection_walks_the_groups() {
    let mut app = AppState::new();
    app.filtered_rows = vec![
        row(1, None, ProcessCategory::Background, "bg"),
        row(2, None, ProcessCategory::App, "app"),
    ];
    app.process_view.selected = 1;
    app.select_next();
    assert_eq!(app.process_view.selected, 0);
    app.select_next();
    assert_eq!(app.process_view.selected, 0);
    app.select_prev();
    assert_eq!(app.process_view.selected, 1);
    assert_eq!(list_entries(&app.filtered_rows, false), vec![
        ProcessListEntry::Row(1),
        ProcessListEntry::Row(0),
    ]);
}

#[test]
fn details_show_a_dash_for_a_missing_path() {
    let mut app = AppState::new();
    assert_eq!(app.selected_process_detail(), None);
    app.filtered_rows = sample_rows();
    app.filtered_rows[1].exe_path = Some("C:\\b.exe".into());
    let detail = app.selected_process_detail().expect("detail");
    assert_eq!(detail.exe_path, "-");
    app.process_view.selected = 1;
    let detail = app.selected_process_detail().expect("detail");
    assert_eq!(detail.exe_path, "C:\\b.exe");
    assert_eq!(detail.parent_pid, Some(10));
}

#[test]
fn commands_have_a_target_on_two_pages() {
    let mut app = AppState::new();
    app.filtered_rows = sample_rows();
    app.process_view.selected = 2;
    assert_eq!(app.selected_target_pid(), Some(12));
    assert!(app.set_active_tab(ActiveTab::Services));
    assert_eq!(app.selected_target_pid(), None);
    assert!(!app.set_active_tab(ActiveTab::Network));
    assert_eq!(app.selected_target_pid(), None);
    assert_eq!(app.selected_service_name(), None);
}

#[test]
fn refreshes_are_due_in_time() {
    assert!(!process_refresh_due(999));
    assert!(process_refresh_due(1000));
    assert!(!service_refresh_due(false, 4999));
    assert!(service_refresh_due(false, 5000));
    assert!(service_refresh_due(true, 0));
    assert!(!priority_refresh_due(false, 4999));
    assert!(priority_refresh_due(true, 0));
}

#[test]
fn narrow_charts_show_the_newest_sample() {
    assert_eq!(fit_history_to_width(&[], 3), vec![None, None, None]);
    assert_eq!(fit_history_to_width(&[1, 2, 3], 1), vec![Some(3)]);
    assert_eq!(fit_history_to_width(&[1, 2, 3], 0), vec![Some(3)]);
    assert_eq!(
        fit_history_to_width(&[0, 1, 2, 3, 4, 5, 6], 3),
        vec![Some(0), Some(3), Some(6)]
    );
}
