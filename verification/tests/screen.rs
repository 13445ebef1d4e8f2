use tasktui::api::{AdminCommand, ProcessPriority, ServiceRow};
use tasktui::input::{Effect, FollowUp, Key, KeyPress, MouseInput, MouseKind};
use tasktui::layout::{
    body_sections, centered_rect, contains_point, context_menu_area, grouped_process_sections,
    list_index_at_row, network_filter_at_position, network_list_sections,
    performance_sections, plain_list_index_at_row, root_sections, summary_sections,
    tab_at_position, tabs_hit_areas, Rect,
};
use tasktui::model::{
    ActiveTab, ContextAction, ContextMenuKind, ContextMenuState, ContextMenuTarget,
    NetworkStateFilter, Overlay, PaneFocus, ServiceActionIntent, SortMode,
};
use tasktui::navigation::frame_areas;
use tasktui::presentation::{
    cpu_style, filter_chip, footer_lines, footer_style, format_runtime, indented_name,
    list_window, memory_style, network_cells, network_detail_lines, network_state_style,
    pad_left, pad_right, performance_lines, process_cells, process_detail_lines,
    process_group_band, process_line, process_row_style, service_cells, service_detail_lines,
    service_status_style, summary_cards, tree_figures, Tone,
};
use tasktui::rows::{CpuPercent, NetworkRow, ProcessCategory, ProcessRow};
use tasktui::state::AppState;

fn row(pid: u32, category: ProcessCategory) -> ProcessRow {
    ProcessRow {
        pid,
        parent_pid: None,
        depth: 0,
        category,
        name: format!("p{pid}"),
        exe_path: Some(format!("C:\\bin\\p{pid}.exe")),
        priority: "normal".into(),
        cpu_percent: CpuPercent { bits: 1.5f32.to_bits() },
        memory_bytes: 100,
        runtime_secs: 3723,
    }
}

fn service(name: &str) -> ServiceRow {
    ServiceRow {
        display_name: format!("The {name}"),
        service_name: name.into(),
        status: "running".into(),
        start_type: "auto".into(),
    }
}

fn endpoint(pid: u32) -> NetworkRow {
    NetworkRow {
        pid,
        process_name: "web".into(),
        local_endpoint: "127.0.0.1:80".into(),
        remote_endpoint: "0.0.0.0:0".into(),
        state: "listen".into(),
    }
}

fn full_app() -> AppState {
    let mut app = AppState::new();
    app.process_rows = vec![
        row(1, ProcessCategory::App),
        row(2, ProcessCategory::Background),
        row(3, ProcessCategory::Background),
    ];
    app.service_rows = vec![service("Alpha"), service("Beta")];
    app.network_rows = vec![endpoint(2), endpoint(3)];
    app.rebuild_process_view();
    app.rebuild_service_view();
    app.rebuild_network_view();
    app
}

fn press(code: Key) -> KeyPress {
    KeyPress { code, shift: false, control: false }
}

fn typed(c: char) -> KeyPress {
    press(Key::Char(c))
}

fn mouse(kind: MouseKind, column: u16, row: u16) -> MouseInput {
    MouseInput { kind, column, row }
}

const SCREEN: Rect = Rect { x: 0, y: 0, width: 100, height: 40 };

#[test]
fn tab_hit_testing_uses_rendered_tab_widths() {
    let area = Rect::new(0, 0, 80, 3);
    let areas = tabs_hit_areas(area);
    assert_eq!(areas.len(), 4);
    assert_eq!(tab_at_position(area, areas[0].x), Some(ActiveTab::Processes));
    assert_eq!(tab_at_position(area, areas[1].x), Some(ActiveTab::Performance));
    assert_eq!(tab_at_position(area, areas[2].x), Some(ActiveTab::Services));
    assert_eq!(tab_at_position(area, areas[3].x), Some(ActiveTab::Network));
}

#[test]
fn grouped_process_sections_reserve_header_bands() {
    let area = Rect::new(0, 0, 80, 20);
    let (apps_header, apps_list, background_header, background_list) =
        grouped_process_sections(area);
    assert_eq!(apps_header.height, 1);
    assert_eq!(background_header.height, 1);
    assert!(apps_list.height > 0);
    assert!(background_list.height > 0);
}

#[test]
fn plain_list_index_matches_first_visual_row() {
    let area = Rect::new(10, 5, 40, 4);
    assert_eq!(plain_list_index_at_row(area, 5), Some(0));
    assert_eq!(plain_list_index_at_row(area, 6), Some(1));
    assert_eq!(plain_list_index_at_row(area, 9), None);
}

#[test]
fn tabs_are_cut_at_the_edge() {
    let areas = tabs_hit_areas(Rect::new(0, 0, 22, 3));
    assert_eq!(areas, vec![Rect::new(1, 1, 11, 1), Rect::new(12, 1, 9, 1)]);
    assert_eq!(tab_at_position(Rect::new(0, 0, 22, 3), 20), Some(ActiveTab::Performance));
    assert_eq!(tab_at_position(Rect::new(0, 0, 22, 3), 21), None);
    assert_eq!(tabs_hit_areas(Rect::new(0, 0, 2, 3)), vec![]);
    assert_eq!(tabs_hit_areas(Rect::new(0, 0, 20, 2)), vec![]);
    assert_eq!(tab_at_position(Rect::new(5, 5, 80, 3), 48), Some(ActiveTab::Network));
    assert_eq!(tab_at_position(Rect::new(5, 5, 80, 3), 49), None);
}

#[test]
fn the_screen_divides_into_its_bands() {
    let bands = root_sections(SCREEN);
    assert_eq!(bands[0], Rect::new(0, 0, 100, 3));
    assert_eq!(bands[1], Rect::new(0, 3, 100, 3));
    assert_eq!(bands[2], Rect::new(0, 6, 100, 29));
    assert_eq!(bands[3], Rect::new(0, 35, 100, 5));

    let bands = root_sections(Rect::new(7, 9, 80, 21));
    assert_eq!(bands[0], Rect::new(7, 9, 80, 3));
    assert_eq!(bands[2], Rect::new(7, 15, 80, 10));
    assert_eq!(bands[3], Rect::new(7, 25, 80, 5));
}

#[test]
fn cards_and_charts_share_the_screen() {
    for width in 0..300 {
        let mut left = 3;
        for (index, card) in summary_sections(Rect::new(3, 0, width, 3)).into_iter().enumerate() {
            let right = 3 + (25 * (index as u16 + 1) * width + 50) / 100;
            assert_eq!(card, Rect::new(left, 0, right - left, 3));
            left = right;
        }
        let height = width / 3;
        let middle = (65 * width + 50) / 100;
        let half = (50 * height + 50) / 100;
        let [cpu, memory, figures] = performance_sections(Rect::new(0, 6, width, height));
        assert_eq!(cpu, Rect::new(0, 6, middle, half));
        assert_eq!(memory, Rect::new(0, 6 + half, middle, height - half));
        assert_eq!(figures, Rect::new(middle, 6, width - middle, height));
    }
}

#[test]
fn the_summary_is_told() {
    let mut app = full_app();
    app.record_summary(CpuPercent { bits: 85.0f32.to_bits() }, 85, 1 << 30, 1 << 32, 25);
    let cards = summary_cards(&app.summary, "85.0", "1024.0 MiB", "4096.0 MiB");
    let shown: Vec<(&str, &str, Tone)> =
        cards.iter().map(|card| (card.title.as_str(), card.value.as_str(), card.tone)).collect();
    assert_eq!(
        shown,
        vec![
            ("CPU", "85.0%", Tone::Critical),
            ("Memory", "1024.0 MiB / 4096.0 MiB", Tone::Heavy),
            ("Processes", "3", Tone::Connected),
            ("TCP Endpoints", "2", Tone::Steady),
        ]
    );
    let lines = performance_lines(&app.summary, "85.0", "1.0 MiB", "2.0 MiB");
    assert_eq!(lines[0], "CPU usage: 85.0%");
    assert_eq!(lines[1], "Memory: 1.0 MiB / 2.0 MiB");
    assert_eq!(lines[3], "TCP endpoints: 2");
    assert_eq!(lines.len(), 7);
}

#[test]
fn tables_and_panes_show_the_rows() {
    let mut app = full_app();
    assert_eq!(
        process_cells(&app.filtered_rows[0], "1.5", "0.1 MiB"),
        vec!["1", "1.5", "0.1 MiB", "01:02:03", "normal", "p1"]
    );
    assert_eq!(
        service_cells(&app.filtered_services[1]),
        vec!["The Beta", "Beta", "running", "auto"]
    );
    assert_eq!(
        network_cells(&app.filtered_network[0]),
        vec!["2", "web", "127.0.0.1:80", "0.0.0.0:0", "listen"]
    );
    assert_eq!(app.process_pane_lines("1.5", "0.1 MiB")[0], "Name: p1");
    assert_eq!(app.service_pane_lines()[1], "Service name: Alpha");
    assert_eq!(app.network_pane_lines()[0], "PID: 2");
    app.filtered_rows.clear();
    app.filtered_services.clear();
    app.filtered_network.clear();
    assert_eq!(app.process_pane_lines("", ""), vec!["No process selected."]);
    assert_eq!(app.service_pane_lines(), vec!["No service selected."]);
    assert_eq!(app.network_pane_lines(), vec!["No endpoint selected."]);
}

#[test]
fn panes_share_the_width() {
    for width in 0..300 {
        let panes = body_sections(Rect::new(3, 4, width, 9));
        let middle = (64 * width + 50) / 100;
        assert_eq!(panes[0], Rect::new(3, 4, middle, 9));
        assert_eq!(panes[1], Rect::new(3 + middle, 4, width - middle, 9));
    }
}

#[test]
fn the_filter_bar_lies_over_the_endpoints() {
    for height in 8..60 {
        let parts = network_list_sections(Rect::new(0, 6, 64, height));
        assert_eq!(parts[0], Rect::new(0, 6, 64, 3));
        assert_eq!(parts[1], Rect::new(0, 9, 64, height - 3));
    }
}

#[test]
fn groups_share_the_rows() {
    for height in 6..80 {
        let (first, apps, second, background) =
            grouped_process_sections(Rect::new(0, 2, 40, height));
        let rest = height - 4;
        assert_eq!(first, Rect::new(1, 3, 38, 1));
        assert_eq!(apps, Rect::new(1, 4, 38, rest / 2));
        assert_eq!(second, Rect::new(1, 4 + rest / 2, 38, 1));
        assert_eq!(background, Rect::new(1, 5 + rest / 2, 38, rest - rest / 2));
    }
    let (first, apps, second, background) = grouped_process_sections(Rect::new(0, 0, 40, 5));
    assert_eq!(first, Rect::new(1, 1, 38, 1));
    assert_eq!(apps, Rect::new(1, 2, 38, 0));
    assert_eq!(second, apps);
    assert_eq!(background, apps);
}

#[test]
fn dialogs_lie_in_the_middle() {
    assert_eq!(centered_rect(SCREEN, 60, 30), Rect::new(20, 14, 60, 12));
    let dialog = centered_rect(Rect::new(0, 0, 101, 41), 55, 20);
    assert_eq!(dialog, Rect::new(22, 16, 56, 9));
    assert_eq!(centered_rect(Rect::new(4, 5, 0, 0), 60, 30), Rect::new(4, 5, 0, 0));
}

#[test]
fn low_screens_keep_the_bands_inside() {
    for height in 0..21 {
        let mut top = 2;
        for band in root_sections(Rect::new(0, 2, 50, height)) {
            assert_eq!(band.x, 0);
            assert_eq!(band.width, 50);
            assert_eq!(band.y, top);
            top = band.y + band.height;
            assert!(top <= 2 + height);
        }
    }
    for height in 0..8 {
        let [filter_bar, endpoints] = network_list_sections(Rect::new(0, 6, 64, height));
        assert_eq!(filter_bar.y, 6);
        assert_eq!(endpoints.y, 6 + filter_bar.height);
        assert!(endpoints.y + endpoints.height <= 6 + height);
    }
}

#[test]
fn low_screens_serve_the_body_first() {
    let heights = [
        [0, 0, 0, 0],
        [0, 0, 1, 0],
        [0, 0, 2, 0],
        [0, 0, 3, 0],
        [0, 0, 4, 0],
        [0, 0, 5, 0],
        [0, 0, 6, 0],
        [0, 0, 7, 0],
        [0, 0, 8, 0],
        [0, 0, 9, 0],
        [0, 0, 10, 0],
        [0, 0, 10, 1],
        [0, 0, 10, 2],
        [0, 0, 10, 3],
        [0, 0, 10, 4],
        [0, 0, 10, 5],
        [1, 0, 10, 5],
        [1, 1, 10, 5],
        [2, 1, 10, 5],
        [2, 2, 10, 5],
        [3, 2, 10, 5],
        [3, 3, 10, 5],
        [3, 3, 11, 5],
    ];
    for y in [0, 1, 2, 7, 40, 999, 65000] {
        for height in 0..23 {
            let mut top = y;
            let bands = root_sections(Rect::new(3, y, 50 + y % 7, height));
            for (band, expected) in bands.into_iter().zip(heights[height as usize]) {
                assert_eq!(band, Rect::new(3, top, 50 + y % 7, expected));
                top += expected;
            }
            assert_eq!(top, y + height);
        }
    }
}

#[test]
fn low_lists_serve_the_endpoints_first() {
    let bars = [0, 0, 0, 0, 0, 0, 1, 2, 3, 3];
    for y in [0, 1, 6, 35, 999, 65000] {
        for height in 0..10 {
            let bar = bars[height as usize];
            let [filter_bar, endpoints] = network_list_sections(Rect::new(2, y, 64, height));
            assert_eq!(filter_bar, Rect::new(2, y, 64, bar));
            assert_eq!(endpoints, Rect::new(2, y + bar, 64, height - bar));
        }
    }
}

#[test]
fn low_screens_are_divided() {
    let areas = frame_areas(Rect::new(0, 0, 100, 18));
    assert_eq!(areas.summary, Rect::new(0, 0, 100, 2));
    assert_eq!(areas.tabs, Rect::new(0, 2, 100, 1));
    assert_eq!(areas.list, Rect::new(0, 3, 64, 10));
    assert_eq!(areas.detail, Rect::new(64, 3, 36, 10));
    assert_eq!(areas.footer, Rect::new(0, 13, 100, 5));
    let areas = frame_areas(Rect::new(0, 0, 100, 6));
    assert_eq!(areas.list, Rect::new(0, 0, 64, 6));
    assert_eq!(areas.footer, Rect::new(0, 6, 100, 0));
    assert_eq!(areas.filter_bar, Rect::new(0, 0, 64, 1));
    assert_eq!(areas.endpoints, Rect::new(0, 1, 64, 5));
}

#[test]
fn areas_are_cut_at_the_greatest_coordinate() {
    let [_, _, body, footer] = root_sections(Rect { x: 0, y: 65520, width: 50, height: 40 });
    assert_eq!(body, Rect { x: 0, y: 65520, width: 50, height: 10 });
    assert_eq!(footer, Rect { x: 0, y: 65530, width: 50, height: 5 });
    let area = Rect { x: 0, y: 65499, width: 50, height: 60 };
    let (header, apps, second, background) = grouped_process_sections(area);
    assert_eq!(header.y, 65500);
    assert_eq!(apps.y, header.y + header.height);
    assert_eq!(second.y, apps.y + apps.height);
    assert_eq!(background.y, second.y + second.height);
    assert_eq!(background.y + background.height, 65535);
}

#[test]
fn context_menus_fit_the_screen() {
    assert_eq!(context_menu_area(SCREEN, 12), Rect::new(33, 13, 34, 14));
    assert_eq!(context_menu_area(SCREEN, 2), Rect::new(33, 17, 34, 6));
    assert_eq!(context_menu_area(SCREEN, 40), Rect::new(33, 12, 34, 16));
    assert_eq!(context_menu_area(Rect::new(0, 0, 20, 4), 12), Rect::new(0, 0, 20, 4));
}

#[test]
fn lists_are_hit_below_their_headers() {
    let area = Rect::new(0, 10, 20, 6);
    assert_eq!(list_index_at_row(area, 11, false), Some(0));
    assert_eq!(list_index_at_row(area, 11, true), None);
    assert_eq!(list_index_at_row(area, 12, true), Some(0));
    assert_eq!(list_index_at_row(area, 14, true), Some(2));
    assert_eq!(list_index_at_row(area, 15, true), None);
    assert!(contains_point(area, 0, 10));
    assert!(contains_point(area, 19, 15));
    assert!(!contains_point(area, 20, 15));
    assert!(!contains_point(area, 19, 16));
}

#[test]
fn filters_are_hit_by_thirds() {
    let area = Rect::new(0, 0, 32, 3);
    assert_eq!(network_filter_at_position(area, 0), None);
    assert_eq!(network_filter_at_position(area, 1), Some(NetworkStateFilter::All));
    assert_eq!(network_filter_at_position(area, 10), Some(NetworkStateFilter::All));
    assert_eq!(network_filter_at_position(area, 11), Some(NetworkStateFilter::Listening));
    assert_eq!(network_filter_at_position(area, 21), Some(NetworkStateFilter::Established));
    assert_eq!(network_filter_at_position(area, 30), Some(NetworkStateFilter::Established));
    assert_eq!(network_filter_at_position(area, 31), None);
    assert_eq!(network_filter_at_position(Rect::new(0, 0, 2, 3), 1), None);
}

#[test]
fn metrics_follow_the_screen() {
    let mut app = full_app();
    app.update_view_metrics(SCREEN);
    assert_eq!(app.process_view.visible_rows, 27);
    assert_eq!(app.grouped_process_view.apps_visible_rows, 12);
    assert_eq!(app.grouped_process_view.background_visible_rows, 13);
    assert_eq!(app.service_view.visible_rows, 26);
    assert_eq!(app.network_view.visible_rows, 23);
    app.process_sort_enabled = true;
    app.process_view.selected = 9;
    app.update_view_metrics(SCREEN);
    assert_eq!(app.process_view.visible_rows, 26);
    assert_eq!(app.process_view.selected, 2);
}

#[test]
fn keys_switch_the_pages() {
    let mut app = full_app();
    assert_eq!(app.handle_key_event(press(Key::Tab)), Effect::Nothing);
    assert_eq!(app.active_tab, ActiveTab::Performance);
    assert_eq!(app.handle_key_event(press(Key::Right)), Effect::RefreshServices);
    assert_eq!(app.active_tab, ActiveTab::Services);
    app.handle_key_event(press(Key::BackTab));
    app.handle_key_event(press(Key::Left));
    app.handle_key_event(press(Key::Left));
    assert_eq!(app.active_tab, ActiveTab::Network);
}

#[test]
fn q_quits_only_on_the_page() {
    let mut app = full_app();
    assert_eq!(app.handle_key_event(typed('q')), Effect::Quit);
    app.handle_key_event(typed('/'));
    assert_eq!(app.overlay, Overlay::Search);
    assert_eq!(app.handle_key_event(typed('q')), Effect::Nothing);
    assert_eq!(app.query, "q");
    app.handle_key_event(press(Key::Backspace));
    assert_eq!(app.query, "");
    app.handle_key_event(press(Key::Backspace));
    assert_eq!(app.query, "");
    app.handle_key_event(KeyPress { code: Key::Char('c'), shift: false, control: true });
    assert_eq!(app.query, "");
    app.handle_key_event(typed('3'));
    assert_eq!(app.filtered_rows.len(), 1);
    app.handle_key_event(press(Key::Enter));
    assert_eq!(app.overlay, Overlay::Closed);
}

#[test]
fn killing_asks_first() {
    let mut app = full_app();
    assert_eq!(app.handle_key_event(typed('K')), Effect::Nothing);
    assert_eq!(app.overlay, Overlay::ConfirmForceKill);
    assert_eq!(app.handle_key_event(typed('n')), Effect::Nothing);
    assert_eq!(app.overlay, Overlay::Closed);
    app.handle_key_event(typed('K'));
    assert_eq!(
        app.handle_key_event(typed('Y')),
        Effect::Send(AdminCommand::ForceKillProcess { pid: 1 }, FollowUp::Processes)
    );
    assert_eq!(app.overlay, Overlay::Closed);
    app.filtered_rows.clear();
    app.handle_key_event(typed('K'));
    assert_eq!(app.overlay, Overlay::Closed);
}

#[test]
fn process_keys_send_commands() {
    let mut app = full_app();
    assert_eq!(
        app.handle_key_event(typed('k')),
        Effect::Send(AdminCommand::RequestCloseProcess { pid: 1 }, FollowUp::Stay)
    );
    assert_eq!(
        app.handle_key_event(typed('r')),
        Effect::Send(AdminCommand::RestartProcess { pid: 1 }, FollowUp::Processes)
    );
    assert_eq!(
        app.handle_key_event(typed('z')),
        Effect::Send(AdminCommand::SuspendProcess { pid: 1 }, FollowUp::Processes)
    );
    assert_eq!(
        app.handle_key_event(typed('x')),
        Effect::Send(AdminCommand::ResumeProcess { pid: 1 }, FollowUp::Processes)
    );
    app.active_tab = ActiveTab::Performance;
    assert_eq!(app.handle_key_event(typed('k')), Effect::Nothing);
}

#[test]
fn priorities_ask_first() {
    let keys = [
        ('4', ProcessPriority::Idle),
        ('5', ProcessPriority::BelowNormal),
        ('6', ProcessPriority::Normal),
        ('7', ProcessPriority::AboveNormal),
        ('8', ProcessPriority::High),
    ];
    for (key, priority) in keys {
        let mut app = full_app();
        app.handle_key_event(typed(key));
        assert_eq!(app.overlay, Overlay::ConfirmPriorityChange(priority));
        assert_eq!(
            app.handle_key_event(press(Key::Enter)),
            Effect::Send(AdminCommand::SetPriority { pid: 1, priority }, FollowUp::Processes)
        );
    }
    let mut app = AppState::new();
    app.handle_key_event(typed('4'));
    assert_eq!(app.handle_key_event(typed('y')), Effect::RefreshProcesses);
    assert_eq!(app.feedback, "No process selected.");
}

#[test]
fn service_keys_ask_first() {
    let mut app = full_app();
    app.handle_key_event(typed('1'));
    assert_eq!(app.overlay, Overlay::Closed);
    app.set_active_tab(ActiveTab::Services);
    app.handle_key_event(press(Key::Down));
    app.handle_key_event(typed('3'));
    assert_eq!(app.overlay, Overlay::ConfirmServiceAction(ServiceActionIntent::Restart));
    assert_eq!(
        app.handle_key_event(typed('y')),
        Effect::Send(
            AdminCommand::RestartService { service_name: "Beta".into(), timeout_ms: 30_000 },
            FollowUp::Services
        )
    );
    app.handle_key_event(typed('1'));
    assert_eq!(
        app.handle_key_event(typed('y')),
        Effect::Send(
            AdminCommand::StartService { service_name: "Beta".into() },
            FollowUp::Services
        )
    );
    app.handle_key_event(typed('2'));
    assert_eq!(app.handle_key_event(press(Key::Esc)), Effect::Nothing);
    assert_eq!(app.overlay, Overlay::Closed);
}

#[test]
fn enter_toggles_the_pane() {
    let mut app = full_app();
    app.handle_key_event(press(Key::Enter));
    assert_eq!(app.pane_focus, PaneFocus::Detail);
    assert_eq!(app.feedback, "Processes detail pane focused.");
    assert_eq!(app.handle_key_event(press(Key::Down)), Effect::Nothing);
    assert_eq!(app.process_detail_scroll, 1);
    app.handle_key_event(press(Key::Up));
    app.handle_key_event(press(Key::Up));
    assert_eq!(app.process_detail_scroll, 0);
    app.handle_key_event(press(Key::Enter));
    assert_eq!(app.feedback, "Processes list focused.");
    assert_eq!(app.handle_key_event(press(Key::Down)), Effect::LookUpPriorities);
    assert_eq!(app.process_view.selected, 1);
    app.active_tab = ActiveTab::Performance;
    app.handle_key_event(press(Key::Enter));
    assert_eq!(app.pane_focus, PaneFocus::List);
    assert_eq!(app.feedback, "Performance list focused.");
}

#[test]
fn letters_sort_and_filter_their_pages() {
    let mut app = full_app();
    app.handle_key_event(typed('s'));
    assert!(app.process_sort_enabled);
    app.handle_key_event(typed('t'));
    assert!(app.show_tree);
    app.handle_key_event(typed('f'));
    assert_eq!(app.network_filter, NetworkStateFilter::All);
    app.active_tab = ActiveTab::Network;
    app.handle_key_event(typed('s'));
    assert_eq!(app.sort_mode, SortMode::CpuDesc);
    app.handle_key_event(typed('f'));
    assert_eq!(app.network_filter, NetworkStateFilter::Listening);
}

#[test]
fn folders_open_for_processes_and_endpoints() {
    let mut app = full_app();
    assert_eq!(
        app.handle_key_event(typed('o')),
        Effect::OpenPath("C:\\bin\\p1.exe".into())
    );
    app.filtered_rows[0].exe_path = None;
    assert_eq!(app.handle_key_event(typed('o')), Effect::Nothing);
    assert_eq!(app.feedback, "Selected process has no executable path.");
    app.active_tab = ActiveTab::Network;
    assert_eq!(app.handle_key_event(typed('o')), Effect::OpenEndpoint(2));
    app.filtered_network.clear();
    app.handle_key_event(typed('o'));
    assert_eq!(app.feedback, "No endpoint selected.");
    app.active_tab = ActiveTab::Services;
    app.handle_key_event(typed('o'));
    assert_eq!(app.feedback, "Open folder is available on Processes and Network.");
}

#[test]
fn the_context_menu_is_walked_and_used() {
    let mut app = full_app();
    app.handle_key_event(KeyPress { code: Key::F(10), shift: true, control: false });
    assert_eq!(app.context_menu_title(), "Process Actions");
    assert_eq!(app.current_context_actions().len(), 12);
    for _ in 0..20 {
        app.handle_key_event(press(Key::Down));
    }
    assert_eq!(
        app.overlay,
        Overlay::ContextMenu(ContextMenuState {
            kind: ContextMenuKind::Process,
            selected_index: 11,
            target: ContextMenuTarget::ProcessPid(1),
        })
    );
    app.handle_key_event(press(Key::Enter));
    assert_eq!(app.overlay, Overlay::ConfirmPriorityChange(ProcessPriority::High));

    app.overlay = Overlay::Closed;
    app.open_context_menu_for_selection();
    app.handle_key_event(press(Key::Up));
    app.handle_key_event(press(Key::Down));
    assert_eq!(
        app.handle_key_event(press(Key::Enter)),
        Effect::Send(AdminCommand::RequestCloseProcess { pid: 1 }, FollowUp::Stay)
    );
    app.open_context_menu_for_selection();
    app.handle_key_event(press(Key::Esc));
    assert_eq!(app.overlay, Overlay::Closed);
}

#[test]
fn menu_entries_do_what_they_say() {
    let mut app = full_app();
    let menu = ContextMenuState {
        kind: ContextMenuKind::Network,
        selected_index: 0,
        target: ContextMenuTarget::NetworkPid(9),
    };
    app.perform_context_action(&menu, ContextAction::OpenDetails);
    assert_eq!(app.pane_focus, PaneFocus::Detail);
    assert_eq!(app.feedback, "Network detail pane focused.");
    assert_eq!(
        app.perform_context_action(&menu, ContextAction::OpenFolder),
        Effect::OpenEndpoint(9)
    );
    assert_eq!(
        app.perform_context_action(&menu, ContextAction::Suspend),
        Effect::Send(AdminCommand::SuspendProcess { pid: 9 }, FollowUp::Processes)
    );
    let menu = ContextMenuState {
        kind: ContextMenuKind::Service,
        selected_index: 0,
        target: ContextMenuTarget::ServiceName("Alpha".into()),
    };
    assert_eq!(app.perform_context_action(&menu, ContextAction::Resume), Effect::Nothing);
    app.perform_context_action(&menu, ContextAction::OpenFolder);
    assert_eq!(app.feedback, "Services do not have an executable folder here.");
    app.perform_context_action(&menu, ContextAction::StopService);
    assert_eq!(app.overlay, Overlay::ConfirmServiceAction(ServiceActionIntent::Stop));
}

#[test]
fn clicks_select_rows_and_tabs() {
    let mut app = full_app();
    app.update_view_metrics(SCREEN);
    let areas = frame_areas(SCREEN);
    assert_eq!(areas.list, Rect::new(0, 6, 64, 29));

    app.handle_mouse_event(mouse(MouseKind::LeftDown, 5, areas.background_list.y + 1), SCREEN);
    assert_eq!(app.process_view.selected, 2);
    app.handle_mouse_event(mouse(MouseKind::LeftDown, 5, areas.apps_list.y), SCREEN);
    assert_eq!(app.process_view.selected, 0);

    assert_eq!(
        app.handle_mouse_event(mouse(MouseKind::ScrollDown, 5, 10), SCREEN),
        Effect::LookUpPriorities
    );
    assert_eq!(app.process_view.selected, 1);
    app.handle_mouse_event(mouse(MouseKind::ScrollUp, 5, 10), SCREEN);
    assert_eq!(app.process_view.selected, 0);

    app.handle_mouse_event(mouse(MouseKind::LeftDown, 70, 10), SCREEN);
    assert_eq!(app.pane_focus, PaneFocus::Detail);
    app.handle_mouse_event(mouse(MouseKind::LeftDown, 70, 1), SCREEN);
    assert_eq!(app.active_tab, ActiveTab::Processes);

    assert_eq!(
        app.handle_mouse_event(mouse(MouseKind::LeftDown, 26, 4), SCREEN),
        Effect::RefreshServices
    );
    assert_eq!(app.active_tab, ActiveTab::Services);
    app.handle_mouse_event(mouse(MouseKind::LeftDown, 5, 9), SCREEN);
    assert_eq!(app.service_view.selected, 1);
}

#[test]
fn clicks_in_a_scrolled_service_list_select_the_row_shown() {
    let mut app = AppState::new();
    app.set_active_tab(ActiveTab::Services);
    app.service_rows = (0..60).map(|index| service(&format!("S{index:02}"))).collect();
    app.rebuild_service_view();
    app.service_view.selected = 40;
    app.update_view_metrics(SCREEN);
    assert_eq!(app.service_view.offset, 15);

    let list = frame_areas(SCREEN).list;
    let shown = app.service_window(list.height).rows[3];
    assert_eq!(shown, 18);
    app.handle_mouse_event(mouse(MouseKind::LeftDown, 5, list.y + 5), SCREEN);
    assert_eq!(app.service_view.selected, shown);
    assert_eq!(app.service_view.offset, 15);

    app.handle_mouse_event(mouse(MouseKind::RightDown, 5, list.y + 2), SCREEN);
    assert_eq!(
        app.overlay,
        Overlay::ContextMenu(ContextMenuState {
            kind: ContextMenuKind::Service,
            selected_index: 0,
            target: ContextMenuTarget::ServiceName("S15".into()),
        })
    );
}

#[test]
fn clicks_in_a_scrolled_endpoint_list_select_the_row_shown() {
    let mut app = AppState::new();
    app.set_active_tab(ActiveTab::Network);
    app.network_rows = (100..160).map(endpoint).collect();
    app.rebuild_network_view();
    app.network_view.selected = 59;
    app.update_view_metrics(SCREEN);
    assert_eq!(app.network_view.offset, 37);

    let endpoints = frame_areas(SCREEN).endpoints;
    let shown = app.network_window(endpoints.height).rows[4];
    app.handle_mouse_event(mouse(MouseKind::LeftDown, 5, endpoints.y + 6), SCREEN);
    assert_eq!(shown, 41);
    assert_eq!(app.network_view.selected, shown);
    assert_eq!(app.network_view.offset, 37);

    app.handle_mouse_event(mouse(MouseKind::RightDown, 5, endpoints.y + 2), SCREEN);
    assert!(matches!(
        app.overlay,
        Overlay::ContextMenu(ContextMenuState { target: ContextMenuTarget::NetworkPid(137), .. })
    ));
}

#[test]
fn clicks_below_the_last_row_select_it() {
    let mut app = full_app();
    app.set_active_tab(ActiveTab::Services);
    app.update_view_metrics(SCREEN);
    app.handle_mouse_event(mouse(MouseKind::LeftDown, 5, 20), SCREEN);
    assert_eq!(app.service_view.selected, 1);
    app.filtered_services.clear();
    app.handle_mouse_event(mouse(MouseKind::LeftDown, 5, 20), SCREEN);
    assert_eq!(app.service_view.selected, 0);
    app.service_view.offset = usize::MAX;
    app.handle_mouse_event(mouse(MouseKind::LeftDown, 5, 20), SCREEN);
    assert_eq!(app.service_view.selected, 0);
}

#[test]
fn clicks_in_scrolled_process_lists_select_the_row_shown() {
    let mut app = AppState::new();
    app.process_rows = (0..80)
        .map(|pid| {
            row(pid, if pid < 40 { ProcessCategory::App } else { ProcessCategory::Background })
        })
        .collect();
    app.rebuild_process_view();
    app.process_view.selected = 79;
    app.update_view_metrics(SCREEN);
    let areas = frame_areas(SCREEN);
    let group = areas.background_list;
    let shown = app.group_window(ProcessCategory::Background, group.height).rows[2];
    assert_eq!(shown, 69);
    app.handle_mouse_event(mouse(MouseKind::LeftDown, 5, group.y + 2), SCREEN);
    assert_eq!(app.process_view.selected, shown);

    app.cycle_process_sort_mode();
    app.process_view.selected = 79;
    app.update_view_metrics(SCREEN);
    let shown = app.process_window(areas.list.height, 3).rows[2];
    assert_eq!(shown, 56);
    app.handle_mouse_event(mouse(MouseKind::LeftDown, 5, areas.list.y + 4), SCREEN);
    assert_eq!(app.process_view.selected, shown);
}

#[test]
fn clicks_filter_endpoints() {
    let mut app = full_app();
    app.set_active_tab(ActiveTab::Network);
    app.handle_mouse_event(mouse(MouseKind::LeftDown, 62, 7), SCREEN);
    assert_eq!(app.network_filter, NetworkStateFilter::Established);
    assert!(app.filtered_network.is_empty());
    app.handle_mouse_event(mouse(MouseKind::LeftDown, 2, 7), SCREEN);
    assert_eq!(app.network_filter, NetworkStateFilter::All);
    app.handle_mouse_event(mouse(MouseKind::LeftDown, 2, 12), SCREEN);
    assert_eq!(app.network_view.selected, 1);
}

#[test]
fn an_open_menu_blocks_the_page() {
    let mut app = full_app();
    app.update_view_metrics(SCREEN);
    app.handle_mouse_event(mouse(MouseKind::RightDown, 5, 8), SCREEN);
    assert!(matches!(app.overlay, Overlay::ContextMenu(_)));
    let before = app.overlay.clone();
    app.handle_mouse_event(mouse(MouseKind::ScrollDown, 5, 10), SCREEN);
    app.handle_mouse_event(mouse(MouseKind::RightDown, 5, 10), SCREEN);
    assert_eq!(app.overlay, before);
    assert_eq!(app.process_view.selected, 0);
    app.handle_mouse_event(mouse(MouseKind::LeftDown, 26, 4), SCREEN);
    assert_eq!(app.overlay, Overlay::Closed);
    assert_eq!(app.active_tab, ActiveTab::Processes);

    app.open_context_menu_for_selection();
    assert_eq!(
        app.handle_mouse_event(mouse(MouseKind::LeftDown, 40, 15), SCREEN),
        Effect::Send(AdminCommand::RequestCloseProcess { pid: 1 }, FollowUp::Stay)
    );

    app.overlay = Overlay::ConfirmForceKill;
    app.handle_mouse_event(mouse(MouseKind::LeftDown, 26, 4), SCREEN);
    assert_eq!(app.overlay, Overlay::ConfirmForceKill);
}

#[test]
fn sorted_lists_are_clicked_below_the_header() {
    let mut app = full_app();
    app.cycle_process_sort_mode();
    app.update_view_metrics(SCREEN);
    app.handle_mouse_event(mouse(MouseKind::LeftDown, 5, 9), SCREEN);
    assert_eq!(app.process_view.selected, 1);
    app.show_tree = true;
    app.handle_mouse_event(mouse(MouseKind::LeftDown, 5, 9), SCREEN);
    assert_eq!(app.process_view.selected, 2);
    app.handle_mouse_event(mouse(MouseKind::LeftDown, 5, 20), SCREEN);
    assert_eq!(app.process_view.selected, 2);
}

#[test]
fn loads_get_their_tones() {
    let bits = |value: f32| value.to_bits();
    assert_eq!(cpu_style(bits(80.0)), Tone::Critical);
    assert_eq!(cpu_style(bits(79.9)), Tone::Raised);
    assert_eq!(cpu_style(bits(40.0)), Tone::Raised);
    assert_eq!(cpu_style(bits(39.9)), Tone::Plain);
    assert_eq!(memory_style(2 * 1024 * 1024 * 1024), Tone::Critical);
    assert_eq!(memory_style(1024 * 1024 * 1024), Tone::Heavy);
    assert_eq!(memory_style(1024 * 1024 * 1024 - 1), Tone::Plain);
    let mut heavy = row(1, ProcessCategory::App);
    heavy.cpu_percent = CpuPercent { bits: bits(50.0) };
    assert_eq!(process_row_style(&heavy), Tone::Raised);
    heavy.memory_bytes = 1024 * 1024 * 1024;
    assert_eq!(process_row_style(&heavy), Tone::Heavy);
    heavy.cpu_percent = CpuPercent { bits: bits(100.0) };
    assert_eq!(process_row_style(&heavy), Tone::Critical);
    assert_eq!(process_row_style(&row(1, ProcessCategory::App)), Tone::Plain);
}

#[test]
fn states_get_their_tones() {
    assert_eq!(service_status_style("Running"), Tone::Running);
    assert_eq!(service_status_style("stopped"), Tone::Quiet);
    assert_eq!(service_status_style("paused"), Tone::Heavy);
    assert_eq!(network_state_style("LISTEN"), Tone::Listening);
    assert_eq!(network_state_style("established"), Tone::Connected);
    assert_eq!(network_state_style("closed"), Tone::Quiet);
    assert_eq!(
        filter_chip(NetworkStateFilter::All, NetworkStateFilter::All),
        (" All ".to_string(), Tone::Chosen)
    );
    assert_eq!(
        filter_chip(NetworkStateFilter::Listening, NetworkStateFilter::All),
        (" Listening ".to_string(), Tone::Quiet)
    );
    assert_eq!(footer_style("Service unavailable: x"), Tone::Unreachable);
    assert_eq!(footer_style("Admin operation failed: x"), Tone::Heavy);
    assert_eq!(footer_style("Failed to open"), Tone::Heavy);
    assert_eq!(footer_style("fine"), Tone::Connected);
}

#[test]
fn texts_are_laid_out() {
    assert_eq!(format_runtime(0), "00:00:00");
    assert_eq!(format_runtime(3723), "01:02:03");
    assert_eq!(format_runtime(360_000), "100:00:00");
    assert_eq!(pad_right("ab", 4), "ab  ");
    assert_eq!(pad_left("ab", 4), "  ab");
    assert_eq!(pad_left("abcde", 4), "abcde");
    assert_eq!(process_group_band(ProcessCategory::App, 3, 14), " APPS (3)     ");
    assert_eq!(process_group_band(ProcessCategory::Background, 12, 8), " BACKGRO");
    let mut child = row(42, ProcessCategory::App);
    child.depth = 2;
    assert_eq!(indented_name(&child), "    p42");
    assert_eq!(tree_figures(&child, "1.5", "0.1 MiB"), " [42] 1.5% 0.1 MiB normal");
    assert_eq!(
        process_line(&child, "1.5", "0.1 MiB"),
        "42        1.5    0.1 MiB 01:02:03 normal        p42"
    );
}

#[test]
fn panes_show_their_lines() {
    let process = row(42, ProcessCategory::App);
    let lines = process_detail_lines(&process, "1.5", "0.1 MiB");
    assert_eq!(lines.len(), 11);
    assert_eq!(lines[0], "Name: p42");
    assert_eq!(lines[2], "Parent PID: -");
    assert_eq!(lines[3], "CPU: 1.5%");
    assert_eq!(lines[5], "Runtime: 01:02:03");
    assert_eq!(lines[8], "Exe: C:\\bin\\p42.exe");
    let lines = service_detail_lines(&service("Alpha"));
    assert_eq!(lines[0], "Display name: The Alpha");
    assert_eq!(lines[3], "Start type: auto");
    let lines = network_detail_lines(&endpoint(7));
    assert_eq!(lines[0], "PID: 7");
    assert_eq!(lines[4], "State: listen");
    let lines = footer_lines(ActiveTab::Performance, "hello");
    assert_eq!(lines[1], "Performance keeps the last 60 samples of CPU and memory.");
    assert_eq!(lines[2], "hello");
}

#[test]
fn dialogs_show_their_subject() {
    let mut app = full_app();
    assert_eq!(app.force_kill_lines()[2], "Name: p1");
    assert_eq!(app.priority_confirmation_lines(ProcessPriority::Idle)[5], "New: idle");
    app.active_tab = ActiveTab::Network;
    assert_eq!(app.force_kill_lines()[2], "Process: web");
    assert_eq!(app.priority_confirmation_lines(ProcessPriority::Idle)[4], "New: idle");
    app.active_tab = ActiveTab::Services;
    assert_eq!(
        app.force_kill_lines(),
        vec!["Force kill is only available on Processes and Network."]
    );
    let lines = app.service_confirmation_lines(ServiceActionIntent::Stop);
    assert_eq!(lines[2], "Action: stop");
    assert_eq!(lines[3], "Display: The Alpha");
    app.filtered_services.clear();
    assert_eq!(
        app.service_confirmation_lines(ServiceActionIntent::Stop),
        vec!["No service selected."]
    );
    app.process_sort_enabled = true;
    app.sort_mode = SortMode::MemoryDesc;
    assert_eq!(
        app.process_table_title(),
        "Processes | sort=Memory | tree=off | / search | right-click actions"
    );
}

#[test]
fn windows_show_and_mark_rows() {
    let window = list_window(10, 7, 0, 6);
    assert_eq!(window.rows, vec![5, 6, 7]);
    assert_eq!(window.marked, Some(2));
    assert_eq!(list_window(0, 0, 0, 6).marked, None);

    let mut app = full_app();
    let window = app.group_window(ProcessCategory::Background, 1);
    assert_eq!(window.rows, vec![1]);
    assert_eq!(window.marked, None);
    app.process_view.selected = 1;
    assert_eq!(app.group_window(ProcessCategory::Background, 2).marked, Some(0));

    app.cycle_process_sort_mode();
    app.process_view.selected = 2;
    let window = app.process_window(5, 3);
    assert_eq!(window.rows, vec![1, 2]);
    assert_eq!(window.marked, Some(1));
    assert_eq!(app.service_window(10).rows, vec![0, 1]);
    assert_eq!(app.network_window(10).marked, Some(0));
}
