use tasktui::api::{ProcessPriority, ServiceRow};
use tasktui::filtering::{find_processes, search_term};
use tasktui::listing::{sort_by_mode, sort_services};
use tasktui::model::{
    context_actions, ActiveTab, ContextAction, ContextMenuKind, NetworkStateFilter, SortMode,
};
use tasktui::rows::{CpuPercent, ProcessCategory, ProcessRow};
use tasktui::text::{
    contains, decimal_text, from_chars, parse_u32, same_ignoring_case, split_chars, to_chars,
    to_lower, trim, Cut,
};
use tasktui::window::{visible_window, ViewState};

fn named(pid: u32, name: &str) -> ProcessRow {
    ProcessRow {
        pid,
        parent_pid: None,
        depth: 0,
        category: ProcessCategory::App,
        name: name.into(),
        exe_path: None,
        priority: "normal".into(),
        cpu_percent: CpuPercent { bits: 0 },
        memory_bytes: 7,
        runtime_secs: 0,
    }
}

#[test]
fn numbers_read_back() {
    for number in [0, 1, 9, 10, 99, 100, 65_535, 4_294_967_295_u32] {
        let text = decimal_text(u64::from(number));
        assert_eq!(text, number.to_string());
        assert_eq!(parse_u32(&text), Some(number));
    }
    assert_eq!(decimal_text(u64::MAX), "18446744073709551615");
}

#[test]
fn lowering_folds_ascii_only() {
    let lower = to_lower("AbC-\u{c4}Z[");
    assert_eq!(lower, "abc-\u{c4}z[");
    assert_eq!(to_lower(&lower), lower);
    assert!(same_ignoring_case("LISTEN", "listen"));
    assert!(!same_ignoring_case("\u{c4}", "\u{e4}"));
}

#[test]
fn texts_are_trimmed_and_searched() {
    assert_eq!(trim(" \t\u{a0}\u{3000}a b\u{2028}\r\n"), "a b");
    assert_eq!(trim("\u{200b}x"), "\u{200b}x");
    assert_eq!(trim("   "), "");
    assert_eq!(search_term("  AbC "), "abc");
    assert!(contains("abcabd", "abd"));
    assert!(contains("abc", ""));
    assert!(!contains("ab", "abc"));
}

#[test]
fn pieces_join_again() {
    for text in ["", ":", "a:b", ":a::b:", "no mark"] {
        let parts: Vec<String> = split_chars(&to_chars(text), Cut::At(':'))
            .iter()
            .map(|part| from_chars(part))
            .collect();
        assert_eq!(parts, text.split(':').collect::<Vec<_>>());
        assert_eq!(parts.join(":"), text);
    }
}

#[test]
fn ties_are_broken_by_number() {
    let rows = vec![named(3, "b"), named(1, "B"), named(2, "a")];
    let pids = |mode: SortMode| -> Vec<u32> {
        sort_by_mode(rows.clone(), mode).iter().map(|row| row.pid).collect()
    };
    assert_eq!(pids(SortMode::CpuDesc), vec![1, 2, 3]);
    assert_eq!(pids(SortMode::MemoryDesc), vec![1, 2, 3]);
    assert_eq!(pids(SortMode::NameAsc), vec![2, 1, 3]);
}

#[test]
fn equal_services_keep_their_places() {
    let service = |status: &str| ServiceRow {
        display_name: "Same".into(),
        service_name: "same".into(),
        status: status.into(),
        start_type: "auto".into(),
    };
    let sorted = sort_services(vec![service("first"), service("second"), service("third")]);
    let order: Vec<&str> = sorted.iter().map(|row| row.status.as_str()).collect();
    assert_eq!(order, vec!["first", "second", "third"]);
}

#[test]
fn searching_twice_finds_the_same() {
    let rows = vec![named(1, "alpha"), named(2, "beta"), named(3, "alphabet")];
    let once = find_processes(rows, "ALPHA");
    assert_eq!(once.len(), 2);
    assert_eq!(find_processes(once.clone(), "ALPHA"), once);
    assert_eq!(find_processes(once.clone(), " "), once);
}

#[test]
fn pages_and_filters_come_round() {
    let mut tab = ActiveTab::Processes;
    for _ in 0..4 {
        assert_eq!(tab.next().previous(), tab);
        assert_eq!(ActiveTab::from_index(tab.index()), tab);
        tab = tab.next();
    }
    assert_eq!(tab, ActiveTab::Processes);
    assert_eq!(NetworkStateFilter::All.next().next().next(), NetworkStateFilter::All);
    assert_eq!(ActiveTab::from_index(9), ActiveTab::Network);
}

#[test]
fn menus_offer_every_priority_once() {
    let priorities = [
        ProcessPriority::Idle,
        ProcessPriority::BelowNormal,
        ProcessPriority::Normal,
        ProcessPriority::AboveNormal,
        ProcessPriority::High,
    ];
    for kind in [ContextMenuKind::Process, ContextMenuKind::Network] {
        let actions = context_actions(kind);
        assert_eq!(actions.len(), 12);
        for priority in priorities {
            let action = ContextAction::SetPriority(priority);
            assert_eq!(actions.iter().filter(|entry| **entry == action).count(), 1);
            assert_eq!(action.label(), format!("Set priority: {}", priority.label()));
        }
    }
    assert_eq!(context_actions(ContextMenuKind::Service).len(), 4);
}

#[test]
fn windows_show_the_selection_and_rest() {
    for total in 1..9 {
        for selected in 0..total {
            for offset in 0..10 {
                for visible in 1..6 {
                    let (start, marked) = visible_window(total, selected, offset, visible);
                    assert_eq!(marked, Some(selected - start));
                    assert!(start <= selected && selected < start + visible);
                    assert_eq!(visible_window(total, selected, start, visible).0, start);
                }
            }
        }
    }
    let mut state = ViewState { selected: 2, offset: 1, visible_rows: 3 };
    state.select_next(9);
    state.select_prev(9);
    assert_eq!(state.selected, 2);
}
