//! What keys and the mouse do: how they change the state, and what they ask of the system.

use crate::api::{AdminCommand, CommandView, ProcessPriority};
use crate::layout::{
    bordered_index, contains_point, context_menu_area, filter_at, inside_border,
    list_index_at_row, menu_area, network_filter_at_position, tab_at, tab_at_position, Rect,
};
use crate::model::{
    context_actions, context_target_pid, menu_actions, target_pid, ActiveTab, ContextAction,
    ContextMenuKind, ContextMenuState, MenuView, Overlay, OverlayView, PaneFocus,
    ServiceActionIntent,
};
use crate::navigation::{divides, frame_areas, FrameAreas};
use crate::state::{AppState, AppView};
use crate::text::{from_chars, slice_chars, to_chars};
use crate::window::min_of;
use vstd::prelude::*;

verus! {

/// How long a restart may wait for a service, in milliseconds.
pub const RESTART_TIMEOUT_MILLIS: u32 = 30000;

/// A key of the keyboard.
#[derive(Debug, Clone, Copy, PartialEq, Eq, Structural)]
pub enum Key {
    Char(char),
    F(u8),
    Tab,
    BackTab,
    Left,
    Right,
    Up,
    Down,
    Enter,
    Esc,
    Backspace,
    Other,
}

/// A key press, with the modifier keys held.
#[derive(Debug, Clone, Copy, PartialEq, Eq, Structural)]
pub struct KeyPress {
    pub code: Key,
    pub shift: bool,
    pub control: bool,
}

/// What the mouse did.
#[derive(Debug, Clone, Copy, PartialEq, Eq, Structural)]
pub enum MouseKind {
    LeftDown,
    RightDown,
    ScrollDown,
    ScrollUp,
    Other,
}

/// A mouse event at a cell of the screen.
#[derive(Debug, Clone, Copy, PartialEq, Eq, Structural)]
pub struct MouseInput {
    pub kind: MouseKind,
    pub column: u16,
    pub row: u16,
}

/// What is refreshed after a command was answered.
#[derive(Debug, Clone, Copy, PartialEq, Eq, Structural)]
pub enum FollowUp {
    Stay,
    Processes,
    Services,
}

/// What an event asks of the system.
#[derive(Debug, PartialEq, Eq)]
pub enum Effect {
    Nothing,
    Quit,
    /// Send a command, show the answer, and refresh a list.
    Send(AdminCommand, FollowUp),
    /// Sample the processes.
    RefreshProcesses,
    /// List the services, if they are due.
    RefreshServices,
    /// Look up the priorities of the processes on show.
    LookUpPriorities,
    /// Open the folder of an executable.
    OpenPath(String),
    /// Open the folder of a process's executable.
    OpenProcess(u32),
    /// Open the folder of the executable of an endpoint's owner.
    OpenEndpoint(u32),
}

/// The model of what an event asks of the system.
pub enum EffectView {
    Nothing,
    Quit,
    Send(CommandView, FollowUp),
    RefreshProcesses,
    RefreshServices,
    LookUpPriorities,
    OpenPath(Seq<char>),
    OpenProcess(u32),
    OpenEndpoint(u32),
}

impl View for Effect {
    type V = EffectView;

    open spec fn view(&self) -> EffectView {
        match self {
            Effect::Nothing => EffectView::Nothing,
            Effect::Quit => EffectView::Quit,
            Effect::Send(command, follow) => EffectView::Send(command@, *follow),
            Effect::RefreshProcesses => EffectView::RefreshProcesses,
            Effect::RefreshServices => EffectView::RefreshServices,
            Effect::LookUpPriorities => EffectView::LookUpPriorities,
            Effect::OpenPath(path) => EffectView::OpenPath(path@),
            Effect::OpenProcess(pid) => EffectView::OpenProcess(*pid),
            Effect::OpenEndpoint(pid) => EffectView::OpenEndpoint(*pid),
        }
    }
}

/// Whether a key confirms a dialog.
pub open spec fn confirms(code: Key) -> bool {
    code == Key::Char('y') || code == Key::Char('Y') || code == Key::Enter
}

/// Whether a key cancels a dialog.
pub open spec fn cancels(code: Key) -> bool {
    code == Key::Char('n') || code == Key::Char('N') || code == Key::Esc
}

/// The command for a confirmed service action.
pub open spec fn service_command(intent: ServiceActionIntent, name: Seq<char>) -> CommandView {
    match intent {
        ServiceActionIntent::Start => CommandView::StartService { service_name: name },
        ServiceActionIntent::Stop => CommandView::StopService { service_name: name },
        ServiceActionIntent::Restart => CommandView::RestartService {
            service_name: name,
            timeout_ms: RESTART_TIMEOUT_MILLIS,
        },
    }
}

/// The priority that a digit key stands for.
pub open spec fn priority_of_key(code: Key) -> Option<ProcessPriority> {
    match code {
        Key::Char('4') => Some(ProcessPriority::Idle),
        Key::Char('5') => Some(ProcessPriority::BelowNormal),
        Key::Char('6') => Some(ProcessPriority::Normal),
        Key::Char('7') => Some(ProcessPriority::AboveNormal),
        Key::Char('8') => Some(ProcessPriority::High),
        _ => None,
    }
}

/// The service action that a digit key stands for.
pub open spec fn intent_of_key(code: Key) -> Option<ServiceActionIntent> {
    match code {
        Key::Char('1') => Some(ServiceActionIntent::Start),
        Key::Char('2') => Some(ServiceActionIntent::Stop),
        Key::Char('3') => Some(ServiceActionIntent::Restart),
        _ => None,
    }
}

/// The message that a pane has the focus.
pub open spec fn focus_message(tab: ActiveTab, focus: PaneFocus) -> Seq<char> {
    tab.name() + match focus {
        PaneFocus::Detail => " detail pane focused."@,
        PaneFocus::List => " list focused."@,
    }
}

impl AppView {
    /// Whether the marked entry of an open context menu is one of its entries.
    pub open spec fn menu_in_range(self) -> bool {
        self.overlay matches OverlayView::ContextMenu(menu) ==> menu.selected_index < menu_actions(
            menu.kind,
        ).len()
    }

    /// The state with another thing lying over the page.
    pub open spec fn under(self, overlay: OverlayView) -> AppView {
        AppView { overlay, ..self }
    }

    /// The state with a message for the user.
    pub open spec fn saying(self, feedback: Seq<char>) -> AppView {
        AppView { feedback, ..self }
    }

    /// A command for the target process, if there is one.
    pub open spec fn send_to_target(self, command: spec_fn(u32) -> CommandView, follow: FollowUp) -> (
        AppView,
        EffectView,
    ) {
        match self.target() {
            Some(pid) => (self, EffectView::Send(command(pid), follow)),
            None => (self, EffectView::Nothing),
        }
    }

    /// What a key does while the query is typed.
    pub open spec fn search_key(self, press: KeyPress) -> (AppView, EffectView) {
        let next = match press.code {
            Key::Esc => self.under(OverlayView::Closed),
            Key::Enter => self.under(OverlayView::Closed),
            Key::Backspace => AppView {
                query: if self.query.len() > 0 {
                    self.query.drop_last()
                } else {
                    self.query
                },
                ..self
            }.rebuilt_tab(),
            Key::Char(c) => if press.control {
                self
            } else {
                AppView { query: self.query.push(c), ..self }.rebuilt_tab()
            },
            _ => self,
        };
        (next, EffectView::Nothing)
    }

    /// What a key does in the dialog before a force kill.
    pub open spec fn force_kill_key(self, press: KeyPress) -> (AppView, EffectView) {
        if cancels(press.code) {
            (self.under(OverlayView::Closed), EffectView::Nothing)
        } else if confirms(press.code) {
            self.under(OverlayView::Closed).send_to_target(
                |pid: u32| CommandView::ForceKillProcess { pid },
                FollowUp::Processes,
            )
        } else {
            (self, EffectView::Nothing)
        }
    }

    /// What a key does in the dialog before a service action.
    pub open spec fn service_key(self, press: KeyPress, intent: ServiceActionIntent) -> (
        AppView,
        EffectView,
    ) {
        if cancels(press.code) {
            (self.under(OverlayView::Closed), EffectView::Nothing)
        } else if confirms(press.code) {
            (
                self.under(OverlayView::Closed),
                match self.chosen_service() {
                    Some(row) => EffectView::Send(
                        service_command(intent, row.service_name),
                        FollowUp::Services,
                    ),
                    None => EffectView::Nothing,
                },
            )
        } else {
            (self, EffectView::Nothing)
        }
    }

    /// What a key does in the dialog before a change of priority.
    pub open spec fn priority_key(self, press: KeyPress, priority: ProcessPriority) -> (
        AppView,
        EffectView,
    ) {
        if cancels(press.code) {
            (self.under(OverlayView::Closed), EffectView::Nothing)
        } else if confirms(press.code) {
            match self.target() {
                Some(pid) => (
                    self.under(OverlayView::Closed),
                    EffectView::Send(
                        CommandView::SetPriority { pid, priority },
                        FollowUp::Processes,
                    ),
                ),
                None => (
                    self.under(OverlayView::Closed).saying("No process selected."@),
                    EffectView::RefreshProcesses,
                ),
            }
        } else {
            (self, EffectView::Nothing)
        }
    }

    /// What an entry of a context menu does.
    pub open spec fn menu_action(self, menu: MenuView, action: ContextAction) -> (
        AppView,
        EffectView,
    ) {
        let pid = target_pid(menu.target);
        match action {
            ContextAction::OpenDetails => (
                AppView { pane_focus: PaneFocus::Detail, ..self }.saying(
                    match menu.kind {
                        ContextMenuKind::Process => "Process detail pane focused."@,
                        ContextMenuKind::Service => "Service detail pane focused."@,
                        ContextMenuKind::Network => "Network detail pane focused."@,
                    },
                ),
                EffectView::Nothing,
            ),
            ContextAction::Close => (
                self,
                match pid {
                    Some(pid) => EffectView::Send(
                        CommandView::RequestCloseProcess { pid },
                        FollowUp::Stay,
                    ),
                    None => EffectView::Nothing,
                },
            ),
            ContextAction::Restart => (
                self,
                match pid {
                    Some(pid) => EffectView::Send(
                        CommandView::RestartProcess { pid },
                        FollowUp::Processes,
                    ),
                    None => EffectView::Nothing,
                },
            ),
            ContextAction::Suspend => (
                self,
                match pid {
                    Some(pid) => EffectView::Send(
                        CommandView::SuspendProcess { pid },
                        FollowUp::Processes,
                    ),
                    None => EffectView::Nothing,
                },
            ),
            ContextAction::Resume => (
                self,
                match pid {
                    Some(pid) => EffectView::Send(
                        CommandView::ResumeProcess { pid },
                        FollowUp::Processes,
                    ),
                    None => EffectView::Nothing,
                },
            ),
            ContextAction::OpenFolder => match menu.kind {
                ContextMenuKind::Process => match pid {
                    Some(pid) => (self, EffectView::OpenProcess(pid)),
                    None => (
                        self.saying("Selected process has no executable path."@),
                        EffectView::Nothing,
                    ),
                },
                ContextMenuKind::Network => match pid {
                    Some(pid) => (self, EffectView::OpenEndpoint(pid)),
                    None => (self.saying("No endpoint selected."@), EffectView::Nothing),
                },
                ContextMenuKind::Service => (
                    self.saying("Services do not have an executable folder here."@),
                    EffectView::Nothing,
                ),
            },
            ContextAction::ForceKill => (
                self.under(OverlayView::ConfirmForceKill),
                EffectView::Nothing,
            ),
            ContextAction::SetPriority(priority) => (
                self.under(OverlayView::ConfirmPriorityChange(priority)),
                EffectView::Nothing,
            ),
            ContextAction::StartService => (
                self.under(OverlayView::ConfirmServiceAction(ServiceActionIntent::Start)),
                EffectView::Nothing,
            ),
            ContextAction::StopService => (
                self.under(OverlayView::ConfirmServiceAction(ServiceActionIntent::Stop)),
                EffectView::Nothing,
            ),
            ContextAction::RestartService => (
                self.under(OverlayView::ConfirmServiceAction(ServiceActionIntent::Restart)),
                EffectView::Nothing,
            ),
        }
    }

    /// What a key does while a context menu is open.
    pub open spec fn menu_key(self, press: KeyPress, menu: MenuView) -> (AppView, EffectView) {
        let actions = menu_actions(menu.kind);
        match press.code {
            Key::Esc => (self.under(OverlayView::Closed), EffectView::Nothing),
            Key::Down => (
                self.under(
                    OverlayView::ContextMenu(
                        MenuView {
                            selected_index: min_of(
                                menu.selected_index + 1,
                                actions.len() - 1,
                            ) as usize,
                            ..menu
                        },
                    ),
                ),
                EffectView::Nothing,
            ),
            Key::Up => (
                self.under(
                    OverlayView::ContextMenu(
                        MenuView {
                            selected_index: (if menu.selected_index > 0 {
                                menu.selected_index - 1
                            } else {
                                0
                            }) as usize,
                            ..menu
                        },
                    ),
                ),
                EffectView::Nothing,
            ),
            Key::Enter => self.under(OverlayView::Closed).menu_action(
                menu,
                actions[menu.selected_index as int],
            ),
            _ => (self, EffectView::Nothing),
        }
    }

    /// Going to a page asks for the services, if it is theirs.
    pub open spec fn to_tab(self, tab: ActiveTab) -> (AppView, EffectView) {
        (
            self.on_tab(tab),
            if tab == ActiveTab::Services {
                EffectView::RefreshServices
            } else {
                EffectView::Nothing
            },
        )
    }

    /// Moving the selection of the process list asks for priorities.
    pub open spec fn moved(self, next: AppView) -> (AppView, EffectView) {
        (
            next,
            if self.active_tab == ActiveTab::Processes {
                EffectView::LookUpPriorities
            } else {
                EffectView::Nothing
            },
        )
    }

    /// The state with the focus on the other pane, on a page that has two.
    pub open spec fn refocused(self) -> AppView {
        let focus = if self.active_tab == ActiveTab::Performance {
            self.pane_focus
        } else {
            match self.pane_focus {
                PaneFocus::List => PaneFocus::Detail,
                PaneFocus::Detail => PaneFocus::List,
            }
        };
        AppView { pane_focus: focus, ..self }.saying(focus_message(self.active_tab, focus))
    }

    /// What asking for the folder of the selection does.
    pub open spec fn folder_key(self) -> (AppView, EffectView) {
        match self.active_tab {
            ActiveTab::Processes => match self.selected_process() {
                Some(row) => match row.exe_path {
                    Some(path) => (self, EffectView::OpenPath(path)),
                    None => (
                        self.saying("Selected process has no executable path."@),
                        EffectView::Nothing,
                    ),
                },
                None => (
                    self.saying("Selected process has no executable path."@),
                    EffectView::Nothing,
                ),
            },
            ActiveTab::Network => match self.chosen_endpoint() {
                Some(row) => (self, EffectView::OpenEndpoint(row.pid)),
                None => (self.saying("No endpoint selected."@), EffectView::Nothing),
            },
            _ => (
                self.saying("Open folder is available on Processes and Network."@),
                EffectView::Nothing,
            ),
        }
    }

    /// What a key does on the page itself.
    pub open spec fn page_key(self, press: KeyPress) -> (AppView, EffectView) {
        let idle = (self, EffectView::Nothing);
        match press.code {
            Key::Char('q') => (self, EffectView::Quit),
            Key::Tab => self.to_tab(ActiveTab::at_place((self.active_tab.place() + 1) % 4)),
            Key::Right => self.to_tab(ActiveTab::at_place((self.active_tab.place() + 1) % 4)),
            Key::BackTab => self.to_tab(ActiveTab::at_place((self.active_tab.place() + 3) % 4)),
            Key::Left => self.to_tab(ActiveTab::at_place((self.active_tab.place() + 3) % 4)),
            Key::F(n) => if n == 10 && press.shift {
                (self.with_menu(), EffectView::Nothing)
            } else {
                idle
            },
            Key::Char('/') => (self.under(OverlayView::Search), EffectView::Nothing),
            Key::Down => match self.pane_focus {
                PaneFocus::List => self.moved(self.after_next()),
                PaneFocus::Detail => (self.scrolled_down(), EffectView::Nothing),
            },
            Key::Up => match self.pane_focus {
                PaneFocus::List => self.moved(self.after_prev()),
                PaneFocus::Detail => (self.scrolled_up(), EffectView::Nothing),
            },
            Key::Enter => (self.refocused(), EffectView::Nothing),
            Key::Char('s') => if self.active_tab == ActiveTab::Processes {
                (self.with_next_sort(), EffectView::Nothing)
            } else {
                idle
            },
            Key::Char('t') => if self.active_tab == ActiveTab::Processes {
                (
                    AppView { show_tree: !self.show_tree, ..self }.rebuilt_processes(),
                    EffectView::Nothing,
                )
            } else {
                idle
            },
            Key::Char('f') => if self.active_tab == ActiveTab::Network {
                (
                    self.with_network_filter(self.network_filter.following()),
                    EffectView::Nothing,
                )
            } else {
                idle
            },
            Key::Char('o') => self.folder_key(),
            Key::Char('k') => self.send_to_target(
                |pid: u32| CommandView::RequestCloseProcess { pid },
                FollowUp::Stay,
            ),
            Key::Char('r') => self.send_to_target(
                |pid: u32| CommandView::RestartProcess { pid },
                FollowUp::Processes,
            ),
            Key::Char('z') => self.send_to_target(
                |pid: u32| CommandView::SuspendProcess { pid },
                FollowUp::Processes,
            ),
            Key::Char('x') => self.send_to_target(
                |pid: u32| CommandView::ResumeProcess { pid },
                FollowUp::Processes,
            ),
            Key::Char('K') => if self.target() is Some {
                (self.under(OverlayView::ConfirmForceKill), EffectView::Nothing)
            } else {
                idle
            },
            code => match priority_of_key(code) {
                Some(priority) => (
                    self.under(OverlayView::ConfirmPriorityChange(priority)),
                    EffectView::Nothing,
                ),
                None => match intent_of_key(code) {
                    Some(intent) => if self.active_tab == ActiveTab::Services
                        && self.chosen_service() is Some {
                        (
                            self.under(OverlayView::ConfirmServiceAction(intent)),
                            EffectView::Nothing,
                        )
                    } else {
                        idle
                    },
                    None => idle,
                },
            },
        }
    }

    /// What a key does.
    pub open spec fn after_key(self, press: KeyPress) -> (AppView, EffectView) {
        match self.overlay {
            OverlayView::Search => self.search_key(press),
            OverlayView::ConfirmForceKill => self.force_kill_key(press),
            OverlayView::ConfirmServiceAction(intent) => self.service_key(press, intent),
            OverlayView::ConfirmPriorityChange(priority) => self.priority_key(press, priority),
            OverlayView::ContextMenu(menu) => self.menu_key(press, menu),
            OverlayView::Closed => self.page_key(press),
        }
    }

    /// What the mouse does while a context menu is open.
    pub open spec fn menu_mouse(self, mouse: MouseInput, frame: Rect, menu: MenuView) -> (
        AppView,
        EffectView,
    ) {
        let actions = menu_actions(menu.kind);
        let area = menu_area(frame, actions.len() as int);
        if mouse.kind != MouseKind::LeftDown {
            (self, EffectView::Nothing)
        } else if !area.holds(mouse.column as int, mouse.row as int) {
            (self.under(OverlayView::Closed), EffectView::Nothing)
        } else {
            match bordered_index(area, mouse.row as int, false) {
                Some(index) => if index < actions.len() {
                    self.under(OverlayView::Closed).menu_action(menu, actions[index as int])
                } else {
                    (self, EffectView::Nothing)
                },
                None => (self, EffectView::Nothing),
            }
        }
    }

    /// What the mouse does in the body of the page.
    pub open spec fn body_mouse(self, mouse: MouseInput, areas: FrameAreas) -> (
        AppView,
        EffectView,
    ) {
        let column = mouse.column as int;
        let row = mouse.row as int;
        if areas.list.holds(column, row) {
            match mouse.kind {
                MouseKind::LeftDown => (
                    AppView { pane_focus: PaneFocus::List, ..self.with_row_at(areas, row) },
                    EffectView::Nothing,
                ),
                MouseKind::RightDown => (
                    self.with_row_at(areas, row).with_menu(),
                    EffectView::Nothing,
                ),
                MouseKind::ScrollDown => self.moved(self.after_next()),
                MouseKind::ScrollUp => self.moved(self.after_prev()),
                MouseKind::Other => (self, EffectView::Nothing),
            }
        } else if areas.detail.holds(column, row) && mouse.kind == MouseKind::LeftDown {
            (
                AppView { pane_focus: PaneFocus::Detail, ..self }.saying(
                    focus_message(self.active_tab, PaneFocus::Detail),
                ),
                EffectView::Nothing,
            )
        } else {
            (self, EffectView::Nothing)
        }
    }

    /// What the mouse does on the page itself.
    pub open spec fn page_mouse(self, mouse: MouseInput, areas: FrameAreas) -> (
        AppView,
        EffectView,
    ) {
        let column = mouse.column as int;
        let row = mouse.row as int;
        let pressed = mouse.kind == MouseKind::LeftDown;
        let tab = tab_at(inside_border(areas.tabs), column);
        let filter = filter_at(areas.filter_bar, column);
        if areas.tabs.holds(column, row) && pressed && tab is Some {
            self.to_tab(tab->0)
        } else if areas.summary.holds(column, row) || areas.footer.holds(column, row) {
            (self, EffectView::Nothing)
        } else if self.active_tab == ActiveTab::Network && areas.filter_bar.holds(column, row)
            && pressed && filter is Some {
            (self.with_network_filter(filter->0), EffectView::Nothing)
        } else {
            self.body_mouse(mouse, areas)
        }
    }

    /// What the mouse does, with the screen divided into the given areas.
    pub open spec fn after_mouse(self, mouse: MouseInput, frame: Rect, areas: FrameAreas) -> (
        AppView,
        EffectView,
    ) {
        match self.overlay {
            OverlayView::ContextMenu(menu) => self.menu_mouse(mouse, frame, menu),
            OverlayView::Closed => self.page_mouse(mouse, areas),
            _ => (self, EffectView::Nothing),
        }
    }
}

/// Making lists anew, moving the selection, and scrolling leave in place what lies over the
/// page.
proof fn lemma_lists_keep_overlay(app: AppView)
    ensures
        app.rebuilt_processes().overlay == app.overlay,
        app.rebuilt_tab().overlay == app.overlay,
        app.after_next().overlay == app.overlay,
        app.after_prev().overlay == app.overlay,
        app.scrolled_down().overlay == app.overlay,
        app.scrolled_up().overlay == app.overlay,
        app.with_next_sort().overlay == app.overlay,
{
}

/// Selecting a row leaves in place what lies over the page.
proof fn lemma_row_keeps_overlay(app: AppView, areas: FrameAreas, row: int)
    ensures
        app.with_row_at(areas, row).overlay == app.overlay,
{
}

/// The menu that opens has its first entry marked.
proof fn lemma_fresh_menu_in_range(app: AppView)
    ensures
        app.with_menu().menu_in_range(),
{
}

/// A menu entry leaves no menu open.
proof fn lemma_action_in_range(app: AppView, menu: MenuView, action: ContextAction)
    requires
        app.overlay == OverlayView::Closed,
    ensures
        app.menu_action(menu, action).0.menu_in_range(),
{
}

/// A key on the page leaves a menu with a marked entry, or none.
#[verifier::spinoff_prover]
proof fn lemma_page_key_in_range(app: AppView, press: KeyPress)
    requires
        app.overlay == OverlayView::Closed,
    ensures
        app.page_key(press).0.menu_in_range(),
{
    lemma_lists_keep_overlay(app);
    lemma_lists_keep_overlay(AppView { show_tree: !app.show_tree, ..app });
    lemma_fresh_menu_in_range(app);
}

/// Whatever key is pressed, an open context menu has one of its entries marked.
#[verifier::spinoff_prover]
pub proof fn keys_keep_menu_in_range(app: AppView, press: KeyPress)
    requires
        app.menu_in_range(),
    ensures
        app.after_key(press).0.menu_in_range(),
{
    match app.overlay {
        OverlayView::Closed => {
            lemma_page_key_in_range(app, press);
        },
        OverlayView::Search => {
            match press.code {
                Key::Char(c) => {
                    let typed = AppView { query: app.query.push(c), ..app };
                    lemma_lists_keep_overlay(typed);
                },
                Key::Backspace => {
                    let shorter = AppView {
                        query: if app.query.len() > 0 {
                            app.query.drop_last()
                        } else {
                            app.query
                        },
                        ..app
                    };
                    lemma_lists_keep_overlay(shorter);
                },
                _ => {},
            }
        },
        OverlayView::ContextMenu(menu) => {
            let actions = menu_actions(menu.kind);
            lemma_action_in_range(
                app.under(OverlayView::Closed),
                menu,
                actions[menu.selected_index as int],
            );
        },
        _ => {},
    }
}

/// Whatever the mouse does, an open context menu has one of its entries marked.
#[verifier::spinoff_prover]
pub proof fn mouse_keeps_menu_in_range(
    app: AppView,
    mouse: MouseInput,
    frame: Rect,
    areas: FrameAreas,
)
    requires
        app.menu_in_range(),
    ensures
        app.after_mouse(mouse, frame, areas).0.menu_in_range(),
{
    match app.overlay {
        OverlayView::ContextMenu(menu) => {
            let actions = menu_actions(menu.kind);
            let area = menu_area(frame, actions.len() as int);
            if let Some(index) = bordered_index(area, mouse.row as int, false) {
                lemma_action_in_range(
                    app.under(OverlayView::Closed),
                    menu,
                    actions[index as int],
                );
            }
        },
        OverlayView::Closed => {
            lemma_lists_keep_overlay(app);
            lemma_row_keeps_overlay(app, areas, mouse.row as int);
            lemma_fresh_menu_in_range(app.with_row_at(areas, mouse.row as int));
        },
        _ => {},
    }
}

/// Whether a key confirms a dialog.
fn is_confirming(code: Key) -> (r: bool)
    ensures
        r == confirms(code),
{
    match code {
        Key::Char(c) => c == 'y' || c == 'Y',
        Key::Enter => true,
        _ => false,
    }
}

/// Whether a key cancels a dialog.
fn is_cancelling(code: Key) -> (r: bool)
    ensures
        r == cancels(code),
{
    match code {
        Key::Char(c) => c == 'n' || c == 'N',
        Key::Esc => true,
        _ => false,
    }
}

/// The message that a pane has the focus.
fn focus_text(tab: ActiveTab, focus: PaneFocus) -> (text: String)
    ensures
        text@ == focus_message(tab, focus),
{
    let mut text = tab.title().to_string();
    match focus {
        PaneFocus::Detail => text.append(" detail pane focused."),
        PaneFocus::List => text.append(" list focused."),
    }
    text
}

/// The effect of going to a page.
fn tab_effect(services_wanted: bool) -> (effect: Effect)
    ensures
        effect@ == (if services_wanted {
            EffectView::RefreshServices
        } else {
            EffectView::Nothing
        }),
{
    if services_wanted {
        Effect::RefreshServices
    } else {
        Effect::Nothing
    }
}

impl AppState {
    /// Handles a key while the query is typed.
    pub fn handle_search_key(&mut self, press: KeyPress) -> (effect: Effect)
        ensures
            (final(self)@, effect@) == old(self)@.search_key(press),
    {
        match press.code {
            Key::Esc => {
                self.overlay = Overlay::Closed;
            },
            Key::Enter => {
                self.overlay = Overlay::Closed;
            },
            Key::Backspace => {
                let chars = to_chars(self.query.as_str());
                if chars.len() > 0 {
                    let front = slice_chars(&chars, 0, chars.len() - 1);
                    assert(front@ =~= self.query@.drop_last());
                    self.query = from_chars(front.as_slice());
                }
                self.rebuild_active_tab();
            },
            Key::Char(c) => {
                if !press.control {
                    self.query.push(c);
                    self.rebuild_active_tab();
                }
            },
            _ => {},
        }
        Effect::Nothing
    }

    /// Handles a key in the dialog before a force kill.
    pub fn handle_force_kill_key(&mut self, press: KeyPress) -> (effect: Effect)
        ensures
            (final(self)@, effect@) == old(self)@.force_kill_key(press),
    {
        if is_cancelling(press.code) {
            self.overlay = Overlay::Closed;
        } else if is_confirming(press.code) {
            self.overlay = Overlay::Closed;
            if let Some(pid) = self.selected_target_pid() {
                return Effect::Send(AdminCommand::ForceKillProcess { pid }, FollowUp::Processes);
            }
        }
        Effect::Nothing
    }

    /// Handles a key in the dialog before a service action.
    pub fn handle_service_confirmation_key(
        &mut self,
        press: KeyPress,
        intent: ServiceActionIntent,
    ) -> (effect: Effect)
        ensures
            (final(self)@, effect@) == old(self)@.service_key(press, intent),
    {
        if is_cancelling(press.code) {
            self.overlay = Overlay::Closed;
        } else if is_confirming(press.code) {
            self.overlay = Overlay::Closed;
            if let Some(service_name) = self.selected_service_name() {
                let command = match intent {
                    ServiceActionIntent::Start => AdminCommand::StartService { service_name },
                    ServiceActionIntent::Stop => AdminCommand::StopService { service_name },
                    ServiceActionIntent::Restart => AdminCommand::RestartService {
                        service_name,
                        timeout_ms: RESTART_TIMEOUT_MILLIS,
                    },
                };
                return Effect::Send(command, FollowUp::Services);
            }
        }
        Effect::Nothing
    }

    /// Handles a key in the dialog before a change of priority.
    pub fn handle_priority_confirmation_key(
        &mut self,
        press: KeyPress,
        priority: ProcessPriority,
    ) -> (effect: Effect)
        ensures
            (final(self)@, effect@) == old(self)@.priority_key(press, priority),
    {
        if is_cancelling(press.code) {
            self.overlay = Overlay::Closed;
        } else if is_confirming(press.code) {
            self.overlay = Overlay::Closed;
            match self.selected_target_pid() {
                Some(pid) => {
                    return Effect::Send(
                        AdminCommand::SetPriority { pid, priority },
                        FollowUp::Processes,
                    );
                },
                None => {
                    self.feedback = "No process selected.".to_string();
                    return Effect::RefreshProcesses;
                },
            }
        }
        Effect::Nothing
    }

    /// Does what an entry of a context menu stands for.
    pub fn perform_context_action(&mut self, menu: &ContextMenuState, action: ContextAction) -> (
        effect: Effect)
        ensures
            (final(self)@, effect@) == old(self)@.menu_action(menu@, action),
    {
        let target: Option<u32> = context_target_pid(&menu.target);
        match action {
            ContextAction::OpenDetails => {
                self.pane_focus = PaneFocus::Detail;
                self.feedback =
                match menu.kind {
                    ContextMenuKind::Process => "Process detail pane focused.".to_string(),
                    ContextMenuKind::Service => "Service detail pane focused.".to_string(),
                    ContextMenuKind::Network => "Network detail pane focused.".to_string(),
                };
            },
            ContextAction::Close => {
                if let Some(pid) = target {
                    return Effect::Send(AdminCommand::RequestCloseProcess { pid }, FollowUp::Stay);
                }
            },
            ContextAction::Restart => {
                if let Some(pid) = target {
                    return Effect::Send(AdminCommand::RestartProcess { pid }, FollowUp::Processes);
                }
            },
            ContextAction::Suspend => {
                if let Some(pid) = target {
                    return Effect::Send(AdminCommand::SuspendProcess { pid }, FollowUp::Processes);
                }
            },
            ContextAction::Resume => {
                if let Some(pid) = target {
                    return Effect::Send(AdminCommand::ResumeProcess { pid }, FollowUp::Processes);
                }
            },
            ContextAction::OpenFolder => match menu.kind {
                ContextMenuKind::Process => match target {
                    Some(pid) => {
                        return Effect::OpenProcess(pid);
                    },
                    None => {
                        self.feedback = "Selected process has no executable path.".to_string();
                    },
                },
                ContextMenuKind::Network => match target {
                    Some(pid) => {
                        return Effect::OpenEndpoint(pid);
                    },
                    None => {
                        self.feedback = "No endpoint selected.".to_string();
                    },
                },
                ContextMenuKind::Service => {
                    self.feedback = "Services do not have an executable folder here.".to_string();
                },
            },
            ContextAction::ForceKill => {
                self.overlay = Overlay::ConfirmForceKill;
            },
            ContextAction::SetPriority(priority) => {
                self.overlay = Overlay::ConfirmPriorityChange(priority);
            },
            ContextAction::StartService => {
                self.overlay = Overlay::ConfirmServiceAction(ServiceActionIntent::Start);
            },
            ContextAction::StopService => {
                self.overlay = Overlay::ConfirmServiceAction(ServiceActionIntent::Stop);
            },
            ContextAction::RestartService => {
                self.overlay = Overlay::ConfirmServiceAction(ServiceActionIntent::Restart);
            },
        }
        Effect::Nothing
    }

    /// Handles a key while a context menu is open.
    pub fn handle_context_menu_key(&mut self, press: KeyPress, menu: &ContextMenuState) -> (effect:
        Effect)
        requires
            menu.selected_index < menu_actions(menu.kind).len(),
        ensures
            (final(self)@, effect@) == old(self)@.menu_key(press, menu@),
    {
        let actions = context_actions(menu.kind);
        match press.code {
            Key::Esc => {
                self.overlay = Overlay::Closed;
                Effect::Nothing
            },
            Key::Down => {
                let selected_index: usize = if menu.selected_index + 1 < actions.len() {
                    menu.selected_index + 1
                } else {
                    actions.len() - 1
                };
                self.overlay =
                Overlay::ContextMenu(
                    ContextMenuState {
                        kind: menu.kind,
                        selected_index,
                        target: menu.target.clone(),
                    },
                );
                Effect::Nothing
            },
            Key::Up => {
                let selected_index: usize = menu.selected_index.saturating_sub(1);
                self.overlay =
                Overlay::ContextMenu(
                    ContextMenuState {
                        kind: menu.kind,
                        selected_index,
                        target: menu.target.clone(),
                    },
                );
                Effect::Nothing
            },
            Key::Enter => {
                let action = actions[menu.selected_index];
                self.overlay = Overlay::Closed;
                self.perform_context_action(menu, action)
            },
            _ => Effect::Nothing,
        }
    }

    /// Asks for the folder of the selection.
    fn open_selected_folder(&mut self) -> (effect: Effect)
        ensures
            (final(self)@, effect@) == old(self)@.folder_key(),
    {
        match self.active_tab {
            ActiveTab::Processes => {
                let selected: usize = self.process_view.selected;
                if selected < self.filtered_rows.len() {
                    if let Some(path) = &self.filtered_rows[selected].exe_path {
                        return Effect::OpenPath(path.clone());
                    }
                }
                self.feedback = "Selected process has no executable path.".to_string();
            },
            ActiveTab::Network => {
                if let Some(row) = self.selected_network() {
                    return Effect::OpenEndpoint(row.pid);
                }
                self.feedback = "No endpoint selected.".to_string();
            },
            _ => {
                self.feedback = "Open folder is available on Processes and Network.".to_string();
            },
        }
        Effect::Nothing
    }

    /// The effect of moving the selection.
    fn moving_effect(&self) -> (effect: Effect)
        ensures
            effect@ == (if self.active_tab == ActiveTab::Processes {
                EffectView::LookUpPriorities
            } else {
                EffectView::Nothing
            }),
    {
        if self.active_tab == ActiveTab::Processes {
            Effect::LookUpPriorities
        } else {
            Effect::Nothing
        }
    }

    /// Handles a letter, digit, or sign typed on the page itself.
    fn handle_page_char(&mut self, c: char, press: KeyPress) -> (effect: Effect)
        requires
            press.code == Key::Char(c),
        ensures
            (final(self)@, effect@) == old(self)@.page_key(press),
    {
        let target: Option<u32> = self.selected_target_pid();
        if c == 'q' {
            return Effect::Quit;
        } else if c == '/' {
            self.overlay = Overlay::Search;
        } else if c == 's' {
            if self.active_tab == ActiveTab::Processes {
                self.cycle_process_sort_mode();
            }
        } else if c == 't' {
            if self.active_tab == ActiveTab::Processes {
                self.show_tree = !self.show_tree;
                self.rebuild_process_view();
            }
        } else if c == 'f' {
            if self.active_tab == ActiveTab::Network {
                self.cycle_network_filter();
            }
        } else if c == 'o' {
            return self.open_selected_folder();
        } else if c == 'k' {
            if let Some(pid) = target {
                return Effect::Send(AdminCommand::RequestCloseProcess { pid }, FollowUp::Stay);
            }
        } else if c == 'r' {
            if let Some(pid) = target {
                return Effect::Send(AdminCommand::RestartProcess { pid }, FollowUp::Processes);
            }
        } else if c == 'z' {
            if let Some(pid) = target {
                return Effect::Send(AdminCommand::SuspendProcess { pid }, FollowUp::Processes);
            }
        } else if c == 'x' {
            if let Some(pid) = target {
                return Effect::Send(AdminCommand::ResumeProcess { pid }, FollowUp::Processes);
            }
        } else if c == 'K' {
            if target.is_some() {
                self.overlay = Overlay::ConfirmForceKill;
            }
        } else if c == '4' {
            self.overlay = Overlay::ConfirmPriorityChange(ProcessPriority::Idle);
        } else if c == '5' {
            self.overlay = Overlay::ConfirmPriorityChange(ProcessPriority::BelowNormal);
        } else if c == '6' {
            self.overlay = Overlay::ConfirmPriorityChange(ProcessPriority::Normal);
        } else if c == '7' {
            self.overlay = Overlay::ConfirmPriorityChange(ProcessPriority::AboveNormal);
        } else if c == '8' {
            self.overlay = Overlay::ConfirmPriorityChange(ProcessPriority::High);
        } else if c == '1' || c == '2' || c == '3' {
            let intent = if c == '1' {
                ServiceActionIntent::Start
            } else if c == '2' {
                ServiceActionIntent::Stop
            } else {
                ServiceActionIntent::Restart
            };
            if self.active_tab == ActiveTab::Services && self.selected_service().is_some() {
                self.overlay = Overlay::ConfirmServiceAction(intent);
            }
        }
        Effect::Nothing
    }

    /// Handles a key on the page itself.
    fn handle_page_key(&mut self, press: KeyPress) -> (effect: Effect)
        ensures
            (final(self)@, effect@) == old(self)@.page_key(press),
    {
        match press.code {
            Key::Char(c) => self.handle_page_char(c, press),
            Key::Tab | Key::Right => {
                let tab = self.active_tab.next();
                let services_wanted = self.set_active_tab(tab);
                tab_effect(services_wanted)
            },
            Key::BackTab | Key::Left => {
                let tab = self.active_tab.previous();
                let services_wanted = self.set_active_tab(tab);
                tab_effect(services_wanted)
            },
            Key::F(n) => {
                if n == 10 && press.shift {
                    self.open_context_menu_for_selection();
                }
                Effect::Nothing
            },
            Key::Down => match self.pane_focus {
                PaneFocus::List => {
                    self.select_next();
                    self.moving_effect()
                },
                PaneFocus::Detail => {
                    self.increment_detail_scroll();
                    Effect::Nothing
                },
            },
            Key::Up => match self.pane_focus {
                PaneFocus::List => {
                    self.select_prev();
                    self.moving_effect()
                },
                PaneFocus::Detail => {
                    self.decrement_detail_scroll();
                    Effect::Nothing
                },
            },
            Key::Enter => {
                if self.active_tab != ActiveTab::Performance {
                    self.pane_focus =
                    match self.pane_focus {
                        PaneFocus::List => PaneFocus::Detail,
                        PaneFocus::Detail => PaneFocus::List,
                    };
                }
                self.feedback = focus_text(self.active_tab, self.pane_focus);
                Effect::Nothing
            },
            _ => Effect::Nothing,
        }
    }

    /// Handles a key.
    pub fn handle_key_event(&mut self, press: KeyPress) -> (effect: Effect)
        requires
            old(self)@.menu_in_range(),
        ensures
            (final(self)@, effect@) == old(self)@.after_key(press),
            final(self)@.menu_in_range(),
    {
        proof {
            keys_keep_menu_in_range(self@, press);
        }
        let overlay = self.overlay.clone();
        match &overlay {
            Overlay::Search => self.handle_search_key(press),
            Overlay::ConfirmForceKill => self.handle_force_kill_key(press),
            Overlay::ConfirmServiceAction(intent) => {
                self.handle_service_confirmation_key(press, *intent)
            },
            Overlay::ConfirmPriorityChange(priority) => {
                self.handle_priority_confirmation_key(press, *priority)
            },
            Overlay::ContextMenu(menu) => self.handle_context_menu_key(press, menu),
            Overlay::Closed => self.handle_page_key(press),
        }
    }

    /// Handles the mouse, with the screen divided into the given areas.
    pub fn handle_mouse_in(&mut self, mouse: MouseInput, frame: Rect, areas: &FrameAreas) -> (
        effect: Effect)
        requires
            old(self)@.menu_in_range(),
        ensures
            (final(self)@, effect@) == old(self)@.after_mouse(mouse, frame, *areas),
            final(self)@.menu_in_range(),
    {
        proof {
            mouse_keeps_menu_in_range(self@, mouse, frame, *areas);
        }
        let overlay = self.overlay.clone();
        match &overlay {
            Overlay::ContextMenu(menu) => {
                let actions = context_actions(menu.kind);
                let area = context_menu_area(frame, actions.len());
                if mouse.kind == MouseKind::LeftDown {
                    if contains_point(area, mouse.column, mouse.row) {
                        if let Some(index) = list_index_at_row(area, mouse.row, false) {
                            if index < actions.len() {
                                let action = actions[index];
                                self.overlay = Overlay::Closed;
                                return self.perform_context_action(menu, action);
                            }
                        }
                    } else {
                        self.overlay = Overlay::Closed;
                    }
                }
                Effect::Nothing
            },
            Overlay::Closed => self.handle_page_mouse(mouse, areas),
            _ => Effect::Nothing,
        }
    }

    /// Handles the mouse on the page itself.
    fn handle_page_mouse(&mut self, mouse: MouseInput, areas: &FrameAreas) -> (effect: Effect)
        ensures
            (final(self)@, effect@) == old(self)@.page_mouse(mouse, *areas),
    {
        let pressed = mouse.kind == MouseKind::LeftDown;
        if pressed && contains_point(areas.tabs, mouse.column, mouse.row) {
            if let Some(tab) = tab_at_position(areas.tabs, mouse.column) {
                let services_wanted = self.set_active_tab(tab);
                return tab_effect(services_wanted);
            }
        }
        if contains_point(areas.summary, mouse.column, mouse.row) || contains_point(
            areas.footer,
            mouse.column,
            mouse.row,
        ) {
            return Effect::Nothing;
        }
        if self.active_tab == ActiveTab::Network && pressed && contains_point(
            areas.filter_bar,
            mouse.column,
            mouse.row,
        ) {
            if let Some(filter) = network_filter_at_position(areas.filter_bar, mouse.column) {
                self.network_filter = filter;
                self.rebuild_network_view();
                return Effect::Nothing;
            }
        }
        if contains_point(areas.list, mouse.column, mouse.row) {
            match mouse.kind {
                MouseKind::LeftDown => {
                    self.select_row_at(areas, mouse.row);
                    self.pane_focus = PaneFocus::List;
                    Effect::Nothing
                },
                MouseKind::RightDown => {
                    self.select_row_at(areas, mouse.row);
                    self.open_context_menu_for_selection();
                    Effect::Nothing
                },
                MouseKind::ScrollDown => {
                    self.select_next();
                    self.moving_effect()
                },
                MouseKind::ScrollUp => {
                    self.select_prev();
                    self.moving_effect()
                },
                MouseKind::Other => Effect::Nothing,
            }
        } else {
            if pressed && contains_point(areas.detail, mouse.column, mouse.row) {
                self.pane_focus = PaneFocus::Detail;
                self.feedback = focus_text(self.active_tab, PaneFocus::Detail);
            }
            Effect::Nothing
        }
    }

    /// Handles the mouse on a screen.
    pub fn handle_mouse_event(&mut self, mouse: MouseInput, frame_area: Rect) -> (effect: Effect)
        requires
            old(self)@.menu_in_range(),
        ensures
            exists|areas: FrameAreas| #[trigger]
                divides(frame_area, areas) && (final(self)@, effect@) == old(self)@.after_mouse(
                    mouse,
                    frame_area,
                    areas,
                ),
            final(self)@.menu_in_range(),
    {
        let areas = frame_areas(frame_area);
        self.handle_mouse_in(mouse, frame_area, &areas)
    }
}

/// Whether a command does what must be confirmed: kills, changes a priority, or acts on a
/// service.
pub open spec fn needs_confirmation(command: CommandView) -> bool {
    match command {
        CommandView::ForceKillProcess { .. } => true,
        CommandView::SetPriority { .. } => true,
        CommandView::StartService { .. } => true,
        CommandView::StopService { .. } => true,
        CommandView::RestartService { .. } => true,
        _ => false,
    }
}

/// No key but `q` on the page itself quits the program.
#[verifier::spinoff_prover]
pub proof fn only_q_quits(app: AppView, press: KeyPress)
    ensures
        app.after_key(press).1 is Quit <==> app.overlay is Closed && press.code == Key::Char('q'),
{
}

/// A menu entry sends no command that must be confirmed.
proof fn lemma_actions_ask_first(app: AppView, menu: MenuView, action: ContextAction)
    ensures
        app.menu_action(menu, action).1 matches EffectView::Send(command, _)
            ==> !needs_confirmation(command),
        !(app.menu_action(menu, action).1 is Quit),
{
}

/// A key sends a command that must be confirmed only as the confirmation of the dialog that
/// asks for it, and for the process or service that is selected.
#[verifier::spinoff_prover]
pub proof fn keys_act_when_confirmed(app: AppView, press: KeyPress)
    ensures
        app.after_key(press).1 matches EffectView::Send(command, _) ==> match command {
            CommandView::ForceKillProcess { pid } => confirms(press.code)
                && app.overlay is ConfirmForceKill && app.target() == Some(pid),
            CommandView::SetPriority { pid, priority } => confirms(press.code) && app.overlay
                == OverlayView::ConfirmPriorityChange(priority) && app.target() == Some(pid),
            CommandView::StartService { service_name } => confirms(press.code) && app.overlay
                == OverlayView::ConfirmServiceAction(ServiceActionIntent::Start) && (
            app.chosen_service() matches Some(row) && row.service_name == service_name),
            CommandView::StopService { service_name } => confirms(press.code) && app.overlay
                == OverlayView::ConfirmServiceAction(ServiceActionIntent::Stop) && (
            app.chosen_service() matches Some(row) && row.service_name == service_name),
            CommandView::RestartService { service_name, .. } => confirms(press.code)
                && app.overlay == OverlayView::ConfirmServiceAction(ServiceActionIntent::Restart)
                && (app.chosen_service() matches Some(row) && row.service_name == service_name),
            _ => true,
        },
{
    if let OverlayView::ContextMenu(menu) = app.overlay {
        lemma_actions_ask_first(
            app.under(OverlayView::Closed),
            menu,
            menu_actions(menu.kind)[menu.selected_index as int],
        );
    }
}

/// The mouse sends no command that must be confirmed, and does not quit.
#[verifier::spinoff_prover]
pub proof fn mouse_asks_first(app: AppView, mouse: MouseInput, frame: Rect, areas: FrameAreas)
    ensures
        app.after_mouse(mouse, frame, areas).1 matches EffectView::Send(command, _)
            ==> !needs_confirmation(command),
        !(app.after_mouse(mouse, frame, areas).1 is Quit),
{
    if let OverlayView::ContextMenu(menu) = app.overlay {
        let actions = menu_actions(menu.kind);
        let area = menu_area(frame, actions.len() as int);
        if let Some(index) = bordered_index(area, mouse.row as int, false) {
            lemma_actions_ask_first(
                app.under(OverlayView::Closed),
                menu,
                actions[index as int],
            );
        }
    }
}

/// While a context menu is open, the mouse changes nothing behind it: as long as it stays
/// open, nothing at all; when it closes, only the overlay, the focus, and the message.
pub proof fn open_menu_blocks_mouse(
    app: AppView,
    mouse: MouseInput,
    frame: Rect,
    areas: FrameAreas,
)
    requires
        app.overlay is ContextMenu,
    ensures
        ({
            let (after, effect) = app.after_mouse(mouse, frame, areas);
            &&& after.overlay is ContextMenu ==> after == app && effect is Nothing
            &&& after == (AppView {
                overlay: after.overlay,
                pane_focus: after.pane_focus,
                feedback: after.feedback,
                ..app
            })
        }),
{
}

/// While a dialog or the search is open, the mouse does nothing.
pub proof fn dialogs_block_mouse(app: AppView, mouse: MouseInput, frame: Rect, areas: FrameAreas)
    requires
        !(app.overlay is Closed),
        !(app.overlay is ContextMenu),
    ensures
        app.after_mouse(mouse, frame, areas) == (app, EffectView::Nothing),
{
}

/// On a page with two panes, toggling the focus twice returns it.
pub proof fn enter_toggles_focus(app: AppView, press: KeyPress)
    requires
        app.overlay is Closed,
        app.active_tab != ActiveTab::Performance,
        press.code == Key::Enter,
    ensures
        app.after_key(press).0.pane_focus != app.pane_focus,
        app.after_key(press).0.after_key(press).0.pane_focus == app.pane_focus,
{
}

/// While the query is typed, a character and a backspace leave the query as it was.
pub proof fn backspace_undoes_typing(app: AppView, c: char, typed: KeyPress, erased: KeyPress)
    requires
        app.overlay is Search,
        typed.code == Key::Char(c),
        !typed.control,
        erased.code == Key::Backspace,
    ensures
        app.after_key(typed).0.query == app.query.push(c),
        app.after_key(typed).0.after_key(erased).0.query == app.query,
{
    let longer = AppView { query: app.query.push(c), ..app };
    lemma_lists_keep_overlay(longer);
    assert(longer.rebuilt_tab().query == longer.query);
    assert(longer.query.drop_last() =~= app.query);
}

/// The right key takes the user through all pages and back; the left key undoes a step.
pub proof fn arrow_keys_walk_the_pages(app: AppView, right: KeyPress, left: KeyPress)
    requires
        app.overlay is Closed,
        right.code == Key::Right || right.code == Key::Tab,
        left.code == Key::Left || left.code == Key::BackTab,
    ensures
        app.after_key(right).0.after_key(left).0.active_tab == app.active_tab,
        app.after_key(right).0.after_key(right).0.after_key(right).0.after_key(
            right,
        ).0.active_tab == app.active_tab,
{
}

/// On the page itself `k`, `r`, `z`, and `x` ask for the target process to be closed, restarted,
/// suspended, and resumed. The target is the selected process, or the owner of the selected
/// endpoint on the network page; without one nothing is asked for. The state stays as it is.
#[verifier::spinoff_prover]
pub proof fn letters_act_on_the_target(app: AppView, press: KeyPress)
    requires
        app.overlay == OverlayView::Closed,
    ensures
        ({
            let (after, effect) = app.after_key(press);
            let target = if app.active_tab == ActiveTab::Processes && app.process_view.selected
                < app.filtered_rows.len() {
                Some(app.filtered_rows[app.process_view.selected as int].pid)
            } else if app.active_tab == ActiveTab::Network && app.network_view.selected
                < app.filtered_network.len() {
                Some(app.filtered_network[app.network_view.selected as int].pid)
            } else {
                None
            };
            let k = press.code == Key::Char('k');
            let r = press.code == Key::Char('r');
            let z = press.code == Key::Char('z');
            let x = press.code == Key::Char('x');
            &&& k || r || z || x ==> after == app
            &&& (k || r || z || x) && target is None ==> effect == EffectView::Nothing
            &&& k && target is Some ==> effect == EffectView::Send(
                CommandView::RequestCloseProcess { pid: target->0 },
                FollowUp::Stay,
            )
            &&& r && target is Some ==> effect == EffectView::Send(
                CommandView::RestartProcess { pid: target->0 },
                FollowUp::Processes,
            )
            &&& z && target is Some ==> effect == EffectView::Send(
                CommandView::SuspendProcess { pid: target->0 },
                FollowUp::Processes,
            )
            &&& x && target is Some ==> effect == EffectView::Send(
                CommandView::ResumeProcess { pid: target->0 },
                FollowUp::Processes,
            )
        }),
{
}

/// On the page itself `K` opens the dialog before a force kill, if there is a target process, and
/// confirming the dialog with `y`, `Y`, or Enter has that process killed. Cancelling it with `n`,
/// `N`, or Escape has nothing done. Either closes the dialog, and any other key leaves it open.
#[verifier::spinoff_prover]
pub proof fn force_kill_is_asked_and_answered(app: AppView, press: KeyPress, answer: KeyPress)
    requires
        app.overlay == OverlayView::Closed,
        press.code == Key::Char('K'),
    ensures
        ({
            let (asked, effect) = app.after_key(press);
            let (after, done) = asked.after_key(answer);
            let target = if app.active_tab == ActiveTab::Processes && app.process_view.selected
                < app.filtered_rows.len() {
                Some(app.filtered_rows[app.process_view.selected as int].pid)
            } else if app.active_tab == ActiveTab::Network && app.network_view.selected
                < app.filtered_network.len() {
                Some(app.filtered_network[app.network_view.selected as int].pid)
            } else {
                None
            };
            let yes = answer.code == Key::Char('y') || answer.code == Key::Char('Y') || answer.code
                == Key::Enter;
            let no = answer.code == Key::Char('n') || answer.code == Key::Char('N') || answer.code
                == Key::Esc;
            &&& effect == EffectView::Nothing
            &&& target is None ==> asked == app
            &&& target is Some ==> asked == (AppView {
                overlay: OverlayView::ConfirmForceKill,
                ..app
            })
            &&& target is Some && yes ==> after == app && done == EffectView::Send(
                CommandView::ForceKillProcess { pid: target->0 },
                FollowUp::Processes,
            )
            &&& target is Some && no ==> after == app && done == EffectView::Nothing
            &&& target is Some && !yes && !no ==> after == asked && done == EffectView::Nothing
        }),
{
}

/// On the page itself the digits from `4` to `8` open the dialogs before a change to idle, below
/// normal, normal, above normal, and high priority, and confirming one has the target process
/// given that priority. Without a target the user is told so. Cancelling has nothing done.
#[verifier::spinoff_prover]
pub proof fn priority_is_asked_and_answered(app: AppView, press: KeyPress, answer: KeyPress)
    requires
        app.overlay == OverlayView::Closed,
        press.code == Key::Char('4') || press.code == Key::Char('5') || press.code == Key::Char('6')
            || press.code == Key::Char('7') || press.code == Key::Char('8'),
    ensures
        ({
            let (asked, effect) = app.after_key(press);
            let (after, done) = asked.after_key(answer);
            let target = if app.active_tab == ActiveTab::Processes && app.process_view.selected
                < app.filtered_rows.len() {
                Some(app.filtered_rows[app.process_view.selected as int].pid)
            } else if app.active_tab == ActiveTab::Network && app.network_view.selected
                < app.filtered_network.len() {
                Some(app.filtered_network[app.network_view.selected as int].pid)
            } else {
                None
            };
            let priority = if press.code == Key::Char('4') {
                ProcessPriority::Idle
            } else if press.code == Key::Char('5') {
                ProcessPriority::BelowNormal
            } else if press.code == Key::Char('6') {
                ProcessPriority::Normal
            } else if press.code == Key::Char('7') {
                ProcessPriority::AboveNormal
            } else {
                ProcessPriority::High
            };
            let yes = answer.code == Key::Char('y') || answer.code == Key::Char('Y') || answer.code
                == Key::Enter;
            let no = answer.code == Key::Char('n') || answer.code == Key::Char('N') || answer.code
                == Key::Esc;
            &&& effect == EffectView::Nothing
            &&& asked == (AppView { overlay: OverlayView::ConfirmPriorityChange(priority), ..app })
            &&& target is Some && yes ==> after == app && done == EffectView::Send(
                CommandView::SetPriority { pid: target->0, priority },
                FollowUp::Processes,
            )
            &&& target is None && yes ==> after == (AppView {
                feedback: "No process selected."@,
                ..app
            }) && done == EffectView::RefreshProcesses
            &&& no ==> after == app && done == EffectView::Nothing
            &&& !yes && !no ==> after == asked && done == EffectView::Nothing
        }),
{
}

/// On the service page, with a service selected, `1`, `2`, and `3` open the dialogs before its
/// start, its stop, and its restart, and confirming one has exactly that done to that service; a
/// restart may take thirty seconds. Cancelling has nothing done. On other pages, and without a
/// service, these keys do nothing.
#[verifier::spinoff_prover]
pub proof fn service_action_is_asked_and_answered(app: AppView, press: KeyPress, answer: KeyPress)
    requires
        app.overlay == OverlayView::Closed,
        press.code == Key::Char('1') || press.code == Key::Char('2') || press.code == Key::Char(
            '3',
        ),
    ensures
        ({
            let (asked, effect) = app.after_key(press);
            let (after, done) = asked.after_key(answer);
            let selected = app.service_view.selected as int;
            let can = app.active_tab == ActiveTab::Services && selected
                < app.filtered_services.len();
            let name = app.filtered_services[selected].service_name;
            let yes = answer.code == Key::Char('y') || answer.code == Key::Char('Y') || answer.code
                == Key::Enter;
            let no = answer.code == Key::Char('n') || answer.code == Key::Char('N') || answer.code
                == Key::Esc;
            &&& effect == EffectView::Nothing
            &&& !can ==> asked == app
            &&& can && press.code == Key::Char('1') ==> asked == (AppView {
                overlay: OverlayView::ConfirmServiceAction(ServiceActionIntent::Start),
                ..app
            })
            &&& can && press.code == Key::Char('2') ==> asked == (AppView {
                overlay: OverlayView::ConfirmServiceAction(ServiceActionIntent::Stop),
                ..app
            })
            &&& can && press.code == Key::Char('3') ==> asked == (AppView {
                overlay: OverlayView::ConfirmServiceAction(ServiceActionIntent::Restart),
                ..app
            })
            &&& can && (yes || no) ==> after == app
            &&& can && yes && press.code == Key::Char('1') ==> done == EffectView::Send(
                CommandView::StartService { service_name: name },
                FollowUp::Services,
            )
            &&& can && yes && press.code == Key::Char('2') ==> done == EffectView::Send(
                CommandView::StopService { service_name: name },
                FollowUp::Services,
            )
            &&& can && yes && press.code == Key::Char('3') ==> done == EffectView::Send(
                CommandView::RestartService { service_name: name, timeout_ms: 30000 },
                FollowUp::Services,
            )
            &&& can && no ==> done == EffectView::Nothing
            &&& can && !yes && !no ==> after == asked && done == EffectView::Nothing
        }),
{
}

/// An open dialog is answered for what is selected at that time, whatever opened it: the process
/// that is selected, or owns the selected endpoint, is killed or given the priority, and the
/// selected service is started, stopped, or restarted.
#[verifier::spinoff_prover]
pub proof fn dialogs_act_on_the_selection(
    app: AppView,
    press: KeyPress,
    intent: ServiceActionIntent,
    priority: ProcessPriority,
)
    ensures
        ({
            let target = if app.active_tab == ActiveTab::Processes && app.process_view.selected
                < app.filtered_rows.len() {
                Some(app.filtered_rows[app.process_view.selected as int].pid)
            } else if app.active_tab == ActiveTab::Network && app.network_view.selected
                < app.filtered_network.len() {
                Some(app.filtered_network[app.network_view.selected as int].pid)
            } else {
                None
            };
            let service = app.service_view.selected < app.filtered_services.len();
            let name = app.filtered_services[app.service_view.selected as int].service_name;
            let yes = press.code == Key::Char('y') || press.code == Key::Char('Y') || press.code
                == Key::Enter;
            let no = press.code == Key::Char('n') || press.code == Key::Char('N') || press.code
                == Key::Esc;
            let closed = AppView { overlay: OverlayView::Closed, ..app };
            let kill = app.force_kill_key(press);
            let change = app.priority_key(press, priority);
            let act = app.service_key(press, intent);
            &&& !yes && !no ==> kill == (app, EffectView::Nothing) && change == (
                app,
                EffectView::Nothing,
            ) && act == (app, EffectView::Nothing)
            &&& no ==> kill == (closed, EffectView::Nothing) && change == (
                closed,
                EffectView::Nothing,
            ) && act == (closed, EffectView::Nothing)
            &&& yes ==> kill.0 == closed && act.0 == closed
            &&& yes && target is Some ==> kill.1 == EffectView::Send(
                CommandView::ForceKillProcess { pid: target->0 },
                FollowUp::Processes,
            ) && change == (
                closed,
                EffectView::Send(
                    CommandView::SetPriority { pid: target->0, priority },
                    FollowUp::Processes,
                ),
            )
            &&& yes && target is None ==> kill.1 == EffectView::Nothing && change == (
                AppView { feedback: "No process selected."@, ..closed },
                EffectView::RefreshProcesses,
            )
            &&& yes && service ==> act.1 == EffectView::Send(
                match intent {
                    ServiceActionIntent::Start => CommandView::StartService { service_name: name },
                    ServiceActionIntent::Stop => CommandView::StopService { service_name: name },
                    ServiceActionIntent::Restart => CommandView::RestartService {
                        service_name: name,
                        timeout_ms: 30000,
                    },
                },
                FollowUp::Services,
            )
            &&& yes && !service ==> act.1 == EffectView::Nothing
            &&& app.overlay == OverlayView::ConfirmForceKill ==> app.after_key(press) == kill
            &&& app.overlay == OverlayView::ConfirmPriorityChange(priority) ==> app.after_key(press)
                == change
            &&& app.overlay == OverlayView::ConfirmServiceAction(intent) ==> app.after_key(press)
                == act
        }),
{
}

/// On the page itself Tab and the right key lead from the processes to the performance, the
/// services, the network, and round to the processes; Shift+Tab and the left key lead back. The
/// page that is left has nothing lying over it, the focus is on the list, and nothing else
/// changes. Going to the services asks for them.
#[verifier::spinoff_prover]
pub proof fn tab_keys_turn_the_pages(app: AppView, press: KeyPress)
    requires
        app.overlay == OverlayView::Closed,
    ensures
        ({
            let (after, effect) = app.after_key(press);
            let forward = press.code == Key::Tab || press.code == Key::Right;
            let back = press.code == Key::BackTab || press.code == Key::Left;
            &&& forward ==> after.active_tab == (match app.active_tab {
                ActiveTab::Processes => ActiveTab::Performance,
                ActiveTab::Performance => ActiveTab::Services,
                ActiveTab::Services => ActiveTab::Network,
                ActiveTab::Network => ActiveTab::Processes,
            })
            &&& back ==> after.active_tab == (match app.active_tab {
                ActiveTab::Processes => ActiveTab::Network,
                ActiveTab::Performance => ActiveTab::Processes,
                ActiveTab::Services => ActiveTab::Performance,
                ActiveTab::Network => ActiveTab::Services,
            })
            &&& forward || back ==> after == (AppView {
                active_tab: after.active_tab,
                overlay: OverlayView::Closed,
                pane_focus: PaneFocus::List,
                ..app
            })
            &&& forward || back ==> effect == (if after.active_tab == ActiveTab::Services {
                EffectView::RefreshServices
            } else {
                EffectView::Nothing
            })
        }),
{
}

/// On the page itself `q` quits, `/` opens the search, `s` goes on to the next sort, `t` turns the
/// tree on or off, and `f` goes on to the next filter of endpoints: all, listening, established,
/// and all again. The sort and the tree belong to the process page and the filter to the network
/// page; elsewhere these keys do nothing. The lists are made anew.
#[verifier::spinoff_prover]
pub proof fn letters_change_the_lists(app: AppView, press: KeyPress)
    requires
        app.overlay == OverlayView::Closed,
    ensures
        ({
            let (after, effect) = app.after_key(press);
            let on_processes = app.active_tab == ActiveTab::Processes;
            let on_network = app.active_tab == ActiveTab::Network;
            let s = press.code == Key::Char('s');
            let t = press.code == Key::Char('t');
            let f = press.code == Key::Char('f');
            &&& press.code == Key::Char('q') ==> after == app && effect == EffectView::Quit
            &&& press.code == Key::Char('/') ==> after == (AppView {
                overlay: OverlayView::Search,
                ..app
            }) && effect == EffectView::Nothing
            &&& s || t || f ==> effect == EffectView::Nothing
            &&& s && on_processes ==> after == app.with_next_sort()
            &&& t && on_processes ==> after == (AppView {
                show_tree: !app.show_tree,
                ..app
            }).rebuilt_processes() && after.show_tree != app.show_tree
            &&& f && on_network ==> after.network_filter == (match app.network_filter {
                crate::model::NetworkStateFilter::All => {
                    crate::model::NetworkStateFilter::Listening
                },
                crate::model::NetworkStateFilter::Listening => {
                    crate::model::NetworkStateFilter::Established
                },
                crate::model::NetworkStateFilter::Established => {
                    crate::model::NetworkStateFilter::All
                },
            }) && after == (AppView {
                network_filter: after.network_filter,
                ..app
            }).rebuilt_network()
            &&& (s || t) && !on_processes ==> after == app
            &&& f && !on_network ==> after == app
        }),
{
}

/// On the page itself `o` asks for the folder of the selected process's executable, or of the
/// executable of the selected endpoint's owner. Where there is none, the user is told so.
#[verifier::spinoff_prover]
pub proof fn the_folder_of_the_selection_is_opened(app: AppView, press: KeyPress)
    requires
        app.overlay == OverlayView::Closed,
        press.code == Key::Char('o'),
    ensures
        ({
            let (after, effect) = app.after_key(press);
            let process = app.process_view.selected as int;
            let endpoint = app.network_view.selected as int;
            let on_processes = app.active_tab == ActiveTab::Processes;
            let on_network = app.active_tab == ActiveTab::Network;
            let has_path = process < app.filtered_rows.len()
                && app.filtered_rows[process].exe_path is Some;
            let has_owner = endpoint < app.filtered_network.len();
            &&& on_processes && has_path ==> after == app && effect == EffectView::OpenPath(
                app.filtered_rows[process].exe_path->0,
            )
            &&& on_network && has_owner ==> after == app && effect == EffectView::OpenEndpoint(
                app.filtered_network[endpoint].pid,
            )
            &&& !(on_processes && has_path) && !(on_network && has_owner) ==> effect
                == EffectView::Nothing && after == (AppView { feedback: after.feedback, ..app })
            &&& on_processes && !has_path ==> after.feedback
                == "Selected process has no executable path."@
            &&& on_network && !has_owner ==> after.feedback == "No endpoint selected."@
            &&& !on_processes && !on_network ==> after.feedback
                == "Open folder is available on Processes and Network."@
        }),
{
}

/// On the page itself the arrow keys move the selection of the list while the list has the focus,
/// and scroll the details while they have it. Moving through the processes asks for their
/// priorities. Enter moves the focus to the other pane, on the pages that have two, and tells
/// which pane has it. Shift+F10 opens the context menu.
#[verifier::spinoff_prover]
pub proof fn arrows_move_in_the_focused_pane(app: AppView, press: KeyPress)
    requires
        app.overlay == OverlayView::Closed,
    ensures
        ({
            let (after, effect) = app.after_key(press);
            let in_list = app.pane_focus == PaneFocus::List;
            let down = press.code == Key::Down;
            let up = press.code == Key::Up;
            let enter = press.code == Key::Enter;
            let stays = app.active_tab == ActiveTab::Performance;
            let title = match app.active_tab {
                ActiveTab::Processes => "Processes"@,
                ActiveTab::Performance => "Performance"@,
                ActiveTab::Services => "Services"@,
                ActiveTab::Network => "Network"@,
            };
            &&& down && in_list ==> after == app.after_next()
            &&& up && in_list ==> after == app.after_prev()
            &&& down && !in_list ==> after == app.scrolled_down()
            &&& up && !in_list ==> after == app.scrolled_up()
            &&& down || up ==> effect == (if in_list && app.active_tab == ActiveTab::Processes {
                EffectView::LookUpPriorities
            } else {
                EffectView::Nothing
            })
            &&& enter ==> effect == EffectView::Nothing && after == (AppView {
                pane_focus: after.pane_focus,
                feedback: after.feedback,
                ..app
            })
            &&& enter ==> (after.pane_focus == app.pane_focus <==> stays)
            &&& enter && after.pane_focus == PaneFocus::List ==> after.feedback == title
                + " list focused."@
            &&& enter && after.pane_focus == PaneFocus::Detail ==> after.feedback == title
                + " detail pane focused."@
            &&& press.code == Key::F(10) && press.shift ==> after == app.with_menu() && effect
                == EffectView::Nothing
        }),
{
}

/// Any key that has no meaning on the page itself does nothing there.
#[verifier::spinoff_prover]
pub proof fn other_keys_do_nothing(app: AppView, press: KeyPress)
    requires
        app.overlay == OverlayView::Closed,
        match press.code {
            Key::Char(c) => c != 'q' && c != '/' && c != 's' && c != 't' && c != 'f' && c != 'o' && c
                != 'k' && c != 'K' && c != 'r' && c != 'z' && c != 'x' && !('1' <= c <= '8'),
            Key::F(n) => n != 10 || !press.shift,
            Key::Esc => true,
            Key::Backspace => true,
            Key::Other => true,
            _ => false,
        },
    ensures
        app.after_key(press) == (app, EffectView::Nothing),
{
}

/// While the query is typed, a character is added to it, unless Control is held, and Backspace
/// takes the last one away; each time the list of the page is made anew. Enter and Escape end
/// the search and keep the query. Other keys do nothing, and no key asks for anything.
#[verifier::spinoff_prover]
pub proof fn typing_edits_the_query(app: AppView, press: KeyPress)
    requires
        app.overlay == OverlayView::Search,
    ensures
        ({
            let (after, effect) = app.after_key(press);
            &&& effect == EffectView::Nothing
            &&& match press.code {
                Key::Char(c) => if press.control {
                    after == app
                } else {
                    after == (AppView { query: app.query.push(c), ..app }).rebuilt_tab()
                },
                Key::Backspace => if app.query.len() == 0 {
                    after == app.rebuilt_tab()
                } else {
                    after == (AppView {
                        query: app.query.take(app.query.len() - 1),
                        ..app
                    }).rebuilt_tab()
                },
                Key::Enter => after == (AppView { overlay: OverlayView::Closed, ..app }),
                Key::Esc => after == (AppView { overlay: OverlayView::Closed, ..app }),
                _ => after == app,
            }
        }),
{
    assert(app.query.len() > 0 ==> app.query.drop_last() =~= app.query.take(app.query.len() - 1));
}

/// While a context menu is open, the arrow keys move its mark by one entry and no further than to
/// its ends, Escape closes it, Enter closes it and does what the marked entry says, and any
/// other key does nothing.
#[verifier::spinoff_prover]
pub proof fn keys_move_through_the_menu(app: AppView, press: KeyPress, menu: MenuView)
    requires
        menu.selected_index < menu_actions(menu.kind).len(),
    ensures
        ({
            let (after, effect) = app.menu_key(press, menu);
            let count = menu_actions(menu.kind).len();
            let closed = AppView { overlay: OverlayView::Closed, ..app };
            &&& press.code == Key::Down ==> after == (AppView {
                overlay: OverlayView::ContextMenu(
                    MenuView {
                        selected_index: (if menu.selected_index + 1 < count {
                            menu.selected_index + 1
                        } else {
                            menu.selected_index as int
                        }) as usize,
                        ..menu
                    },
                ),
                ..app
            }) && effect == EffectView::Nothing
            &&& press.code == Key::Up ==> after == (AppView {
                overlay: OverlayView::ContextMenu(
                    MenuView {
                        selected_index: (if menu.selected_index > 0 {
                            menu.selected_index - 1
                        } else {
                            0
                        }) as usize,
                        ..menu
                    },
                ),
                ..app
            }) && effect == EffectView::Nothing
            &&& press.code == Key::Esc ==> after == closed && effect == EffectView::Nothing
            &&& press.code == Key::Enter ==> (after, effect) == closed.menu_action(
                menu,
                menu_actions(menu.kind)[menu.selected_index as int],
            )
            &&& press.code != Key::Down && press.code != Key::Up && press.code != Key::Esc
                && press.code != Key::Enter ==> (after, effect) == (app, EffectView::Nothing)
            &&& app.overlay == OverlayView::ContextMenu(menu) ==> app.after_key(press) == (
                after,
                effect,
            )
        }),
{
}

/// An entry of a context menu does what it says to the process or the service that the menu is
/// about: it has the process closed, restarted, suspended, or resumed, opens its folder, or
/// opens the dialog before what must be confirmed. It changes nothing but what lies over the
/// page, the focus, and the message.
#[verifier::spinoff_prover]
pub proof fn menu_entries_do_what_they_say(app: AppView, menu: MenuView, action: ContextAction)
    ensures
        ({
            let (after, effect) = app.menu_action(menu, action);
            let pid = match menu.target {
                crate::model::TargetView::ProcessPid(pid) => Some(pid),
                crate::model::TargetView::NetworkPid(pid) => Some(pid),
                crate::model::TargetView::ServiceName(_) => None,
            };
            let sends = action is Close || action is Restart || action is Suspend
                || action is Resume;
            &&& sends ==> after == app && (pid is None ==> effect == EffectView::Nothing)
            &&& action is Close && pid is Some ==> effect == EffectView::Send(
                CommandView::RequestCloseProcess { pid: pid->0 },
                FollowUp::Stay,
            )
            &&& action is Restart && pid is Some ==> effect == EffectView::Send(
                CommandView::RestartProcess { pid: pid->0 },
                FollowUp::Processes,
            )
            &&& action is Suspend && pid is Some ==> effect == EffectView::Send(
                CommandView::SuspendProcess { pid: pid->0 },
                FollowUp::Processes,
            )
            &&& action is Resume && pid is Some ==> effect == EffectView::Send(
                CommandView::ResumeProcess { pid: pid->0 },
                FollowUp::Processes,
            )
            &&& action is OpenFolder && menu.kind is Process && pid is Some ==> after == app
                && effect == EffectView::OpenProcess(pid->0)
            &&& action is OpenFolder && menu.kind is Network && pid is Some ==> after == app
                && effect == EffectView::OpenEndpoint(pid->0)
            &&& action is OpenFolder && (menu.kind is Service || pid is None) ==> effect
                == EffectView::Nothing && after == (AppView {
                feedback: match menu.kind {
                    ContextMenuKind::Process => "Selected process has no executable path."@,
                    ContextMenuKind::Network => "No endpoint selected."@,
                    ContextMenuKind::Service => "Services do not have an executable folder here."@,
                },
                ..app
            })
            &&& action is OpenDetails ==> effect == EffectView::Nothing && after == (AppView {
                pane_focus: PaneFocus::Detail,
                feedback: match menu.kind {
                    ContextMenuKind::Process => "Process detail pane focused."@,
                    ContextMenuKind::Service => "Service detail pane focused."@,
                    ContextMenuKind::Network => "Network detail pane focused."@,
                },
                ..app
            })
            &&& action is ForceKill ==> effect == EffectView::Nothing && after == (AppView {
                overlay: OverlayView::ConfirmForceKill,
                ..app
            })
            &&& action matches ContextAction::SetPriority(priority) ==> effect
                == EffectView::Nothing && after == (AppView {
                overlay: OverlayView::ConfirmPriorityChange(priority),
                ..app
            })
            &&& action is StartService ==> effect == EffectView::Nothing && after == (AppView {
                overlay: OverlayView::ConfirmServiceAction(ServiceActionIntent::Start),
                ..app
            })
            &&& action is StopService ==> effect == EffectView::Nothing && after == (AppView {
                overlay: OverlayView::ConfirmServiceAction(ServiceActionIntent::Stop),
                ..app
            })
            &&& action is RestartService ==> effect == EffectView::Nothing && after == (AppView {
                overlay: OverlayView::ConfirmServiceAction(ServiceActionIntent::Restart),
                ..app
            })
        }),
{
}

/// On an open context menu a click on a row does what the entry there says; the first entry lies
/// one row below the top of the menu, and the border none. A click outside closes the menu, and
/// anything else that the mouse does is ignored.
#[verifier::spinoff_prover]
pub proof fn clicks_choose_menu_entries(
    app: AppView,
    mouse: MouseInput,
    frame: Rect,
    areas: FrameAreas,
    menu: MenuView,
)
    requires
        app.overlay == OverlayView::ContextMenu(menu),
        frame.x + frame.width <= u16::MAX,
        frame.y + frame.height <= u16::MAX,
    ensures
        ({
            let (after, effect) = app.after_mouse(mouse, frame, areas);
            let actions = menu_actions(menu.kind);
            let area = menu_area(frame, actions.len() as int);
            let inside = area.x <= mouse.column < area.x + area.width && area.y <= mouse.row < area.y
                + area.height;
            let index = mouse.row - area.y - 1;
            let closed = AppView { overlay: OverlayView::Closed, ..app };
            &&& mouse.kind != MouseKind::LeftDown ==> (after, effect) == (app, EffectView::Nothing)
            &&& mouse.kind == MouseKind::LeftDown && !inside ==> (after, effect) == (
                closed,
                EffectView::Nothing,
            )
            &&& mouse.kind == MouseKind::LeftDown && inside && 0 <= index < actions.len()
                && mouse.row + 1 < area.y + area.height ==> (after, effect) == closed.menu_action(
                menu,
                actions[index],
            )
            &&& mouse.kind == MouseKind::LeftDown && inside && !(0 <= index < actions.len()
                && mouse.row + 1 < area.y + area.height) ==> (after, effect) == (
                app,
                EffectView::Nothing,
            )
        }),
{
    crate::layout::menu_lies_on_screen(frame, menu_actions(menu.kind).len() as int);
}

/// On the page itself a click on a tab goes to its page, and one on an entry of the filter bar of
/// the network page filters the endpoints. In the list a click selects the row that lies there
/// and gives the list the focus, a right click selects it and opens its menu, and the wheel
/// moves the selection. A click on the details gives them the focus. The summary and the footer
/// do nothing.
#[verifier::spinoff_prover]
pub proof fn the_mouse_acts_where_it_points(
    app: AppView,
    mouse: MouseInput,
    frame: Rect,
    areas: FrameAreas,
)
    requires
        app.overlay == OverlayView::Closed,
        divides(frame, areas),
        frame.x + frame.width <= u16::MAX,
        frame.y + frame.height <= u16::MAX,
    ensures
        ({
            let (after, effect) = app.after_mouse(mouse, frame, areas);
            let within = |area: Rect|
                area.x <= mouse.column < area.x + area.width && area.y <= mouse.row < area.y
                    + area.height;
            let left = mouse.kind == MouseKind::LeftDown;
            let tab = tab_at(inside_border(areas.tabs), mouse.column as int);
            let filter = filter_at(areas.filter_bar, mouse.column as int);
            let on_tab = within(areas.tabs) && left && tab is Some;
            let on_filter = app.active_tab == ActiveTab::Network && within(areas.filter_bar) && left
                && filter is Some;
            let looks_up = if app.active_tab == ActiveTab::Processes {
                EffectView::LookUpPriorities
            } else {
                EffectView::Nothing
            };
            let title = match app.active_tab {
                ActiveTab::Processes => "Processes"@,
                ActiveTab::Performance => "Performance"@,
                ActiveTab::Services => "Services"@,
                ActiveTab::Network => "Network"@,
            };
            &&& on_tab ==> after == app.on_tab(tab->0) && effect == (if tab->0
                == ActiveTab::Services {
                EffectView::RefreshServices
            } else {
                EffectView::Nothing
            })
            &&& within(areas.summary) || within(areas.footer) || (within(areas.tabs) && !on_tab)
                ==> after == app && effect == EffectView::Nothing
            &&& on_filter ==> after == app.with_network_filter(filter->0) && effect
                == EffectView::Nothing
            &&& within(areas.list) && !on_filter ==> {
                &&& left ==> after == (AppView {
                    pane_focus: PaneFocus::List,
                    ..app.with_row_at(areas, mouse.row as int)
                }) && effect == EffectView::Nothing
                &&& mouse.kind == MouseKind::RightDown ==> after == app.with_row_at(
                    areas,
                    mouse.row as int,
                ).with_menu() && effect == EffectView::Nothing
                &&& mouse.kind == MouseKind::ScrollDown ==> after == app.after_next() && effect
                    == looks_up
                &&& mouse.kind == MouseKind::ScrollUp ==> after == app.after_prev() && effect
                    == looks_up
                &&& mouse.kind == MouseKind::Other ==> after == app && effect == EffectView::Nothing
            }
            &&& within(areas.detail) && left ==> effect == EffectView::Nothing && after == (AppView {
                pane_focus: PaneFocus::Detail,
                feedback: title + " detail pane focused."@,
                ..app
            })
            &&& within(areas.detail) && !left ==> after == app && effect == EffectView::Nothing
            &&& !within(areas.tabs) && !within(areas.summary) && !within(areas.footer) && !within(
                areas.list,
            ) && !within(areas.detail) ==> after == app && effect == EffectView::Nothing
        }),
{
    crate::navigation::lemma_areas_are_apart(frame, areas);
}

/// What an event asks of the system is known as what it is.
pub proof fn effect_models_show_what_is_held(effect: Effect)
    ensures
        match effect {
            Effect::Nothing => effect@ is Nothing,
            Effect::Quit => effect@ is Quit,
            Effect::Send(command, follow) => effect@ == EffectView::Send(command@, follow),
            Effect::RefreshProcesses => effect@ is RefreshProcesses,
            Effect::RefreshServices => effect@ is RefreshServices,
            Effect::LookUpPriorities => effect@ is LookUpPriorities,
            Effect::OpenPath(path) => effect@ == EffectView::OpenPath(path@),
            Effect::OpenProcess(pid) => effect@ == EffectView::OpenProcess(pid),
            Effect::OpenEndpoint(pid) => effect@ == EffectView::OpenEndpoint(pid),
        },
{
}

} // verus!
