//! The pages, modes, menus, and dialogs of the program.

use crate::api::ProcessPriority;
use crate::text::{lowered, same_ignoring_case};
use vstd::prelude::*;

verus! {

/// The pages of the program.
#[derive(Debug, Clone, Copy, PartialEq, Eq, Structural)]
pub enum ActiveTab {
    Processes,
    Performance,
    Services,
    Network,
}

impl ActiveTab {
    /// The place of a page among the tabs.
    pub open spec fn place(self) -> int {
        match self {
            ActiveTab::Processes => 0,
            ActiveTab::Performance => 1,
            ActiveTab::Services => 2,
            ActiveTab::Network => 3,
        }
    }

    /// The page at a place among the tabs; the last page beyond it.
    pub open spec fn at_place(place: int) -> ActiveTab {
        if place == 0 {
            ActiveTab::Processes
        } else if place == 1 {
            ActiveTab::Performance
        } else if place == 2 {
            ActiveTab::Services
        } else {
            ActiveTab::Network
        }
    }

    /// The title of a page.
    pub open spec fn name(self) -> Seq<char> {
        match self {
            ActiveTab::Processes => "Processes"@,
            ActiveTab::Performance => "Performance"@,
            ActiveTab::Services => "Services"@,
            ActiveTab::Network => "Network"@,
        }
    }

    /// The place of the page among the tabs.
    pub fn index(self) -> (r: usize)
        ensures
            r == self.place(),
    {
        match self {
            ActiveTab::Processes => 0,
            ActiveTab::Performance => 1,
            ActiveTab::Services => 2,
            ActiveTab::Network => 3,
        }
    }

    /// The page at a place among the tabs; the last page for any place beyond it.
    pub fn from_index(index: usize) -> (r: Self)
        ensures
            r == ActiveTab::at_place(index as int),
    {
        match index {
            0 => ActiveTab::Processes,
            1 => ActiveTab::Performance,
            2 => ActiveTab::Services,
            _ => ActiveTab::Network,
        }
    }

    /// The page to the right, round the end.
    pub fn next(self) -> (r: Self)
        ensures
            r == ActiveTab::at_place((self.place() + 1) % 4),
    {
        ActiveTab::from_index((self.index() + 1) % 4)
    }

    /// The page to the left, round the end.
    pub fn previous(self) -> (r: Self)
        ensures
            r == ActiveTab::at_place((self.place() + 3) % 4),
    {
        ActiveTab::from_index((self.index() + 3) % 4)
    }

    /// The title of the page.
    pub fn title(self) -> (r: &'static str)
        ensures
            r@ == self.name(),
    {
        match self {
            ActiveTab::Processes => "Processes",
            ActiveTab::Performance => "Performance",
            ActiveTab::Services => "Services",
            ActiveTab::Network => "Network",
        }
    }
}

/// Going to the next page and back, or round all four pages, returns to the page.
pub proof fn pages_form_a_ring(tab: ActiveTab)
    ensures
        ActiveTab::at_place(tab.place()) == tab,
        ActiveTab::at_place((ActiveTab::at_place((tab.place() + 1) % 4).place() + 3) % 4) == tab,
        ActiveTab::at_place((ActiveTab::at_place((tab.place() + 3) % 4).place() + 1) % 4) == tab,
{
}

/// The columns that processes can be sorted by.
#[derive(Debug, Clone, Copy, PartialEq, Eq, Structural)]
pub enum SortMode {
    CpuDesc,
    MemoryDesc,
    PidAsc,
    NameAsc,
}

impl SortMode {
    /// The word for a sort mode.
    pub open spec fn word(self) -> Seq<char> {
        match self {
            SortMode::CpuDesc => "CPU"@,
            SortMode::MemoryDesc => "Memory"@,
            SortMode::PidAsc => "PID"@,
            SortMode::NameAsc => "Name"@,
        }
    }

    /// The word for the sort mode.
    pub fn label(self) -> (r: &'static str)
        ensures
            r@ == self.word(),
    {
        match self {
            SortMode::CpuDesc => "CPU",
            SortMode::MemoryDesc => "Memory",
            SortMode::PidAsc => "PID",
            SortMode::NameAsc => "Name",
        }
    }
}

/// Which TCP endpoints are listed.
#[derive(Debug, Clone, Copy, PartialEq, Eq, Structural)]
pub enum NetworkStateFilter {
    All,
    Listening,
    Established,
}

impl NetworkStateFilter {
    /// The filter that follows in the cycle.
    pub open spec fn following(self) -> NetworkStateFilter {
        match self {
            NetworkStateFilter::All => NetworkStateFilter::Listening,
            NetworkStateFilter::Listening => NetworkStateFilter::Established,
            NetworkStateFilter::Established => NetworkStateFilter::All,
        }
    }

    /// The word for a filter.
    pub open spec fn word(self) -> Seq<char> {
        match self {
            NetworkStateFilter::All => "All"@,
            NetworkStateFilter::Listening => "Listening"@,
            NetworkStateFilter::Established => "Established"@,
        }
    }

    /// Whether the filter lets an endpoint in the given state through, up to ASCII case.
    pub open spec fn admits(self, state: Seq<char>) -> bool {
        match self {
            NetworkStateFilter::All => true,
            NetworkStateFilter::Listening => lowered(state) == lowered(
                "listen"@,
            ),
            NetworkStateFilter::Established => lowered(state) == lowered(
                "established"@,
            ),
        }
    }

    /// The filter that follows in the cycle.
    pub fn next(self) -> (r: Self)
        ensures
            r == self.following(),
    {
        match self {
            NetworkStateFilter::All => NetworkStateFilter::Listening,
            NetworkStateFilter::Listening => NetworkStateFilter::Established,
            NetworkStateFilter::Established => NetworkStateFilter::All,
        }
    }

    /// The word for the filter.
    pub fn label(self) -> (r: &'static str)
        ensures
            r@ == self.word(),
    {
        match self {
            NetworkStateFilter::All => "All",
            NetworkStateFilter::Listening => "Listening",
            NetworkStateFilter::Established => "Established",
        }
    }

    /// Whether the filter lets an endpoint in the given state through.
    pub fn matches(self, state: &str) -> (r: bool)
        ensures
            r == self.admits(state@),
    {
        match self {
            NetworkStateFilter::All => true,
            NetworkStateFilter::Listening => same_ignoring_case(state, "listen"),
            NetworkStateFilter::Established => same_ignoring_case(state, "established"),
        }
    }
}

/// Three steps through the filters lead back to the first.
pub proof fn filters_form_a_cycle(filter: NetworkStateFilter)
    ensures
        filter.following().following().following() == filter,
        filter.following() != filter,
{
}

/// What the user wants done with a service.
#[derive(Debug, Clone, Copy, PartialEq, Eq, Structural)]
pub enum ServiceActionIntent {
    Start,
    Stop,
    Restart,
}

impl ServiceActionIntent {
    /// The title of the dialog about an intent.
    pub open spec fn heading(self) -> Seq<char> {
        match self {
            ServiceActionIntent::Start => "Start Service"@,
            ServiceActionIntent::Stop => "Stop Service"@,
            ServiceActionIntent::Restart => "Restart Service"@,
        }
    }

    /// The word for an intent.
    pub open spec fn word(self) -> Seq<char> {
        match self {
            ServiceActionIntent::Start => "start"@,
            ServiceActionIntent::Stop => "stop"@,
            ServiceActionIntent::Restart => "restart"@,
        }
    }

    /// The title of the dialog about the intent.
    pub fn title(self) -> (r: &'static str)
        ensures
            r@ == self.heading(),
    {
        match self {
            ServiceActionIntent::Start => "Start Service",
            ServiceActionIntent::Stop => "Stop Service",
            ServiceActionIntent::Restart => "Restart Service",
        }
    }

    /// The word for the intent.
    pub fn label(self) -> (r: &'static str)
        ensures
            r@ == self.word(),
    {
        match self {
            ServiceActionIntent::Start => "start",
            ServiceActionIntent::Stop => "stop",
            ServiceActionIntent::Restart => "restart",
        }
    }
}

/// What a context menu is about.
#[derive(Debug, Clone, Copy, PartialEq, Eq, Structural)]
pub enum ContextMenuKind {
    Process,
    Service,
    Network,
}

/// The pane that the arrow keys move in.
#[derive(Debug, Clone, Copy, PartialEq, Eq, Structural)]
pub enum PaneFocus {
    List,
    Detail,
}

/// What a context menu acts on.
#[derive(Debug, PartialEq, Eq)]
pub enum ContextMenuTarget {
    ProcessPid(u32),
    ServiceName(String),
    NetworkPid(u32),
}

impl Clone for ContextMenuTarget {
    fn clone(&self) -> (copy: Self)
        ensures
            copy == *self,
    {
        match self {
            ContextMenuTarget::ProcessPid(pid) => ContextMenuTarget::ProcessPid(*pid),
            ContextMenuTarget::ServiceName(name) => ContextMenuTarget::ServiceName(name.clone()),
            ContextMenuTarget::NetworkPid(pid) => ContextMenuTarget::NetworkPid(*pid),
        }
    }
}

/// The model of a context menu's target.
pub enum TargetView {
    ProcessPid(u32),
    ServiceName(Seq<char>),
    NetworkPid(u32),
}

impl View for ContextMenuTarget {
    type V = TargetView;

    open spec fn view(&self) -> TargetView {
        match self {
            ContextMenuTarget::ProcessPid(pid) => TargetView::ProcessPid(*pid),
            ContextMenuTarget::ServiceName(name) => TargetView::ServiceName(name@),
            ContextMenuTarget::NetworkPid(pid) => TargetView::NetworkPid(*pid),
        }
    }
}

/// The process that a context menu acts on, if it is about one.
pub open spec fn target_pid(target: TargetView) -> Option<u32> {
    match target {
        TargetView::ProcessPid(pid) => Some(pid),
        TargetView::NetworkPid(pid) => Some(pid),
        TargetView::ServiceName(_) => None,
    }
}

/// The process that a context menu acts on, if it is about one.
pub fn context_target_pid(target: &ContextMenuTarget) -> (r: Option<u32>)
    ensures
        r == target_pid(target@),
{
    match target {
        ContextMenuTarget::ProcessPid(pid) => Some(*pid),
        ContextMenuTarget::NetworkPid(pid) => Some(*pid),
        ContextMenuTarget::ServiceName(_) => None,
    }
}

/// An open context menu.
#[derive(Debug, PartialEq, Eq)]
pub struct ContextMenuState {
    pub kind: ContextMenuKind,
    pub selected_index: usize,
    pub target: ContextMenuTarget,
}

/// The model of an open context menu.
pub struct MenuView {
    pub kind: ContextMenuKind,
    pub selected_index: usize,
    pub target: TargetView,
}

impl View for ContextMenuState {
    type V = MenuView;

    open spec fn view(&self) -> MenuView {
        MenuView {
            kind: self.kind,
            selected_index: self.selected_index,
            target: self.target@,
        }
    }
}

impl Clone for ContextMenuState {
    fn clone(&self) -> (copy: Self)
        ensures
            copy == *self,
    {
        ContextMenuState {
            kind: self.kind,
            selected_index: self.selected_index,
            target: self.target.clone(),
        }
    }
}

/// What lies over the page.
#[derive(Debug, PartialEq, Eq)]
pub enum Overlay {
    Closed,
    Search,
    ConfirmForceKill,
    ConfirmServiceAction(ServiceActionIntent),
    ConfirmPriorityChange(ProcessPriority),
    ContextMenu(ContextMenuState),
}

/// The model of what lies over the page.
pub enum OverlayView {
    Closed,
    Search,
    ConfirmForceKill,
    ConfirmServiceAction(ServiceActionIntent),
    ConfirmPriorityChange(ProcessPriority),
    ContextMenu(MenuView),
}

impl View for Overlay {
    type V = OverlayView;

    open spec fn view(&self) -> OverlayView {
        match self {
            Overlay::Closed => OverlayView::Closed,
            Overlay::Search => OverlayView::Search,
            Overlay::ConfirmForceKill => OverlayView::ConfirmForceKill,
            Overlay::ConfirmServiceAction(intent) => OverlayView::ConfirmServiceAction(*intent),
            Overlay::ConfirmPriorityChange(priority) => OverlayView::ConfirmPriorityChange(
                *priority,
            ),
            Overlay::ContextMenu(state) => OverlayView::ContextMenu(state@),
        }
    }
}

impl Clone for Overlay {
    fn clone(&self) -> (copy: Self)
        ensures
            copy == *self,
    {
        match self {
            Overlay::Closed => Overlay::Closed,
            Overlay::Search => Overlay::Search,
            Overlay::ConfirmForceKill => Overlay::ConfirmForceKill,
            Overlay::ConfirmServiceAction(intent) => Overlay::ConfirmServiceAction(*intent),
            Overlay::ConfirmPriorityChange(priority) => Overlay::ConfirmPriorityChange(*priority),
            Overlay::ContextMenu(state) => Overlay::ContextMenu(state.clone()),
        }
    }
}

/// The entries of the context menus.
#[derive(Debug, Clone, Copy, PartialEq, Eq, Structural)]
pub enum ContextAction {
    OpenDetails,
    Close,
    ForceKill,
    Restart,
    Suspend,
    Resume,
    OpenFolder,
    SetPriority(ProcessPriority),
    StartService,
    StopService,
    RestartService,
}

impl ContextAction {
    /// The text of a menu entry.
    pub open spec fn caption(self) -> Seq<char> {
        match self {
            ContextAction::OpenDetails => "Open details"@,
            ContextAction::Close => "Close"@,
            ContextAction::ForceKill => "Force kill"@,
            ContextAction::Restart => "Restart"@,
            ContextAction::Suspend => "Suspend"@,
            ContextAction::Resume => "Resume"@,
            ContextAction::OpenFolder => "Open folder"@,
            ContextAction::SetPriority(ProcessPriority::Idle) => "Set priority: idle"@,
            ContextAction::SetPriority(ProcessPriority::BelowNormal) =>
                "Set priority: below_normal"@,
            ContextAction::SetPriority(ProcessPriority::Normal) => "Set priority: normal"@,
            ContextAction::SetPriority(ProcessPriority::AboveNormal) =>
                "Set priority: above_normal"@,
            ContextAction::SetPriority(ProcessPriority::High) => "Set priority: high"@,
            ContextAction::StartService => "Start service"@,
            ContextAction::StopService => "Stop service"@,
            ContextAction::RestartService => "Restart service"@,
        }
    }

    /// The text of the menu entry.
    pub fn label(self) -> (r: &'static str)
        ensures
            r@ == self.caption(),
    {
        match self {
            ContextAction::OpenDetails => "Open details",
            ContextAction::Close => "Close",
            ContextAction::ForceKill => "Force kill",
            ContextAction::Restart => "Restart",
            ContextAction::Suspend => "Suspend",
            ContextAction::Resume => "Resume",
            ContextAction::OpenFolder => "Open folder",
            ContextAction::SetPriority(ProcessPriority::Idle) => "Set priority: idle",
            ContextAction::SetPriority(ProcessPriority::BelowNormal) =>
                "Set priority: below_normal",
            ContextAction::SetPriority(ProcessPriority::Normal) => "Set priority: normal",
            ContextAction::SetPriority(ProcessPriority::AboveNormal) =>
                "Set priority: above_normal",
            ContextAction::SetPriority(ProcessPriority::High) => "Set priority: high",
            ContextAction::StartService => "Start service",
            ContextAction::StopService => "Stop service",
            ContextAction::RestartService => "Restart service",
        }
    }
}

/// The entries of the menus about processes.
pub open spec fn process_actions() -> Seq<ContextAction> {
    seq![
        ContextAction::OpenDetails,
        ContextAction::Close,
        ContextAction::ForceKill,
        ContextAction::Restart,
        ContextAction::Suspend,
        ContextAction::Resume,
        ContextAction::OpenFolder,
        ContextAction::SetPriority(ProcessPriority::Idle),
        ContextAction::SetPriority(ProcessPriority::BelowNormal),
        ContextAction::SetPriority(ProcessPriority::Normal),
        ContextAction::SetPriority(ProcessPriority::AboveNormal),
        ContextAction::SetPriority(ProcessPriority::High),
    ]
}

/// The entries of a context menu: an endpoint's menu is about its process.
pub open spec fn menu_actions(kind: ContextMenuKind) -> Seq<ContextAction> {
    match kind {
        ContextMenuKind::Process => process_actions(),
        ContextMenuKind::Network => process_actions(),
        ContextMenuKind::Service => seq![
            ContextAction::OpenDetails,
            ContextAction::StartService,
            ContextAction::StopService,
            ContextAction::RestartService,
        ],
    }
}

/// The entries of a context menu.
pub fn context_actions(kind: ContextMenuKind) -> (r: Vec<ContextAction>)
    ensures
        r@ == menu_actions(kind),
{
    let actions = match kind {
        ContextMenuKind::Service => vec![
            ContextAction::OpenDetails,
            ContextAction::StartService,
            ContextAction::StopService,
            ContextAction::RestartService,
        ],
        _ => vec![
            ContextAction::OpenDetails,
            ContextAction::Close,
            ContextAction::ForceKill,
            ContextAction::Restart,
            ContextAction::Suspend,
            ContextAction::Resume,
            ContextAction::OpenFolder,
            ContextAction::SetPriority(ProcessPriority::Idle),
            ContextAction::SetPriority(ProcessPriority::BelowNormal),
            ContextAction::SetPriority(ProcessPriority::Normal),
            ContextAction::SetPriority(ProcessPriority::AboveNormal),
            ContextAction::SetPriority(ProcessPriority::High),
        ],
    };
    assert(actions@ =~= menu_actions(kind));
    actions
}

/// The menus about processes and endpoints offer every priority.
pub proof fn menus_offer_every_priority(priority: ProcessPriority)
    ensures
        menu_actions(ContextMenuKind::Process).contains(ContextAction::SetPriority(priority)),
        menu_actions(ContextMenuKind::Network).contains(ContextAction::SetPriority(priority)),
{
    let actions = process_actions();
    assert(actions[7] == ContextAction::SetPriority(ProcessPriority::Idle));
    assert(actions[8] == ContextAction::SetPriority(ProcessPriority::BelowNormal));
    assert(actions[9] == ContextAction::SetPriority(ProcessPriority::Normal));
    assert(actions[10] == ContextAction::SetPriority(ProcessPriority::AboveNormal));
    assert(actions[11] == ContextAction::SetPriority(ProcessPriority::High));
}

/// The titles of the pages, and the words for the sorts and filters, as the user reads them.
pub proof fn titles_are_the_usual_ones()
    ensures
        ActiveTab::Processes.name() == "Processes"@,
        ActiveTab::Performance.name() == "Performance"@,
        ActiveTab::Services.name() == "Services"@,
        ActiveTab::Network.name() == "Network"@,
        SortMode::CpuDesc.word() == "CPU"@,
        SortMode::MemoryDesc.word() == "Memory"@,
        SortMode::PidAsc.word() == "PID"@,
        SortMode::NameAsc.word() == "Name"@,
        NetworkStateFilter::All.word() == "All"@,
        NetworkStateFilter::Listening.word() == "Listening"@,
        NetworkStateFilter::Established.word() == "Established"@,
        ServiceActionIntent::Start.word() == "start"@,
        ServiceActionIntent::Stop.word() == "stop"@,
        ServiceActionIntent::Restart.word() == "restart"@,
        ServiceActionIntent::Start.heading() == "Start Service"@,
        ServiceActionIntent::Stop.heading() == "Stop Service"@,
        ServiceActionIntent::Restart.heading() == "Restart Service"@,
{
}

/// The pages lie in this order: processes, performance, services, network. Any place beyond the
/// last is that of the network.
pub proof fn pages_have_their_places(place: int)
    requires
        0 <= place,
    ensures
        ActiveTab::Processes.place() == 0,
        ActiveTab::Performance.place() == 1,
        ActiveTab::Services.place() == 2,
        ActiveTab::Network.place() == 3,
        place < 4 ==> ActiveTab::at_place(place).place() == place,
        place >= 4 ==> ActiveTab::at_place(place) == ActiveTab::Network,
{
}

/// The filters follow each other: all, listening, established, and all again. The first lets
/// every endpoint through, the others only those in the state that they name, whatever the case.
pub proof fn filters_let_their_states_through(state: Seq<char>)
    ensures
        NetworkStateFilter::All.following() == NetworkStateFilter::Listening,
        NetworkStateFilter::Listening.following() == NetworkStateFilter::Established,
        NetworkStateFilter::Established.following() == NetworkStateFilter::All,
        NetworkStateFilter::All.admits(state),
        NetworkStateFilter::Listening.admits(state) <==> lowered(state) == "listen"@,
        NetworkStateFilter::Established.admits(state) <==> lowered(state) == "established"@,
{
    reveal_strlit("listen");
    reveal_strlit("established");
    assert(lowered("listen"@) =~= "listen"@);
    assert(lowered("established"@) =~= "established"@);
}

/// The menu of a process or an endpoint offers its details, to close, kill, restart, suspend, and
/// resume the process, its folder, and the five priorities from idle to high, in this order.
/// That of a service offers its details, to start, to stop, and to restart it.
pub proof fn menus_offer_what_can_be_done()
    ensures
        ({
            let actions = menu_actions(ContextMenuKind::Process);
            &&& menu_actions(ContextMenuKind::Network) == actions
            &&& actions.len() == 12
            &&& actions[0] == ContextAction::OpenDetails
            &&& actions[1] == ContextAction::Close
            &&& actions[2] == ContextAction::ForceKill
            &&& actions[3] == ContextAction::Restart
            &&& actions[4] == ContextAction::Suspend
            &&& actions[5] == ContextAction::Resume
            &&& actions[6] == ContextAction::OpenFolder
            &&& actions[7] == ContextAction::SetPriority(ProcessPriority::Idle)
            &&& actions[8] == ContextAction::SetPriority(ProcessPriority::BelowNormal)
            &&& actions[9] == ContextAction::SetPriority(ProcessPriority::Normal)
            &&& actions[10] == ContextAction::SetPriority(ProcessPriority::AboveNormal)
            &&& actions[11] == ContextAction::SetPriority(ProcessPriority::High)
        }),
        ({
            let actions = menu_actions(ContextMenuKind::Service);
            &&& actions.len() == 4
            &&& actions[0] == ContextAction::OpenDetails
            &&& actions[1] == ContextAction::StartService
            &&& actions[2] == ContextAction::StopService
            &&& actions[3] == ContextAction::RestartService
        }),
{
}

/// A menu entry is called what it does; an entry for a priority names it.
pub proof fn menu_entries_are_called_what_they_do(priority: ProcessPriority)
    ensures
        ContextAction::OpenDetails.caption() == "Open details"@,
        ContextAction::Close.caption() == "Close"@,
        ContextAction::ForceKill.caption() == "Force kill"@,
        ContextAction::Restart.caption() == "Restart"@,
        ContextAction::Suspend.caption() == "Suspend"@,
        ContextAction::Resume.caption() == "Resume"@,
        ContextAction::OpenFolder.caption() == "Open folder"@,
        ContextAction::StartService.caption() == "Start service"@,
        ContextAction::StopService.caption() == "Stop service"@,
        ContextAction::RestartService.caption() == "Restart service"@,
        ContextAction::SetPriority(priority).caption() == "Set priority: "@ + priority.word(),
{
    reveal_strlit("Set priority: ");
    reveal_strlit("idle");
    reveal_strlit("below_normal");
    reveal_strlit("normal");
    reveal_strlit("above_normal");
    reveal_strlit("high");
    reveal_strlit("Set priority: idle");
    reveal_strlit("Set priority: below_normal");
    reveal_strlit("Set priority: normal");
    reveal_strlit("Set priority: above_normal");
    reveal_strlit("Set priority: high");
    assert(ContextAction::SetPriority(priority).caption() =~= "Set priority: "@ + priority.word());
}

/// The menu, and what lies over the page, are known as they are, and a menu acts on the process
/// that its target names.
pub proof fn overlay_models_show_what_is_held(
    overlay: Overlay,
    menu: ContextMenuState,
    target: ContextMenuTarget,
)
    ensures
        overlay is Closed <==> overlay@ is Closed,
        overlay is Search <==> overlay@ is Search,
        overlay is ConfirmForceKill <==> overlay@ is ConfirmForceKill,
        overlay matches Overlay::ConfirmServiceAction(intent) ==> overlay@
            == OverlayView::ConfirmServiceAction(intent),
        overlay matches Overlay::ConfirmPriorityChange(priority) ==> overlay@
            == OverlayView::ConfirmPriorityChange(priority),
        overlay matches Overlay::ContextMenu(state) ==> overlay@ == OverlayView::ContextMenu(
            state@,
        ),
        menu@.kind == menu.kind,
        menu@.selected_index == menu.selected_index,
        menu@.target == menu.target@,
        target matches ContextMenuTarget::ProcessPid(pid) ==> target@ == TargetView::ProcessPid(
            pid,
        ) && target_pid(target@) == Some(pid),
        target matches ContextMenuTarget::NetworkPid(pid) ==> target@ == TargetView::NetworkPid(
            pid,
        ) && target_pid(target@) == Some(pid),
        target matches ContextMenuTarget::ServiceName(name) ==> target@
            == TargetView::ServiceName(name@) && target_pid(target@) is None,
{
}

} // verus!
