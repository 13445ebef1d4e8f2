//! Installing an update and removing the product: the steps, and what follows from how each
//! of them ended.

use crate::messages::labelled;
use crate::release::{semver_parsed, version_text, UpdateCheck, Version, DEFAULT_SERVICE_NAME};
use crate::rows::text_option;
use crate::sorting::views;
use crate::system::WaitVerdict;
use crate::text::{decimal, decimal_text, parse_reads_what_decimal_writes};
use crate::updater::{check_line, check_text, flags_from, FlagsOutcome, FlagsView};
use vstd::prelude::*;

verus! {

/// How long a forced stop or a deletion may take, in milliseconds.
pub const FORCED_STOP_MILLIS: u64 = 10000;

/// How long the program may take to end, in milliseconds.
pub const APP_EXIT_MILLIS: u32 = 30000;

/// What waiting for a process tells: zero if it ended, 258 if it did not in time.
pub fn exit_wait(result: u32) -> (verdict: Option<WaitVerdict>)
    ensures
        verdict == (if result == 0 {
            Some(WaitVerdict::Reached)
        } else if result == 258 {
            Some(WaitVerdict::TimedOut)
        } else {
            None
        }),
{
    if result == 0 {
        Some(WaitVerdict::Reached)
    } else if result == 258 {
        Some(WaitVerdict::TimedOut)
    } else {
        None
    }
}

/// The message for a wait for a process, if the process did not end.
pub open spec fn wait_failure_text(result: u32, pid: u32) -> Option<Seq<char>> {
    if result == 0 {
        None
    } else if result == 258 {
        Some("timed out waiting for process "@ + decimal(pid as nat) + " to exit"@)
    } else {
        Some(
            "WaitForSingleObject returned "@ + decimal(result as nat) + " for process "@ + decimal(
                pid as nat,
            ),
        )
    }
}

/// The message for a wait for a process, if the process did not end.
pub fn wait_failure(result: u32, pid: u32) -> (message: Option<String>)
    ensures
        text_option(message) == wait_failure_text(result, pid),
{
    let number = decimal_text(pid as u64);
    match exit_wait(result) {
        Some(WaitVerdict::Reached) => None,
        Some(_) => {
            let mut text = labelled("timed out waiting for process ", number.as_str());
            text.append(" to exit");
            Some(text)
        },
        None => {
            let code = decimal_text(result as u64);
            let mut text = labelled("WaitForSingleObject returned ", code.as_str());
            text.append(" for process ");
            text.append(number.as_str());
            Some(text)
        },
    }
}

/// The exit code of a program as text.
pub open spec fn exit_code_text(code: Option<i32>) -> Seq<char> {
    match code {
        None => "unknown"@,
        Some(c) => if c < 0 {
            "-"@ + decimal((-c) as nat)
        } else {
            decimal(c as nat)
        },
    }
}

/// The exit code of a program as text.
pub fn exit_code_label(code: Option<i32>) -> (text: String)
    ensures
        text@ == exit_code_text(code),
{
    match code {
        None => "unknown".to_string(),
        Some(c) => {
            if c < 0 {
                let number = decimal_text((-(c as i64)) as u64);
                labelled("-", number.as_str())
            } else {
                decimal_text(c as u64)
            }
        },
    }
}

/// The message for a service whose process could not be killed.
pub open spec fn force_stop_text(service_name: Seq<char>, pid: u32, code: Option<i32>) -> Seq<
    char,
> {
    "failed to force-stop "@ + service_name + " (PID "@ + decimal(pid as nat)
        + "), taskkill exited with "@ + exit_code_text(code)
}

/// The message for a service whose process could not be killed.
pub fn force_stop_failure(service_name: &str, pid: u32, code: Option<i32>) -> (text: String)
    ensures
        text@ == force_stop_text(service_name@, pid, code),
{
    let number = decimal_text(pid as u64);
    let exit_code = exit_code_label(code);
    let mut text = labelled("failed to force-stop ", service_name);
    text.append(" (PID ");
    text.append(number.as_str());
    text.append("), taskkill exited with ");
    text.append(exit_code.as_str());
    text
}

/// The message for a service that is still running.
pub open spec fn still_running_text(service_name: Seq<char>) -> Seq<char> {
    "service "@ + service_name + " is still running after forced stop"@
}

/// The message for a service that is still running.
pub fn still_running(service_name: &str) -> (text: String)
    ensures
        text@ == still_running_text(service_name@),
{
    let mut text = labelled("service ", service_name);
    text.append(" is still running after forced stop");
    text
}

/// The message for a service that could not be deleted.
pub open spec fn delete_text(service_name: Seq<char>, code: Option<i32>) -> Seq<char> {
    "failed to delete "@ + service_name + ", sc.exe exited with "@ + exit_code_text(code)
}

/// The message for a service that could not be deleted.
pub fn delete_failure(service_name: &str, code: Option<i32>) -> (text: String)
    ensures
        text@ == delete_text(service_name@, code),
{
    let exit_code = exit_code_label(code);
    let mut text = labelled("failed to delete ", service_name);
    text.append(", sc.exe exited with ");
    text.append(exit_code.as_str());
    text
}

/// The message for a service that is still there.
pub open spec fn still_present_text(service_name: Seq<char>) -> Seq<char> {
    "service "@ + service_name + " is still present after delete"@
}

/// The message for a service that is still there.
pub fn still_present(service_name: &str) -> (text: String)
    ensures
        text@ == still_present_text(service_name@),
{
    let mut text = labelled("service ", service_name);
    text.append(" is still present after delete");
    text
}

/// What is to be done next to stop a service, by force if it does not stop when asked.
#[derive(Debug, PartialEq, Eq)]
pub enum StopAction {
    /// Ask the service manager to stop the service.
    AskToStop,
    /// Look for the process of the service, to kill it.
    FindProcess,
    /// Kill a process.
    Kill(u32),
    /// See how much time has passed since the watch began.
    ReadClock,
    /// Look whether the service still has a process.
    CheckProcess,
    /// Wait a moment.
    Pause,
    /// The service is stopped.
    Finish,
    /// Give up, with a message.
    Fail(String),
}

/// The model of what is to be done next to stop a service.
pub enum StopView {
    AskToStop,
    FindProcess,
    Kill(u32),
    ReadClock,
    CheckProcess,
    Pause,
    Finish,
    Fail(Seq<char>),
}

impl View for StopAction {
    type V = StopView;

    open spec fn view(&self) -> StopView {
        match self {
            StopAction::AskToStop => StopView::AskToStop,
            StopAction::FindProcess => StopView::FindProcess,
            StopAction::Kill(pid) => StopView::Kill(*pid),
            StopAction::ReadClock => StopView::ReadClock,
            StopAction::CheckProcess => StopView::CheckProcess,
            StopAction::Pause => StopView::Pause,
            StopAction::Finish => StopView::Finish,
            StopAction::Fail(message) => StopView::Fail(message@),
        }
    }
}

/// How an action ended.
#[derive(Debug, Clone, Copy, PartialEq, Eq, Structural)]
pub enum StopEvent {
    /// Whether the service stopped when asked.
    Asked(bool),
    /// The process of the service, if it has one.
    Process(Option<u32>),
    /// How the program that kills a process ended.
    Exited { success: bool, code: Option<i32> },
    /// The time since the watch began, in milliseconds.
    Elapsed(u64),
    /// The moment is over.
    Paused,
}

/// What follows an action that ended in an event. An event that does not answer the action
/// leaves it pending.
pub open spec fn stop_next(service_name: Seq<char>, last: StopView, event: StopEvent) -> StopView {
    match (last, event) {
        (StopView::AskToStop, StopEvent::Asked(stopped)) => if stopped {
            StopView::Finish
        } else {
            StopView::FindProcess
        },
        (StopView::FindProcess, StopEvent::Process(found)) => match found {
            Some(pid) => StopView::Kill(pid),
            None => StopView::ReadClock,
        },
        (StopView::Kill(pid), StopEvent::Exited { success, code }) => if success {
            StopView::ReadClock
        } else {
            StopView::Fail(force_stop_text(service_name, pid, code))
        },
        (StopView::ReadClock, StopEvent::Elapsed(millis)) => if millis < FORCED_STOP_MILLIS {
            StopView::CheckProcess
        } else {
            StopView::Fail(still_running_text(service_name))
        },
        (StopView::CheckProcess, StopEvent::Process(found)) => match found {
            Some(_) => StopView::Pause,
            None => StopView::Finish,
        },
        (StopView::Pause, StopEvent::Paused) => StopView::ReadClock,
        _ => last,
    }
}

/// What follows an action that ended in an event.
pub fn next_stop_action(service_name: &str, last: StopAction, event: StopEvent) -> (next:
    StopAction)
    ensures
        next@ == stop_next(service_name@, last@, event),
{
    match (&last, event) {
        (StopAction::AskToStop, StopEvent::Asked(stopped)) => {
            if stopped {
                StopAction::Finish
            } else {
                StopAction::FindProcess
            }
        },
        (StopAction::FindProcess, StopEvent::Process(found)) => match found {
            Some(pid) => StopAction::Kill(pid),
            None => StopAction::ReadClock,
        },
        (StopAction::Kill(pid), StopEvent::Exited { success, code }) => {
            if success {
                StopAction::ReadClock
            } else {
                StopAction::Fail(force_stop_failure(service_name, *pid, code))
            }
        },
        (StopAction::ReadClock, StopEvent::Elapsed(millis)) => {
            if millis < FORCED_STOP_MILLIS {
                StopAction::CheckProcess
            } else {
                StopAction::Fail(still_running(service_name))
            }
        },
        (StopAction::CheckProcess, StopEvent::Process(found)) => match found {
            Some(_) => StopAction::Pause,
            None => StopAction::Finish,
        },
        (StopAction::Pause, StopEvent::Paused) => StopAction::ReadClock,
        _ => last,
    }
}

/// What is to be done next to delete a service.
#[derive(Debug, PartialEq, Eq)]
pub enum DeleteAction {
    /// Ask the service manager to delete the service.
    AskToDelete,
    /// See how much time has passed since the watch began.
    ReadClock,
    /// Look whether the service is gone.
    CheckService,
    /// Wait a moment.
    Pause,
    /// The service is gone.
    Finish,
    /// Give up, with a message.
    Fail(String),
}

/// The model of what is to be done next to delete a service.
pub enum DeleteView {
    AskToDelete,
    ReadClock,
    CheckService,
    Pause,
    Finish,
    Fail(Seq<char>),
}

impl View for DeleteAction {
    type V = DeleteView;

    open spec fn view(&self) -> DeleteView {
        match self {
            DeleteAction::AskToDelete => DeleteView::AskToDelete,
            DeleteAction::ReadClock => DeleteView::ReadClock,
            DeleteAction::CheckService => DeleteView::CheckService,
            DeleteAction::Pause => DeleteView::Pause,
            DeleteAction::Finish => DeleteView::Finish,
            DeleteAction::Fail(message) => DeleteView::Fail(message@),
        }
    }
}

/// How an action ended.
#[derive(Debug, Clone, Copy, PartialEq, Eq, Structural)]
pub enum DeleteEvent {
    /// How the program that deletes a service ended.
    Exited { success: bool, code: Option<i32> },
    /// The time since the watch began, in milliseconds.
    Elapsed(u64),
    /// Whether the service is gone.
    Gone(bool),
    /// The moment is over.
    Paused,
}

/// What follows an action that ended in an event. An event that does not answer the action
/// leaves it pending.
pub open spec fn delete_next(
    service_name: Seq<char>,
    last: DeleteView,
    event: DeleteEvent,
) -> DeleteView {
    match (last, event) {
        (DeleteView::AskToDelete, DeleteEvent::Exited { success, code }) => if success {
            DeleteView::ReadClock
        } else {
            DeleteView::Fail(delete_text(service_name, code))
        },
        (DeleteView::ReadClock, DeleteEvent::Elapsed(millis)) => if millis < FORCED_STOP_MILLIS {
            DeleteView::CheckService
        } else {
            DeleteView::Fail(still_present_text(service_name))
        },
        (DeleteView::CheckService, DeleteEvent::Gone(gone)) => if gone {
            DeleteView::Finish
        } else {
            DeleteView::Pause
        },
        (DeleteView::Pause, DeleteEvent::Paused) => DeleteView::ReadClock,
        _ => last,
    }
}

/// What follows an action that ended in an event.
pub fn next_delete_action(service_name: &str, last: DeleteAction, event: DeleteEvent) -> (next:
    DeleteAction)
    ensures
        next@ == delete_next(service_name@, last@, event),
{
    match (&last, event) {
        (DeleteAction::AskToDelete, DeleteEvent::Exited { success, code }) => {
            if success {
                DeleteAction::ReadClock
            } else {
                DeleteAction::Fail(delete_failure(service_name, code))
            }
        },
        (DeleteAction::ReadClock, DeleteEvent::Elapsed(millis)) => {
            if millis < FORCED_STOP_MILLIS {
                DeleteAction::CheckService
            } else {
                DeleteAction::Fail(still_present(service_name))
            }
        },
        (DeleteAction::CheckService, DeleteEvent::Gone(gone)) => {
            if gone {
                DeleteAction::Finish
            } else {
                DeleteAction::Pause
            }
        },
        (DeleteAction::Pause, DeleteEvent::Paused) => DeleteAction::ReadClock,
        _ => last,
    }
}

/// A step of installing an update. A step that fails is the last one.
#[derive(Debug, PartialEq, Eq)]
pub enum InstallStep {
    Say(String),
    Download,
    WaitForExit(u32),
    StopService,
    RunInstaller,
    RestartApp,
}

/// The model of a step of installing an update.
pub enum StepView {
    Say(Seq<char>),
    Download,
    WaitForExit(u32),
    StopService,
    RunInstaller,
    RestartApp,
}

impl View for InstallStep {
    type V = StepView;

    open spec fn view(&self) -> StepView {
        match self {
            InstallStep::Say(line) => StepView::Say(line@),
            InstallStep::Download => StepView::Download,
            InstallStep::WaitForExit(pid) => StepView::WaitForExit(*pid),
            InstallStep::StopService => StepView::StopService,
            InstallStep::RunInstaller => StepView::RunInstaller,
            InstallStep::RestartApp => StepView::RestartApp,
        }
    }
}

/// The steps that wait for the program to end, if it is running.
pub open spec fn exit_steps(wait_pid: Option<u32>) -> Seq<StepView> {
    match wait_pid {
        Some(pid) => seq![
            StepView::Say("Waiting for tasktui-app.exe to exit..."@),
            StepView::WaitForExit(pid),
        ],
        None => Seq::empty(),
    }
}

/// The steps that start the program again, if it is to be.
pub open spec fn restart_steps(restart_app: bool) -> Seq<StepView> {
    if restart_app {
        seq![StepView::Say("Restarting Task Killer..."@), StepView::RestartApp]
    } else {
        Seq::empty()
    }
}

/// The steps of installing an update.
pub open spec fn steps_of(
    check: UpdateCheck,
    wait_pid: Option<u32>,
    restart_app: bool,
    service_name: Seq<char>,
) -> Seq<StepView> {
    match check {
        UpdateCheck::UpToDate { .. } => seq![StepView::Say(check_text(check))],
        UpdateCheck::UpdateAvailable { release, .. } => {
            let version = version_text(release.version@);
            seq![
                StepView::Say("Downloading Task Killer "@ + version + "..."@),
                StepView::Download,
            ] + exit_steps(wait_pid) + seq![
                StepView::Say("Stopping service "@ + service_name + "..."@),
                StepView::StopService,
                StepView::Say("Launching MSI installer..."@),
                StepView::RunInstaller,
            ] + restart_steps(restart_app) + seq![
                StepView::Say("Update to "@ + version + " completed."@),
            ]
        },
    }
}

/// A text between two others.
fn between(beginning: &str, value: &str, ending: &str) -> (text: String)
    ensures
        text@ == beginning@ + value@ + ending@,
{
    let mut text = labelled(beginning, value);
    text.append(ending);
    text
}

/// The steps of installing an update.
pub fn install_steps(
    check: &UpdateCheck,
    wait_pid: Option<u32>,
    restart_app: bool,
    service_name: &str,
) -> (steps: Vec<InstallStep>)
    ensures
        views(steps@) == steps_of(*check, wait_pid, restart_app, service_name@),
{
    let ghost wanted = steps_of(*check, wait_pid, restart_app, service_name@);
    let release = match check {
        UpdateCheck::UpToDate { .. } => {
            let steps = vec![InstallStep::Say(check_line(check))];
            assert(views(steps@) =~= wanted);
            return steps;
        },
        UpdateCheck::UpdateAvailable { release, .. } => release,
    };
    let version = release.version.to_text();
    let mut steps: Vec<InstallStep> = Vec::new();
    steps.push(InstallStep::Say(between("Downloading Task Killer ", version.as_str(), "...")));
    steps.push(InstallStep::Download);
    if let Some(pid) = wait_pid {
        steps.push(InstallStep::Say("Waiting for tasktui-app.exe to exit...".to_string()));
        steps.push(InstallStep::WaitForExit(pid));
    }
    steps.push(InstallStep::Say(between("Stopping service ", service_name, "...")));
    steps.push(InstallStep::StopService);
    steps.push(InstallStep::Say("Launching MSI installer...".to_string()));
    steps.push(InstallStep::RunInstaller);
    if restart_app {
        steps.push(InstallStep::Say("Restarting Task Killer...".to_string()));
        steps.push(InstallStep::RestartApp);
    }
    steps.push(InstallStep::Say(between("Update to ", version.as_str(), " completed.")));
    assert(views(steps@) =~= wanted);
    steps
}

/// The message for an installer that failed, with the place of its log.
pub fn installer_failure(code: Option<i32>, log: &str) -> (text: String)
    ensures
        text@ == "msiexec failed with status "@ + exit_code_text(code) + " (log: "@ + log@ + ")"@,
{
    let exit_code = exit_code_label(code);
    let mut text = labelled("msiexec failed with status ", exit_code.as_str());
    text.append(" (log: ");
    text.append(log);
    text.append(")");
    text
}

/// The message for an uninstaller that failed.
pub fn uninstall_failure(code: Option<i32>) -> (text: String)
    ensures
        text@ == "uninstall command exited with status "@ + exit_code_text(code),
{
    let exit_code = exit_code_label(code);
    labelled("uninstall command exited with status ", exit_code.as_str())
}

/// The message for a program that could not be started again with more rights: the shell
/// answers with a number of at most 32.
pub fn relaunch_failure(program: &str, code: u64) -> (message: Option<String>)
    ensures
        text_option(message) == (if code <= 32 {
            Some(
                "failed to relaunch "@ + program@ + " with elevation (ShellExecuteW code "@
                    + decimal(code as nat) + ")"@,
            )
        } else {
            None
        }),
{
    if code > 32 {
        return None;
    }
    let number = decimal_text(code);
    let mut text = labelled("failed to relaunch ", program);
    text.append(" with elevation (ShellExecuteW code ");
    text.append(number.as_str());
    text.append(")");
    Some(text)
}

/// The arguments with which the program starts the updater, behind the word `install`.
pub open spec fn updater_words(
    version: Seq<char>,
    pid: u32,
    app_path: Seq<char>,
) -> Seq<Seq<char>> {
    seq![
        "--current-version"@,
        version,
        "--wait-pid"@,
        decimal(pid as nat),
        "--restart-app-path"@,
        app_path,
        "--service-name"@,
        DEFAULT_SERVICE_NAME@,
    ]
}

/// The arguments with which the program starts the updater, behind the word `install`.
pub fn updater_arguments(version: &Version, pid: u32, app_path: &str) -> (args: Vec<String>)
    ensures
        views(args@) == updater_words(version_text(version@), pid, app_path@),
{
    let args = vec![
        "--current-version".to_string(),
        version.to_text(),
        "--wait-pid".to_string(),
        decimal_text(pid as u64),
        "--restart-app-path".to_string(),
        app_path.to_string(),
        "--service-name".to_string(),
        DEFAULT_SERVICE_NAME.to_string(),
    ];
    assert(views(args@) =~= updater_words(version_text(version@), pid, app_path@));
    args
}

/// A service counts as stopped only if it stopped when asked, or if a look at it found no
/// process.
pub proof fn stopping_ends_when_gone(service_name: Seq<char>, last: StopView, event: StopEvent)
    requires
        !(last is Finish),
        stop_next(service_name, last, event) is Finish,
    ensures
        (last is AskToStop && event == StopEvent::Asked(true)) || (last is CheckProcess && event
            == StopEvent::Process(None)),
{
}

/// Only the process that was found to be the service's is killed, and only after the service
/// did not stop when asked.
pub proof fn only_the_service_is_killed(
    service_name: Seq<char>,
    before: StopView,
    asked: StopEvent,
    found: StopEvent,
)
    requires
        !(before is FindProcess),
        !(before is Kill),
        stop_next(service_name, stop_next(service_name, before, asked), found) is Kill,
    ensures
        before is AskToStop,
        asked == StopEvent::Asked(false),
        stop_next(service_name, stop_next(service_name, before, asked), found) matches
            StopView::Kill(pid) && found == StopEvent::Process(Some(pid)),
{
}

/// No service is watched longer than the time for it.
pub proof fn watching_ends(service_name: Seq<char>, millis: u64)
    requires
        millis >= FORCED_STOP_MILLIS,
    ensures
        stop_next(service_name, StopView::ReadClock, StopEvent::Elapsed(millis)) is Fail,
        delete_next(service_name, DeleteView::ReadClock, DeleteEvent::Elapsed(millis)) is Fail,
{
}

/// A service counts as deleted only if a look at it found it gone.
pub proof fn deleting_ends_when_gone(
    service_name: Seq<char>,
    last: DeleteView,
    event: DeleteEvent,
)
    requires
        !(last is Finish),
        delete_next(service_name, last, event) is Finish,
    ensures
        last is CheckService,
        event == DeleteEvent::Gone(true),
{
}

/// The installer runs only for a newer release, once, after the release was downloaded and
/// after the service was stopped.
pub proof fn installer_runs_last(
    check: UpdateCheck,
    wait_pid: Option<u32>,
    restart_app: bool,
    service_name: Seq<char>,
    place: int,
)
    requires
        0 <= place < steps_of(check, wait_pid, restart_app, service_name).len(),
        steps_of(check, wait_pid, restart_app, service_name)[place] is RunInstaller,
    ensures
        check is UpdateAvailable,
        exists|i: int, j: int|
            0 <= i < j < place && #[trigger] steps_of(
                check,
                wait_pid,
                restart_app,
                service_name,
            )[i] is Download && #[trigger] steps_of(
                check,
                wait_pid,
                restart_app,
                service_name,
            )[j] is StopService,
        forall|k: int|
            0 <= k < steps_of(check, wait_pid, restart_app, service_name).len()
                && #[trigger] steps_of(check, wait_pid, restart_app, service_name)[k]
                is RunInstaller ==> k == place,
{
    let steps = steps_of(check, wait_pid, restart_app, service_name);
    let waited: int = exit_steps(wait_pid).len() as int;
    assert(waited == 0 || waited == 2);
    assert(check is UpdateAvailable);
    assert(steps[1] is Download);
    assert(steps[waited + 3] is StopService);
    assert(forall|k: int|
        0 <= k < steps.len() && #[trigger] steps[k] is RunInstaller ==> k == waited + 5);
}

/// The updater understands the arguments with which the program starts it, for a version that
/// reads back from its text.
pub proof fn updater_understands_the_program(
    version: (u64, u64, u64, Seq<char>, Seq<char>),
    pid: u32,
    app_path: Seq<char>,
    flags: FlagsView,
)
    requires
        semver_parsed(version_text(version)) == Ok::<_, Seq<char>>(version),
    ensures
        flags_from(updater_words(version_text(version), pid, app_path), 0, flags)
            == FlagsOutcome::Read(
            FlagsView {
                current_version: version,
                wait_pid: Some(pid),
                restart_app_path: Some(5),
                service_name: DEFAULT_SERVICE_NAME@,
            },
        ),
{
    reveal_with_fuel(flags_from, 6);
    reveal_strlit("--current-version");
    reveal_strlit("--wait-pid");
    reveal_strlit("--restart-app-path");
    reveal_strlit("--service-name");
    assert("--current-version"@.len() == 17);
    assert("--wait-pid"@.len() == 10);
    assert("--restart-app-path"@.len() == 18);
    assert("--service-name"@.len() == 14);
    parse_reads_what_decimal_writes(pid);
}

/// A service that is to be stopped is asked to first. If it does not stop, its process is looked for
/// and killed, if it has one, and then it is watched until it has no process or the ten seconds
/// for it are up. A kill that fails, and a watch that is up, give the stop up. What does not
/// answer the pending action changes nothing.
pub proof fn stops_go_step_by_step(
    name: Seq<char>,
    pid: u32,
    code: Option<i32>,
    millis: u64,
    last: StopView,
    event: StopEvent,
)
    ensures
        stop_next(name, StopView::AskToStop, StopEvent::Asked(true)) == StopView::Finish,
        stop_next(name, StopView::AskToStop, StopEvent::Asked(false)) == StopView::FindProcess,
        stop_next(name, StopView::FindProcess, StopEvent::Process(Some(pid))) == StopView::Kill(
            pid,
        ),
        stop_next(name, StopView::FindProcess, StopEvent::Process(None)) == StopView::ReadClock,
        stop_next(name, StopView::Kill(pid), StopEvent::Exited { success: true, code })
            == StopView::ReadClock,
        stop_next(name, StopView::Kill(pid), StopEvent::Exited { success: false, code })
            == StopView::Fail(
            "failed to force-stop "@ + name + " (PID "@ + decimal(pid as nat)
                + "), taskkill exited with "@ + exit_code_text(code),
        ),
        millis < 10000 ==> stop_next(name, StopView::ReadClock, StopEvent::Elapsed(millis))
            == StopView::CheckProcess,
        millis >= 10000 ==> stop_next(name, StopView::ReadClock, StopEvent::Elapsed(millis))
            == StopView::Fail("service "@ + name + " is still running after forced stop"@),
        stop_next(name, StopView::CheckProcess, StopEvent::Process(Some(pid))) == StopView::Pause,
        stop_next(name, StopView::CheckProcess, StopEvent::Process(None)) == StopView::Finish,
        stop_next(name, StopView::Pause, StopEvent::Paused) == StopView::ReadClock,
        !(match last {
            StopView::AskToStop => event is Asked,
            StopView::FindProcess => event is Process,
            StopView::Kill(_) => event is Exited,
            StopView::ReadClock => event is Elapsed,
            StopView::CheckProcess => event is Process,
            StopView::Pause => event is Paused,
            _ => false,
        }) ==> stop_next(name, last, event) == last,
{
}

/// A service that is to be deleted is asked for, and then watched until it is gone or the ten
/// seconds for it are up. A deletion that fails, and a watch that is up, give it up. What does
/// not answer the pending action changes nothing.
pub proof fn deletions_go_step_by_step(
    name: Seq<char>,
    code: Option<i32>,
    millis: u64,
    last: DeleteView,
    event: DeleteEvent,
)
    ensures
        delete_next(name, DeleteView::AskToDelete, DeleteEvent::Exited { success: true, code })
            == DeleteView::ReadClock,
        delete_next(name, DeleteView::AskToDelete, DeleteEvent::Exited { success: false, code })
            == DeleteView::Fail(
            "failed to delete "@ + name + ", sc.exe exited with "@ + exit_code_text(code),
        ),
        millis < 10000 ==> delete_next(name, DeleteView::ReadClock, DeleteEvent::Elapsed(millis))
            == DeleteView::CheckService,
        millis >= 10000 ==> delete_next(name, DeleteView::ReadClock, DeleteEvent::Elapsed(millis))
            == DeleteView::Fail("service "@ + name + " is still present after delete"@),
        delete_next(name, DeleteView::CheckService, DeleteEvent::Gone(true)) == DeleteView::Finish,
        delete_next(name, DeleteView::CheckService, DeleteEvent::Gone(false)) == DeleteView::Pause,
        delete_next(name, DeleteView::Pause, DeleteEvent::Paused) == DeleteView::ReadClock,
        !(match last {
            DeleteView::AskToDelete => event is Exited,
            DeleteView::ReadClock => event is Elapsed,
            DeleteView::CheckService => event is Gone,
            DeleteView::Pause => event is Paused,
            _ => false,
        }) ==> delete_next(name, last, event) == last,
{
}

/// An exit code is told as a number, with a minus sign if it is negative, and as unknown if there is
/// none. A wait for a process that did not end is told with its number.
pub proof fn exits_are_told(code: i32, result: u32, pid: u32)
    ensures
        exit_code_text(None) == "unknown"@,
        code >= 0 ==> exit_code_text(Some(code)) == decimal(code as nat),
        code < 0 ==> exit_code_text(Some(code)) == seq!['-'] + decimal((-code) as nat),
        wait_failure_text(0, pid) is None,
        wait_failure_text(258, pid) == Some(
            "timed out waiting for process "@ + decimal(pid as nat) + " to exit"@,
        ),
        result != 0 && result != 258 ==> wait_failure_text(result, pid) == Some(
            "WaitForSingleObject returned "@ + decimal(result as nat) + " for process "@ + decimal(
                pid as nat,
            ),
        ),
{
    reveal_strlit("-");
    assert("-"@ =~= seq!['-']);
}

/// An update is downloaded, the running program is waited for, the service is stopped, the installer
/// is run, and the program is started again, in this order, each as far as it was asked for, and
/// each announced before it is done. If the program is up to date, only that is told.
pub proof fn updates_are_installed_in_order(
    check: UpdateCheck,
    pid: u32,
    service_name: Seq<char>,
)
    ensures
        check is UpToDate ==> steps_of(check, Some(pid), true, service_name) == seq![
            StepView::Say(check_text(check)),
        ] && steps_of(check, None, false, service_name) == seq![StepView::Say(check_text(check))],
        check matches UpdateCheck::UpdateAvailable { release, .. } ==> {
            let version = version_text(release.version@);
            let first = StepView::Say("Downloading Task Killer "@ + version + "..."@);
            let waiting = StepView::Say("Waiting for tasktui-app.exe to exit..."@);
            let stopping = StepView::Say("Stopping service "@ + service_name + "..."@);
            let launching = StepView::Say("Launching MSI installer..."@);
            let restarting = StepView::Say("Restarting Task Killer..."@);
            let done = StepView::Say("Update to "@ + version + " completed."@);
            &&& steps_of(check, Some(pid), true, service_name) == seq![
                first,
                StepView::Download,
                waiting,
                StepView::WaitForExit(pid),
                stopping,
                StepView::StopService,
                launching,
                StepView::RunInstaller,
                restarting,
                StepView::RestartApp,
                done,
            ]
            &&& steps_of(check, Some(pid), false, service_name) == seq![
                first,
                StepView::Download,
                waiting,
                StepView::WaitForExit(pid),
                stopping,
                StepView::StopService,
                launching,
                StepView::RunInstaller,
                done,
            ]
            &&& steps_of(check, None, true, service_name) == seq![
                first,
                StepView::Download,
                stopping,
                StepView::StopService,
                launching,
                StepView::RunInstaller,
                restarting,
                StepView::RestartApp,
                done,
            ]
            &&& steps_of(check, None, false, service_name) == seq![
                first,
                StepView::Download,
                stopping,
                StepView::StopService,
                launching,
                StepView::RunInstaller,
                done,
            ]
        },
{
}

/// The program tells the updater its version, its own number, its path, and the service.
pub proof fn the_program_tells_the_updater(version: Seq<char>, pid: u32, app_path: Seq<char>)
    ensures
        updater_words(version, pid, app_path) == seq![
            "--current-version"@,
            version,
            "--wait-pid"@,
            decimal(pid as nat),
            "--restart-app-path"@,
            app_path,
            "--service-name"@,
            "tasktui-service"@,
        ],
{
}

/// The steps of stopping, deleting, and installing are known as what they are.
pub proof fn step_models_show_what_is_held(stop: StopAction, delete: DeleteAction, step: InstallStep)
    ensures
        match stop {
            StopAction::AskToStop => stop@ is AskToStop,
            StopAction::FindProcess => stop@ is FindProcess,
            StopAction::Kill(pid) => stop@ == StopView::Kill(pid),
            StopAction::ReadClock => stop@ is ReadClock,
            StopAction::CheckProcess => stop@ is CheckProcess,
            StopAction::Pause => stop@ is Pause,
            StopAction::Finish => stop@ is Finish,
            StopAction::Fail(message) => stop@ == StopView::Fail(message@),
        },
        match delete {
            DeleteAction::AskToDelete => delete@ is AskToDelete,
            DeleteAction::ReadClock => delete@ is ReadClock,
            DeleteAction::CheckService => delete@ is CheckService,
            DeleteAction::Pause => delete@ is Pause,
            DeleteAction::Finish => delete@ is Finish,
            DeleteAction::Fail(message) => delete@ == DeleteView::Fail(message@),
        },
        match step {
            InstallStep::Say(line) => step@ == StepView::Say(line@),
            InstallStep::Download => step@ is Download,
            InstallStep::WaitForExit(pid) => step@ == StepView::WaitForExit(pid),
            InstallStep::StopService => step@ is StopService,
            InstallStep::RunInstaller => step@ is RunInstaller,
            InstallStep::RestartApp => step@ is RestartApp,
        },
{
}

/// A wait for a process tells by zero that it ended, and by 258 that the time was up, which is thirty
/// seconds.
pub proof fn exit_waits_tell_by_code(result: u32, verdict: Option<WaitVerdict>)
    requires
        call_ensures(exit_wait, (result,), verdict),
    ensures
        verdict == Some(WaitVerdict::Reached) <==> result == 0,
        verdict == Some(WaitVerdict::TimedOut) <==> result == 258,
        verdict is None <==> result != 0 && result != 258,
        APP_EXIT_MILLIS == 30000,
{
}

} // verus!
