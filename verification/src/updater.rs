//! The updater and the uninstaller: their command lines, and what they decide on the way.

use crate::messages::labelled;
use crate::release::{
    parse_semver, semver_parsed, version_text, UpdateCheck, Version,
    DEFAULT_SERVICE_NAME,
};
use crate::rows::text_option;
use crate::sorting::views;
use crate::text::{
    char_views, from_chars, parse_u32, parsed_u32, pieces, same_text, split_chars, strip_prefix,
    to_chars, trim_chars, trimmed, without_prefix, Cut,
};
use vstd::prelude::*;

verus! {

/// What the updater is asked to do.
#[derive(Debug, PartialEq, Eq)]
pub enum UpdaterCommand {
    Help,
    Check { current_version: Version },
    Install {
        current_version: Version,
        wait_pid: Option<u32>,
        /// The place of the path of the program to restart among the arguments.
        restart_app_path: Option<usize>,
        service_name: String,
    },
}

/// What can be wrong with the updater's command line.
#[derive(Debug, PartialEq, Eq)]
pub enum UpdaterError {
    MissingValue(String),
    /// A text is no version, for the given reason.
    BadVersion { text: String, reason: String },
    BadPid(String),
    UnknownArgument(String),
    UnknownCommand(String),
}

/// The model of what can be wrong with the updater's command line.
pub enum UpdaterErrorView {
    MissingValue(Seq<char>),
    BadVersion(Seq<char>, Seq<char>),
    BadPid(Seq<char>),
    UnknownArgument(Seq<char>),
    UnknownCommand(Seq<char>),
}

impl View for UpdaterError {
    type V = UpdaterErrorView;

    open spec fn view(&self) -> UpdaterErrorView {
        match self {
            UpdaterError::MissingValue(flag) => UpdaterErrorView::MissingValue(flag@),
            UpdaterError::BadVersion { text, reason } => {
                UpdaterErrorView::BadVersion(text@, reason@)
            },
            UpdaterError::BadPid(text) => UpdaterErrorView::BadPid(text@),
            UpdaterError::UnknownArgument(text) => UpdaterErrorView::UnknownArgument(text@),
            UpdaterError::UnknownCommand(text) => UpdaterErrorView::UnknownCommand(text@),
        }
    }
}

impl UpdaterError {
    /// The sentence that tells the user of the error.
    pub open spec fn sentence(self) -> Seq<char> {
        match self {
            UpdaterError::MissingValue(flag) => "missing value for "@ + flag@,
            UpdaterError::BadVersion { reason, .. } => "parse --current-version as semver: "@
                + reason@,
            UpdaterError::BadPid(_) => "parse --wait-pid as u32"@,
            UpdaterError::UnknownArgument(text) => "unknown argument: "@ + text@,
            UpdaterError::UnknownCommand(text) => "unknown updater command: "@ + text@,
        }
    }

    /// The sentence that tells the user of the error.
    pub fn message(&self) -> (text: String)
        ensures
            text@ == self.sentence(),
    {
        match self {
            UpdaterError::MissingValue(flag) => labelled("missing value for ", flag.as_str()),
            UpdaterError::BadVersion { reason, .. } => {
                labelled("parse --current-version as semver: ", reason.as_str())
            },
            UpdaterError::BadPid(_) => "parse --wait-pid as u32".to_string(),
            UpdaterError::UnknownArgument(text) => labelled("unknown argument: ", text.as_str()),
            UpdaterError::UnknownCommand(text) => {
                labelled("unknown updater command: ", text.as_str())
            },
        }
    }
}

/// What the flags of the updater set.
pub struct FlagsView {
    pub current_version: (u64, u64, u64, Seq<char>, Seq<char>),
    pub wait_pid: Option<u32>,
    pub restart_app_path: Option<int>,
    pub service_name: Seq<char>,
}

/// What reading the flags of the updater leads to.
pub enum FlagsOutcome {
    Read(FlagsView),
    Help,
    Refused(UpdaterErrorView),
}

/// What reading the arguments from a place on leads to, given what the flags before it set.
pub open spec fn flags_from(args: Seq<Seq<char>>, at: int, flags: FlagsView) -> FlagsOutcome
    decreases args.len() - at,
{
    if at < 0 || at >= args.len() {
        FlagsOutcome::Read(flags)
    } else {
        let flag = args[at];
        let has_value = at + 1 < args.len();
        let value = args[at + 1];
        if flag == "--current-version"@ {
            if !has_value {
                FlagsOutcome::Refused(UpdaterErrorView::MissingValue(flag))
            } else {
                match semver_parsed(value) {
                    Ok(current_version) => flags_from(
                        args,
                        at + 2,
                        FlagsView { current_version, ..flags },
                    ),
                    Err(reason) => FlagsOutcome::Refused(
                        UpdaterErrorView::BadVersion(value, reason),
                    ),
                }
            }
        } else if flag == "--wait-pid"@ {
            if !has_value {
                FlagsOutcome::Refused(UpdaterErrorView::MissingValue(flag))
            } else {
                match parsed_u32(value) {
                    Some(pid) => flags_from(
                        args,
                        at + 2,
                        FlagsView { wait_pid: Some(pid), ..flags },
                    ),
                    None => FlagsOutcome::Refused(UpdaterErrorView::BadPid(value)),
                }
            }
        } else if flag == "--restart-app-path"@ {
            if !has_value {
                FlagsOutcome::Refused(UpdaterErrorView::MissingValue(flag))
            } else {
                flags_from(args, at + 2, FlagsView { restart_app_path: Some(at + 1), ..flags })
            }
        } else if flag == "--service-name"@ {
            if !has_value {
                FlagsOutcome::Refused(UpdaterErrorView::MissingValue(flag))
            } else {
                flags_from(args, at + 2, FlagsView { service_name: value, ..flags })
            }
        } else if flag == "--help"@ || flag == "-h"@ {
            FlagsOutcome::Help
        } else {
            FlagsOutcome::Refused(UpdaterErrorView::UnknownArgument(flag))
        }
    }
}

/// The command of the updater: without one it installs.
pub open spec fn command_word(first: Option<Seq<char>>) -> Seq<char> {
    match first {
        Some(word) => word,
        None => "install"@,
    }
}

/// Whether the updater was asked for what its flags say.
pub open spec fn is_updater_command(
    r: Result<UpdaterCommand, UpdaterError>,
    word: Seq<char>,
    outcome: FlagsOutcome,
) -> bool {
    match outcome {
        FlagsOutcome::Refused(wanted) => r matches Err(error) && error@ == wanted,
        FlagsOutcome::Help => r matches Ok(command) && command is Help,
        FlagsOutcome::Read(flags) => if word == "check"@ {
            r matches Ok(UpdaterCommand::Check { current_version }) && current_version@
                == flags.current_version
        } else if word == "install"@ {
            r matches Ok(
                UpdaterCommand::Install {
                    current_version,
                    wait_pid,
                    restart_app_path,
                    service_name,
                },
            ) && current_version@ == flags.current_version && wait_pid == flags.wait_pid && (
            match (restart_app_path, flags.restart_app_path) {
                (Some(place), Some(wanted)) => place as int == wanted,
                (None, None) => true,
                _ => false,
            }) && service_name@ == flags.service_name
        } else {
            r matches Err(error) && error@ == UpdaterErrorView::UnknownCommand(word)
        },
    }
}

/// Reads the updater's command line: its first argument, if it is text, and the ones behind
/// it.
pub fn parse_command(first: &Option<String>, rest: &Vec<String>, version: &Version) -> (r: Result<
    UpdaterCommand,
    UpdaterError,
>)
    ensures
        is_updater_command(
            r,
            command_word(text_option(*first)),
            flags_from(
                views(rest@),
                0,
                FlagsView {
                    current_version: version@,
                    wait_pid: None,
                    restart_app_path: None,
                    service_name: DEFAULT_SERVICE_NAME@,
                },
            ),
        ),
{
    let ghost args = views(rest@);
    let ghost start = FlagsView {
        current_version: version@,
        wait_pid: None,
        restart_app_path: None,
        service_name: DEFAULT_SERVICE_NAME@,
    };
    let mut current_version: Version = version.clone();
    let mut wait_pid: Option<u32> = None;
    let mut restart_app_path: Option<usize> = None;
    let mut service_name: String = DEFAULT_SERVICE_NAME.to_string();
    let mut i: usize = 0;
    while i < rest.len()
        invariant
            i <= rest.len(),
            args == views(rest@),
            flags_from(args, 0, start) == flags_from(
                args,
                i as int,
                FlagsView {
                    current_version: current_version@,
                    wait_pid,
                    restart_app_path: match restart_app_path {
                        Some(place) => Some(place as int),
                        None => None,
                    },
                    service_name: service_name@,
                },
            ),
            start == (FlagsView {
                current_version: version@,
                wait_pid: None,
                restart_app_path: None,
                service_name: DEFAULT_SERVICE_NAME@,
            }),
        decreases rest.len() - i,
    {
        let flag = rest[i].as_str();
        assert(args[i as int] == flag@);
        let takes_value = same_text(flag, "--current-version") || same_text(flag, "--wait-pid")
            || same_text(flag, "--restart-app-path") || same_text(flag, "--service-name");
        if !takes_value {
            if same_text(flag, "--help") || same_text(flag, "-h") {
                return Ok(UpdaterCommand::Help);
            }
            return Err(UpdaterError::UnknownArgument(flag.to_string()));
        }
        if i + 1 >= rest.len() {
            return Err(UpdaterError::MissingValue(flag.to_string()));
        }
        let value = rest[i + 1].as_str();
        assert(args[i + 1] == value@);
        if same_text(flag, "--current-version") {
            match parse_semver(value) {
                Ok(parsed) => {
                    current_version = parsed;
                },
                Err(reason) => {
                    return Err(UpdaterError::BadVersion { text: value.to_string(), reason });
                },
            }
        } else if same_text(flag, "--wait-pid") {
            match parse_u32(value) {
                Some(pid) => {
                    wait_pid = Some(pid);
                },
                None => {
                    return Err(UpdaterError::BadPid(value.to_string()));
                },
            }
        } else if same_text(flag, "--restart-app-path") {
            restart_app_path = Some(i + 1);
        } else {
            service_name = value.to_string();
        }
        i = i + 2;
    }
    let word = match first {
        Some(text) => text.clone(),
        None => "install".to_string(),
    };
    proof {
        reveal_strlit("check");
        reveal_strlit("install");
        assert("check"@.len() != "install"@.len());
    }
    if same_text(word.as_str(), "check") {
        Ok(UpdaterCommand::Check { current_version })
    } else if same_text(word.as_str(), "install") {
        Ok(
            UpdaterCommand::Install { current_version, wait_pid, restart_app_path, service_name },
        )
    } else {
        Err(UpdaterError::UnknownCommand(word))
    }
}

/// The line of the update check.
pub open spec fn check_text(check: UpdateCheck) -> Seq<char> {
    match check {
        UpdateCheck::UpToDate { current } => "Task Killer "@ + version_text(current@)
            + " is already up to date."@,
        UpdateCheck::UpdateAvailable { current, release } => "Update available: "@ + version_text(
            current@,
        ) + " -> "@ + version_text(release.version@) + " ("@ + release.msi_asset_name@ + ")"@,
    }
}

/// The line of the update check.
pub fn check_line(check: &UpdateCheck) -> (line: String)
    ensures
        line@ == check_text(*check),
{
    match check {
        UpdateCheck::UpToDate { current } => {
            let version = current.to_text();
            let mut line = labelled("Task Killer ", version.as_str());
            line.append(" is already up to date.");
            line
        },
        UpdateCheck::UpdateAvailable { current, release } => {
            let old_version = current.to_text();
            let new_version = release.version.to_text();
            let mut line = labelled("Update available: ", old_version.as_str());
            line.append(" -> ");
            line.append(new_version.as_str());
            line.append(" (");
            line.append(release.msi_asset_name.as_str());
            line.append(")");
            line
        },
    }
}

/// An argument as a Windows command line takes it: quoted if it is empty or holds a space, a
/// tab, or a quote, and with a backslash before each quote.
pub open spec fn quoted(text: Seq<char>) -> Seq<char> {
    if text.len() == 0 {
        "\"\""@
    } else if needs_quotes(text) {
        "\""@ + escaped(text) + "\""@
    } else {
        text
    }
}

/// Whether an argument holds a space, a tab, or a quote.
pub open spec fn needs_quotes(text: Seq<char>) -> bool {
    exists|i: int|
        0 <= i < text.len() && (#[trigger] text[i] == ' ' || text[i] == '\t' || text[i] == '"')
}

/// A text with a backslash before each quote.
pub open spec fn escaped(text: Seq<char>) -> Seq<char>
    decreases text.len(),
{
    if text.len() == 0 {
        text
    } else if text.last() == '"' {
        escaped(text.drop_last()).push('\\').push('"')
    } else {
        escaped(text.drop_last()).push(text.last())
    }
}

/// An argument as a Windows command line takes it.
pub fn quote_windows_arg(value: &str) -> (text: String)
    ensures
        text@ == quoted(value@),
{
    let chars = to_chars(value);
    if chars.len() == 0 {
        return "\"\"".to_string();
    }
    let mut marked = false;
    let mut inner = String::new();
    let mut i: usize = 0;
    while i < chars.len()
        invariant
            i <= chars.len(),
            chars@ == value@,
            inner@ == escaped(value@.take(i as int)),
            marked == needs_quotes(value@.take(i as int)),
        decreases chars.len() - i,
    {
        let c: char = chars[i];
        let ghost before = value@.take(i as int);
        assert(value@.take(i + 1).drop_last() =~= before);
        assert(value@.take(i + 1).last() == c);
        proof {
            let now = value@.take(i + 1);
            if needs_quotes(before) {
                let k = choose|k: int|
                    0 <= k < before.len() && (#[trigger] before[k] == ' ' || before[k] == '\t'
                        || before[k] == '"');
                assert(now[k] == before[k]);
            }
            if c == ' ' || c == '\t' || c == '"' {
                assert(now[i as int] == c);
            }
            if needs_quotes(now) && !(c == ' ' || c == '\t' || c == '"') {
                let k = choose|k: int|
                    0 <= k < now.len() && (#[trigger] now[k] == ' ' || now[k] == '\t' || now[k]
                        == '"');
                assert(before[k] == now[k]);
            }
        }
        if c == ' ' || c == '\t' || c == '"' {
            marked = true;
        }
        if c == '"' {
            inner.push('\\');
        }
        inner.push(c);
        i = i + 1;
    }
    assert(value@.take(i as int) =~= value@);
    if !marked {
        return value.to_string();
    }
    let mut text = labelled("\"", inner.as_str());
    text.append("\"");
    text
}

/// Arguments joined into a Windows command line.
pub open spec fn joined_args(args: Seq<Seq<char>>) -> Seq<char>
    decreases args.len(),
{
    if args.len() == 0 {
        Seq::empty()
    } else if args.len() == 1 {
        quoted(args[0])
    } else {
        joined_args(args.drop_last()) + " "@ + quoted(args.last())
    }
}

/// Arguments joined into a Windows command line.
pub fn join_windows_args(args: &Vec<String>) -> (line: String)
    ensures
        line@ == joined_args(views(args@)),
{
    let ghost all = views(args@);
    let mut line = String::new();
    let mut i: usize = 0;
    while i < args.len()
        invariant
            i <= args.len(),
            all == views(args@),
            line@ == joined_args(all.take(i as int)),
        decreases args.len() - i,
    {
        let ghost now = all.take(i + 1);
        assert(now.drop_last() =~= all.take(i as int));
        assert(now.last() == args@[i as int]@);
        let argument = quote_windows_arg(args[i].as_str());
        if i == 0 {
            line = argument;
        } else {
            line.append(" ");
            line.append(argument.as_str());
        }
        i = i + 1;
    }
    assert(all.take(i as int) =~= all);
    line
}

/// The number behind the colon of a line about the process of a service.
pub open spec fn pid_in_line(rest: Seq<char>) -> Option<u32> {
    let parts = pieces(rest, Cut::At(':'));
    let value = if parts.len() > 1 {
        trimmed(parts[1])
    } else {
        Seq::empty()
    };
    match parsed_u32(value) {
        Some(pid) => if pid == 0 {
            None
        } else {
            Some(pid)
        },
        None => None,
    }
}

/// What follows the first `PID` that begins a line.
pub open spec fn pid_line(lines: Seq<Seq<char>>) -> Option<Seq<char>>
    decreases lines.len(),
{
    if lines.len() == 0 {
        None
    } else {
        match pid_line(lines.drop_last()) {
            Some(rest) => Some(rest),
            None => without_prefix(trimmed(lines.last()), "PID"@),
        }
    }
}

/// The process of a service in the output of the service query tool.
pub open spec fn service_pid(output: Seq<char>) -> Option<u32> {
    match pid_line(pieces(output, Cut::At('\n'))) {
        Some(rest) => pid_in_line(rest),
        None => None,
    }
}

/// A line about the process of a service, once found, stays the first one.
proof fn lemma_pid_line_stays(lines: Seq<Seq<char>>, count: int)
    requires
        0 <= count <= lines.len(),
        pid_line(lines.take(count)) is Some,
    ensures
        pid_line(lines) == pid_line(lines.take(count)),
    decreases lines.len(),
{
    if count < lines.len() {
        assert(lines.drop_last().take(count) =~= lines.take(count));
        lemma_pid_line_stays(lines.drop_last(), count);
    } else {
        assert(lines.take(count) =~= lines);
    }
}

/// The process of a service in the output of the service query tool; none if the tool failed.
pub fn query_service_pid(succeeded: bool, output: &str) -> (pid: Option<u32>)
    ensures
        pid == (if succeeded {
            service_pid(output@)
        } else {
            None
        }),
{
    if !succeeded {
        return None;
    }
    let chars = to_chars(output);
    let lines = split_chars(&chars, Cut::At('\n'));
    let ghost all = char_views(lines@);
    let mut i: usize = 0;
    while i < lines.len()
        invariant
            i <= lines.len(),
            all == char_views(lines@),
            all == pieces(output@, Cut::At('\n')),
            succeeded,
            pid_line(all.take(i as int)) is None,
        decreases lines.len() - i,
    {
        assert(all.take(i + 1).drop_last() =~= all.take(i as int));
        assert(all.take(i + 1).last() == lines@[i as int]@);
        let line = trim_chars(&lines[i]);
        if let Some(rest) = strip_prefix(&line, "PID") {
            proof {
                lemma_pid_line_stays(all, i + 1);
            }
            let parts = split_chars(&rest, Cut::At(':'));
            let value: Vec<char> = if parts.len() > 1 {
                assert(char_views(parts@)[1] == parts@[1]@);
                trim_chars(&parts[1])
            } else {
                Vec::new()
            };
            let text = from_chars(value.as_slice());
            return match parse_u32(text.as_str()) {
                Some(number) => {
                    if number == 0 {
                        None
                    } else {
                        Some(number)
                    }
                },
                None => None,
            };
        }
        i = i + 1;
    }
    assert(all.take(i as int) =~= all);
    None
}

/// The name under which the product is registered.
pub const PRODUCT_NAME: &'static str = "Task Killer";

/// What is registered of an installed product.
#[derive(Debug, PartialEq, Eq)]
pub struct UninstallEntry {
    pub display_name: Option<String>,
    pub quiet_uninstall: Option<String>,
    pub uninstall: Option<String>,
}

/// A command that is not blank.
pub open spec fn usable(command: Option<Seq<char>>) -> Option<Seq<char>> {
    match command {
        Some(text) => if trimmed(text).len() > 0 {
            Some(text)
        } else {
            None
        },
        None => None,
    }
}

/// The command that uninstalls the product by an entry: the quiet one first.
pub open spec fn entry_command(entry: UninstallEntry) -> Option<Seq<char>> {
    if text_option(entry.display_name) != Some(PRODUCT_NAME@) {
        None
    } else {
        match usable(text_option(entry.quiet_uninstall)) {
            Some(command) => Some(command),
            None => usable(text_option(entry.uninstall)),
        }
    }
}

/// The command of the first entry that has one.
pub open spec fn first_command(entries: Seq<UninstallEntry>) -> Option<Seq<char>>
    decreases entries.len(),
{
    if entries.len() == 0 {
        None
    } else {
        match first_command(entries.drop_last()) {
            Some(command) => Some(command),
            None => entry_command(entries.last()),
        }
    }
}

/// A command that is not blank.
fn usable_command(command: &Option<String>) -> (r: Option<String>)
    ensures
        text_option(r) == usable(text_option(*command)),
{
    match command {
        Some(text) => {
            let chars = to_chars(text.as_str());
            if trim_chars(&chars).len() > 0 {
                Some(text.clone())
            } else {
                None
            }
        },
        None => None,
    }
}

/// The command of the first entry, once found, stays the first one.
proof fn lemma_first_command_stays(entries: Seq<UninstallEntry>, count: int)
    requires
        0 <= count <= entries.len(),
        first_command(entries.take(count)) is Some,
    ensures
        first_command(entries) == first_command(entries.take(count)),
    decreases entries.len(),
{
    if count < entries.len() {
        assert(entries.drop_last().take(count) =~= entries.take(count));
        lemma_first_command_stays(entries.drop_last(), count);
    } else {
        assert(entries.take(count) =~= entries);
    }
}

/// The command that uninstalls the product, among the entries of a registry view.
pub fn find_uninstall_command_in_view(entries: &Vec<UninstallEntry>) -> (r: Option<String>)
    ensures
        text_option(r) == first_command(entries@),
{
    let mut i: usize = 0;
    while i < entries.len()
        invariant
            i <= entries.len(),
            first_command(entries@.take(i as int)) is None,
        decreases entries.len() - i,
    {
        let entry = &entries[i];
        assert(entries@.take(i + 1).drop_last() =~= entries@.take(i as int));
        assert(entries@.take(i + 1).last() == entries@[i as int]);
        let is_product = match &entry.display_name {
            Some(name) => same_text(name.as_str(), PRODUCT_NAME),
            None => false,
        };
        if is_product {
            if let Some(command) = usable_command(&entry.quiet_uninstall) {
                proof {
                    lemma_first_command_stays(entries@, i + 1);
                }
                return Some(command);
            }
            if let Some(command) = usable_command(&entry.uninstall) {
                proof {
                    lemma_first_command_stays(entries@, i + 1);
                }
                return Some(command);
            }
        }
        i = i + 1;
    }
    assert(entries@.take(i as int) =~= entries@);
    None
}

/// The message for a product that is not registered.
pub open spec fn not_registered() -> Seq<char> {
    "Task Killer uninstall information was not found in the registry"@
}

/// The command that uninstalls the product: from the first view that has one.
pub fn find_uninstall_command(first: &Vec<UninstallEntry>, second: &Vec<UninstallEntry>) -> (r:
    Result<String, String>)
    ensures
        match r {
            Ok(command) => (match first_command(first@) {
                Some(found) => Some(found),
                None => first_command(second@),
            }) == Some(command@),
            Err(message) => first_command(first@) is None && first_command(second@) is None
                && message@ == not_registered(),
        },
{
    match find_uninstall_command_in_view(first) {
        Some(command) => Ok(command),
        None => match find_uninstall_command_in_view(second) {
            Some(command) => Ok(command),
            None => Err(
                "Task Killer uninstall information was not found in the registry".to_string(),
            ),
        },
    }
}

/// The lines of help of the updater.
pub open spec fn updater_usage() -> Seq<Seq<char>> {
    seq![
        "Task Killer updater"@,
        ""@,
        "Commands:"@,
        "  check"@,
        "  install [--current-version <semver>] [--wait-pid <pid>] [--restart-app-path <path>] [--service-name <name>]"@,
    ]
}

/// The lines of help of the updater.
pub fn updater_usage_lines() -> (lines: Vec<String>)
    ensures
        views(lines@) == updater_usage(),
{
    let lines = vec![
        "Task Killer updater".to_string(),
        "".to_string(),
        "Commands:".to_string(),
        "  check".to_string(),
        "  install [--current-version <semver>] [--wait-pid <pid>] [--restart-app-path <path>] [--service-name <name>]".to_string(),
    ];
    assert(views(lines@) =~= updater_usage());
    lines
}

/// An argument that needs no quotes stands for itself; any other begins and ends with one.
pub proof fn quoting_shows(text: Seq<char>)
    ensures
        text.len() > 0 && !needs_quotes(text) ==> quoted(text) == text,
        text.len() == 0 || needs_quotes(text) ==> quoted(text).len() >= 2 && quoted(text)[0] == '"'
            && quoted(text).last() == '"',
{
    reveal_strlit("\"");
    reveal_strlit("\"\"");
}

/// A text with backslashes before its quotes tells which text it was made of.
proof fn lemma_escaped_tells_apart(a: Seq<char>, b: Seq<char>)
    requires
        escaped(a) == escaped(b),
    ensures
        a == b,
    decreases a.len(),
{
    lemma_escaped_len(a);
    lemma_escaped_len(b);
    if a.len() > 0 && b.len() > 0 {
        assert(escaped(a).last() == a.last());
        assert(escaped(b).last() == b.last());
        let (short_a, short_b) = (a.drop_last(), b.drop_last());
        if a.last() == '"' {
            assert(escaped(a).drop_last().drop_last() =~= escaped(short_a));
            assert(escaped(b).drop_last().drop_last() =~= escaped(short_b));
        } else {
            assert(escaped(a).drop_last() =~= escaped(short_a));
            assert(escaped(b).drop_last() =~= escaped(short_b));
        }
        lemma_escaped_tells_apart(short_a, short_b);
        assert(a =~= short_a.push(a.last()));
        assert(b =~= short_b.push(b.last()));
    } else {
        assert(a =~= b);
    }
}

/// Backslashes only make a text longer.
proof fn lemma_escaped_len(text: Seq<char>)
    ensures
        escaped(text).len() >= text.len(),
    decreases text.len(),
{
    if text.len() > 0 {
        lemma_escaped_len(text.drop_last());
    }
}

/// Two arguments that look the same on a Windows command line are the same.
pub proof fn quoting_tells_arguments_apart(a: Seq<char>, b: Seq<char>)
    requires
        quoted(a) == quoted(b),
    ensures
        a == b,
{
    quoting_shows(a);
    quoting_shows(b);
    reveal_strlit("\"");
    reveal_strlit("\"\"");
    lemma_escaped_len(a);
    lemma_escaped_len(b);
    if a.len() > 0 && needs_quotes(a) {
        assert(quoted(a).subrange(1, quoted(a).len() - 1) =~= escaped(a));
    }
    if b.len() > 0 && needs_quotes(b) {
        assert(quoted(b).subrange(1, quoted(b).len() - 1) =~= escaped(b));
    }
    if a.len() > 0 && needs_quotes(a) && b.len() > 0 && needs_quotes(b) {
        lemma_escaped_tells_apart(a, b);
    } else if a.len() > 0 && b.len() > 0 && needs_quotes(a) != needs_quotes(b) {
        let plain = if needs_quotes(a) {
            b
        } else {
            a
        };
        assert(plain[0] == '"');
    } else if a.len() == 0 && b.len() > 0 && !needs_quotes(b) {
        assert(b[0] == '"');
    } else if b.len() == 0 && a.len() > 0 && !needs_quotes(a) {
        assert(a[0] == '"');
    }
}

/// The words of the flags are different.
proof fn lemma_flag_words_differ()
    ensures
        "--current-version"@.len() == 17,
        "--wait-pid"@.len() == 10,
        "--restart-app-path"@.len() == 18,
        "--service-name"@.len() == 14,
        "--help"@.len() == 6,
        "-h"@.len() == 2,
        "check"@.len() == 5,
        "install"@.len() == 7,
{
    reveal_strlit("--current-version");
    reveal_strlit("--wait-pid");
    reveal_strlit("--restart-app-path");
    reveal_strlit("--service-name");
    reveal_strlit("--help");
    reveal_strlit("-h");
    reveal_strlit("check");
    reveal_strlit("install");
}

/// A flag of the updater sets what it is called to the value behind it, and nothing else, and the
/// flags behind are read. A flag without a value, a value that cannot be read, and anything
/// that is no flag are refused; a call for help ends the reading.
pub proof fn flags_set_what_they_are_called(args: Seq<Seq<char>>, at: int, flags: FlagsView)
    requires
        0 <= at < args.len(),
    ensures
        ({
            let flag = args[at];
            let value = args[at + 1];
            let has_value = at + 1 < args.len();
            let read = flags_from(args, at, flags);
            let version = flag == "--current-version"@;
            let pid = flag == "--wait-pid"@;
            let path = flag == "--restart-app-path"@;
            let service = flag == "--service-name"@;
            let help = flag == "--help"@ || flag == "-h"@;
            &&& (version || pid || path || service) && !has_value ==> read == FlagsOutcome::Refused(
                UpdaterErrorView::MissingValue(flag),
            )
            &&& version && has_value && semver_parsed(value) is Ok ==> read == flags_from(
                args,
                at + 2,
                FlagsView { current_version: semver_parsed(value)->Ok_0, ..flags },
            )
            &&& version && has_value && semver_parsed(value) is Err ==> read
                == FlagsOutcome::Refused(
                UpdaterErrorView::BadVersion(value, semver_parsed(value)->Err_0),
            )
            &&& pid && has_value && parsed_u32(value) is Some ==> read == flags_from(
                args,
                at + 2,
                FlagsView { wait_pid: parsed_u32(value), ..flags },
            )
            &&& pid && has_value && parsed_u32(value) is None ==> read == FlagsOutcome::Refused(
                UpdaterErrorView::BadPid(value),
            )
            &&& path && has_value ==> read == flags_from(
                args,
                at + 2,
                FlagsView { restart_app_path: Some(at + 1), ..flags },
            )
            &&& service && has_value ==> read == flags_from(
                args,
                at + 2,
                FlagsView { service_name: value, ..flags },
            )
            &&& help ==> read == FlagsOutcome::Help
            &&& !version && !pid && !path && !service && !help ==> read == FlagsOutcome::Refused(
                UpdaterErrorView::UnknownArgument(flag),
            )
        }),
        flags_from(args, args.len() as int, flags) == FlagsOutcome::Read(flags),
{
    lemma_flag_words_differ();
}

/// The updater checks or installs as it is told, and installs if it is told nothing; any other
/// command is refused. It does so with what its flags say.
pub proof fn updater_does_as_told(
    r: Result<UpdaterCommand, UpdaterError>,
    word: Seq<char>,
    outcome: FlagsOutcome,
)
    requires
        is_updater_command(r, word, outcome),
    ensures
        command_word(None) == "install"@,
        command_word(Some(word)) == word,
        outcome is Help ==> r is Ok && r->Ok_0 is Help,
        outcome is Refused ==> r is Err && r->Err_0@ == outcome->Refused_0,
        outcome is Read && word == "check"@ ==> r is Ok && (r->Ok_0 matches UpdaterCommand::Check {
            current_version,
        } && current_version@ == outcome->Read_0.current_version),
        outcome is Read && word == "install"@ ==> r is Ok && (
        r->Ok_0 matches UpdaterCommand::Install {
            current_version,
            wait_pid,
            restart_app_path,
            service_name,
        } && current_version@ == outcome->Read_0.current_version && wait_pid
            == outcome->Read_0.wait_pid && service_name@ == outcome->Read_0.service_name && (
        restart_app_path is Some == outcome->Read_0.restart_app_path is Some) && (
        restart_app_path is Some ==> restart_app_path->0 as int
            == outcome->Read_0.restart_app_path->0)),
        outcome is Read && word != "check"@ && word != "install"@ ==> r is Err && r->Err_0@
            == UpdaterErrorView::UnknownCommand(word),
{
    lemma_flag_words_differ();
}

/// The line of the update check names the current version, and that of the update if there is one.
pub proof fn update_checks_are_told(check: UpdateCheck)
    ensures
        check matches UpdateCheck::UpToDate { current } ==> check_text(check) == "Task Killer "@
            + version_text(current@) + " is already up to date."@,
        check matches UpdateCheck::UpdateAvailable { current, release } ==> check_text(check)
            == "Update available: "@ + version_text(current@) + " -> "@ + version_text(
            release.version@,
        ) + " ("@ + release.msi_asset_name@ + ")"@,
{
}

/// An argument is put in quotes exactly if it is empty or holds a space, a tab, or a quote, and then
/// each quote in it has a backslash before it; every other character stands as it is.
pub proof fn arguments_are_quoted_where_needed(text: Seq<char>, c: char)
    ensures
        escaped(Seq::empty()).len() == 0,
        c == '"' ==> escaped(text.push(c)) == escaped(text) + seq!['\\', '"'],
        c != '"' ==> escaped(text.push(c)) == escaped(text).push(c),
        needs_quotes(text.push(c)) <==> needs_quotes(text) || c == ' ' || c == '\t' || c == '"',
        !needs_quotes(Seq::empty()),
        quoted(Seq::empty()) == seq!['"', '"'],
        needs_quotes(text) ==> quoted(text) == seq!['"'] + escaped(text) + seq!['"'],
        text.len() > 0 && !needs_quotes(text) ==> quoted(text) == text,
{
    reveal_strlit("\"");
    reveal_strlit("\"\"");
    assert("\""@ =~= seq!['"']);
    assert("\"\""@ =~= seq!['"', '"']);
    let longer = text.push(c);
    assert(longer.drop_last() =~= text);
    assert(escaped(text).push('\\').push('"') =~= escaped(text) + seq!['\\', '"']);
    if needs_quotes(text) {
        let k = choose|k: int|
            0 <= k < text.len() && (#[trigger] text[k] == ' ' || text[k] == '\t' || text[k]
                == '"');
        assert(longer[k] == text[k]);
    }
    assert(longer[text.len() as int] == c);
    if needs_quotes(longer) {
        let k = choose|k: int|
            0 <= k < longer.len() && (#[trigger] longer[k] == ' ' || longer[k] == '\t' || longer[k]
                == '"');
        if k < text.len() {
            assert(text[k] == longer[k]);
        }
    }
}

/// Arguments are joined by single spaces, each quoted.
pub proof fn arguments_are_joined_by_spaces(args: Seq<Seq<char>>, next: Seq<char>)
    ensures
        joined_args(Seq::empty()).len() == 0,
        joined_args(seq![next]) == quoted(next),
        args.len() > 0 ==> joined_args(args.push(next)) == joined_args(args).push(' ') + quoted(
            next,
        ),
{
    reveal_strlit(" ");
    assert(args.push(next).drop_last() =~= args);
    assert(joined_args(args) + " "@ =~= joined_args(args).push(' '));
}

/// The process of a service stands behind the first colon of the first line that begins with `PID`,
/// white space aside; zero is none. Without such a line there is none.
pub proof fn service_processes_are_read(
    lines: Seq<Seq<char>>,
    before: Seq<char>,
    value: Seq<char>,
    i: int,
)
    requires
        forall|k: int| 0 <= k < before.len() ==> #[trigger] before[k] != ':',
        forall|k: int| 0 <= k < value.len() ==> #[trigger] value[k] != ':',
    ensures
        pid_in_line(before.push(':') + value) == (match parsed_u32(trimmed(value)) {
            Some(pid) => if pid == 0 {
                None
            } else {
                Some(pid)
            },
            None => None,
        }),
        pid_in_line(before) is None,
        0 <= i < lines.len() && trimmed(lines[i]) == "PID"@ + value && (forall|k: int|
            0 <= k < i ==> without_prefix(trimmed(#[trigger] lines[k]), "PID"@) is None)
            ==> pid_line(lines) == Some(value),
        (forall|k: int|
            0 <= k < lines.len() ==> without_prefix(trimmed(#[trigger] lines[k]), "PID"@) is None)
            ==> pid_line(lines) is None,
        forall|output: Seq<char>| #[trigger]
            service_pid(output) == (match pid_line(pieces(output, Cut::At('\n'))) {
                Some(rest) => pid_in_line(rest),
                None => None,
            }),
    decreases lines.len(),
{
    let cut = Cut::At(':');
    let empty = Seq::<char>::empty();
    assert forall|k: int| 0 <= k < before.len() implies !cut.cuts(#[trigger] before[k]) by {}
    assert forall|k: int| 0 <= k < value.len() implies !cut.cuts(#[trigger] value[k]) by {}
    crate::text::pieces_grow_at_the_end(before, value, cut);
    crate::text::pieces_grow_at_the_end(empty, before, cut);
    assert(empty + before =~= before);
    assert(cut.cuts(':'));
    assert(pieces(empty, cut).len() == 1);
    assert(pieces(before, cut).len() == 1);
    assert(pieces(before.push(':') + value, cut)[1] == value);
    assert(parsed_u32(empty) is None);
    if lines.len() > 0 {
        let front = lines.drop_last();
        service_processes_are_read(front, before, value, i);
        crate::text::prefixes_are_cut_off("PID"@, value, value);
        if 0 <= i < front.len() {
            assert(front[i] == lines[i]);
        }
        assert(lines[lines.len() - 1] == lines.last());
        assert forall|k: int| 0 <= k < front.len() implies #[trigger] front[k] == lines[k] by {}
    }
}

/// The product is uninstalled by the quiet command of the first entry under its name that has one
/// that is not blank, or else by its other command. Entries under other names do not count.
pub proof fn the_quiet_command_comes_first(
    entries: Seq<UninstallEntry>,
    entry: UninstallEntry,
    i: int,
)
    ensures
        ({
            let named = entry.display_name is Some && entry.display_name->0@ == "Task Killer"@;
            let quiet = entry.quiet_uninstall is Some && trimmed(entry.quiet_uninstall->0@).len()
                > 0;
            let plain = entry.uninstall is Some && trimmed(entry.uninstall->0@).len() > 0;
            &&& !named ==> entry_command(entry) is None
            &&& named && quiet ==> entry_command(entry) == Some(entry.quiet_uninstall->0@)
            &&& named && !quiet && plain ==> entry_command(entry) == Some(entry.uninstall->0@)
            &&& named && !quiet && !plain ==> entry_command(entry) is None
        }),
        0 <= i < entries.len() && entry_command(entries[i]) is Some && (forall|k: int|
            0 <= k < i ==> entry_command(#[trigger] entries[k]) is None) ==> first_command(entries)
            == entry_command(entries[i]),
        (forall|k: int| 0 <= k < entries.len() ==> entry_command(#[trigger] entries[k]) is None)
            ==> first_command(entries) is None,
    decreases entries.len(),
{
    if entries.len() > 0 {
        let front = entries.drop_last();
        the_quiet_command_comes_first(front, entry, i);
        assert(entries[entries.len() - 1] == entries.last());
        assert forall|k: int| 0 <= k < front.len() implies #[trigger] front[k] == entries[k] by {}
    }
}

/// What is wrong with the updater's command line is told, and known as what it is.
pub proof fn updater_errors_are_told(error: UpdaterError)
    ensures
        match error {
            UpdaterError::MissingValue(flag) => error.sentence() == "missing value for "@ + flag@
                && error@ == UpdaterErrorView::MissingValue(flag@),
            UpdaterError::BadVersion { text, reason } => error.sentence()
                == "parse --current-version as semver: "@ + reason@ && error@
                == UpdaterErrorView::BadVersion(text@, reason@),
            UpdaterError::BadPid(text) => error.sentence() == "parse --wait-pid as u32"@ && error@
                == UpdaterErrorView::BadPid(text@),
            UpdaterError::UnknownArgument(text) => error.sentence() == "unknown argument: "@ + text@
                && error@ == UpdaterErrorView::UnknownArgument(text@),
            UpdaterError::UnknownCommand(text) => error.sentence() == "unknown updater command: "@
                + text@ && error@ == UpdaterErrorView::UnknownCommand(text@),
        },
{
}

/// The product is uninstalled by the first list of entries that has a command for it; if neither has
/// one, that is told.
pub proof fn the_first_list_with_a_command_counts(
    first: &Vec<UninstallEntry>,
    second: &Vec<UninstallEntry>,
    r: Result<String, String>,
)
    requires
        call_ensures(find_uninstall_command, (first, second), r),
    ensures
        first_command(first@) is Some ==> r is Ok && r->Ok_0@ == first_command(first@)->0,
        first_command(first@) is None && first_command(second@) is Some ==> r is Ok && r->Ok_0@
            == first_command(second@)->0,
        first_command(first@) is None && first_command(second@) is None ==> r is Err && r->Err_0@
            == "Task Killer uninstall information was not found in the registry"@,
{
}

/// A query for a service that failed finds no process. The help of the updater names its commands
/// and flags.
pub proof fn failed_queries_find_nothing(succeeded: bool, output: &str, pid: Option<u32>)
    requires
        call_ensures(query_service_pid, (succeeded, output), pid),
    ensures
        !succeeded ==> pid is None,
        succeeded ==> pid == service_pid(output@),
        updater_usage().len() == 5,
        updater_usage()[0] == "Task Killer updater"@,
        updater_usage()[2] == "Commands:"@,
        updater_usage()[3] == "  check"@,
        updater_usage()[4]
            == "  install [--current-version <semver>] [--wait-pid <pid>] [--restart-app-path <path>] [--service-name <name>]"@,
{
}

} // verus!
