use tasktui::release::{
    check_release, classify_status, download_folder, expected_hash, github_api_headers,
    latest_release_api_url, latest_release_from_tag, latest_release_page_url, lookup_failure,
    match_checksum, normalize_version,
    parse_asset_digest, parse_sha256sums, parse_version, release_info_from_response, sha256_text,
    tag_of_redirect, user_agent, verify_download, GitHubAsset, GitHubRelease, ReleaseError,
    ReleaseInfo, StatusClass, UpdateCheck, Version,
};
use tasktui::installation::{
    delete_failure, exit_code_label, exit_wait, force_stop_failure, install_steps,
    installer_failure, next_delete_action, next_stop_action, relaunch_failure, still_present,
    still_running, uninstall_failure, updater_arguments, wait_failure, DeleteAction, DeleteEvent,
    InstallStep, StopAction, StopEvent,
};
use tasktui::system::WaitVerdict;
use tasktui::updater::{
    check_line, find_uninstall_command, join_windows_args, parse_command, query_service_pid,
    quote_windows_arg, updater_usage_lines, UninstallEntry, UpdaterCommand, UpdaterError,
};

fn version(text: &str) -> Version {
    parse_version(text).expect("semver")
}

fn release(text: &str) -> ReleaseInfo {
    ReleaseInfo {
        version: version(text),
        msi_asset_name: "task_killer-0.1.1-x64.msi".into(),
        msi_download_url: "https://example.com/a.msi".into(),
        checksum_download_url: "https://example.com/SHA256SUMS.txt".into(),
        msi_sha256: Some("1234abcd".into()),
    }
}

fn asset(name: &str, url: &str, digest: Option<&str>) -> GitHubAsset {
    GitHubAsset {
        name: name.into(),
        browser_download_url: url.into(),
        digest: digest.map(|text| text.into()),
    }
}

#[test]
fn strips_v_prefix_from_tags() {
    assert_eq!(
        normalize_version("v0.1.1").expect("version"),
        parse_version("0.1.1").expect("semver")
    );
}

#[test]
fn parses_sha256sums_entries() {
    let hash = parse_sha256sums(
        "abcd1234 *task_killer-0.1.1-x64.msi\nffff0000 *other.zip\n",
        "task_killer-0.1.1-x64.msi",
    )
    .expect("hash");
    assert_eq!(hash, "abcd1234");
}

#[test]
fn release_info_selects_expected_assets() {
    let info = release_info_from_response(GitHubRelease {
        tag_name: "v0.1.1".into(),
        assets: vec![
            GitHubAsset {
                name: "task_killer-0.1.1-x64.msi".into(),
                browser_download_url: "https://example.com/a.msi".into(),
                digest: Some("sha256:1234abcd".into()),
            },
            GitHubAsset {
                name: "SHA256SUMS.txt".into(),
                browser_download_url: "https://example.com/SHA256SUMS.txt".into(),
                digest: None,
            },
        ],
    })
    .expect("release");
    assert_eq!(info.version, parse_version("0.1.1").expect("semver"));
    assert_eq!(info.msi_asset_name, "task_killer-0.1.1-x64.msi");
    assert_eq!(info.msi_sha256, Some("1234abcd".into()));
}

#[test]
fn redirect_fallback_builds_expected_asset_urls() {
    let repo = "Ray-d3v/task_killer";
    let release = latest_release_from_tag(repo, "v0.1.2").expect("release");
    assert_eq!(release.version, parse_version("0.1.2").expect("semver"));
    assert_eq!(
        release.msi_download_url,
        "https://github.com/Ray-d3v/task_killer/releases/download/v0.1.2/task_killer-0.1.2-x64.msi"
    );
    assert_eq!(release.msi_sha256, None);
}

#[test]
fn compares_versions_for_updates() {
    let current = parse_version("0.1.0").expect("semver");
    let release = ReleaseInfo {
        version: parse_version("0.1.1").expect("semver"),
        msi_asset_name: "task_killer-0.1.1-x64.msi".into(),
        msi_download_url: "https://example.com/a.msi".into(),
        checksum_download_url: "https://example.com/SHA256SUMS.txt".into(),
        msi_sha256: Some("1234abcd".into()),
    };
    let check = check_release(&current, release.clone()).expect("check");
    assert!(matches!(check, UpdateCheck::UpdateAvailable { .. }));
}

#[test]
fn versions_are_taken_apart() {
    assert_eq!(
        version("1.20.300-beta.2+build.7"),
        Version {
            major: 1,
            minor: 20,
            patch: 300,
            pre: "beta.2".into(),
            build: "build.7".into(),
        }
    );
    for text in ["0.1.1", "1.2.3-rc.1", "1.2.3+42", "1.20.300-beta.2+build.7"] {
        assert_eq!(version(text).to_text(), text);
    }
    assert_eq!(user_agent(&version("0.1.1")), "task_killer/0.1.1");
    assert_eq!(normalize_version("  v2.0.0 ").expect("version"), version("2.0.0"));
    let error = normalize_version("vx").expect_err("must reject");
    assert_eq!(
        error.message(),
        "parse release version from tag vx: unexpected character 'x' while parsing major version number"
    );
    assert!(matches!(parse_version("1.2"), Err(ReleaseError::BadVersion { .. })));
}

#[test]
fn versions_are_ranked() {
    let newer = |latest: &str, current: &str| {
        matches!(
            check_release(&version(current), release(latest)),
            Ok(UpdateCheck::UpdateAvailable { .. })
        )
    };
    assert!(newer("0.1.10", "0.1.9"));
    assert!(newer("0.2.0", "0.1.99"));
    assert!(newer("1.0.0", "0.99.99"));
    assert!(!newer("0.1.1", "0.1.1"));
    assert!(!newer("0.1.0", "0.1.1"));
    assert!(newer("1.0.0", "1.0.0-rc.1"));
    assert!(!newer("1.0.0-rc.1", "1.0.0"));
    assert!(newer("1.0.0-rc.12", "1.0.0-rc.8"));
    let mut odd = version("1.0.0");
    odd.pre = "not a pre-release".into();
    assert!(matches!(
        check_release(&odd, release("1.0.0")),
        Err(ReleaseError::Unranked { .. })
    ));
    let error = check_release(&odd, release("1.0.0")).expect_err("must reject");
    assert_eq!(
        error.message(),
        "compare release versions: unexpected character in pre-release identifier"
    );
}

#[test]
fn incomplete_releases_are_refused() {
    let complete = |digest: Option<&str>| GitHubRelease {
        tag_name: "v0.1.1".into(),
        assets: vec![
            asset("SHA256SUMS.txt", "https://example.com/s", None),
            asset("task_killer-0.1.1-x64.msi", "https://example.com/a", digest),
            asset("task_killer-0.1.1-x64.msi", "https://example.com/b", None),
        ],
    };
    let info = release_info_from_response(complete(None)).expect("release");
    assert_eq!(info.msi_download_url, "https://example.com/a");
    assert_eq!(info.checksum_download_url, "https://example.com/s");
    assert_eq!(info.msi_sha256, None);
    assert_eq!(
        release_info_from_response(complete(Some("md5:1"))),
        Err(ReleaseError::BadDigest { digest: "md5:1".into() })
    );
    let mut without_msi = complete(None);
    without_msi.assets.truncate(1);
    let error = release_info_from_response(without_msi).expect_err("must reject");
    assert_eq!(
        error.message(),
        "latest release does not contain task_killer-0.1.1-x64.msi"
    );
    let mut without_sums = complete(None);
    without_sums.assets.remove(0);
    assert_eq!(
        release_info_from_response(without_sums),
        Err(ReleaseError::MissingAsset { name: "SHA256SUMS.txt".into() })
    );
}

#[test]
fn digests_are_read() {
    assert_eq!(parse_asset_digest(&None), Ok(None));
    assert_eq!(parse_asset_digest(&Some("  ".into())), Ok(None));
    assert_eq!(
        parse_asset_digest(&Some(" sha256:ABcd ".into())),
        Ok(Some("abcd".into()))
    );
    let error = parse_asset_digest(&Some(" sha1:ab ".into())).expect_err("must reject");
    assert_eq!(error.message(), "unsupported release asset digest format: sha1:ab");
}

#[test]
fn checksums_are_found() {
    let text = "\r\n  AAAA   **wanted.msi extra\r\nbbbb wanted.msi\ncccc\n";
    assert_eq!(parse_sha256sums(text, "wanted.msi"), Ok("aaaa".into()));
    assert_eq!(parse_sha256sums("cccc\n", ""), Ok("cccc".into()));
    let error = parse_sha256sums(text, "other.msi").expect_err("must reject");
    assert_eq!(error.message(), "SHA256SUMS.txt does not contain other.msi");
    let mut info = release("0.1.1");
    assert_eq!(expected_hash(&info, ""), Ok("1234abcd".into()));
    info.msi_sha256 = None;
    assert_eq!(
        expected_hash(&info, "FF00 task_killer-0.1.1-x64.msi"),
        Ok("ff00".into())
    );
}

#[test]
fn downloads_are_hashed() {
    let hash = "ba7816bf8f01cfea414140de5dae2223b00361a396177a9cb410ff61f20015ad";
    assert_eq!(sha256_text(b"abc"), hash);
    assert_eq!(verify_download("a.msi", hash, b"abc"), Ok(()));
    let error = verify_download("a.msi", "00", b"abc").expect_err("must reject");
    assert_eq!(
        error.message(),
        format!("checksum mismatch for a.msi (expected 00, got {hash})")
    );
    assert_eq!(match_checksum("a.msi", "ab", "ab"), Ok(()));
}

#[test]
fn redirects_lead_to_tags() {
    assert_eq!(
        tag_of_redirect("https://github.com/x/y/releases/tag/v0.1.2"),
        Ok("v0.1.2".into())
    );
    assert_eq!(tag_of_redirect("v1"), Ok("v1".into()));
    let error = tag_of_redirect("https://github.com/").expect_err("must reject");
    assert_eq!(
        error.message(),
        "could not parse release tag from redirect https://github.com/"
    );
    let info = latest_release_from_tag("a/b", "0.3.0").expect("release");
    assert_eq!(
        info.checksum_download_url,
        "https://github.com/a/b/releases/download/v0.3.0/SHA256SUMS.txt"
    );
}

#[test]
fn requests_have_addresses_and_headers() {
    assert_eq!(
        latest_release_api_url("a/b"),
        "https://api.github.com/repos/a/b/releases/latest"
    );
    assert_eq!(latest_release_page_url("a/b"), "https://github.com/a/b/releases/latest");
    assert_eq!(
        github_api_headers(),
        [
            ("Accept", "application/vnd.github+json"),
            ("X-GitHub-Api-Version", "2022-11-28"),
        ]
    );
    assert_eq!(classify_status(200), StatusClass::Success);
    assert_eq!(classify_status(299), StatusClass::Success);
    assert_eq!(classify_status(404), StatusClass::NotFound);
    assert_eq!(classify_status(302), StatusClass::Failure);
    assert_eq!(lookup_failure("a/b", 200, "200 OK"), None);
    assert_eq!(
        lookup_failure("a/b", 404, "404 Not Found"),
        Some("no published GitHub release was found for a/b".into())
    );
    assert_eq!(
        lookup_failure("a/b", 503, "503 Service Unavailable"),
        Some("latest GitHub release returned HTTP 503 Service Unavailable".into())
    );
    assert_eq!(download_folder(&version("1.2.3-rc.1")), "task_killer-update-1.2.3-rc.1");
}

#[test]
fn updater_flags_are_read() {
    let own = version("0.1.0");
    let words = |list: &[&str]| -> Vec<String> { list.iter().map(|w| w.to_string()).collect() };
    let parse = |first: Option<&str>, rest: &[&str]| {
        parse_command(&first.map(|w| w.to_string()), &words(rest), &own)
    };
    assert_eq!(
        parse(None, &[]),
        Ok(UpdaterCommand::Install {
            current_version: version("0.1.0"),
            wait_pid: None,
            restart_app_path: None,
            service_name: "tasktui-service".into(),
        })
    );
    assert_eq!(
        parse(
            Some("install"),
            &[
                "--current-version", "0.2.0", "--wait-pid", "77", "--restart-app-path", "C:\\a b",
                "--service-name", "other", "--wait-pid", "78",
            ]
        ),
        Ok(UpdaterCommand::Install {
            current_version: version("0.2.0"),
            wait_pid: Some(78),
            restart_app_path: Some(5),
            service_name: "other".into(),
        })
    );
    assert_eq!(
        parse(Some("check"), &["--current-version", "0.2.0"]),
        Ok(UpdaterCommand::Check { current_version: version("0.2.0") })
    );
    assert_eq!(parse(Some("check"), &["-h", "--wrong"]), Ok(UpdaterCommand::Help));
    assert_eq!(
        parse(Some("check"), &["--wait-pid"]),
        Err(UpdaterError::MissingValue("--wait-pid".into()))
    );
    assert_eq!(
        parse(Some("check"), &["--wait-pid", "x"]),
        Err(UpdaterError::BadPid("x".into()))
    );
    assert!(matches!(
        parse(Some("check"), &["--current-version", "x"]),
        Err(UpdaterError::BadVersion { .. })
    ));
    assert_eq!(
        parse(Some("check"), &["--wrong"]),
        Err(UpdaterError::UnknownArgument("--wrong".into()))
    );
    let error = parse(Some("check"), &["--wait-pid", "x"]).expect_err("must reject");
    assert_eq!(error.message(), "parse --wait-pid as u32");
    let error = parse(Some("check"), &["--current-version", "x"]).expect_err("must reject");
    assert_eq!(
        error.message(),
        "parse --current-version as semver: unexpected character 'x' while parsing major version number"
    );
    let error = parse(Some("--help"), &[]).expect_err("must reject");
    assert_eq!(error.message(), "unknown updater command: --help");
    assert_eq!(updater_usage_lines().len(), 5);
}

#[test]
fn update_checks_are_told() {
    let check = check_release(&version("0.1.0"), release("0.1.1")).expect("check");
    assert_eq!(
        check_line(&check),
        "Update available: 0.1.0 -> 0.1.1 (task_killer-0.1.1-x64.msi)"
    );
    let check = check_release(&version("0.1.1"), release("0.1.1")).expect("check");
    assert_eq!(check_line(&check), "Task Killer 0.1.1 is already up to date.");
}

#[test]
fn arguments_are_quoted() {
    assert_eq!(quote_windows_arg(""), "\"\"");
    assert_eq!(quote_windows_arg("plain"), "plain");
    assert_eq!(quote_windows_arg("a b"), "\"a b\"");
    assert_eq!(quote_windows_arg("a\tb"), "\"a\tb\"");
    assert_eq!(quote_windows_arg("say \"x\""), "\"say \\\"x\\\"\"");
    let args = vec!["install".to_string(), "C:\\a b".to_string(), "".to_string()];
    assert_eq!(join_windows_args(&args), "install \"C:\\a b\" \"\"");
    assert_eq!(join_windows_args(&vec![]), "");
    let similar = ["", "\"", "\"\"", "\\\"", "a b", "\"a b\"", "a\\ b"];
    for left in similar {
        for right in similar {
            assert_eq!(quote_windows_arg(left) == quote_windows_arg(right), left == right);
        }
    }
}

#[test]
fn service_processes_are_found() {
    let output = "SERVICE_NAME: x\r\n        STATE : 4  RUNNING\r\n        PID                : 4711\r\n";
    assert_eq!(query_service_pid(true, output), Some(4711));
    assert_eq!(query_service_pid(false, output), None);
    assert_eq!(query_service_pid(true, "PID : 0\nPID : 5"), None);
    assert_eq!(query_service_pid(true, "PID 12"), None);
    assert_eq!(query_service_pid(true, "nothing"), None);
}

#[test]
fn waits_and_exits_are_told() {
    assert_eq!(exit_wait(0), Some(WaitVerdict::Reached));
    assert_eq!(exit_wait(258), Some(WaitVerdict::TimedOut));
    assert_eq!(exit_wait(128), None);
    assert_eq!(wait_failure(0, 5), None);
    assert_eq!(
        wait_failure(258, 5),
        Some("timed out waiting for process 5 to exit".into())
    );
    assert_eq!(
        wait_failure(128, 5),
        Some("WaitForSingleObject returned 128 for process 5".into())
    );
    assert_eq!(exit_code_label(None), "unknown");
    assert_eq!(exit_code_label(Some(-1073741510)), "-1073741510");
    assert_eq!(exit_code_label(Some(i32::MIN)), "-2147483648");
    assert_eq!(
        force_stop_failure("svc", 5, Some(128)),
        "failed to force-stop svc (PID 5), taskkill exited with 128"
    );
    assert_eq!(still_running("svc"), "service svc is still running after forced stop");
    assert_eq!(
        delete_failure("svc", None),
        "failed to delete svc, sc.exe exited with unknown"
    );
    assert_eq!(still_present("svc"), "service svc is still present after delete");
    assert_eq!(
        installer_failure(Some(1603), "C:\\a.log"),
        "msiexec failed with status 1603 (log: C:\\a.log)"
    );
    assert_eq!(uninstall_failure(None), "uninstall command exited with status unknown");
    assert_eq!(
        relaunch_failure("updater", 5),
        Some("failed to relaunch updater with elevation (ShellExecuteW code 5)".into())
    );
    assert_eq!(relaunch_failure("updater", 33), None);
}

#[test]
fn the_uninstaller_is_found() {
    let entry = |name: &str, quiet: Option<&str>, plain: Option<&str>| UninstallEntry {
        display_name: Some(name.into()),
        quiet_uninstall: quiet.map(|text| text.into()),
        uninstall: plain.map(|text| text.into()),
    };
    let none = Vec::new();
    let other = vec![entry("Other", Some("q"), Some("u"))];
    assert_eq!(
        find_uninstall_command(&other, &none),
        Err("Task Killer uninstall information was not found in the registry".into())
    );
    let blank = vec![entry("Task Killer", Some("  "), Some("msiexec /x"))];
    assert_eq!(find_uninstall_command(&blank, &none), Ok("msiexec /x".into()));
    let quiet = vec![
        entry("Task Killer", None, Some(" ")),
        entry("Task Killer", Some("quiet"), Some("loud")),
    ];
    assert_eq!(find_uninstall_command(&none, &quiet), Ok("quiet".into()));
    assert_eq!(find_uninstall_command(&blank, &quiet), Ok("msiexec /x".into()));
}

#[test]
fn services_are_stopped_by_force_if_need_be() {
    let next = |last: StopAction, event: StopEvent| next_stop_action("svc", last, event);
    assert_eq!(next(StopAction::AskToStop, StopEvent::Asked(true)), StopAction::Finish);
    assert_eq!(next(StopAction::AskToStop, StopEvent::Asked(false)), StopAction::FindProcess);
    assert_eq!(next(StopAction::FindProcess, StopEvent::Process(Some(7))), StopAction::Kill(7));
    assert_eq!(next(StopAction::FindProcess, StopEvent::Process(None)), StopAction::ReadClock);
    assert_eq!(
        next(StopAction::Kill(7), StopEvent::Exited { success: true, code: Some(0) }),
        StopAction::ReadClock
    );
    assert_eq!(
        next(StopAction::Kill(7), StopEvent::Exited { success: false, code: Some(1) }),
        StopAction::Fail(force_stop_failure("svc", 7, Some(1)))
    );
    assert_eq!(next(StopAction::ReadClock, StopEvent::Elapsed(9_999)), StopAction::CheckProcess);
    assert_eq!(
        next(StopAction::ReadClock, StopEvent::Elapsed(10_000)),
        StopAction::Fail(still_running("svc"))
    );
    assert_eq!(next(StopAction::CheckProcess, StopEvent::Process(Some(7))), StopAction::Pause);
    assert_eq!(next(StopAction::CheckProcess, StopEvent::Process(None)), StopAction::Finish);
    assert_eq!(next(StopAction::Pause, StopEvent::Paused), StopAction::ReadClock);
    assert_eq!(next(StopAction::Pause, StopEvent::Asked(true)), StopAction::Pause);
}

#[test]
fn services_are_deleted_and_watched() {
    let next = |last: DeleteAction, event: DeleteEvent| next_delete_action("svc", last, event);
    assert_eq!(
        next(DeleteAction::AskToDelete, DeleteEvent::Exited { success: true, code: Some(0) }),
        DeleteAction::ReadClock
    );
    assert_eq!(
        next(DeleteAction::AskToDelete, DeleteEvent::Exited { success: false, code: None }),
        DeleteAction::Fail(delete_failure("svc", None))
    );
    assert_eq!(
        next(DeleteAction::ReadClock, DeleteEvent::Elapsed(0)),
        DeleteAction::CheckService
    );
    assert_eq!(
        next(DeleteAction::ReadClock, DeleteEvent::Elapsed(10_000)),
        DeleteAction::Fail(still_present("svc"))
    );
    assert_eq!(next(DeleteAction::CheckService, DeleteEvent::Gone(true)), DeleteAction::Finish);
    assert_eq!(next(DeleteAction::CheckService, DeleteEvent::Gone(false)), DeleteAction::Pause);
    assert_eq!(next(DeleteAction::Pause, DeleteEvent::Paused), DeleteAction::ReadClock);
    assert_eq!(
        next(DeleteAction::ReadClock, DeleteEvent::Gone(true)),
        DeleteAction::ReadClock
    );
}

#[test]
fn updates_are_installed_in_order() {
    let say = |line: &str| InstallStep::Say(line.into());
    let check = check_release(&version("0.1.1"), release("0.1.1")).expect("check");
    assert_eq!(
        install_steps(&check, Some(7), true, "svc"),
        vec![say("Task Killer 0.1.1 is already up to date.")]
    );
    let check = check_release(&version("0.1.0"), release("0.1.1")).expect("check");
    assert_eq!(
        install_steps(&check, Some(7), true, "svc"),
        vec![
            say("Downloading Task Killer 0.1.1..."),
            InstallStep::Download,
            say("Waiting for tasktui-app.exe to exit..."),
            InstallStep::WaitForExit(7),
            say("Stopping service svc..."),
            InstallStep::StopService,
            say("Launching MSI installer..."),
            InstallStep::RunInstaller,
            say("Restarting Task Killer..."),
            InstallStep::RestartApp,
            say("Update to 0.1.1 completed."),
        ]
    );
    assert_eq!(install_steps(&check, None, false, "svc").len(), 7);
}

#[test]
fn the_updater_understands_the_program() {
    let own = version("0.1.1");
    let args = updater_arguments(&own, 4711, "C:\\a b\\tasktui-app.exe");
    assert_eq!(args.len(), 8);
    assert_eq!(
        parse_command(&Some("install".into()), &args, &version("0.0.1")),
        Ok(UpdaterCommand::Install {
            current_version: own,
            wait_pid: Some(4711),
            restart_app_path: Some(5),
            service_name: "tasktui-service".into(),
        })
    );
}
