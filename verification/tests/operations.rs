use mountos_desktop::cli_output::{
    cli_version, fork_command_blocking, mcp_argv, mcp_status_blocking, mount_help_blocking,
    CommandOutput,
};
use mountos_desktop::diagnostics::{
    with_volume_kind,
    check_diagnostics_target, detected_volume_kind, diagnostics_file_name, export_file_name,
    exported_profile, inactive_target_refusal, license_file_name, profile_summaries,
    require_openable_target, TargetUse,
};
use mountos_desktop::error::DesktopError;
use mountos_desktop::gateway::{
    comm_is_mountos, descriptor_matches_pid, endpoints_from_descriptor, gateway_log_suffix,
    known_gateway_pids, parse_started_pid, reconcile_known_gateway_pids, record_gateway_launch,
    require_combo_mount_path, short_hash, stop_gateway_finish, stop_gateway_gone,
    stop_gateway_precheck, validate_gateway_request, DescriptorEndpoint,
};
use mountos_desktop::instances::{parse_instances_value, InstanceConfigExtras};
use mountos_desktop::json::{Json, JsonNumber};
use mountos_desktop::argv::suffix_from_nanos;
use mountos_desktop::launch::{
    cli_timeout_error, contains_target, gateway_precheck, launch_log_names,
    already_mounted, backend_usable, daemon_launch_step, gateway_only_outcome, mount_precheck,
    needs_backend_probe, parse_inode, pending_action, require_timestamp, resolve_auto_backend,
    view_poll_step, view_precheck, DaemonState, LaunchAction, LaunchEvent, ViewAction, ViewEvent,
};
use mountos_desktop::listing::{sort_profiles_newest_first, text_lt};
use mountos_desktop::profile::{Backend, MountProfile, Platform};
use mountos_desktop::secrets::{
    deletion_outcome, get_profile_secret_status, keyring_entry, mount_secret, read_profile_secret,
    resolve_satellite_secret, status_after_lookup, stored_secret, KeyringFailure,
};
use mountos_desktop::settings::{
    choose_cli_path, cli_path_override, cli_path_override_cell, other_cli_paths,
    preferred_terminal, require_force_delete_allowed, require_force_unmount_allowed,
    set_cli_path_override, validate_settings, DesktopSettings,
};
use mountos_desktop::state::{
    annotate_instance, check_failure_report, match_profile, note_list_failure, profile_targets,
    tray_menu_items, TrayItem,
};
use mountos_desktop::terminal::{
    open_app_failure, osascript_failure,
    applescript_quote, available_terminals, dashboard_shell_command, linux_dashboard_launch,
    macos_dashboard_launch, shell_quote, spawn_iterm2, windows_dashboard_launch, DashboardLaunch,
};
use mountos_desktop::unmount::{
    parse_unmount_outcomes, remaining_targets, summarize_unmount_all, unmount_all_argv,
    unmount_argv, unmount_precheck, unmount_result, unmount_verdict, UnmountOutcome,
};

fn sample_profile() -> MountProfile {
    MountProfile {
        id: "profile-1".to_string(),
        schema_version: 1,
        kind: "mount".to_string(),
        name: "Team files".to_string(),
        volume: "Team files".to_string(),
        fork: "main".to_string(),
        mount_path: "/Volumes/MountOS/Team".to_string(),
        discovery_url: "https://hub.example.com".to_string(),
        access_key_id: "ABCDEFGHIJKLMNOPQRST".to_string(),
        secret_ref: "prompt".to_string(),
        backend: Backend::Nfs,
        cache_dir: Some("/tmp/mountos cache".to_string()),
        read_only: true,
        auto_remount: false,
        temporary_fork: false,
        trusted_discovery_host: None,
        extra_args: vec!["--disk-cache-size".to_string(), "10G".to_string()],
        created_at: "2026-07-10T00:00:00Z".to_string(),
        updated_at: "2026-07-10T00:00:00Z".to_string(),
        volume_kind: None,
    }
}

fn json_of(v: &serde_json::Value) -> Json {
    match v {
        serde_json::Value::Null => Json::Null,
        serde_json::Value::Bool(b) => Json::Bool(*b),
        serde_json::Value::Number(n) => Json::Number(JsonNumber { unsigned: n.as_u64(), text: n.to_string() }),
        serde_json::Value::String(s) => Json::String(s.clone()),
        serde_json::Value::Array(items) => Json::Array(items.iter().map(json_of).collect()),
        serde_json::Value::Object(map) => {
            Json::Object(map.iter().map(|(k, v)| (k.clone(), json_of(v))).collect())
        }
    }
}

fn doc(text: &str) -> Json {
    json_of(&serde_json::from_str::<serde_json::Value>(text).expect("test JSON parses"))
}

fn err_text<T>(r: Result<T, DesktopError>) -> String {
    match r {
        Ok(_) => panic!("expected an error"),
        Err(e) => e.message(),
    }
}

fn output(success: bool, status: &str, stdout: &[u8], stderr: &[u8]) -> CommandOutput {
    CommandOutput {
        success,
        status_text: status.to_string(),
        code: Some(if success { 0 } else { 1 }),
        stdout: stdout.to_vec(),
        stderr: stderr.to_vec(),
    }
}

fn strs(v: &[&str]) -> Vec<String> {
    v.iter().map(|s| s.to_string()).collect()
}

// ---- gateway ----

#[test]
fn parses_started_pid_from_daemon_stdout() {
    assert_eq!(parse_started_pid("mountOS started with PID: 12345\n"), Some(12345));
    assert_eq!(
        parse_started_pid("some log line\nmountOS started with PID: 42\nmore output\n"),
        Some(42)
    );
    assert_eq!(parse_started_pid("no pid line here"), None);
    assert_eq!(parse_started_pid("started with PID: "), None);
}

#[test]
fn started_pid_must_fit_a_u32() {
    assert_eq!(parse_started_pid("started with PID: 4294967295"), Some(u32::MAX));
    assert_eq!(parse_started_pid("started with PID: 4294967296"), None);
}

#[test]
fn stop_gateway_refuses_a_pid_it_never_discovered() {
    let unknown_pid = 999_999_002;
    let known = known_gateway_pids();
    assert!(!known.contains(unknown_pid));
    let result = stop_gateway_precheck(&known, unknown_pid);
    assert!(result.is_err());
    assert!(result.unwrap_err().message().contains("refusing to stop"));
}

#[test]
fn only_recorded_launch_pids_can_be_stopped() {
    let mut known = known_gateway_pids();
    assert_eq!(record_gateway_launch(&mut known, "x started with PID: 77\n"), Some(77));
    assert_eq!(record_gateway_launch(&mut known, "no pid"), None);
    assert!(stop_gateway_precheck(&known, 77).is_ok());
    assert_eq!(
        err_text(stop_gateway_precheck(&known, 78)),
        "PID 78 was not discovered by this app's own gateway launch -- refusing to stop it"
    );
    reconcile_known_gateway_pids(&mut known, &[77]);
    assert!(stop_gateway_precheck(&known, 77).is_err());
}

#[test]
fn stopping_forgets_the_pid_either_way() {
    let mut known = known_gateway_pids();
    known.insert(5);
    known.insert(6);
    assert_eq!(
        stop_gateway_gone(&mut known, 5).message(),
        "no running mountos process at PID 5 -- it may have already exited"
    );
    assert!(!known.contains(5));
    assert_eq!(
        err_text(stop_gateway_finish(&mut known, 6, false, "exit status: 1")),
        "failed to stop gateway process 6 (exit exit status: 1)"
    );
    assert!(!known.contains(6));
    assert!(known.pids().is_empty());
}

#[test]
fn gateway_requests_need_protocols_and_tls_beyond_loopback() {
    assert_eq!(
        err_text(validate_gateway_request(&[], false, None, None)),
        "select at least one gateway protocol (S3 and/or HDFS)"
    );
    let s3 = strs(&["s3"]);
    assert!(validate_gateway_request(&s3, false, None, None).is_ok());
    assert!(validate_gateway_request(&s3, true, Some("/c.pem"), Some("  ")).is_err());
    assert!(validate_gateway_request(&s3, true, Some("/c.pem"), Some("/k.pem")).is_ok());
    assert!(require_combo_mount_path("").is_err());
    assert!(require_combo_mount_path("/m").is_ok());
}

#[test]
fn descriptors_are_trusted_only_for_their_own_pid() {
    assert!(descriptor_matches_pid(999903, 999903));
    assert!(!descriptor_matches_pid(999902, 999903));
    assert!(!descriptor_matches_pid(-1, u32::MAX));
    let eps = endpoints_from_descriptor(vec![
        DescriptorEndpoint { protocol: "s3".to_string(), url: "http://127.0.0.1:9001".to_string(), region: "us-east-1".to_string() },
        DescriptorEndpoint { protocol: "hdfs".to_string(), url: "hdfs://x".to_string(), region: String::new() },
    ]);
    assert_eq!(eps[0].region.as_deref(), Some("us-east-1"));
    assert_eq!(eps[1].region, None);
    assert_eq!(eps[1].url, "hdfs://x");
}

#[test]
fn process_listings_name_mountos() {
    assert!(comm_is_mountos("/usr/local/bin/MountOS\n"));
    assert!(comm_is_mountos("mfuse"));
    assert!(!comm_is_mountos("bash"));
}

#[test]
fn short_hashes_are_sixteen_hex_digits_and_stable() {
    let a = short_hash("/tmp/view");
    assert_eq!(a.len(), 16);
    assert!(a.chars().all(|c| c.is_ascii_hexdigit() && !c.is_ascii_uppercase()));
    assert_eq!(a, short_hash("/tmp/view"));
    assert_ne!(a, short_hash("/tmp/view2"));
    assert_eq!(gateway_log_suffix(true, &strs(&["s3", "hdfs"])), short_hash("true-s3,hdfs"));
}

// ---- terminal ----

#[test]
fn shell_quote_wraps_and_escapes_single_quotes() {
    assert_eq!(shell_quote("/tmp/has space"), "'/tmp/has space'");
    assert_eq!(shell_quote("it's a mount"), "'it'\\''s a mount'");
    assert_eq!(shell_quote(""), "''");
    assert_eq!(shell_quote("$(echo pwned)"), "'$(echo pwned)'");
}

#[test]
fn applescript_quote_escapes_backslash_and_quote() {
    assert_eq!(applescript_quote("a\"b\\c"), "\"a\\\"b\\\\c\"");
}

#[test]
fn dashboard_commands_quote_for_the_platform_shell() {
    assert_eq!(
        dashboard_shell_command(Platform::MacOs, "/usr/bin/mountos", "/Volumes/A B", true),
        "'/usr/bin/mountos' dashboard --gui '/Volumes/A B'"
    );
    assert_eq!(
        dashboard_shell_command(Platform::Other, "/usr/bin/mountos", "/mnt/a", false),
        "'/usr/bin/mountos' dashboard '/mnt/a'; exec \"$SHELL\""
    );
    assert_eq!(
        dashboard_shell_command(Platform::Windows, "C:\\m.exe", "D:", false),
        "mode con: cols=140 lines=42 && \"C:\\m.exe\" dashboard \"D:\""
    );
}

#[test]
fn only_installed_terminals_are_offered() {
    let opts = available_terminals(Platform::MacOs, &strs(&["Terminal", "iTerm"]));
    let ids: Vec<&str> = opts.iter().map(|o| o.id.as_str()).collect();
    assert_eq!(ids, vec!["terminal", "iterm2"]);
    assert_eq!(opts[1].label, "iTerm2");
    let win = available_terminals(Platform::Windows, &[]);
    assert_eq!(win.len(), 1);
    assert_eq!(win[0].id, "cmd");
}

#[test]
fn macos_launch_follows_the_preference_or_falls_back_to_terminal() {
    match spawn_iterm2("cmd") {
        DashboardLaunch::AppleScript { script, app } => {
            assert_eq!(app, "iTerm");
            assert!(script.contains("write text \"cmd\""));
        }
        _ => panic!("expected AppleScript"),
    }
    match macos_dashboard_launch("cmd", Some("ghostty"), &strs(&["terminal", "ghostty"])) {
        DashboardLaunch::OpenApp { bundle, args } => {
            assert_eq!(bundle, "Ghostty");
            assert_eq!(args.last().unwrap(), "cmd");
        }
        _ => panic!("expected open -na"),
    }
    match macos_dashboard_launch("cmd", Some("ghostty"), &strs(&["terminal"])) {
        DashboardLaunch::AppleScript { app, .. } => assert_eq!(app, "Terminal"),
        _ => panic!("expected Terminal"),
    }
    match macos_dashboard_launch("cmd", Some("wezterm"), &strs(&["wezterm"])) {
        DashboardLaunch::WezTerm { args } => assert_eq!(args[4], "start"),
        _ => panic!("expected WezTerm"),
    }
}

#[test]
fn windows_and_linux_launches_pick_a_terminal() {
    match windows_dashboard_launch("x", None, &strs(&["wt", "cmd"]), true) {
        DashboardLaunch::Spawn { program, args } => {
            assert_eq!(program, "wt");
            assert_eq!(args, strs(&["--size", "140,42", "new-tab", "cmd", "/k", "x"]));
        }
        _ => panic!("expected wt"),
    }
    match windows_dashboard_launch("x", Some("wt"), &strs(&["wt"]), false) {
        DashboardLaunch::Spawn { program, .. } => assert_eq!(program, "cmd"),
        _ => panic!("expected cmd"),
    }
    match linux_dashboard_launch("x", None, &strs(&["konsole", "xterm"])) {
        DashboardLaunch::Spawn { program, args } => {
            assert_eq!(program, "konsole");
            assert_eq!(args, strs(&["--", "bash", "-c", "x"]));
        }
        _ => panic!("expected konsole"),
    }
    match linux_dashboard_launch("x", Some("kitty"), &strs(&["kitty", "xterm"])) {
        DashboardLaunch::Spawn { program, args } => {
            assert_eq!(program, "kitty");
            assert_eq!(args[0], "-e");
        }
        _ => panic!("expected kitty"),
    }
    assert!(matches!(linux_dashboard_launch("x", None, &[]), DashboardLaunch::NoTerminal));
}

// ---- settings ----

#[test]
fn default_settings_enable_nothing() {
    let s = DesktopSettings::default();
    assert_eq!(s.default_backend, Backend::Auto);
    assert!(s.poll_seconds.is_none() && s.terminal.is_none() && s.cli_path_override.is_none());
    assert!(!s.allow_fork_force_delete && !s.allow_unmount_force);
}

#[test]
fn settings_bound_the_refresh_interval_and_check_the_pin() {
    let mut s = DesktopSettings::default();
    s.poll_seconds = Some(0);
    assert!(validate_settings("linux", &s, true).is_ok());
    s.poll_seconds = Some(3600);
    assert!(validate_settings("linux", &s, true).is_ok());
    s.poll_seconds = Some(3601);
    assert_eq!(
        err_text(validate_settings("linux", &s, true)),
        "refresh interval must be 0 (off) or between 1 and 3600 seconds, got 3601"
    );
    s.poll_seconds = None;
    s.cli_path_override = Some("/opt/mountos".to_string());
    assert_eq!(err_text(validate_settings("linux", &s, false)), "not a file: /opt/mountos");
    s.default_backend = Backend::Fskit;
    assert_eq!(err_text(validate_settings("linux", &s, true)), "backend is unavailable on linux");
}

#[test]
fn forced_operations_need_their_setting() {
    let mut s = DesktopSettings::default();
    assert_eq!(
        err_text(require_force_delete_allowed(&s)),
        "Force fork delete is disabled. Enable it in Settings first."
    );
    assert_eq!(
        err_text(require_force_unmount_allowed(&s)),
        "Force unmount is disabled. Enable it in Settings first."
    );
    s.allow_fork_force_delete = true;
    s.allow_unmount_force = true;
    assert!(require_force_delete_allowed(&s).is_ok());
    assert!(require_force_unmount_allowed(&s).is_ok());
    s.terminal = Some("kitty".to_string());
    assert_eq!(preferred_terminal(Some(&s)).as_deref(), Some("kitty"));
    assert_eq!(preferred_terminal(None), None);
}

#[test]
fn the_pinned_cli_path_reads_back_what_was_set() {
    let mut cell = cli_path_override_cell();
    assert_eq!(cli_path_override(&cell), None);
    set_cli_path_override(&mut cell, Some("/opt/mountos".to_string()));
    assert_eq!(cli_path_override(&cell).as_deref(), Some("/opt/mountos"));
    set_cli_path_override(&mut cell, None);
    assert_eq!(cli_path_override(&cell), None);
}

#[test]
fn a_pinned_cli_path_never_falls_back() {
    assert_eq!(choose_cli_path(Some("/p"), true, Some("/usr/bin/mountos".to_string())).unwrap(), "/p");
    assert_eq!(
        err_text(choose_cli_path(Some("/p"), false, Some("/usr/bin/mountos".to_string()))),
        "pinned CLI path no longer exists: /p"
    );
    assert_eq!(choose_cli_path(None, false, Some("/usr/bin/mountos".to_string())).unwrap(), "/usr/bin/mountos");
    assert!(matches!(choose_cli_path(None, false, None), Err(DesktopError::CliNotFound)));
    assert_eq!(
        other_cli_paths(&strs(&["/a/mountos", "/b/mountos", "/a/mountos"]), Some("/a/mountos")),
        strs(&["/b/mountos"])
    );
    assert_eq!(other_cli_paths(&strs(&["/a/mountos"]), None), strs(&["/a/mountos"]));
}

// ---- secrets ----

#[test]
fn provided_secrets_win_and_prompt_profiles_need_one() {
    let p = sample_profile();
    assert_eq!(read_profile_secret(&p, Some("s".to_string())).unwrap().as_deref(), Some("s"));
    assert_eq!(read_profile_secret(&p, None).unwrap(), None);
    assert_eq!(err_text(resolve_satellite_secret(&p, None)), "secret required");
    assert_eq!(err_text(mount_secret(&p, None)), "secret required for mount");
    let mut anonymous = sample_profile();
    anonymous.access_key_id = String::new();
    assert_eq!(resolve_satellite_secret(&anonymous, Some("ignored".to_string())).unwrap(), None);
}

#[test]
fn keychain_outcomes_map_to_status_and_errors() {
    let found = stored_secret(Ok("pw".to_string())).unwrap();
    assert_eq!(found.as_deref(), Some("pw"));
    let failed = stored_secret(Err(KeyringFailure { no_entry: false, message: "locked".to_string() }));
    assert_eq!(err_text(failed), "keychain error: locked");
    let s = status_after_lookup("p".to_string(), Ok("x".to_string())).unwrap();
    assert!(s.stored && s.profile_id == "p");
    let none = KeyringFailure { no_entry: true, message: "No matching entry found in secure storage".to_string() };
    assert!(!status_after_lookup("p".to_string(), Err(none)).unwrap().stored);
    assert!(deletion_outcome(Err(KeyringFailure { no_entry: true, message: String::new() })).is_ok());
    assert!(deletion_outcome(Err(KeyringFailure { no_entry: false, message: "x".to_string() })).is_err());
}

#[test]
fn keychain_lookups_check_the_id_first() {
    assert_eq!(err_text(keyring_entry("../x")), "invalid profile id");
    assert_eq!(err_text(get_profile_secret_status("../x".to_string())), "invalid profile id");
}

#[test]
fn an_empty_keychain_has_no_secret() {
    let status = get_profile_secret_status("fresh-profile".to_string()).unwrap();
    assert!(!status.stored);
    let mut vault = sample_profile();
    vault.secret_ref = "vault".to_string();
    vault.id = "fresh-profile".to_string();
    assert_eq!(
        err_text(read_profile_secret(&vault, None)),
        "keychain error: No matching entry found in secure storage"
    );
}

// ---- unmount ----

fn outcome(path: &str, state: &str, error: &str, busy: bool) -> UnmountOutcome {
    UnmountOutcome { mount_path: path.to_string(), state: state.to_string(), error: error.to_string(), busy }
}

#[test]
fn unmount_outcomes_prefer_the_cli_message() {
    assert!(outcome("/a", "unmounted", "", false).unmounted());
    assert_eq!(outcome("/a", "refused", "", false).detail(), "unmount reported refused");
    assert_eq!(outcome("/a", "busy", "in use by Finder", true).detail(), "in use by Finder");
    assert!(unmount_verdict(&[outcome("/a", "unmounted", "", false)]).is_ok());
    assert_eq!(err_text(unmount_verdict(&[])), "mountos unmount returned no result");
    assert_eq!(err_text(unmount_verdict(&[outcome("/a", "busy", "busy!", true)])), "busy!");
}

#[test]
fn unreadable_unmount_answers_report_stderr_first() {
    assert_eq!(
        err_text(parse_unmount_outcomes(Err("EOF".to_string()), b"")),
        "could not read unmount result: EOF"
    );
    assert_eq!(err_text(parse_unmount_outcomes(Err("EOF".to_string()), b" denied \n")), "denied");
    assert_eq!(parse_unmount_outcomes(Ok(vec![outcome("/a", "unmounted", "", false)]), b"").unwrap().len(), 1);
}

#[test]
fn unmount_argv_and_prechecks() {
    assert_eq!(unmount_argv("/a", false), strs(&["unmount", "-y", "--json", "/a"]));
    assert_eq!(unmount_argv("/a", true), strs(&["unmount", "-y", "--json", "--force", "/a"]));
    assert_eq!(unmount_all_argv(true), strs(&["unmount", "--all", "-y", "--json", "--force"]));
    let settings = DesktopSettings::default();
    assert_eq!(err_text(unmount_precheck("  ", false, &settings)), "unmount target is required");
    assert!(unmount_precheck("/a", true, &settings).is_err());
    assert!(unmount_precheck("/a", false, &settings).is_ok());
    assert_eq!(unmount_result("/a".to_string(), true).state, "idle");
    assert_eq!(unmount_result("/a".to_string(), false).state, "flushing");
}

#[test]
fn unmount_all_reports_failed_and_busy_targets() {
    let before = strs(&["/a", "/b", "/c"]);
    let outcomes = vec![
        outcome("/a", "unmounted", "", false),
        outcome("/b", "busy", "busy", true),
        outcome("/c", "failed", "", false),
    ];
    let (result, settling) = summarize_unmount_all(&before, &outcomes);
    assert_eq!(result.attempted, 3);
    assert_eq!(result.failed, strs(&["/b", "/c"]));
    assert_eq!(result.busy, strs(&["/b"]));
    assert_eq!(settling, strs(&["/a"]));
    let (empty, none) = summarize_unmount_all(&[], &outcomes);
    assert_eq!(empty.attempted, 0);
    assert!(empty.failed.is_empty() && empty.busy.is_empty() && none.is_empty());
    assert_eq!(remaining_targets(&before, &strs(&["/c", "/x"])), strs(&["/c"]));
}

// ---- launch ----

#[test]
fn windows_auto_resolves_to_mountosio_when_check_reports_it() {
    let check = doc(r#"[{"feature":"mountosio","supported":false,"capable":true}]"#);
    assert!(backend_usable(&check, "MountOsIo"));
    assert!(!backend_usable(&doc(r#"{"feature":"MountOsIo","supported":false}"#), "MountOsIo"));
    assert!(needs_backend_probe(Platform::Windows, &Backend::Auto));
    assert!(!needs_backend_probe(Platform::MacOs, &Backend::Auto));
    let mut p = sample_profile();
    p.backend = Backend::Auto;
    assert!(resolve_auto_backend(Platform::Windows, &mut p, &check).is_ok());
    assert_eq!(p.backend, Backend::Mountosio);
    let mut q = sample_profile();
    q.backend = Backend::Auto;
    assert_eq!(
        err_text(resolve_auto_backend(Platform::Windows, &mut q, &Json::Null)),
        "no usable Windows mount backend was reported by mountos check"
    );
    assert_eq!(q.backend, Backend::Auto);
    assert!(resolve_auto_backend(Platform::Other, &mut q, &Json::Null).is_ok());
    assert_eq!(q.backend, Backend::Auto);
}

#[test]
fn mount_prechecks_run_in_order() {
    let mut p = sample_profile();
    p.mount_path = "/mnt/team".to_string();
    assert!(mount_precheck("linux", &mut p, &Json::Null).is_ok());
    let mut bad = sample_profile();
    bad.backend = Backend::Smb;
    assert_eq!(err_text(mount_precheck("linux", &mut bad, &Json::Null)), "backend is unavailable on linux");
    let mut empty = sample_profile();
    empty.mount_path = String::new();
    assert_eq!(err_text(mount_precheck("linux", &mut empty, &Json::Null)), "mount path is required");
    let mut managed = sample_profile();
    managed.mount_path = String::new();
    managed.extra_args = strs(&["-m", "/x"]);
    assert!(err_text(mount_precheck("linux", &mut managed, &Json::Null)).starts_with("managed extra args rejected"));
    let mut view = sample_profile();
    assert!(view_precheck("linux", &mut view, &Json::Null).is_ok());
    assert_eq!(already_mounted("/a").message(), "target is already mounted: /a");
}

#[test]
fn inodes_and_timestamps_are_checked() {
    assert_eq!(parse_inode(" 9007199254740993 ").unwrap(), 9007199254740993);
    assert_eq!(parse_inode("+7").unwrap(), 7);
    assert_eq!(parse_inode("18446744073709551615").unwrap(), u64::MAX);
    assert_eq!(err_text(parse_inode("18446744073709551616")), "invalid inode number: \"18446744073709551616\"");
    assert_eq!(err_text(parse_inode("12a")), "invalid inode number: \"12a\"");
    assert!(parse_inode("").is_err());
    assert!(parse_inode("+").is_err());
    assert_eq!(err_text(require_timestamp("  ")), "timestamp is required");
    assert!(require_timestamp("-1d").is_ok());
}

fn finished(a: &LaunchAction) -> Option<Result<String, String>> {
    match a {
        LaunchAction::Finish(Ok(m)) => Some(Ok(format!("{}:{}", m.state, m.target))),
        LaunchAction::Finish(Err(e)) => Some(Err(e.message())),
        _ => None,
    }
}

#[test]
fn daemonizing_launches_end_ready_or_with_the_cli_message() {
    let (s, a) = daemon_launch_step(
        Platform::MacOs,
        "/m",
        DaemonState::Launching,
        LaunchEvent::Exited { success: true, status_text: "exit status: 0".to_string() },
    );
    let _ = s;
    assert_eq!(finished(&a), Some(Ok("ready:/m".to_string())));
    let (_, a) = daemon_launch_step(Platform::MacOs, "/m", DaemonState::Launching, LaunchEvent::TimedOut);
    assert_eq!(finished(&a), Some(Err("launch timed out and the child process was terminated".to_string())));
    let (s, a) = daemon_launch_step(
        Platform::Other,
        "/m",
        DaemonState::Launching,
        LaunchEvent::Exited { success: false, status_text: "exit status: 3".to_string() },
    );
    assert!(matches!(a, LaunchAction::ReadOutput));
    let (_, a) = daemon_launch_step(
        Platform::Other,
        "/m",
        s,
        LaunchEvent::Output { stderr: String::new(), stdout: "\n".to_string() },
    );
    assert_eq!(finished(&a), Some(Err("mountos exited with exit status: 3".to_string())));
}

#[test]
fn indeterminate_launches_are_reconciled_against_the_mount_table() {
    let (s, _) = daemon_launch_step(
        Platform::Other,
        "/m",
        DaemonState::Launching,
        LaunchEvent::Exited { success: false, status_text: "exit status: 1".to_string() },
    );
    let (s, a) = daemon_launch_step(
        Platform::Other,
        "/m",
        s,
        LaunchEvent::Output { stderr: "mount did not become ready within 60s".to_string(), stdout: String::new() },
    );
    assert!(matches!(a, LaunchAction::PollTarget { seconds: 120 }));
    assert!(matches!(pending_action(&s), LaunchAction::PollTarget { seconds: 120 }));
    let (s2, a) = daemon_launch_step(Platform::Other, "/m", s, LaunchEvent::Polled { listed: false });
    let _ = s2;
    assert_eq!(
        finished(&a),
        Some(Err(
            "indeterminate launch did not appear in the mount table after reconciliation: mount did not become ready within 60s"
                .to_string()
        ))
    );
}

#[test]
fn windows_launches_wait_for_the_target() {
    let (s, a) = daemon_launch_step(
        Platform::Windows,
        "D:",
        DaemonState::Launching,
        LaunchEvent::Exited { success: true, status_text: String::new() },
    );
    assert!(matches!(a, LaunchAction::PollTarget { seconds: 60 }));
    let (s, a) = daemon_launch_step(Platform::Windows, "D:", s, LaunchEvent::Polled { listed: false });
    assert!(matches!(a, LaunchAction::ReadOutput));
    let (_, a) = daemon_launch_step(
        Platform::Windows,
        "D:",
        s,
        LaunchEvent::Output { stderr: String::new(), stdout: String::new() },
    );
    assert_eq!(
        finished(&a),
        Some(Err("process exited, but the target did not become ready within 60 seconds".to_string()))
    );
    let (s, a) = daemon_launch_step(Platform::Windows, "D:", DaemonState::ConfirmingReady, LaunchEvent::TimedOut);
    assert!(matches!(s, DaemonState::ConfirmingReady));
    assert!(matches!(a, LaunchAction::PollTarget { seconds: 60 }));
}

#[test]
fn foreground_views_and_gateways_finish_as_reported() {
    assert!(matches!(view_poll_step("/v", ViewEvent::Pending), ViewAction::KeepPolling));
    match view_poll_step("/v", ViewEvent::Listed) {
        ViewAction::Ready(m) => assert_eq!(m.target, "/v"),
        _ => panic!("expected ready"),
    }
    match view_poll_step("/v", ViewEvent::TimedOut) {
        ViewAction::KillAndFail(e) => {
            assert_eq!(e.message(), "view mount timed out before becoming ready and was terminated")
        }
        _ => panic!("expected kill"),
    }
    match view_poll_step(
        "/v",
        ViewEvent::Exited { status_text: "exit status: 2".to_string(), stderr: String::new(), stdout: String::new() },
    ) {
        ViewAction::Fail(e) => {
            assert_eq!(e.message(), "mountos exited with exit status: 2 before the view became ready")
        }
        _ => panic!("expected failure"),
    }
    assert_eq!(gateway_only_outcome(Some(true), "", "").unwrap().target, "gateway");
    assert_eq!(
        err_text(gateway_only_outcome(None, "", "")),
        "gateway launch timed out and the child process was terminated"
    );
    assert_eq!(err_text(gateway_only_outcome(Some(false), "exit status: 1", "")), "mountos gateway exited with exit status: 1");
    assert_eq!(err_text(gateway_only_outcome(Some(false), "exit status: 1", "bad key")), "bad key");
}

// ---- CLI output ----

#[test]
fn command_outputs_become_text_or_errors() {
    assert_eq!(mcp_status_blocking(&output(true, "0", b" ok \n", b"")).unwrap(), "ok");
    assert_eq!(
        err_text(mcp_status_blocking(&output(false, "exit status: 1", b"", b""))),
        "mountos mcp status exited with exit status: 1"
    );
    assert_eq!(mcp_argv("install"), strs(&["mcp", "install"]));
    let argv = strs(&["fork", "list"]);
    assert_eq!(fork_command_blocking(&argv, &output(true, "0", b"", b"note\n")).unwrap(), "note");
    assert_eq!(
        err_text(fork_command_blocking(&argv, &output(false, "exit status: 4", b"", b""))),
        "mountos fork list exited with exit status: 4"
    );
    assert_eq!(err_text(mount_help_blocking(&output(true, "exit status: 0", b"  ", b""))), "mountos mount -h exited with exit status: 0");
    assert_eq!(cli_version(Some(&output(true, "0", b"mountos 1.2.3\n", b""))).as_deref(), Some("mountos 1.2.3"));
    assert_eq!(cli_version(None), None);
    assert_eq!(cli_version(Some(&output(true, "0", b"\xff", b""))).as_deref(), Some("\u{fffd}"));
}

// ---- system state and tray ----

#[test]
fn check_failures_become_issues() {
    let (ok, issues) = check_failure_report(&DesktopError::CliNotFound);
    assert!(!ok);
    assert_eq!(issues[0].id, "cli-missing");
    assert!(issues[0].detail.as_deref().unwrap().ends_with("Settings \u{2192} About."));
    let (_, issues) = check_failure_report(&DesktopError::Io("denied".to_string()));
    assert_eq!(issues[0].id, "cli-unavailable");
    assert_eq!(issues[0].detail.as_deref(), Some("io error: denied"));
    let mut ok = true;
    let mut list = issues;
    note_list_failure(&mut ok, &mut list, &DesktopError::Message("mountos list failed: x".to_string()));
    assert!(!ok);
    assert_eq!(list.len(), 2);
    assert_eq!(list[1].id, "list-failed");
    assert_eq!(list[1].title, "Unable to enumerate mounts");
}

#[test]
fn running_mounts_are_matched_to_profiles() {
    let mut unmounted = sample_profile();
    unmounted.id = "no-path".to_string();
    unmounted.mount_path = String::new();
    let targets = profile_targets(&[unmounted, sample_profile()]);
    assert_eq!(targets, vec![("profile-1".to_string(), "/Volumes/MountOS/Team".to_string())]);
    assert_eq!(match_profile(Platform::MacOs, "/Volumes/MountOS/Team/", &targets).as_deref(), Some("profile-1"));
    assert_eq!(match_profile(Platform::MacOs, "/Volumes/Other", &targets), None);
    let mut instances = parse_instances_value(&doc(r#"[{"mountPath":"/Volumes/MountOS/Team"}]"#));
    let extras = InstanceConfigExtras { mount_time: Some("t".to_string()), volume_kind: None, temporary_fork: Some(false) };
    annotate_instance(&mut instances[0], Some("profile-1".to_string()), extras);
    assert!(!instances[0].external);
    assert_eq!(instances[0].profile_id.as_deref(), Some("profile-1"));
    assert_eq!(instances[0].mount_time.as_deref(), Some("t"));
}

fn tray_ids(items: &[TrayItem]) -> Vec<String> {
    items
        .iter()
        .map(|i| match i {
            TrayItem::Entry { id, label, enabled } => format!("{id}|{label}|{enabled}"),
            TrayItem::Separator => "---".to_string(),
        })
        .collect()
}

#[test]
fn the_tray_lists_at_most_fifteen_mounts() {
    let empty = tray_menu_items(Platform::MacOs, &[]);
    assert_eq!(
        tray_ids(&empty),
        vec![
            "no-mounts|No active mounts|false".to_string(),
            "---".to_string(),
            "show|Open mountOS|true".to_string(),
            "quit|Quit mountOS|true".to_string(),
        ]
    );
    let mut entries = Vec::new();
    for k in 0..17 {
        entries.push(format!(r#"{{"mountPath":"/m/{k}","name":"{}"}}"#, if k == 0 { "" } else { "Vol" }));
    }
    let listing = format!("[{}]", entries.join(","));
    let instances = parse_instances_value(&doc(&listing));
    let items = tray_menu_items(Platform::MacOs, &instances);
    let ids = tray_ids(&items);
    assert_eq!(ids.len(), 15 + 1 + 3);
    assert_eq!(ids[0], "open-mount:/m/0|/m/0 \u{2014} healthy|true");
    assert_eq!(ids[1], "open-mount:/m/1|Vol \u{2014} healthy|true");
    assert_eq!(ids[15], "show|+2 more|true");
}

// ---- diagnostics and export ----

#[test]
fn diagnostics_record_profiles_without_secrets() {
    let s = profile_summaries(&[sample_profile()]);
    assert_eq!(s.len(), 1);
    assert_eq!(s[0].extra_args_count, 2);
    assert_eq!(s[0].secret_ref, "prompt");
    assert_eq!(diagnostics_file_name(1700000000), "mountos-desktop-diagnostics-1700000000.json");
    assert!(check_diagnostics_target("/cache/diagnostics", "/cache/diagnostics/a.json").is_ok());
    assert_eq!(
        err_text(check_diagnostics_target("/cache/diagnostics", "/cache/diagnostics-evil/a.json")),
        "refusing to open a path outside the diagnostics directory"
    );
}

#[test]
fn guarded_targets_and_license_files() {
    assert!(require_openable_target(Platform::Other, "/m").is_ok());
    assert_eq!(
        err_text(require_openable_target(Platform::Other, "m")),
        "mount target is not an absolute filesystem path"
    );
    assert_eq!(
        inactive_target_refusal(TargetUse::Dashboard).message(),
        "refusing to launch a dashboard for a path that is not an active mount target"
    );
    assert_eq!(license_file_name("rust").unwrap(), "rust.json");
    assert_eq!(license_file_name("js").unwrap(), "js.json");
    assert_eq!(err_text(license_file_name("go")), "unknown license kind: go");
}

#[test]
fn volume_kinds_and_exports() {
    assert_eq!(detected_volume_kind(b"Iceberg\n").as_deref(), Some("iceberg"));
    assert_eq!(detected_volume_kind(b"  \n"), None);
    let mut vault = sample_profile();
    vault.secret_ref = "vault".to_string();
    let exported = exported_profile(&vault);
    assert_eq!(exported.secret_ref, "prompt");
    assert_eq!(exported.access_key_id, vault.access_key_id);
    assert_eq!(export_file_name(&vault), "Team files.mosprofile");
}

// ---- listing ----

#[test]
fn profiles_are_listed_newest_first_and_ties_keep_their_order() {
    let mut a = sample_profile();
    a.id = "a".to_string();
    a.updated_at = "2026-01-01".to_string();
    let mut b = sample_profile();
    b.id = "b".to_string();
    b.updated_at = "2026-03-01".to_string();
    let mut c = sample_profile();
    c.id = "c".to_string();
    c.updated_at = "2026-01-01".to_string();
    let sorted = sort_profiles_newest_first(&[a, b, c]);
    let ids: Vec<&str> = sorted.iter().map(|p| p.id.as_str()).collect();
    assert_eq!(ids, vec!["b", "a", "c"]);
    assert!(text_lt("2026-01-01", "2026-03-01"));
    assert!(text_lt("ab", "abc"));
    assert!(!text_lt("b", "abc"));
    assert!(!text_lt("x", "x"));
}

#[test]
fn satellite_suffixes_are_the_last_four_nanosecond_digits() {
    assert_eq!(suffix_from_nanos(123_456_789), "6789");
    assert_eq!(suffix_from_nanos(1_000_042), "0042");
    assert_eq!(suffix_from_nanos(0), "0000");
}

#[test]
fn launch_logs_and_timeouts_are_named_after_the_launch() {
    let (err, out) = launch_log_names("mount", "p1", None);
    assert_eq!(err, "mount-p1-stderr.log");
    assert_eq!(out, "mount-p1-stdout.log");
    let (err, _) = launch_log_names("deleted", "p1", Some("00ff"));
    assert_eq!(err, "deleted-p1-00ff-stderr.log");
    assert_eq!(
        cli_timeout_error(&strs(&["fork", "list", "--json"])).message(),
        "mountos fork list --json timed out after 30s"
    );
}

#[test]
fn the_mount_table_is_matched_by_mount_point() {
    assert!(contains_target(Platform::Other, &strs(&["/a", "/b/"]), "/b"));
    assert!(!contains_target(Platform::Other, &strs(&["/a"]), "/A"));
    assert!(contains_target(Platform::Windows, &strs(&["D:\\"]), "d:"));
    assert!(!contains_target(Platform::Other, &[], "/a"));
}

#[test]
fn gateway_combos_are_checked_like_mounts() {
    let mut only = sample_profile();
    only.backend = Backend::Smb;
    assert!(gateway_precheck("linux", &mut only, true, &Json::Null).is_ok());
    assert_eq!(err_text(gateway_precheck("linux", &mut only, false, &Json::Null)), "backend is unavailable on linux");
    let mut combo = sample_profile();
    combo.mount_path = String::new();
    assert_eq!(
        err_text(gateway_precheck("linux", &mut combo, false, &Json::Null)),
        "mount path is required for a mount+gateway combo; enable gateway-only if this profile doesn't need a FUSE mount"
    );
}

#[test]
fn terminal_launch_failures_explain_themselves() {
    assert_eq!(
        osascript_failure("iTerm", "execution error: (-1712)", "exit status: 1").message(),
        "macOS blocked mountOS Desktop from controlling iTerm. Grant it in System Settings \u{2192} Privacy & Security \u{2192} Automation, then try again."
    );
    assert_eq!(osascript_failure("Terminal", "", "exit status: 1").message(), "osascript exited with exit status: 1");
    assert_eq!(osascript_failure("Terminal", "boom", "exit status: 1").message(), "boom");
    assert_eq!(open_app_failure("Ghostty", "", "exit status: 1").message(), "open -na Ghostty exited with exit status: 1");
}

#[test]
fn a_detected_volume_kind_is_kept_once_set() {
    let mut p = sample_profile();
    with_volume_kind(&mut p, "general".to_string());
    assert_eq!(p.volume_kind.as_deref(), Some("general"));
    with_volume_kind(&mut p, "iceberg".to_string());
    assert_eq!(p.volume_kind.as_deref(), Some("general"));
}

