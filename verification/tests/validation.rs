use mountos_desktop::extra_args::{reject_managed_extra_args, validate_extra_args};
use mountos_desktop::profile::{
    export_file_stem, find_profile, is_openable_target, keyring_account, profile_file_name,
    require_stable_identity, targets_equal, validate_backend_for_platform, validate_fork_name,
    validate_mount_path_for_backend, validate_profile_for_save, validate_profile_id,
    validate_view_destination, Backend, MountProfile, Platform,
};

fn team_profile() -> MountProfile {
    MountProfile {
        id: "profile-1".to_string(),
        schema_version: 1,
        kind: "mount".to_string(),
        name: "Team files".to_string(),
        volume: "Team files".to_string(),
        fork: "main".to_string(),
        mount_path: "/Volumes/MountOS/Team".to_string(),
        discovery_url: "https://hub.example.com".to_string(),
        access_key_id: "ABCDEFGHIJKLMNOPQRST".to_string(),
        secret_ref: "prompt".to_string(),
        backend: Backend::Nfs,
        cache_dir: Some("/tmp/mountos cache".to_string()),
        read_only: true,
        auto_remount: false,
        temporary_fork: false,
        trusted_discovery_host: None,
        extra_args: vec!["--disk-cache-size".to_string(), "10G".to_string()],
        created_at: "2026-07-10T00:00:00Z".to_string(),
        updated_at: "2026-07-10T00:00:00Z".to_string(),
        volume_kind: None,
    }
}

fn strings(v: &[&str]) -> Vec<String> {
    v.iter().map(|s| s.to_string()).collect()
}

fn message_of<T>(r: Result<T, mountos_desktop::error::DesktopError>) -> String {
    match r {
        Ok(_) => panic!("expected an error"),
        Err(e) => e.message(),
    }
}

#[test]
fn deserializes_unknown_backend_ids_as_auto() {
    for raw in ["\"fileprovider\"", "\"cloudfilter\"", "\"\"", "\"nonsense\""] {
        let id: String = serde_json::from_str(raw).expect("unknown id must not fail");
        let backend = Backend::from_id(&id);
        assert!(matches!(backend, Backend::Auto), "{raw} should map to Auto");
    }
    let known: String = serde_json::from_str("\"mountosio\"").expect("known id parses");
    assert!(matches!(Backend::from_id(&known), Backend::Mountosio));
}

#[test]
fn backend_ids_round_trip() {
    for b in [Backend::Auto, Backend::Macfuse, Backend::Fskit, Backend::Nfs, Backend::Smb, Backend::Mountosio] {
        assert_eq!(Backend::from_id(&b.id()), b);
    }
    assert_eq!(Backend::Mountosio.id(), "mountosio");
}

#[test]
fn validates_fskit_mount_path_prefix() {
    let p = Platform::MacOs;
    assert!(validate_mount_path_for_backend(p, &Backend::Fskit, "/Volumes/MountOS/Team").is_ok());
    assert!(validate_mount_path_for_backend(p, &Backend::Fskit, "/Volumes/MountOS/Team/").is_ok());
    assert!(validate_mount_path_for_backend(p, &Backend::Fskit, "/Volumes/MountOS/").is_err());
    assert!(validate_mount_path_for_backend(p, &Backend::Fskit, "/Volumes/MountOS").is_err());
    assert!(validate_mount_path_for_backend(p, &Backend::Fskit, "/tmp/Team").is_err());
    assert!(validate_mount_path_for_backend(p, &Backend::Fskit, "").is_err());
    assert!(validate_mount_path_for_backend(p, &Backend::Fskit, "/volumes/mountos/Team").is_err());
    assert!(validate_mount_path_for_backend(
        p,
        &Backend::Fskit,
        "/Volumes/MountOS/x/../../../../../etc/cron.d/evil"
    )
    .is_err());
    assert!(validate_mount_path_for_backend(p, &Backend::Nfs, "/tmp/anything").is_ok());
    assert!(validate_mount_path_for_backend(p, &Backend::Nfs, "").is_ok());
}

#[test]
fn mount_path_errors_quote_the_path() {
    assert_eq!(
        message_of(validate_mount_path_for_backend(Platform::Other, &Backend::Nfs, "relative/path")),
        "mount path must be an absolute filesystem path, got \"relative/path\""
    );
    assert_eq!(
        message_of(validate_mount_path_for_backend(Platform::MacOs, &Backend::Fskit, "/tmp/Team")),
        "FSKit requires a mount point under /Volumes/MountOS/<name>, got \"/tmp/Team\""
    );
}

#[test]
fn rejects_non_absolute_mount_paths_for_backends_that_need_one() {
    let unix = Platform::Other;
    assert!(validate_mount_path_for_backend(unix, &Backend::Nfs, "").is_ok());
    assert!(validate_mount_path_for_backend(unix, &Backend::Nfs, "relative/path").is_err());
    assert!(validate_mount_path_for_backend(unix, &Backend::Nfs, "not-a-path").is_err());
    let windows = Platform::Windows;
    assert!(validate_mount_path_for_backend(windows, &Backend::Mountosio, "C:\\Mounts\\Team").is_ok());
    assert!(validate_mount_path_for_backend(windows, &Backend::Mountosio, "D:").is_ok());
    assert!(validate_mount_path_for_backend(windows, &Backend::Mountosio, "/Volumes/Team").is_err());
    assert!(validate_mount_path_for_backend(unix, &Backend::Nfs, "/Volumes/Team").is_ok());
}

#[test]
fn validates_extra_arg_values_without_treating_them_as_positionals() {
    assert!(validate_extra_args(&strings(&["--disk-cache-size", "10G", "--debug"])).is_empty());
    assert_eq!(
        validate_extra_args(&strings(&["--mount", "/tmp/other"])),
        strings(&["--mount", "/tmp/other"])
    );
    assert_eq!(
        validate_extra_args(&strings(&["--destination", "/tmp/other"])),
        strings(&["--destination", "/tmp/other"])
    );
}

#[test]
fn validates_short_flag_clusters() {
    assert_eq!(validate_extra_args(&strings(&["-am"])), strings(&["-am"]));
    assert_eq!(validate_extra_args(&strings(&["-ma"])), strings(&["-ma"]));
    assert!(validate_extra_args(&strings(&["-o"])).is_empty());
    assert!(validate_extra_args(&strings(&["-oallow_other"])).is_empty());
    assert!(validate_extra_args(&strings(&["-oa"])).is_empty());
    assert_eq!(validate_extra_args(&strings(&["--"])), strings(&["--"]));
}

#[test]
fn refuses_gateway_flags_equals_forms_and_stray_positionals() {
    assert_eq!(
        validate_extra_args(&strings(&["--gateway-port=1", "--volname=x"])),
        strings(&["--gateway-port=1", "--volname=x"])
    );
    assert_eq!(validate_extra_args(&strings(&["stray"])), strings(&["stray"]));
    assert!(validate_extra_args(&strings(&["--acl", "--debug"])).is_empty());
    assert_eq!(validate_extra_args(&strings(&["--read-only"])), strings(&["--read-only"]));
}

#[test]
fn managed_extra_args_fail_the_profile_with_the_refused_list() {
    let mut p = team_profile();
    assert!(reject_managed_extra_args(&p).is_ok());
    p.extra_args = strings(&["--mount", "/tmp/other", "-s"]);
    assert_eq!(
        message_of(reject_managed_extra_args(&p)),
        "managed extra args rejected: --mount, /tmp/other, -s"
    );
}

#[test]
fn rejects_profile_path_traversal_ids() {
    assert!(validate_profile_id("550e8400-e29b-41d4-a716-446655440000").is_ok());
    assert!(validate_profile_id("../outside").is_err());
    assert!(validate_profile_id("").is_err());
}

#[test]
fn profile_ids_name_files_and_keychain_accounts() {
    assert_eq!(profile_file_name("abc_1").unwrap(), "abc_1.json");
    assert_eq!(keyring_account("abc_1").unwrap(), "profile/abc_1");
    assert_eq!(message_of(profile_file_name("a/b")), "invalid profile id");
    assert!(validate_profile_id(&"x".repeat(128)).is_ok());
    assert!(validate_profile_id(&"x".repeat(129)).is_err());
}

#[test]
fn rejects_non_path_open_targets() {
    assert!(is_openable_target(Platform::MacOs, "/Volumes/MountOS/Team"));
    assert!(!is_openable_target(Platform::MacOs, "an-os-managed-domain-id"));
    assert!(is_openable_target(Platform::Windows, "C:"));
    assert!(!is_openable_target(Platform::Other, "C:"));
}

#[test]
fn sanitizes_export_file_stems() {
    assert_eq!(export_file_stem("Team files", "id"), "Team files");
    assert_eq!(export_file_stem("a/b\\c:d", "id"), "a-b-c-d");
    assert_eq!(export_file_stem("///", "fallback-id"), "fallback-id");
    assert_eq!(export_file_stem("", "fallback-id"), "fallback-id");
}

#[test]
fn rejects_fork_names_starting_with_hyphen_or_empty() {
    assert!(validate_fork_name("   ").is_err());
    assert!(validate_fork_name("-oops").is_err());
    assert_eq!(validate_fork_name(" my-branch ").unwrap(), "my-branch");
    assert_eq!(validate_fork_name("my-branch").unwrap(), "my-branch");
}

#[test]
fn view_destination_must_be_absolute_and_differ_from_profile_mount_path() {
    let p = team_profile();
    let unix = Platform::Other;
    assert!(validate_view_destination(unix, &p, "", "", &p.mount_path).is_err());
    assert!(validate_view_destination(unix, &p, "relative/path", "relative/path", &p.mount_path).is_err());
    assert!(validate_view_destination(unix, &p, &p.mount_path, &p.mount_path, &p.mount_path).is_err());
    assert!(validate_view_destination(unix, &p, "/tmp/some-other-view", "/tmp/some-other-view", &p.mount_path).is_ok());
}

#[test]
fn targets_compare_without_trailing_separators() {
    assert!(targets_equal(Platform::Other, "/tmp/a/", "/tmp/a"));
    assert!(!targets_equal(Platform::Other, "/tmp/A", "/tmp/a"));
    assert!(targets_equal(Platform::Windows, "C:\\Mounts\\Team\\", "c:\\mounts\\team"));
}

#[test]
fn backends_follow_the_platform() {
    assert!(validate_backend_for_platform("macos", &Backend::Fskit).is_ok());
    assert!(validate_backend_for_platform("windows", &Backend::Mountosio).is_ok());
    assert!(validate_backend_for_platform("linux", &Backend::Nfs).is_ok());
    assert_eq!(
        message_of(validate_backend_for_platform("linux", &Backend::Smb)),
        "backend is unavailable on linux"
    );
    assert!(validate_backend_for_platform("windows", &Backend::Nfs).is_err());
}

#[test]
fn saving_checks_schema_kind_keys_and_identity() {
    let p = team_profile();
    assert!(validate_profile_for_save(Platform::Other, &p, None).is_ok());
    let mut bad = team_profile();
    bad.schema_version = 2;
    assert_eq!(
        message_of(validate_profile_for_save(Platform::Other, &bad, None)),
        "unsupported profile schema version 2"
    );
    let mut bad = team_profile();
    bad.kind = "gateway".to_string();
    assert_eq!(message_of(validate_profile_for_save(Platform::Other, &bad, None)), "unsupported profile kind");
    let mut bad = team_profile();
    bad.secret_ref = "vault".to_string();
    bad.access_key_id = String::new();
    assert_eq!(
        message_of(validate_profile_for_save(Platform::Other, &bad, None)),
        "vault storage requires an access key ID"
    );
    let mut bad = team_profile();
    bad.access_key_id = "SHORT".to_string();
    assert_eq!(
        message_of(validate_profile_for_save(Platform::Other, &bad, None)),
        "access key ID must be 20 characters"
    );
}

#[test]
fn a_detected_volume_locks_the_profile_identity() {
    let mut existing = team_profile();
    existing.volume_kind = Some("general".to_string());
    let mut edited = team_profile();
    edited.volume_kind = Some("general".to_string());
    assert!(require_stable_identity(Some(&existing), &edited).is_ok());
    edited.volume = "Other volume".to_string();
    assert!(message_of(require_stable_identity(Some(&existing), &edited)).starts_with("this profile's identity is locked"));
    let mut rekinded = team_profile();
    rekinded.volume_kind = Some("iceberg".to_string());
    assert_eq!(
        message_of(require_stable_identity(Some(&existing), &rekinded)),
        "volume kind cannot be changed once detected"
    );
    let unlocked = team_profile();
    assert!(require_stable_identity(Some(&unlocked), &edited).is_ok());
    assert!(require_stable_identity(None, &edited).is_ok());
}

#[test]
fn finds_profiles_by_exact_id() {
    let mut other = team_profile();
    other.id = "profile-2".to_string();
    let list = vec![team_profile(), other];
    assert_eq!(find_profile(&list, "profile-2").unwrap().id, "profile-2");
    assert_eq!(message_of(find_profile(&list, "profile-3")), "profile not found");
    assert_eq!(message_of(find_profile(&list, "../x")), "invalid profile id");
}

#[test]
fn windows_paths_are_absolute_as_path_reads_them() {
    let w = Platform::Windows;
    assert!(is_openable_target(w, "\\\\server\\share"));
    assert!(is_openable_target(w, "//server/share/dir"));
    assert!(!is_openable_target(w, "\\\\server"));
    assert!(!is_openable_target(w, "\\\\server\\"));
    assert!(!is_openable_target(w, "\\\\"));
    assert!(!is_openable_target(w, "\\\\\\share"));
    assert!(is_openable_target(w, "\\\\?\\C:\\x"));
    assert!(is_openable_target(w, "\\\\.\\COM1"));
    assert!(!is_openable_target(w, "\\temp"));
    assert!(validate_mount_path_for_backend(w, &Backend::Mountosio, "\\\\server").is_err());
}
