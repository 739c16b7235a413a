use mountos_desktop::argv::{
    build_deleted_argv, build_fork_create_argv, build_fork_delete_argv, build_fork_list_argv,
    build_fork_restore_argv, build_gateway_argv, build_mount_argv, build_snapshot_argv,
    build_version_argv, satellite_volname,
};
use mountos_desktop::profile::{Backend, MountProfile};

fn profile() -> MountProfile {
    MountProfile {
        id: "profile-1".to_string(),
        schema_version: 1,
        kind: "mount".to_string(),
        name: "Team files".to_string(),
        volume: "Team files".to_string(),
        fork: "main".to_string(),
        mount_path: "/Volumes/MountOS/Team".to_string(),
        discovery_url: "https://hub.example.com".to_string(),
        access_key_id: "ABCDEFGHIJKLMNOPQRST".to_string(),
        secret_ref: "prompt".to_string(),
        backend: Backend::Nfs,
        cache_dir: Some("/tmp/mountos cache".to_string()),
        read_only: true,
        auto_remount: false,
        temporary_fork: false,
        trusted_discovery_host: None,
        extra_args: vec!["--disk-cache-size".to_string(), "10G".to_string()],
        created_at: "2026-07-10T00:00:00Z".to_string(),
        updated_at: "2026-07-10T00:00:00Z".to_string(),
        volume_kind: None,
    }
}

#[test]
fn builds_current_cli_flags_without_a_secret_value() {
    let argv = build_mount_argv(&profile());
    assert!(argv.windows(2).any(|args| args == ["--volname", "Team files"]));
    assert!(argv.windows(2).any(|args| args == ["--fork-name", "main"]));
    assert!(argv
        .windows(2)
        .any(|args| args == ["--disk-cache-dir", "/tmp/mountos cache"]));
    assert!(argv.contains(&"--nfs".to_string()));
    assert!(argv.contains(&"-s".to_string()));
    assert!(!argv.contains(&"--volume".to_string()));
    assert!(!argv.contains(&"--fork".to_string()));
    assert!(!argv.contains(&"--cache-dir".to_string()));
    assert!(!argv.iter().any(|arg| arg.len() == 40));
}

#[test]
fn emits_mount_flag_whenever_a_mount_path_is_set() {
    let mut p = profile();
    p.mount_path = "/some/path".to_string();
    for backend in [
        Backend::Auto,
        Backend::Macfuse,
        Backend::Fskit,
        Backend::Nfs,
        Backend::Smb,
        Backend::Mountosio,
    ] {
        p.backend = backend;
        assert!(build_mount_argv(&p).contains(&"-m".to_string()));
    }

    p.mount_path = String::new();
    assert!(!build_mount_argv(&p).contains(&"-m".to_string()));
}

#[test]
fn mount_argv_has_the_exact_shape() {
    let argv = build_mount_argv(&profile());
    assert_eq!(
        argv,
        vec![
            "mount",
            "--discovery-url",
            "https://hub.example.com",
            "--volname",
            "Team files",
            "--fork-name",
            "main",
            "-m",
            "/Volumes/MountOS/Team",
            "-a",
            "ABCDEFGHIJKLMNOPQRST",
            "-s",
            "--read-only",
            "--disk-cache-dir",
            "/tmp/mountos cache",
            "--disk-cache-size",
            "10G",
            "--nfs",
        ]
    );
    let mut bare = profile();
    bare.discovery_url = String::new();
    bare.volume = String::new();
    bare.fork = String::new();
    bare.mount_path = String::new();
    bare.access_key_id = String::new();
    bare.read_only = false;
    bare.temporary_fork = true;
    bare.cache_dir = Some(String::new());
    bare.extra_args = Vec::new();
    bare.backend = Backend::Auto;
    assert_eq!(build_mount_argv(&bare), vec!["mount", "--temporary-fork"]);
}

#[test]
fn builds_snapshot_argv_with_fused_timestamp_flag_and_dash_m() {
    let argv = build_snapshot_argv(&profile(), "/tmp/snap-view", "-1d");
    assert!(argv.contains(&"--timestamp=-1d".to_string()));
    assert!(!argv.iter().any(|arg| arg == "--timestamp"));
    assert!(argv.windows(2).any(|pair| pair == ["-m", "/tmp/snap-view"]));
    assert!(!argv.contains(&"--destination".to_string()));

    let padded = build_snapshot_argv(&profile(), "/tmp/snap-view", "  -1d  ");
    assert!(padded.contains(&"--timestamp=-1d".to_string()));
}

#[test]
fn builds_deleted_argv_uses_destination_and_omits_optional_flags_when_blank() {
    let bare = build_deleted_argv(&profile(), "/tmp/deleted-view", None, None);
    assert!(bare
        .windows(2)
        .any(|pair| pair == ["--destination", "/tmp/deleted-view"]));
    assert!(!bare.contains(&"-m".to_string()));
    assert!(!bare.iter().any(|arg| arg.starts_with("--from")));
    assert!(!bare.iter().any(|arg| arg.starts_with("--idle-timeout")));

    let full = build_deleted_argv(&profile(), "/tmp/deleted-view", Some("30d"), Some("1h"));
    assert!(full.contains(&"--from=30d".to_string()));
    assert!(full.contains(&"--idle-timeout=1h".to_string()));

    let padded = build_deleted_argv(&profile(), "/tmp/deleted-view", None, Some("  1h  "));
    assert!(padded.contains(&"--idle-timeout=1h".to_string()));

    let padded_from = build_deleted_argv(&profile(), "/tmp/deleted-view", Some("  30d  "), None);
    assert!(padded_from.contains(&"--from=30d".to_string()));
}

#[test]
fn builds_version_argv_treats_inode_as_string_safe_u64() {
    let argv = build_version_argv(&profile(), "/tmp/version-view", u64::MAX, None, None);
    assert!(argv
        .windows(2)
        .any(|pair| pair == ["-i", &u64::MAX.to_string()]));
    assert!(argv
        .windows(2)
        .any(|pair| pair == ["--destination", "/tmp/version-view"]));
    assert!(!argv.iter().any(|arg| arg.starts_with("--version-format")));

    let dated = build_version_argv(&profile(), "/tmp/version-view", 1, Some("date"), Some("5m"));
    assert!(dated.contains(&"--version-format=date".to_string()));
    assert!(dated.contains(&"--idle-timeout=5m".to_string()));

    let padded = build_version_argv(&profile(), "/tmp/version-view", 1, Some("  date  "), None);
    assert!(padded.contains(&"--version-format=date".to_string()));
}

#[test]
fn version_argv_omits_the_default_number_format() {
    let argv = build_version_argv(&profile(), "/tmp/v", 0, Some(" number "), Some("   "));
    assert!(argv.windows(2).any(|pair| pair == ["-i", "0"]));
    assert!(!argv.iter().any(|arg| arg.starts_with("--version-format")));
    assert!(!argv.iter().any(|arg| arg.starts_with("--idle-timeout")));
}

#[test]
fn emits_backend_flag_for_view_mounts() {
    let mut p = profile();
    p.backend = Backend::Mountosio;
    let argv = build_deleted_argv(&p, "/tmp/deleted-view", None, None);
    assert!(argv.windows(2).any(|pair| pair == ["--backend", "mountosio"]));

    p.backend = Backend::Nfs;
    let argv = build_deleted_argv(&p, "/tmp/deleted-view", None, None);
    assert!(argv.contains(&"--nfs".to_string()));

    p.backend = Backend::Macfuse;
    let argv = build_snapshot_argv(&p, "/tmp/snap-view", "1d");
    assert!(argv.contains(&"--macfuse".to_string()));
}

#[test]
fn fork_argv_never_emits_type_flag_or_volume_flag() {
    let p = profile();
    let list = build_fork_list_argv(&p);
    let create = build_fork_create_argv(&p, "child", Some("main"), Some("1d"));
    let delete = build_fork_delete_argv(&p, "child", true);
    let restore = build_fork_restore_argv(&p, "child");
    for argv in [&list, &create, &delete, &restore] {
        assert!(!argv.iter().any(|arg| arg.starts_with("--type")));
        assert!(!argv.contains(&"--volname".to_string()));
        assert!(!argv.contains(&"-m".to_string()));
    }
    assert!(list.contains(&"--json".to_string()));
    assert!(create.contains(&"--parent=main".to_string()));
    assert!(create.contains(&"--as-of=1d".to_string()));
    let padded = build_fork_create_argv(&p, "child", Some("  main  "), Some("  1d  "));
    assert!(padded.contains(&"--parent=main".to_string()));
    assert!(padded.contains(&"--as-of=1d".to_string()));
    assert!(delete.contains(&"--force".to_string()));
    assert!(list.contains(&"list".to_string()));
    assert!(restore.contains(&"restore".to_string()));
}

#[test]
fn satellite_volname_falls_back_when_profile_volume_empty() {
    let mut p = profile();
    let snap = satellite_volname(&p, "snapshot");
    assert!(snap.starts_with("Team files-snap-"), "{snap}");
    assert_eq!(snap.len(), "Team files-snap-".len() + 4);
    p.volume = String::new();
    let deleted = satellite_volname(&p, "deleted");
    assert!(deleted.starts_with("mountOS-del-"), "{deleted}");
    assert_eq!(deleted.len(), "mountOS-del-".len() + 4);
}

#[test]
fn builds_gateway_only_argv_with_no_mount_point_or_volname() {
    let p = profile();
    let argv = build_gateway_argv(&p, &["s3".to_string()], None, true, false, None, None);
    assert_eq!(argv[0], "gateway");
    assert!(!argv.contains(&"-m".to_string()));
    assert!(!argv.contains(&"--volname".to_string()));
    assert!(argv.windows(2).any(|pair| pair == ["--fork-name", "main"]));
    assert!(argv.contains(&"-s".to_string()));
    assert!(argv.windows(2).any(|pair| pair == ["--gateway", "s3"]));
}

#[test]
fn builds_gateway_combo_argv_reusing_full_mount_argv() {
    let p = profile();
    let argv = build_gateway_argv(
        &p,
        &["s3".to_string(), "hdfs".to_string()],
        Some("9001"),
        false,
        false,
        None,
        None,
    );
    assert_eq!(argv[0], "mount");
    assert!(argv.windows(2).any(|pair| pair == ["-m", p.mount_path.as_str()]));
    assert!(argv.windows(2).any(|pair| pair == ["--gateway", "s3,hdfs"]));
    assert!(argv.windows(2).any(|pair| pair == ["--gateway-port", "9001"]));
    assert!(!argv.contains(&"--gateway-only".to_string()));
}

#[test]
fn gateway_argv_omits_port_and_tls_when_blank() {
    let p = profile();
    let argv = build_gateway_argv(&p, &["s3".to_string()], Some("  "), true, false, None, None);
    assert!(!argv.iter().any(|arg| arg == "--gateway-port"));
    assert!(!argv.contains(&"--gateway-cert".to_string()));
    assert!(!argv.contains(&"--gateway-key".to_string()));
}

#[test]
fn gateway_argv_emits_tls_flags_only_when_both_cert_and_key_present() {
    let p = profile();
    let argv = build_gateway_argv(
        &p,
        &["s3".to_string()],
        None,
        true,
        true,
        Some("/tmp/cert.pem"),
        Some("/tmp/key.pem"),
    );
    assert!(argv.windows(2).any(|pair| pair == ["--gateway-cert", "/tmp/cert.pem"]));
    assert!(argv.windows(2).any(|pair| pair == ["--gateway-key", "/tmp/key.pem"]));
    assert!(argv.contains(&"--gateway-no-loopback".to_string()));

    let missing_key = build_gateway_argv(
        &p,
        &["s3".to_string()],
        None,
        true,
        false,
        Some("/tmp/cert.pem"),
        None,
    );
    assert!(!missing_key.contains(&"--gateway-cert".to_string()));

    let padded = build_gateway_argv(
        &p,
        &["s3".to_string()],
        None,
        true,
        true,
        Some("  /tmp/cert.pem  "),
        Some("  /tmp/key.pem  "),
    );
    assert!(padded.windows(2).any(|pair| pair == ["--gateway-cert", "/tmp/cert.pem"]));
    assert!(padded.windows(2).any(|pair| pair == ["--gateway-key", "/tmp/key.pem"]));
}

#[test]
fn satellite_and_gateway_only_argv_include_cache_dir_and_extra_args() {
    let p = profile();
    let snapshot = build_snapshot_argv(&p, "/tmp/snap-view", "1d");
    let deleted = build_deleted_argv(&p, "/tmp/deleted-view", None, None);
    let version = build_version_argv(&p, "/tmp/version-view", 1, None, None);
    let gateway_only = build_gateway_argv(&p, &["s3".to_string()], None, true, false, None, None);
    for argv in [&snapshot, &deleted, &version, &gateway_only] {
        assert!(
            argv.windows(2)
                .any(|pair| pair == ["--disk-cache-dir", "/tmp/mountos cache"]),
            "missing --disk-cache-dir in {argv:?}"
        );
        assert!(
            argv.windows(2)
                .any(|pair| pair == ["--disk-cache-size", "10G"]),
            "missing extra_args in {argv:?}"
        );
    }
}
