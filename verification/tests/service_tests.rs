use confman::errors::ConfigError;
use confman::models::{CopyOutcome, FileProbe, ReadOutcome, WriteOutcome};
use confman::registry::{find_entry_index, registry_entries};
use confman::service::ConfigService;
use confman::system::{build_system_info, HostEnv, KernelProbeResult, OsFamily};

fn probe(modified: i64, size: i64) -> FileProbe {
    FileProbe { modified, size, is_symlink: false, backup_exists: false }
}

fn kernel_probe(exit_ok: bool, stdout: Option<&str>) -> Option<KernelProbeResult> {
    Some(KernelProbeResult { exit_ok, stdout: stdout.map(String::from) })
}

#[test]
fn registry_entries_have_fixed_ids_and_defaults() {
    let entries = registry_entries();
    assert_eq!(entries.len(), 6);
    let ids: Vec<&str> = entries.iter().map(|e| e.id.as_str()).collect();
    assert_eq!(ids, vec!["bashrc", "zshrc", "profile", "gitconfig", "vimrc", "sshconfig"]);
    let paths: Vec<&str> = entries.iter().map(|e| e.path.as_str()).collect();
    assert_eq!(
        paths,
        vec!["~/.bashrc", "~/.zshrc", "~/.profile", "~/.gitconfig", "~/.vimrc", "~/.ssh/config"]
    );
    for e in &entries {
        assert_eq!(e.last_modified, 0);
        assert_eq!(e.size, 0);
        assert!(!e.is_symlink);
        assert!(!e.backup_exists);
        assert!(e.content.is_none());
    }
    assert_eq!(entries[3].category, "git");
    assert_eq!(entries[4].category, "editor");
    assert_eq!(entries[5].name, "config");
}

#[test]
fn find_entry_index_matches_registry_order() {
    assert_eq!(find_entry_index("bashrc"), Some(0));
    assert_eq!(find_entry_index("sshconfig"), Some(5));
    assert_eq!(find_entry_index("nonexistent-id"), None);
    assert_eq!(find_entry_index(""), None);
}

#[test]
fn listing_skips_unprobed_entries() {
    let svc = ConfigService::new();
    let probes = vec![
        Some(probe(100, 10)),
        None,
        Some(probe(300, 30)),
        None,
        None,
        Some(probe(600, 60)),
    ];
    let files = svc.get_files(&probes).expect("home directory should be available");
    let ids: Vec<&str> = files.iter().map(|f| f.id.as_str()).collect();
    assert_eq!(ids, vec!["bashrc", "profile", "sshconfig"]);
    assert_eq!(files[0].size, 10);
    assert_eq!(files[1].last_modified, 300);
    assert_eq!(files[2].size, 60);
    for f in &files {
        assert!(f.content.is_none());
    }
}

#[test]
fn listing_with_no_reachable_entries_is_empty() {
    let svc = ConfigService::new();
    let probes = vec![None, None, None, None, None, None];
    let files = svc.get_files(&probes).expect("home directory should be available");
    assert!(files.is_empty());
}

#[test]
fn listing_keeps_registry_order_and_metadata() {
    let svc = ConfigService::new();
    let probes: Vec<Option<FileProbe>> = (0..6)
        .map(|i| {
            Some(FileProbe {
                modified: 1000 + i,
                size: 10 * i,
                is_symlink: i == 2,
                backup_exists: i == 4,
            })
        })
        .collect();
    let files = svc.get_files(&probes).expect("home directory should be available");
    assert_eq!(files.len(), 6);
    for (i, f) in files.iter().enumerate() {
        assert_eq!(f.last_modified, 1000 + i as i64);
        assert_eq!(f.size, 10 * i as i64);
        assert_eq!(f.is_symlink, i == 2);
        assert_eq!(f.backup_exists, i == 4);
    }
}

#[test]
fn get_file_passes_content_through() {
    let svc = ConfigService::new();
    let read = ReadOutcome::Content {
        text: String::from("export PATH=$PATH:/usr/local/bin\n"),
        probe: Some(probe(1700000000, 34)),
    };
    let f = svc.get_file_by_id("bashrc", &read).expect("registered id");
    assert_eq!(f.id, "bashrc");
    assert_eq!(f.content.as_deref(), Some("export PATH=$PATH:/usr/local/bin\n"));
    assert_eq!(f.last_modified, 1700000000);
    assert_eq!(f.size, 34);
    assert!(!f.backup_exists);
}

#[test]
fn get_file_without_post_read_stat_keeps_defaults() {
    let svc = ConfigService::new();
    let read = ReadOutcome::Content { text: String::from("x"), probe: None };
    let f = svc.get_file_by_id("vimrc", &read).expect("registered id");
    assert_eq!(f.content.as_deref(), Some("x"));
    assert_eq!(f.last_modified, 0);
    assert_eq!(f.size, 0);
    assert!(!f.is_symlink);
}

#[test]
fn get_file_missing_path_is_not_found() {
    let svc = ConfigService::new();
    let read = ReadOutcome::Missing { path: String::from("/home/u/.bashrc") };
    let e = svc.get_file_by_id("bashrc", &read).unwrap_err();
    assert!(matches!(e, ConfigError::MissingPath { .. }));
    assert_eq!(e.message(), "file does not exist: /home/u/.bashrc");
}

#[test]
fn get_file_unreadable_is_io_error() {
    let svc = ConfigService::new();
    let read = ReadOutcome::Unreadable {
        path: String::from("/home/u/.bashrc"),
        detail: String::from("permission denied"),
    };
    let e = svc.get_file_by_id("bashrc", &read).unwrap_err();
    assert!(matches!(e, ConfigError::ReadFailed { .. }));
    assert_eq!(e.message(), "unable to read file /home/u/.bashrc: permission denied");
}

#[test]
fn get_file_unknown_id_is_not_found() {
    let svc = ConfigService::new();
    let read = ReadOutcome::Content { text: String::from("x"), probe: None };
    let e = svc.get_file_by_id("nonexistent-id", &read).unwrap_err();
    assert!(matches!(e, ConfigError::UnknownId { .. }));
    assert_eq!(e.message(), "file not found: nonexistent-id");
}

#[test]
fn update_written_succeeds() {
    let svc = ConfigService::new();
    assert!(svc.update_file("bashrc", &WriteOutcome::Written).is_ok());
}

#[test]
fn update_failed_is_io_error() {
    let svc = ConfigService::new();
    let write = WriteOutcome::Failed {
        path: String::from("/home/u/.bashrc"),
        detail: String::from("disk full"),
    };
    let e = svc.update_file("bashrc", &write).unwrap_err();
    assert!(matches!(e, ConfigError::WriteFailed { .. }));
    assert_eq!(e.message(), "unable to write file /home/u/.bashrc: disk full");
}

#[test]
fn update_unknown_id_is_not_found() {
    let svc = ConfigService::new();
    let e = svc.update_file("nope", &WriteOutcome::Written).unwrap_err();
    assert_eq!(e.message(), "file not found: nope");
}

#[test]
fn backup_copied_returns_destination() {
    let svc = ConfigService::new();
    let copy = CopyOutcome::Copied {
        backup_path: String::from("/home/u/.bashrc.backup.20240607-080910"),
    };
    let b = svc.backup_file("bashrc", &copy).expect("registered id");
    assert_eq!(b.message, "backup created successfully");
    assert_eq!(b.backup_path, "/home/u/.bashrc.backup.20240607-080910");
}

#[test]
fn backup_missing_source_is_not_found() {
    let svc = ConfigService::new();
    let copy = CopyOutcome::SourceMissing { path: String::from("/home/u/.bashrc") };
    let e = svc.backup_file("bashrc", &copy).unwrap_err();
    assert!(matches!(e, ConfigError::MissingPath { .. }));
    assert_eq!(e.message(), "file does not exist: /home/u/.bashrc");
}

#[test]
fn backup_clock_failure_is_environment_error() {
    let svc = ConfigService::new();
    let e = svc.backup_file("bashrc", &CopyOutcome::ClockUnavailable).unwrap_err();
    assert!(matches!(e, ConfigError::ClockUnavailable));
    assert_eq!(e.message(), "unable to determine the current time");
}

#[test]
fn backup_copy_failure_is_io_error() {
    let svc = ConfigService::new();
    let copy = CopyOutcome::Failed {
        backup_path: String::from("/home/u/.bashrc.backup.20240607-080910"),
        detail: String::from("no space left"),
    };
    let e = svc.backup_file("bashrc", &copy).unwrap_err();
    assert!(matches!(e, ConfigError::CopyFailed { .. }));
    assert_eq!(
        e.message(),
        "unable to create backup file /home/u/.bashrc.backup.20240607-080910: no space left"
    );
}

#[test]
fn system_info_non_linux_kernel_is_unknown() {
    // Even with probe output at hand, a non-Linux build serves "Unknown".
    let env = HostEnv {
        os: OsFamily::MacOs,
        user: Some(String::from("alice")),
        shell: Some(String::from("/bin/zsh")),
        kernel_probe: kernel_probe(true, Some("23.1.0\n")),
    };
    let info = build_system_info("/Users/alice", &env);
    assert_eq!(info.os, "macOS");
    assert_eq!(info.kernel, "Unknown");
    assert_eq!(info.shell, "/bin/zsh");
    assert_eq!(info.user, "alice");
    assert_eq!(info.home_dir, "/Users/alice");
}

#[test]
fn system_info_linux_kernel_is_trimmed_probe_output() {
    let env = HostEnv {
        os: OsFamily::Linux,
        user: Some(String::from("u")),
        shell: Some(String::from("/bin/bash")),
        kernel_probe: kernel_probe(true, Some("  5.15.0-86-generic\n")),
    };
    let info = build_system_info("/home/u", &env);
    assert_eq!(info.os, "Linux");
    assert_eq!(info.kernel, "5.15.0-86-generic");
}

#[test]
fn system_info_linux_without_probe_is_unknown() {
    let env = HostEnv { os: OsFamily::Linux, user: None, shell: None, kernel_probe: None };
    let info = build_system_info("/home/u", &env);
    assert_eq!(info.kernel, "Unknown");
}

#[test]
fn system_info_failing_probe_is_unknown() {
    // A probe that exits non-zero counts as failure even if it printed text.
    let env = HostEnv {
        os: OsFamily::Linux,
        user: None,
        shell: None,
        kernel_probe: kernel_probe(false, Some("6.1.0-broken\n")),
    };
    let info = build_system_info("/home/u", &env);
    assert_eq!(info.kernel, "Unknown");
}

#[test]
fn system_info_non_text_probe_output_is_unknown() {
    let env = HostEnv {
        os: OsFamily::Linux,
        user: None,
        shell: None,
        kernel_probe: kernel_probe(true, None),
    };
    let info = build_system_info("/home/u", &env);
    assert_eq!(info.kernel, "Unknown");
}

#[test]
fn system_info_defaults_for_unset_variables() {
    let env = HostEnv { os: OsFamily::Other, user: None, shell: None, kernel_probe: None };
    let info = build_system_info("/home/u", &env);
    assert_eq!(info.os, "Unknown");
    assert_eq!(info.user, "unknown");
    assert_eq!(info.shell, "/bin/bash");
}

#[test]
fn windows_family_is_named() {
    let env = HostEnv { os: OsFamily::Windows, user: None, shell: None, kernel_probe: None };
    let info = build_system_info("C:/Users/u", &env);
    assert_eq!(info.os, "Windows");
    assert_eq!(info.kernel, "Unknown");
}
