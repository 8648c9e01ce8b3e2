use confman::paths::{backup_destination_at, backup_probe_path, resolve_path};
use confman::text::trim;
use confman::timefmt::{decimal, format_timestamp, padded, UtcParts};

fn parts(year: i32, month: u32, day: u32, hour: u32, minute: u32, second: u32) -> UtcParts {
    UtcParts { year, month, day, hour, minute, second }
}

#[test]
fn decimal_exact() {
    assert_eq!(decimal(0), "0");
    assert_eq!(decimal(7), "7");
    assert_eq!(decimal(42), "42");
    assert_eq!(decimal(907), "907");
    assert_eq!(decimal(1000), "1000");
}

#[test]
fn padded_exact() {
    assert_eq!(padded(7, 2), "07");
    assert_eq!(padded(59, 2), "59");
    assert_eq!(padded(123, 2), "123");
    assert_eq!(padded(9, 4), "0009");
    assert_eq!(padded(2024, 4), "2024");
}

#[test]
fn timestamp_basic() {
    assert_eq!(format_timestamp(&parts(2024, 6, 7, 8, 9, 10)), "20240607-080910");
}

#[test]
fn timestamp_single_digit_fields() {
    assert_eq!(format_timestamp(&parts(2024, 1, 2, 3, 4, 5)), "20240102-030405");
}

#[test]
fn timestamp_pads_year_to_four_digits() {
    assert_eq!(format_timestamp(&parts(99, 12, 31, 23, 59, 59)), "00991231-235959");
}

#[test]
fn trim_removes_surrounding_whitespace() {
    assert_eq!(trim(" \t6.1.0-test\n"), "6.1.0-test");
    assert_eq!(trim("5.15.0\n"), "5.15.0");
}

#[test]
fn trim_keeps_inner_whitespace() {
    assert_eq!(trim("a b"), "a b");
    assert_eq!(trim(""), "");
    assert_eq!(trim(" \n\t "), "");
}

#[test]
fn resolve_path_expands_home() {
    assert_eq!(resolve_path("~/.bashrc", "/home/u"), "/home/u/.bashrc");
    assert_eq!(resolve_path("~/.ssh/config", "/root"), "/root/.ssh/config");
}

#[test]
fn resolve_path_without_marker() {
    assert_eq!(resolve_path("/etc/hosts", "/home/u"), "/etc/hosts");
    assert_eq!(resolve_path("", "/home/u"), "");
}

#[test]
fn backup_probe_path_uses_bare_suffix() {
    // The listing probes for the bare `.backup` sibling, which the
    // timestamped names written by the backup operation never match.
    assert_eq!(backup_probe_path("/home/u/.bashrc"), "/home/u/.bashrc.backup");
}

#[test]
fn backup_destination_appends_timestamp() {
    let dest = backup_destination_at("/home/u/.bashrc", &parts(2024, 6, 7, 8, 9, 10));
    assert_eq!(dest, "/home/u/.bashrc.backup.20240607-080910");
}

#[test]
fn backup_same_second_names_same_destination() {
    // Two backups within the same wall-clock second collide on one artifact.
    let first = backup_destination_at("/home/u/.vimrc", &parts(2025, 2, 3, 4, 5, 6));
    let second = backup_destination_at("/home/u/.vimrc", &parts(2025, 2, 3, 4, 5, 6));
    assert_eq!(first, second);
}
