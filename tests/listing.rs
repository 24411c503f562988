use file_lister::kind::FileKind;
use file_lister::perms::format_permissions;
use file_lister::record::{compose_line, DescribeError, FileRecord};
use file_lister::style::{Hue, Style};

fn record(name: &str, size: u64, kind: FileKind, mode: u32, readonly: bool, modified: i64) -> FileRecord {
    FileRecord { name: name.to_string(), size, kind, mode, readonly, modified }
}

#[test]
fn permissions_of_755() {
    assert_eq!(format_permissions(0o755), "rwxr-xr-x");
}

#[test]
fn permissions_of_644() {
    assert_eq!(format_permissions(0o644), "rw-r--r--");
}

#[test]
fn permissions_of_extremes() {
    assert_eq!(format_permissions(0), "---------");
    assert_eq!(format_permissions(0o777), "rwxrwxrwx");
    assert_eq!(format_permissions(0o100644), "rw-r--r--");
    assert_eq!(format_permissions(0o421), "r---w---x");
}

#[test]
fn permissions_shape_for_every_mode() {
    for mode in 0u32..=0o777 {
        let s: Vec<char> = format_permissions(mode).chars().collect();
        assert_eq!(s.len(), 9);
        assert!(s.iter().all(|c| matches!(c, 'r' | 'w' | 'x' | '-')));
        assert_eq!(s[1] == 'w', mode & 0o200 != 0);
        assert_eq!(s[2] == 'x', mode & 0o100 != 0);
        assert_eq!(s[4] == 'w', mode & 0o020 != 0);
        assert_eq!(s[5] == 'x', mode & 0o010 != 0);
        assert_eq!(s[7] == 'w', mode & 0o002 != 0);
        assert_eq!(s[8] == 'x', mode & 0o001 != 0);
    }
}

#[test]
fn classify_directory() {
    let k = FileKind::classify(true, false, false, false, false);
    assert_eq!(k, FileKind::Directory);
    assert_eq!(k.label(), "directory");
}

#[test]
fn classify_socket() {
    let k = FileKind::classify(false, false, true, false, false);
    assert_eq!(k, FileKind::Socket);
    assert_eq!(k.label(), "socket");
}

#[test]
fn classify_unknown_special_file() {
    let k = FileKind::classify(false, false, false, false, false);
    assert_eq!(k, FileKind::Unknown);
    assert_eq!(k.label(), "unknown");
}

#[test]
fn classify_order_decides_overlaps() {
    assert_eq!(FileKind::classify(true, true, true, true, true), FileKind::Directory);
    assert_eq!(FileKind::classify(false, true, true, false, true), FileKind::Symlink);
    assert_eq!(FileKind::classify(false, false, false, true, true), FileKind::BlockDevice);
    assert_eq!(FileKind::BlockDevice.label(), "disk");
    assert_eq!(FileKind::classify(false, false, false, false, true).label(), "file");
    assert_eq!(FileKind::Symlink.label(), "symlink");
}

#[test]
fn size_of_one_million_bytes() {
    let r = record("big.bin", 1_000_000, FileKind::File, 0o644, false, 0);
    let line = r.describe(0, false).unwrap();
    assert_eq!(line, "file 644 (rw-r--r--) 1 MB \"1970-01-01 00:00\" - big.bin");
}

#[test]
fn small_size_and_readonly_marker() {
    let r = record("notes", 12, FileKind::File, 0o444, true, 47_220);
    let line = r.describe(3600, false).unwrap();
    assert_eq!(line, "file 444 (r--r--r--) 12 B \"1970-01-01 14:07\" READONLY notes");
}

#[test]
fn directory_line_with_negative_offset() {
    let r = record("/tmp", 4096, FileKind::Directory, 0o41777, false, 1_700_000_000);
    let line = r.describe(-5 * 3600, false).unwrap();
    assert_eq!(line, "directory 41777 (rwxrwxrwx) 4.10 kB \"2023-11-14 17:13\" - /tmp");
}

#[test]
fn offset_out_of_range_is_an_error() {
    let r = record("a", 0, FileKind::File, 0o600, false, 0);
    assert_eq!(r.describe(93_600, false), Err(DescribeError::TimeOutOfRange));
    assert!(r.describe(93_599, false).is_ok());
}

#[test]
fn time_out_of_range_is_an_error() {
    let r = record("a", 0, FileKind::File, 0o600, false, 253_402_300_800);
    assert_eq!(r.describe(0, false), Err(DescribeError::TimeOutOfRange));
    let r = record("a", 0, FileKind::File, 0o600, false, 253_402_300_799);
    assert_eq!(r.describe(0, false).unwrap(), "file 600 (rw-------) 0 B \"9999-12-31 23:59\" - a");
    assert_eq!(r.describe(1, false), Err(DescribeError::TimeOutOfRange));
}

#[test]
fn render_in_local_zone() {
    let r = record("here", 1, FileKind::File, 0o644, false, 1_000_000);
    match r.render(false) {
        Ok(line) => {
            assert!(line.starts_with("file 644 (rw-r--r--) 1 B \"1970-01-"));
            assert!(line.ends_with("\" - here"));
        }
        Err(e) => assert_eq!(e, DescribeError::NoLocalOffset),
    }
}

#[test]
fn compose_line_writes_mode_in_octal() {
    assert_eq!(compose_line("socket", 0o140755, "0 B", "t", "-", "s"), "socket 140755 (rwxr-xr-x) 0 B \"t\" - s");
    assert_eq!(compose_line("file", 0, "0 B", "t", "-", "z"), "file 0 (---------) 0 B \"t\" - z");
}

#[test]
fn plain_style_leaves_text_alone() {
    let blue = Style { fg: Some(Hue::Blue), bg: None, bold: false };
    assert_eq!(file_lister::style::styled("name", blue, false), "name");
    let none = Style { fg: None, bg: None, bold: false };
    assert_eq!(file_lister::style::styled("name", none, true), "name");
}

#[test]
fn colored_style_wraps_text() {
    colored::control::set_override(true);
    let blue = Style { fg: Some(Hue::Blue), bg: None, bold: false };
    assert_eq!(file_lister::style::styled("dir", blue, true), "\x1B[34mdir\x1B[0m");
    let bold = Style { fg: None, bg: None, bold: true };
    assert_eq!(file_lister::style::styled("n", bold, true), "\x1B[1mn\x1B[0m");
    let on_black = Style { fg: None, bg: Some(Hue::Black), bold: false };
    assert_eq!(file_lister::style::styled("u", on_black, true), "\x1B[40mu\x1B[0m");
}

#[test]
fn colored_line_keeps_fields() {
    colored::control::set_override(true);
    let r = record("x", 5, FileKind::Directory, 0o755, false, 0);
    let line = r.describe(0, true).unwrap();
    assert!(line.starts_with("\x1B[34mdirectory\x1B[0m 755 (rwxr-xr-x) "));
    assert!(line.contains("\"1970-01-01 00:00\""));
    assert!(line.ends_with("\x1B[1mx\x1B[0m"));
}

#[test]
fn bold_style_keeps_background() {
    colored::control::set_override(true);
    let style = Style { fg: Some(Hue::Red), bg: Some(Hue::Black), bold: true };
    assert_eq!(file_lister::style::styled("ro", style, true), "\x1B[1;40;31mro\x1B[0m");
}
