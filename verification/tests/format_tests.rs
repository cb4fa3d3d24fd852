use procmon::format::{format_row, format_table, hostname_line, truncate_and_ellipsis};
use procmon::record::ProcessRecord;
use procmon::status::Status;

#[test]
fn truncation_is_exact() {
    // over-long text is cut to max - 3 characters plus the ellipsis,
    // exactly max characters in all
    let t = truncate_and_ellipsis("abcdefghij", 8);
    assert_eq!(t, "abcde...");
    assert_eq!(t.chars().count(), 8);
}

#[test]
fn short_text_is_unchanged_and_unpadded() {
    let t = truncate_and_ellipsis("abc", 8);
    assert_eq!(t, "abc");
    assert_eq!(t.chars().count(), 3);
}

#[test]
fn text_at_exact_width_is_unchanged() {
    assert_eq!(truncate_and_ellipsis("abcdefgh", 8), "abcdefgh");
}

#[test]
fn minimum_width_truncation() {
    assert_eq!(truncate_and_ellipsis("abcd", 3), "...");
}

#[test]
fn row_is_laid_out_in_fixed_columns() {
    let p = ProcessRecord {
        pid: 42,
        name: "build".to_string(),
        cpu_bits: 87.3f32.to_bits(),
        cpu_text: "87.3".to_string(),
        read_bytes: 1024,
        written_bytes: 2048,
        elapsed_minutes: 2,
        status: Status::Running,
        cmd: "make -j4".to_string(),
    };
    let line = format_row(&p, 12);
    let expected = format!(
        "{0: <12} | {1: <12} | {2: <12} | {3: <12} | {4: <12} | {5: <12} | {6: <12} | {7: <12}",
        "42", "build", "87.3", "1024", "2048", "2", "Running", "make -j4"
    );
    assert_eq!(line, expected);
}

#[test]
fn row_truncates_long_fields() {
    let p = ProcessRecord {
        pid: 1,
        name: "a-very-long-process-name".to_string(),
        cpu_bits: 0.0f32.to_bits(),
        cpu_text: "0".to_string(),
        read_bytes: 0,
        written_bytes: 0,
        elapsed_minutes: -3,
        status: Status::Unknown(7),
        cmd: "x".repeat(40),
    };
    let line = format_row(&p, 12);
    let cells: Vec<&str> = line.split(" | ").collect();
    assert_eq!(cells.len(), 8);
    assert_eq!(cells[1], "a-very-lo...");
    assert_eq!(cells[5], "-3          ");
    assert_eq!(cells[6], "Unknown(7)  ");
    // the command budget is doubled: 24 characters including the ellipsis
    assert_eq!(cells[7], format!("{}...", "x".repeat(21)));
}

#[test]
fn table_has_header_separator_and_rows() {
    let p = ProcessRecord {
        pid: 7,
        name: "idle".to_string(),
        cpu_bits: 0.0f32.to_bits(),
        cpu_text: "0".to_string(),
        read_bytes: 0,
        written_bytes: 0,
        elapsed_minutes: 0,
        status: Status::Sleeping,
        cmd: String::new(),
    };
    let lines = format_table(&vec![p], 12);
    assert_eq!(lines.len(), 3);
    let expected_header = format!(
        "{0: <12} | {1: <12} | {2: <12} | {3: <12} | {4: <12} | {5: <12} | {6: <12} | {7: <12}",
        "PID", "NAME", "CPU %", "READ(B)", "WRITTEN(B)", "UPTIME(m)", "STATUS", "COMMAND"
    );
    assert_eq!(lines[0], expected_header);
    assert_eq!(lines[1], "-".repeat(12 * 8 + 7 * 3));
    assert!(lines[2].starts_with("7 "));
}

#[test]
fn empty_table_is_header_and_separator_only() {
    let lines = format_table(&Vec::new(), 12);
    assert_eq!(lines.len(), 2);
}

#[test]
fn hostname_line_uses_name_or_fallback() {
    assert_eq!(
        hostname_line(Some("workstation".to_string())),
        "System Hostname: workstation"
    );
    assert_eq!(hostname_line(None), "System Hostname: N/A");
}
