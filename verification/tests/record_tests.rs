use procmon::errors::RecordError;
use procmon::record::{build_records, ProcessRecord, RawEntry, MAX_START_TIME};
use procmon::status::Status;

fn entry(pid: u32, name: &str, cpu: f32, start_time: u64, args: &[&str]) -> RawEntry {
    RawEntry {
        pid,
        name: Some(name.to_string()),
        cpu_bits: cpu.to_bits(),
        cpu_text: cpu.to_string(),
        read_bytes: 0,
        written_bytes: 0,
        start_time,
        status_code: 0,
        args: Some(args.iter().map(|a| a.to_string()).collect()),
    }
}

#[test]
fn elapsed_minutes_truncates_to_whole_minutes() {
    let now: i64 = 1_700_000_000;
    let e = entry(9, "worker", 1.5, (now - 125) as u64, &[]);
    let p = ProcessRecord::from_raw(&e, now).unwrap();
    assert_eq!(p.elapsed_minutes, 2);
}

#[test]
fn elapsed_minutes_exact_minute() {
    let now: i64 = 1_700_000_000;
    let e = entry(9, "worker", 1.5, (now - 120) as u64, &[]);
    let p = ProcessRecord::from_raw(&e, now).unwrap();
    assert_eq!(p.elapsed_minutes, 2);
}

#[test]
fn clock_skew_yields_negative_elapsed() {
    // a start time in the future is a display anomaly, not an error
    let now: i64 = 1_700_000_000;
    let e = entry(9, "worker", 1.5, (now + 61) as u64, &[]);
    let p = ProcessRecord::from_raw(&e, now).unwrap();
    assert_eq!(p.elapsed_minutes, -2);
}

#[test]
fn start_time_at_range_edge_is_accepted() {
    let now: i64 = 1_700_000_000;
    let e = entry(1, "init", 0.0, MAX_START_TIME, &[]);
    assert!(ProcessRecord::from_raw(&e, now).is_ok());
}

#[test]
fn start_time_past_range_edge_is_malformed() {
    let now: i64 = 1_700_000_000;
    let e = entry(1, "init", 0.0, MAX_START_TIME + 1, &[]);
    assert_eq!(
        ProcessRecord::from_raw(&e, now),
        Err(RecordError::MalformedTimestamp)
    );
}

#[test]
fn huge_start_time_is_malformed() {
    let now: i64 = 1_700_000_000;
    let e = entry(1, "init", 0.0, u64::MAX, &[]);
    assert_eq!(
        ProcessRecord::from_raw(&e, now),
        Err(RecordError::MalformedTimestamp)
    );
}

#[test]
fn cmd_joins_args_with_single_spaces() {
    let now: i64 = 1_700_000_000;
    let e = entry(5, "make", 0.0, 0, &["make", "-j4", "all"]);
    let p = ProcessRecord::from_raw(&e, now).unwrap();
    assert_eq!(p.cmd, "make -j4 all");
}

#[test]
fn empty_args_give_empty_cmd() {
    let now: i64 = 1_700_000_000;
    let e = entry(5, "kthreadd", 0.0, 0, &[]);
    let p = ProcessRecord::from_raw(&e, now).unwrap();
    assert_eq!(p.cmd, "");
}

#[test]
fn undecodable_text_degrades_to_placeholder() {
    let now: i64 = 1_700_000_000;
    let mut e = entry(5, "x", 0.0, 0, &[]);
    e.name = None;
    e.args = None;
    let p = ProcessRecord::from_raw(&e, now).unwrap();
    assert_eq!(p.name, "<invalid>");
    assert_eq!(p.cmd, "<invalid>");
}

#[test]
fn status_codes_decode_and_degrade() {
    assert_eq!(Status::from_code(0), Status::Running);
    assert_eq!(Status::from_code(1), Status::Sleeping);
    assert_eq!(Status::from_code(2), Status::Idle);
    assert_eq!(Status::from_code(3), Status::Stopped);
    assert_eq!(Status::from_code(4), Status::Zombie);
    assert_eq!(Status::from_code(99), Status::Unknown(99));
    assert_eq!(Status::from_code(99).label(), "Unknown(99)");
    assert_eq!(Status::from_code(0).label(), "Running");
    assert_eq!(Status::from_code(4).label(), "Zombie");
}

#[test]
fn malformed_record_is_isolated() {
    // ten raw entries; the fourth has an unparsable timestamp: exactly
    // nine records come out and the other nine are untouched
    let now: i64 = 1_700_000_000;
    let mut entries = Vec::new();
    for i in 0..10u32 {
        let mut e = entry(i + 1, &format!("p{}", i + 1), i as f32, (now - 60) as u64, &["a"]);
        if i == 3 {
            e.start_time = u64::MAX;
        }
        entries.push(e);
    }
    let records = build_records(&entries, now);
    assert_eq!(records.len(), 9);
    let expected_pids: Vec<u32> = vec![1, 2, 3, 5, 6, 7, 8, 9, 10];
    let got_pids: Vec<u32> = records.iter().map(|r| r.pid).collect();
    assert_eq!(got_pids, expected_pids);
    for r in &records {
        assert_eq!(r.elapsed_minutes, 1);
        assert_eq!(r.status, Status::Running);
        assert_eq!(r.cmd, "a");
        assert_eq!(r.name, format!("p{}", r.pid));
    }
}

#[test]
fn record_fields_carry_over() {
    let now: i64 = 1_700_000_000;
    let mut e = entry(77, "busy", 87.3, (now - 3600) as u64, &["busy", "--fast"]);
    e.read_bytes = 1024;
    e.written_bytes = 2048;
    e.status_code = 1;
    let p = ProcessRecord::from_raw(&e, now).unwrap();
    assert_eq!(p.pid, 77);
    assert_eq!(p.name, "busy");
    assert_eq!(p.cpu_bits, 87.3f32.to_bits());
    assert_eq!(p.cpu_text, "87.3");
    assert_eq!(p.read_bytes, 1024);
    assert_eq!(p.written_bytes, 2048);
    assert_eq!(p.elapsed_minutes, 60);
    assert_eq!(p.status, Status::Sleeping);
    assert_eq!(p.cmd, "busy --fast");
}
