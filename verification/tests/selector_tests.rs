use procmon::record::ProcessRecord;
use procmon::selector::select;
use procmon::status::Status;

fn rec(pid: u32, cpu: f32) -> ProcessRecord {
    ProcessRecord {
        pid,
        name: format!("p{}", pid),
        cpu_bits: cpu.to_bits(),
        cpu_text: cpu.to_string(),
        read_bytes: 0,
        written_bytes: 0,
        elapsed_minutes: 0,
        status: Status::Running,
        cmd: String::new(),
    }
}

#[test]
fn orders_by_cpu_descending() {
    let records = vec![rec(1, 5.0), rec(2, 95.5), rec(3, 42.0)];
    let out = select(records, 10);
    let pids: Vec<u32> = out.iter().map(|r| r.pid).collect();
    assert_eq!(pids, vec![2, 3, 1]);
}

#[test]
fn tie_breaks_by_ascending_pid() {
    // equal CPU usage (both 0.0): pid 7 must come before pid 50
    let records = vec![rec(50, 0.0), rec(7, 0.0)];
    let out = select(records, 10);
    let pids: Vec<u32> = out.iter().map(|r| r.pid).collect();
    assert_eq!(pids, vec![7, 50]);
}

#[test]
fn small_input_is_returned_whole() {
    let records = vec![rec(1, 1.0), rec(2, 2.0), rec(3, 3.0), rec(4, 4.0), rec(5, 5.0)];
    let out = select(records, 15);
    let pids: Vec<u32> = out.iter().map(|r| r.pid).collect();
    assert_eq!(pids, vec![5, 4, 3, 2, 1]);
}

#[test]
fn large_input_is_capped_at_limit() {
    let mut records = Vec::new();
    for i in 0..100u32 {
        records.push(rec(i, i as f32));
    }
    let out = select(records, 15);
    assert_eq!(out.len(), 15);
    let pids: Vec<u32> = out.iter().map(|r| r.pid).collect();
    let expected: Vec<u32> = (85..100).rev().collect();
    assert_eq!(pids, expected);
}

#[test]
fn selection_is_deterministic_across_input_orders() {
    // the same multiset of records, handed over in two different orders,
    // yields the same ordered output
    let a = vec![rec(3, 10.0), rec(1, 30.0), rec(2, 20.0)];
    let b = vec![rec(2, 20.0), rec(3, 10.0), rec(1, 30.0)];
    let out_a: Vec<u32> = select(a, 10).iter().map(|r| r.pid).collect();
    let out_b: Vec<u32> = select(b, 10).iter().map(|r| r.pid).collect();
    assert_eq!(out_a, out_b);
    assert_eq!(out_a, vec![1, 2, 3]);
}

#[test]
fn nan_sorts_after_all_real_values() {
    let records = vec![rec(1, f32::NAN), rec(2, 0.0), rec(3, 250.0)];
    let out = select(records, 10);
    let pids: Vec<u32> = out.iter().map(|r| r.pid).collect();
    assert_eq!(pids, vec![3, 2, 1]);
}

#[test]
fn cpu_over_one_hundred_is_not_capped() {
    // multi-core attribution may exceed 100%; the value keeps its rank
    let records = vec![rec(1, 100.0), rec(2, 385.5)];
    let out = select(records, 10);
    let pids: Vec<u32> = out.iter().map(|r| r.pid).collect();
    assert_eq!(pids, vec![2, 1]);
}

#[test]
fn empty_input_gives_empty_output() {
    let out = select(Vec::new(), 15);
    assert!(out.is_empty());
}

#[test]
fn zero_limit_gives_empty_output() {
    let records = vec![rec(1, 1.0), rec(2, 2.0)];
    let out = select(records, 0);
    assert!(out.is_empty());
}
