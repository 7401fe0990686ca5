use rust_snippets::join::{summarize, WorkerOutcome};
use rust_snippets::record::SharedRecord;
use std::sync::{Arc, Mutex};

fn run_workers(initial: u64, n: usize) -> (u64, String, Vec<u64>) {
    let shared = Arc::new(Mutex::new(SharedRecord::new(initial, "Name".to_string())));
    let mut seen: Vec<u64> = Vec::new();
    for _ in 0..n {
        let shared = Arc::clone(&shared);
        let mut record = shared.lock().unwrap_or_else(|e| e.into_inner());
        seen.push(record.update());
    }
    let record = shared.lock().unwrap();
    (record.value, record.name.clone(), seen)
}

#[test]
fn update_adds_one_and_relabels() {
    let mut r = SharedRecord::new(41, "Name".to_string());
    assert_eq!(r.update(), 42);
    assert_eq!(r.value, 42);
    assert_eq!(r.name, "updated");
}

#[test]
fn ten_workers_add_ten() {
    let (value, name, seen) = run_workers(111111, 10);
    assert_eq!(value, 111121);
    assert_eq!(name, "updated");
    assert_eq!(seen, (111112..=111121).collect::<Vec<u64>>());
}

#[test]
fn no_workers_leave_the_record_alone() {
    let (value, name, seen) = run_workers(7, 0);
    assert_eq!(value, 7);
    assert_eq!(name, "Name");
    assert!(seen.is_empty());
}

#[test]
fn many_worker_counts_add_their_count() {
    for n in [1usize, 2, 5, 33] {
        let (value, _, _) = run_workers(1000, n);
        assert_eq!(value, 1000 + n as u64);
    }
}

#[test]
fn summarize_reports_each_worker() {
    let outcomes = vec![
        WorkerOutcome::Completed(4),
        WorkerOutcome::Faulted,
        WorkerOutcome::Completed(9),
    ];
    let report = summarize(&outcomes);
    assert_eq!(report.completed, vec![(0, 4), (2, 9)]);
    assert_eq!(report.faulted, vec![1]);
    let empty = summarize(&Vec::new());
    assert!(empty.completed.is_empty());
    assert!(empty.faulted.is_empty());
}

#[test]
fn one_faulting_worker_spares_the_others() {
    let outcomes = vec![
        WorkerOutcome::Completed(0),
        WorkerOutcome::Completed(100),
        WorkerOutcome::Faulted,
        WorkerOutcome::Completed(300),
        WorkerOutcome::Completed(400),
    ];
    let report = summarize(&outcomes);
    assert_eq!(report.faulted, vec![2]);
    assert_eq!(report.completed, vec![(0, 0), (1, 100), (3, 300), (4, 400)]);
}
