use logmon::parsing::LogEntry;
use logmon::queue::EntryQueue;
use logmon::queue::ingest_line;
use logmon::stats::StatsStore;

fn parsed(line: &str) -> LogEntry {
    LogEntry::try_from(line.to_string()).expect("line should parse")
}

#[test]
fn scenario_single_error_line() {
    let mut queue = EntryQueue::new();
    let r = ingest_line(
        &mut queue,
        "[2023-10-01T12:00:00Z] ERROR - IP:192.168.123.45 Error 500 - boom".to_string(),
    );
    assert!(r.is_ok());
    let mut store = StatsStore::new(60);
    store.tick(queue.drain());
    let snap = store.snapshot();
    assert_eq!(snap.raw.total_count, 1);
    assert_eq!(snap.raw.error_count, 1);
    assert_eq!(snap.raw.info_count, 0);
    assert_eq!(snap.raw.debug_count, 0);
    let error_pct = snap.calculated.error_pct.numer as f64 / snap.calculated.error_pct.denom as f64;
    assert_eq!(error_pct, 1.0);
}

#[test]
fn scenario_malformed_line_leaves_stats_unchanged() {
    let mut queue = EntryQueue::new();
    let r = ingest_line(
        &mut queue,
        "[24=01-29T15:3:45Z] DEBG - IP:19:168.234.12 - bad".to_string(),
    );
    assert!(r.is_err());
    assert_eq!(queue.len(), 0);
    let mut store = StatsStore::new(60);
    store.tick(queue.drain());
    let snap = store.snapshot();
    assert_eq!(snap.raw.total_count, 0);
    assert_eq!(snap.raw.error_count, 0);
    assert_eq!(snap.raw.info_count, 0);
    assert_eq!(snap.raw.debug_count, 0);
}

#[test]
fn scenario_mixed_levels_in_one_tick() {
    let mut queue = EntryQueue::new();
    for _ in 0..10 {
        queue.append(parsed("[2023-10-01T12:00:00Z] INFO - IP:10.0.0.1 ok"));
    }
    for _ in 0..5 {
        queue.append(parsed("[2023-10-01T12:00:01Z] ERROR - IP:10.0.0.2 bad"));
    }
    for _ in 0..5 {
        queue.append(parsed("[2023-10-01T12:00:02Z] DEBUG - IP:10.0.0.3 dbg"));
    }
    let mut store = StatsStore::new(60);
    store.tick(queue.drain());
    let snap = store.snapshot();
    assert_eq!(snap.raw.total_count, 20);
    assert_eq!(snap.raw.info_count, 10);
    assert_eq!(snap.raw.error_count, 5);
    assert_eq!(snap.raw.debug_count, 5);
    let info_pct = snap.calculated.info_pct.numer as f64 / snap.calculated.info_pct.denom as f64;
    let error_pct = snap.calculated.error_pct.numer as f64 / snap.calculated.error_pct.denom as f64;
    let debug_pct = snap.calculated.debug_pct.numer as f64 / snap.calculated.debug_pct.denom as f64;
    assert_eq!(info_pct, 0.5);
    assert_eq!(error_pct, 0.25);
    assert_eq!(debug_pct, 0.25);
    assert!((info_pct + error_pct + debug_pct - 1.0).abs() < 1e-9);
}

#[test]
fn percentages_are_zero_before_anything_is_counted() {
    let store = StatsStore::new(60);
    let snap = store.snapshot();
    assert_eq!(snap.calculated.error_pct.numer, 0);
    assert_eq!(snap.calculated.info_pct.numer, 0);
    assert_eq!(snap.calculated.debug_pct.numer, 0);
    assert_eq!(snap.calculated.error_pct.denom, 1);
}

#[test]
fn scenario_throughput_peak_never_decreases() {
    let mut store = StatsStore::new(60);
    let mut batch = Vec::new();
    for _ in 0..30 {
        batch.push(parsed("[2023-10-01T12:00:00Z] INFO - IP:10.0.0.1 m"));
    }
    store.tick(batch);
    let snap = store.snapshot();
    assert_eq!(snap.calculated.entries_last_second, 30);
    assert_eq!(snap.calculated.peak_entries_per_second, 30);
    assert_eq!(snap.calculated.avg_entries_per_second, 30);
    for _ in 0..3 {
        store.tick(Vec::new());
        let snap = store.snapshot();
        assert_eq!(snap.calculated.entries_last_second, 0);
        assert_eq!(snap.calculated.peak_entries_per_second, 30);
    }
    let snap = store.snapshot();
    assert_eq!(snap.raw.total_count, 30);
    assert_eq!(snap.calculated.avg_entries_per_second, 7);
}

#[test]
fn average_covers_only_the_configured_window() {
    let mut store = StatsStore::new(2);
    let mut first = Vec::new();
    for _ in 0..10 {
        first.push(parsed("[2023-10-01T12:00:00Z] INFO - IP:10.0.0.1 m"));
    }
    let mut second = Vec::new();
    for _ in 0..20 {
        second.push(parsed("[2023-10-01T12:00:01Z] INFO - IP:10.0.0.1 m"));
    }
    let mut third = Vec::new();
    for _ in 0..30 {
        third.push(parsed("[2023-10-01T12:00:02Z] INFO - IP:10.0.0.1 m"));
    }
    store.tick(first);
    store.tick(second);
    store.tick(third);
    let snap = store.snapshot();
    assert_eq!(snap.calculated.entries_last_second, 30);
    assert_eq!(snap.calculated.avg_entries_per_second, 25);
    assert_eq!(snap.calculated.peak_entries_per_second, 30);
    assert_eq!(snap.raw.total_count, 60);
}

#[test]
fn drain_takes_everything_and_empties_the_queue() {
    let mut queue = EntryQueue::new();
    queue.append(parsed("[2023-10-01T12:00:00Z] INFO - IP:10.0.0.1 a"));
    queue.append(parsed("[2023-10-01T12:00:01Z] ERROR - IP:10.0.0.1 b"));
    queue.append(parsed("[2023-10-01T12:00:02Z] DEBUG - IP:10.0.0.1 c"));
    let batch = queue.drain();
    assert_eq!(batch.len(), 3);
    assert_eq!(queue.len(), 0);
    assert_eq!(batch[0].message, Some("a".to_string()));
    assert_eq!(batch[2].message, Some("c".to_string()));
    queue.append(parsed("[2023-10-01T12:00:03Z] INFO - IP:10.0.0.1 d"));
    let batch = queue.drain();
    assert_eq!(batch.len(), 1);
    assert_eq!(batch[0].message, Some("d".to_string()));
    assert_eq!(queue.len(), 0);
}

#[test]
fn counters_hold_their_invariant_across_ticks() {
    let mut store = StatsStore::new(60);
    let mut queue = EntryQueue::new();
    let lines = [
        "[2023-10-01T12:00:00Z] INFO - IP:10.0.0.1 one",
        "[2023-10-01T12:00:01Z] ERROR - IP:10.0.0.2 two",
        "not a log line at all",
        "[2023-10-01T12:00:02Z] DEBUG - IP:10.0.0.3 three",
    ];
    for line in lines {
        let _ = ingest_line(&mut queue, line.to_string());
    }
    store.tick(queue.drain());
    let snap = store.snapshot();
    assert_eq!(snap.raw.total_count, 3);
    assert_eq!(
        snap.raw.total_count,
        snap.raw.error_count + snap.raw.info_count + snap.raw.debug_count
    );
}
