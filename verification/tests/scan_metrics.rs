use std::time::{Duration, Instant};

use iceberg_scan::arrow::scan_metrics::{cap_nanos, ScanMetrics, ScanResult};

fn counters(m: &ScanMetrics) -> [u64; 8] {
    [
        m.bytes_read(),
        m.read_requests(),
        m.read_errors(),
        m.read_elapsed_nanos(),
        m.parquet_files_opened(),
        m.file_open_elapsed_nanos(),
        m.parquet_metadata_load_elapsed_nanos(),
        m.file_scan_tasks_started(),
    ]
}

#[test]
fn metrics_start_at_zero() {
    assert_eq!(counters(&ScanMetrics::new()), [0; 8]);
}

#[test]
fn every_event_has_its_own_counter() {
    let mut m = ScanMetrics::new();
    m.file_scan_task_started();
    m.file_scan_task_started();
    m.parquet_file_opened();
    m.add_file_open_nanos(40);
    m.add_parquet_metadata_load_nanos(50);
    m.begin_read(&(100..228));
    assert_eq!(counters(&m), [128, 1, 0, 0, 1, 40, 50, 2]);
    m.finish_read_after(7, false);
    assert_eq!(counters(&m), [128, 1, 0, 7, 1, 40, 50, 2]);
}

#[test]
fn failed_reads_count_as_requests_and_as_errors() {
    let mut m = ScanMetrics::new();
    for (range, nanos, failed) in [(0..10, 3, false), (10..10, 5, true), (4..6, 1, true)] {
        m.begin_read(&range);
        m.finish_read_after(nanos, failed);
    }
    assert_eq!(m.bytes_read(), 12);
    assert_eq!(m.read_requests(), 3);
    assert_eq!(m.read_errors(), 2);
    assert_eq!(m.read_elapsed_nanos(), 9);
}

#[test]
fn counters_wrap_around() {
    let mut m = ScanMetrics::new();
    m.begin_read(&(0..u64::MAX));
    m.begin_read(&(0..3));
    assert_eq!(m.bytes_read(), 2);
    m.add_file_open_nanos(u64::MAX);
    m.add_file_open_nanos(1);
    assert_eq!(m.file_open_elapsed_nanos(), 0);
}

#[test]
fn the_order_of_concurrent_reports_does_not_matter() {
    let mut a = ScanMetrics::new();
    a.begin_read(&(0..5));
    a.begin_read(&(5..15));
    a.finish_read_after(2, true);
    a.finish_read_after(9, false);
    a.parquet_file_opened();
    let mut b = ScanMetrics::new();
    b.parquet_file_opened();
    b.begin_read(&(5..15));
    b.finish_read_after(9, false);
    b.begin_read(&(0..5));
    b.finish_read_after(2, true);
    assert_eq!(counters(&a), counters(&b));
}

#[test]
fn overlapping_reads_are_all_accounted_for() {
    let mut m = ScanMetrics::new();
    m.begin_read(&(0..100));
    m.begin_read(&(100..150));
    m.begin_read(&(0..7));
    m.finish_read_after(20, false);
    m.finish_read_after(30, true);
    assert_eq!(counters(&m), [157, 3, 1, 50, 0, 0, 0, 0]);
    m.finish_read_after(1, true);
    assert_eq!(counters(&m), [157, 3, 2, 51, 0, 0, 0, 0]);
}

#[test]
fn elapsed_time_is_read_from_the_clock() {
    let started = Instant::now();
    while started.elapsed() < Duration::from_millis(2) {}
    let mut m = ScanMetrics::new();
    let open = m.add_file_open_elapsed(started);
    let load = m.add_parquet_metadata_load_elapsed(started);
    m.begin_read(&(0..1));
    let read = m.finish_read(started, true);
    assert_eq!(m.file_open_elapsed_nanos(), open);
    assert_eq!(m.parquet_metadata_load_elapsed_nanos(), load);
    assert_eq!(m.read_elapsed_nanos(), read);
    let upper = started.elapsed().as_nanos() as u64;
    for nanos in [
        m.file_open_elapsed_nanos(),
        m.parquet_metadata_load_elapsed_nanos(),
        m.read_elapsed_nanos(),
    ] {
        assert!(nanos >= 2_000_000);
        assert!(nanos <= upper);
    }
    assert_eq!(m.read_errors(), 1);
    assert_eq!(m.parquet_files_opened(), 0);
}

#[test]
fn nanoseconds_are_cut_off_at_the_largest_u64() {
    assert_eq!(cap_nanos(0), 0);
    assert_eq!(cap_nanos(u64::MAX as u128), u64::MAX);
    assert_eq!(cap_nanos(u64::MAX as u128 + 1), u64::MAX);
    assert_eq!(cap_nanos(u128::MAX), u64::MAX);
}

#[test]
fn a_scan_result_hands_out_its_parts() {
    let mut m = ScanMetrics::new();
    m.parquet_file_opened();
    let result = ScanResult::new(vec![1, 2, 3], m);
    assert_eq!(result.metrics().parquet_files_opened(), 1);
    assert_eq!(result.stream(), vec![1, 2, 3]);
}
