use datafusion::arrow::datatypes::Schema;
use datafusion::physical_plan::metrics::ExecutionPlanMetricsSet;
use iceberg_scan::arrow::scan_metrics::ScanMetrics;
use iceberg_scan::physical_plan::scan::IcebergTableScan;
use iceberg_scan::physical_plan::scan_planning::IcebergScanConfig;
use iceberg_scan::physical_plan::scan_stream::{PollOutcome, ScanTiming};
use iceberg_scan::physical_plan::storage_metrics::{
    add_elapsed_delta, delta_as_usize, DataFusionStorageMetrics, ScanMetricSnapshot,
    StorageMetricStream,
};
use std::sync::Arc;

fn value(set: &ExecutionPlanMetricsSet, name: &str) -> Option<usize> {
    let metrics = set.clone_inner();
    let found = metrics.iter().find(|m| m.value().name() == name);
    found.map(|m| m.value().as_usize())
}

#[test]
fn a_delta_is_what_a_counter_has_advanced() {
    let mut previous = 4;
    assert_eq!(delta_as_usize(10, &mut previous), 6);
    assert_eq!(previous, 10);
    assert_eq!(delta_as_usize(10, &mut previous), 0);
    assert_eq!(delta_as_usize(3, &mut previous), 0);
    assert_eq!(previous, 3);
    assert_eq!(delta_as_usize(u64::MAX, &mut previous), usize::MAX - 3);
}

#[test]
fn an_elapsed_delta_is_added_to_its_metric() {
    let set = ExecutionPlanMetricsSet::new();
    let mut metrics = DataFusionStorageMetrics::new(&set, 3);
    let mut previous = 100;
    add_elapsed_delta(&mut metrics.file_open_elapsed, 100, &mut previous);
    assert_eq!(value(&set, "file_open_elapsed"), Some(0));
    add_elapsed_delta(&mut metrics.file_open_elapsed, 175, &mut previous);
    assert_eq!(value(&set, "file_open_elapsed"), Some(75));
    assert_eq!(previous, 175);
    add_elapsed_delta(&mut metrics.file_open_elapsed, 20, &mut previous);
    assert_eq!(value(&set, "file_open_elapsed"), Some(75));
    assert_eq!(previous, 20);
    assert_eq!(value(&set, "storage_read_elapsed"), Some(0));
}

#[test]
fn storage_metrics_are_registered_by_name_and_partition() {
    let set = ExecutionPlanMetricsSet::new();
    let _metrics = DataFusionStorageMetrics::new(&set, 2);
    let inner = set.clone_inner();
    let names: Vec<String> = inner
        .iter()
        .map(|m| {
            assert_eq!(m.partition(), Some(2));
            m.value().name().to_string()
        })
        .collect();
    assert_eq!(
        names,
        vec![
            "storage_bytes_read",
            "storage_read_requests",
            "storage_read_errors",
            "storage_read_elapsed",
            "parquet_files_opened",
            "file_open_elapsed",
            "parquet_metadata_load_elapsed",
            "file_scan_tasks_started",
        ]
    );
}

#[test]
fn every_counter_reaches_its_own_metric() {
    let set = ExecutionPlanMetricsSet::new();
    let mut metrics = DataFusionStorageMetrics::new(&set, 0);
    let mut scan = ScanMetrics::new();
    scan.begin_read(&(0..1000));
    scan.begin_read(&(0..1));
    scan.finish_read_after(30, true);
    scan.parquet_file_opened();
    scan.parquet_file_opened();
    scan.parquet_file_opened();
    scan.add_file_open_nanos(500);
    scan.add_parquet_metadata_load_nanos(600);
    for _ in 0..7 {
        scan.file_scan_task_started();
    }
    let mut previous = ScanMetricSnapshot::default();
    metrics.record(&scan, &mut previous);
    assert_eq!(value(&set, "storage_bytes_read"), Some(1001));
    assert_eq!(value(&set, "storage_read_requests"), Some(2));
    assert_eq!(value(&set, "storage_read_errors"), Some(1));
    assert_eq!(value(&set, "storage_read_elapsed"), Some(30));
    assert_eq!(value(&set, "parquet_files_opened"), Some(3));
    assert_eq!(value(&set, "file_open_elapsed"), Some(500));
    assert_eq!(value(&set, "parquet_metadata_load_elapsed"), Some(600));
    assert_eq!(value(&set, "file_scan_tasks_started"), Some(7));
    assert_eq!(previous.storage_bytes_read, 1001);
    assert_eq!(previous.storage_read_requests, 2);
    assert_eq!(previous.storage_read_errors, 1);
    assert_eq!(previous.storage_read_elapsed, 30);
    assert_eq!(previous.parquet_files_opened, 3);
    assert_eq!(previous.file_open_elapsed, 500);
    assert_eq!(previous.parquet_metadata_load_elapsed, 600);
    assert_eq!(previous.file_scan_tasks_started, 7);
}

#[test]
fn repeated_recording_adds_up_to_the_counters() {
    let set = ExecutionPlanMetricsSet::new();
    let mut stream = StorageMetricStream::new(DataFusionStorageMetrics::new(&set, 0));
    let mut scan = ScanMetrics::new();
    for i in 0..5u64 {
        scan.begin_read(&(0..i * 10));
        scan.finish_read_after(i, i % 2 == 1);
        stream.record_metrics(&scan);
        stream.record_metrics(&scan);
    }
    assert_eq!(value(&set, "storage_bytes_read"), Some(100));
    assert_eq!(value(&set, "storage_read_requests"), Some(5));
    assert_eq!(value(&set, "storage_read_errors"), Some(2));
    assert_eq!(value(&set, "storage_read_elapsed"), Some(10));
}

fn timed() -> IcebergTableScan<(), (), ()> {
    let schema = Arc::new(Schema::empty());
    IcebergTableScan::new((), IcebergScanConfig::new(None, None, None, schema), None, None)
}

#[test]
fn the_first_batch_and_the_end_are_recorded_once() {
    let scan = timed();
    let set = scan.metrics_set();
    let mut stream = scan.scan_metric_stream(0);
    assert_eq!(stream.on_poll(PollOutcome::Pending), None);
    assert_eq!(value(set, "time_to_first_batch"), Some(0));
    assert_eq!(
        stream.on_poll(PollOutcome::Batch),
        Some(ScanTiming::TimeToFirstBatch)
    );
    let first = value(set, "time_to_first_batch").unwrap();
    assert!(first > 0);
    assert_eq!(stream.on_poll(PollOutcome::Batch), None);
    assert_eq!(value(set, "time_to_first_batch"), Some(first));
    assert_eq!(value(set, "scan_elapsed"), Some(0));
    assert_eq!(stream.on_poll(PollOutcome::End), Some(ScanTiming::ScanElapsed));
    let elapsed = value(set, "scan_elapsed").unwrap();
    assert!(elapsed > 0);
    assert_eq!(stream.finish(), None);
    assert_eq!(value(set, "scan_elapsed"), Some(elapsed));
}

#[test]
fn an_error_ends_the_scan_but_not_the_stream() {
    let scan = timed();
    let mut stream = scan.scan_metric_stream(0);
    assert_eq!(stream.on_poll(PollOutcome::Error), Some(ScanTiming::ScanElapsed));
    assert_eq!(
        stream.on_poll(PollOutcome::Batch),
        Some(ScanTiming::TimeToFirstBatch)
    );
    assert_eq!(stream.on_poll(PollOutcome::Error), None);
    assert_eq!(stream.on_poll(PollOutcome::End), None);
}

#[test]
fn a_dropped_stream_records_its_end() {
    let scan = timed();
    let set = scan.metrics_set();
    let mut stream = scan.scan_metric_stream(0);
    assert_eq!(stream.finish(), Some(ScanTiming::ScanElapsed));
    assert_eq!(stream.finish(), None);
    assert_eq!(value(set, "time_to_first_batch"), Some(0));
}
