use std::sync::Arc;

use datafusion::arrow::datatypes::{DataType, Field, Schema};
use iceberg_scan::metadata::{BoundPredicate, FileScanTask, Predicate};
use iceberg_scan::physical_plan::bridge::ReadRuntime;
use iceberg_scan::physical_plan::bucket_scan::{BucketRead, IcebergBucketScan};
use iceberg_scan::physical_plan::partitioned_scan::IcebergPartitionedScan;
use iceberg_scan::physical_plan::row_limit::BatchDecision;
use iceberg_scan::physical_plan::scan::{IcebergTableScan, TaskSource};
use iceberg_scan::physical_plan::scan_planning::IcebergScanConfig;
use iceberg_scan::plan::{
    Boundedness, Column, EmissionType, Partitioning, PlanError, PlanProperties,
};
use iceberg_scan::schema::{names, ArrowSchemaRef};

fn schema(names: &[&str]) -> ArrowSchemaRef {
    let fields = names.iter().map(|name| Field::new(*name, DataType::Int32, true));
    Arc::new(Schema::new(fields.collect::<Vec<Field>>()))
}

/// What a task carries for its reader: the delete files.
type Deletes = Vec<&'static str>;

fn task(path: &str) -> FileScanTask<Deletes> {
    FileScanTask {
        data_file_path: path.to_string(),
        start: 0,
        length: 128,
        predicate: None,
        partition: None,
        details: Arc::new(vec!["d1", "d2"]),
    }
}

fn filtered(path: &str, predicate: &str) -> FileScanTask<Deletes> {
    FileScanTask {
        predicate: Some(BoundPredicate {
            text: predicate.to_string(),
        }),
        ..task(path)
    }
}

fn paths(tasks: &[FileScanTask<Deletes>]) -> Vec<&str> {
    tasks.iter().map(|t| t.data_file_path()).collect()
}

fn internal(error: PlanError) -> String {
    match error {
        PlanError::Internal(text) => text,
        other => panic!("not an internal error: {:?}", other),
    }
}

fn runtime() -> tokio::runtime::Runtime {
    tokio::runtime::Builder::new_current_thread().build().unwrap()
}

fn unknown_count(properties: &PlanProperties) -> usize {
    assert_eq!(properties.emission_type, EmissionType::Incremental);
    assert_eq!(properties.boundedness, Boundedness::Bounded);
    match properties.partitioning {
        Partitioning::UnknownPartitioning(n) => n,
        Partitioning::Hash(_, _) => panic!("hash partitioning"),
    }
}

#[test]
fn a_partitioned_scan_reads_one_task_per_partition() {
    let scan = IcebergPartitionedScan::new(vec![task("a"), task("b")], "io", schema(&["x"]), None);
    assert_eq!(unknown_count(scan.properties()), 2);
    assert_eq!(scan.properties().partitioning.partition_count(), 2);
    assert_eq!(paths(scan.tasks()), vec!["a", "b"]);
    assert_eq!(*scan.file_io(), "io");
    assert_eq!(scan.name(), "IcebergPartitionedScan");
    let read = scan.execute(1).unwrap();
    assert_eq!(read.task.data_file_path(), "b");
    assert_eq!(*read.file_io, "io");
    assert_eq!(names(read.schema), vec!["x"]);
    assert!(matches!(read.runtime, ReadRuntime::Caller));
    assert!(read.row_limit.is_none());
    assert_eq!(*read.task.details, vec!["d1", "d2"]);
}

#[test]
fn a_limit_bounds_the_rows_of_every_partition() {
    let tasks = vec![task("a"), task("b")];
    let scan = IcebergPartitionedScan::new(tasks, (), schema(&["x"]), Some(7));
    assert_eq!(scan.limit(), Some(7));
    for partition in 0..2 {
        let mut limit = scan.execute(partition).unwrap().row_limit.unwrap();
        assert_eq!(limit.remaining, 7);
        assert_eq!(limit.decide(5), BatchDecision::Keep);
        assert_eq!(limit.decide(5), BatchDecision::Truncate(2));
        assert_eq!(limit.decide(5), BatchDecision::Skip);
    }
    assert_eq!(
        scan.fmt_as(),
        "IcebergPartitionedScan projection:[x] predicate:[] file_count:[2] files:[a, b]"
    );
}

#[test]
fn a_partitioned_scan_has_no_other_partitions() {
    let scan = IcebergPartitionedScan::new(vec![task("a")], (), schema(&["x"]), None);
    assert_eq!(
        internal(scan.execute(1).unwrap_err()),
        "IcebergPartitionedScan: partition index 1 is out of bounds (total tasks: 1)"
    );
    let empty = IcebergPartitionedScan::<_, Deletes>::new(vec![], (), schema(&["x"]), None);
    assert_eq!(
        internal(empty.execute(0).unwrap_err()),
        "IcebergPartitionedScan: partition index 0 is out of bounds (total tasks: 0)"
    );
}

#[test]
fn a_partitioned_scan_shows_its_files_while_they_are_few() {
    let five: Vec<FileScanTask<Deletes>> = ["a", "b", "c", "d", "e"]
        .iter()
        .map(|p| filtered(p, "x > 1"))
        .collect();
    let scan = IcebergPartitionedScan::new(five, (), schema(&["x", "y"]), None);
    assert_eq!(
        scan.fmt_as(),
        "IcebergPartitionedScan projection:[x,y] predicate:[x > 1] file_count:[5] \
         files:[a, b, c, d, e]"
    );
    let six: Vec<FileScanTask<Deletes>> = (0..6).map(|i| task(&format!("f{i}"))).collect();
    let scan = IcebergPartitionedScan::new(six, (), schema(&["x"]), None);
    assert_eq!(
        scan.fmt_as(),
        "IcebergPartitionedScan projection:[x] predicate:[] file_count:[6]"
    );
    let none = IcebergPartitionedScan::<_, Deletes>::new(vec![], (), schema(&[]), None);
    assert_eq!(
        none.fmt_as(),
        "IcebergPartitionedScan projection:[] predicate:[] file_count:[0] files:[]"
    );
}

#[test]
fn a_runtime_changes_where_files_are_read_and_nothing_else() {
    let rt = runtime();
    let scan = IcebergPartitionedScan::new(vec![task("a")], 5, schema(&["x"]), Some(3))
        .with_io_handle(rt.handle().clone());
    assert_eq!(
        scan.fmt_as(),
        "IcebergPartitionedScan [io-runtime] projection:[x] predicate:[] file_count:[1] files:[a]"
    );
    assert_eq!(paths(scan.tasks()), vec!["a"]);
    assert_eq!(*scan.file_io(), 5);
    match scan.execute(0).unwrap().runtime {
        ReadRuntime::Io { handle, .. } => assert_eq!(handle.id(), rt.handle().id()),
        ReadRuntime::Caller => panic!("the attached runtime is not used"),
    }
    let copy = scan.clone();
    assert_eq!(copy.fmt_as(), scan.fmt_as());
    assert_eq!(unknown_count(copy.properties()), 1);
    assert_eq!(copy.limit(), Some(3));
    assert_eq!(*copy.tasks()[0].details, vec!["d1", "d2"]);
}

fn bucket_scan(groups: Vec<Vec<FileScanTask<Deletes>>>) -> IcebergBucketScan<&'static str, Deletes> {
    IcebergBucketScan::new(
        groups,
        "io",
        schema(&["id", "v"]),
        Column::new("id".to_string(), 0),
    )
}

#[test]
fn a_bucket_scan_hashes_on_the_bucketed_column() {
    let scan = bucket_scan(vec![vec![task("a")], vec![], vec![task("b"), task("c")]]);
    match &scan.properties().partitioning {
        Partitioning::Hash(columns, count) => {
            assert_eq!(*count, 3);
            assert_eq!(columns.len(), 1);
            assert_eq!(columns[0].name, "id");
            assert_eq!(columns[0].index, 0);
        }
        Partitioning::UnknownPartitioning(_) => panic!("unknown partitioning"),
    }
    assert_eq!(scan.tasks_by_bucket().len(), 3);
    assert_eq!(*scan.file_io(), "io");
    assert_eq!(scan.name(), "IcebergBucketScan");
    assert_eq!(scan.total_files(), 3);
}

#[test]
fn a_bucket_partition_reads_all_files_of_its_group() {
    let scan = bucket_scan(vec![vec![task("a")], vec![], vec![task("b"), task("c")]]);
    match scan.execute(2).unwrap() {
        BucketRead::Tasks {
            tasks,
            file_io,
            schema,
            runtime,
        } => {
            assert_eq!(paths(tasks), vec!["b", "c"]);
            assert_eq!(*file_io, "io");
            assert_eq!(names(schema), vec!["id", "v"]);
            assert!(matches!(runtime, ReadRuntime::Caller));
        }
        BucketRead::Empty { .. } => panic!("nothing to read"),
    }
    assert!(matches!(scan.execute(1).unwrap(), BucketRead::Empty { .. }));
    assert_eq!(
        internal(scan.execute(3).unwrap_err()),
        "IcebergBucketScan: partition index 3 out of bounds (bucket count: 3)"
    );
}

#[test]
fn an_empty_group_is_not_read_on_any_runtime() {
    let rt = runtime();
    let scan =
        bucket_scan(vec![vec![], vec![task("a")]]).with_io_handle(rt.handle().clone());
    assert!(matches!(scan.execute(0).unwrap(), BucketRead::Empty { .. }));
    match scan.execute(1).unwrap() {
        BucketRead::Tasks { runtime, .. } => assert!(matches!(runtime, ReadRuntime::Io { .. })),
        BucketRead::Empty { .. } => panic!("nothing to read"),
    }
}

#[test]
fn a_bucket_scan_shows_the_predicate_of_its_first_task() {
    let scan = bucket_scan(vec![vec![], vec![filtered("a", "v = 2"), task("b")], vec![]]);
    assert_eq!(
        scan.fmt_as(),
        "IcebergBucketScan projection:[id,v] predicate:[v = 2] buckets:[3] total_files:[2]"
    );
    let rt = runtime();
    let scan = bucket_scan(vec![]).with_io_handle(rt.handle().clone());
    assert_eq!(
        scan.fmt_as(),
        "IcebergBucketScan [io-runtime] projection:[id,v] predicate:[] buckets:[0] total_files:[0]"
    );
}

#[test]
fn a_cloned_bucket_scan_is_the_same_scan() {
    let rt = runtime();
    let scan = bucket_scan(vec![vec![filtered("a", "p")], vec![task("b"), task("c")]])
        .with_io_handle(rt.handle().clone());
    let copy = scan.clone();
    assert_eq!(copy.fmt_as(), scan.fmt_as());
    assert_eq!(paths(&copy.tasks_by_bucket()[1]), vec!["b", "c"]);
    match &copy.properties().partitioning {
        Partitioning::Hash(columns, 2) => assert_eq!(columns[0].name, "id"),
        _ => panic!("another partitioning"),
    }
}

fn config() -> IcebergScanConfig<u64> {
    IcebergScanConfig::new(
        Some(42),
        Some(vec!["x".to_string(), "y".to_string()]),
        Some(Predicate {
            text: "x = 1".to_string(),
            filter: Arc::new(77),
        }),
        schema(&["x", "y"]),
    )
}

fn table_scan(
    limit: Option<usize>,
    groups: Option<Vec<Vec<FileScanTask<Deletes>>>>,
) -> IcebergTableScan<&'static str, u64, Deletes> {
    IcebergTableScan::new("t", config(), limit, groups)
}

fn groups() -> Vec<Vec<FileScanTask<Deletes>>> {
    vec![vec![task("a"), task("b")], vec![], vec![task("c")]]
}

#[test]
fn a_table_scan_hands_out_what_it_was_made_with() {
    let scan = table_scan(Some(9), Some(groups()));
    assert_eq!(*scan.table(), "t");
    assert_eq!(scan.snapshot_id(), Some(42));
    assert_eq!(
        scan.projection().unwrap().to_vec(),
        vec!["x".to_string(), "y".to_string()]
    );
    assert_eq!(scan.predicates().unwrap().text, "x = 1");
    assert_eq!(*scan.predicates().unwrap().filter, 77);
    assert_eq!(scan.limit(), Some(9));
    assert_eq!(scan.scan_config().snapshot_id(), Some(42));
    assert_eq!(names(scan.schema()), vec!["x", "y"]);
    let shared = scan.file_task_groups().unwrap();
    assert_eq!(shared.len(), 3);
    assert_eq!(paths(&shared[0]), vec!["a", "b"]);
    assert_eq!(paths(&shared[1]), Vec::<&str>::new());
    assert_eq!(unknown_count(scan.properties()), 3);
}

#[test]
fn a_planned_scan_reads_the_group_of_its_partition() {
    let scan = table_scan(None, Some(groups()));
    let read = scan.execute(0).unwrap();
    match &read.source {
        TaskSource::Planned(tasks) => {
            assert_eq!(paths(tasks), vec!["a", "b"]);
            assert_eq!(*tasks[1].details, vec!["d1", "d2"]);
        }
        TaskSource::Lazy => panic!("planning is left to the run"),
    }
    assert_eq!(read.data_file_concurrency_limit, Some(1));
    assert!(read.row_limit.is_none());
    assert_eq!(
        internal(scan.execute(3).err().unwrap()),
        "IcebergTableScan partition 3 does not exist; scan has 3 partitions"
    );
}

#[test]
fn an_unplanned_scan_has_one_partition_and_reads_the_table() {
    let scan = table_scan(Some(4), None);
    assert_eq!(scan.properties().partitioning.partition_count(), 1);
    assert!(scan.file_task_groups().is_none());
    for partition in [0, 1, 17] {
        let read = scan.execute(partition).unwrap();
        assert!(matches!(read.source, TaskSource::Lazy));
        assert_eq!(read.data_file_concurrency_limit, None);
        assert_eq!(read.row_limit.unwrap().remaining, 4);
        assert_eq!(*read.table, "t");
        assert_eq!(read.scan_config.snapshot_id(), Some(42));
    }
}

#[test]
fn a_planned_scan_of_nothing_has_no_partition() {
    let scan = table_scan(None, Some(vec![]));
    assert_eq!(scan.properties().partitioning.partition_count(), 0);
    assert_eq!(
        internal(scan.execute(0).err().unwrap()),
        "IcebergTableScan partition 0 does not exist; scan has 0 partitions"
    );
}

#[test]
fn a_run_registers_its_metrics() {
    let scan = table_scan(None, Some(groups()));
    assert_eq!(scan.metrics().unwrap().set.iter().count(), 0);
    scan.execute(2).unwrap();
    let _stream = scan.scan_metric_stream(2);
    let metrics = scan.metrics().unwrap().set;
    let names: Vec<&str> = metrics.iter().map(|m| m.value().name()).collect();
    assert_eq!(names.len(), 10);
    assert_eq!(names[8], "time_to_first_batch");
    assert_eq!(names[9], "scan_elapsed");
    assert!(metrics.iter().all(|m| m.partition() == Some(2)));
    assert_eq!(scan.metrics_set().clone_inner().iter().count(), 10);
}

#[test]
fn a_reset_scan_has_fresh_metrics() {
    let scan = table_scan(Some(3), Some(groups()));
    scan.execute(0).unwrap();
    let fresh = scan.reset_state();
    fresh.execute(1).unwrap();
    assert_eq!(scan.metrics().unwrap().set.iter().count(), 8);
    let fresh = scan.reset_state();
    assert_eq!(fresh.metrics().unwrap().set.iter().count(), 0);
    assert_eq!(scan.metrics().unwrap().set.iter().count(), 8);
    assert_eq!(fresh.fmt_as(), scan.fmt_as());
    assert_eq!(fresh.limit(), Some(3));
    assert_eq!(*fresh.table(), "t");
    assert_eq!(unknown_count(fresh.properties()), 3);
}

#[test]
fn a_table_scan_is_a_leaf() {
    let scan = Arc::new(table_scan(None, None));
    let scan = scan.with_new_children(Vec::<u8>::new()).unwrap();
    assert_eq!(scan.name(), "IcebergTableScan");
    assert_eq!(
        internal(scan.with_new_children(vec![1u8]).unwrap_err()),
        "IcebergTableScan is a leaf node and cannot have children"
    );
}

#[test]
fn a_table_scan_shows_what_it_was_made_with() {
    let scan = table_scan(Some(12), Some(groups()));
    assert_eq!(
        scan.fmt_as(),
        "IcebergTableScan projection:[x,y] predicate:[x = 1] task_groups:[3] tasks:[3] limit:[12]"
    );
    let plain = IcebergScanConfig::<u64>::new(None, None, None, schema(&["x"]));
    let scan = IcebergTableScan::<_, _, Deletes>::new("t", plain, None, None);
    assert_eq!(scan.fmt_as(), "IcebergTableScan projection:[] predicate:[]");
    assert_eq!(scan.snapshot_id(), None);
    assert!(scan.projection().is_none());
    assert!(scan.predicates().is_none());
}
