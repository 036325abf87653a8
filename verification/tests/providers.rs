use std::sync::Arc;

use datafusion::arrow::datatypes::{DataType, Field, Schema};
use iceberg_scan::metadata::{
    FileScanTask, Literal, NamespaceIdent, NestedField, PartitionField, PartitionSpec, Predicate,
    PrimitiveLiteral, Struct, TableIdent, TableSchema, Transform,
};
use iceberg_scan::plan::{Boundedness, EmissionType, FilterPushDown, Partitioning, PlanError};
use iceberg_scan::schema::names;
use iceberg_scan::table::bucket::{BucketTableTasks, IcebergBucketTableProvider};
use iceberg_scan::table::bucket_groups::{
    detect_bucket_field, extract_bucket_value, group_tasks_by_bucket, BucketFieldInfo,
};
use iceberg_scan::table::fetch::{ColumnSelection, FetchError, ScanError};
use iceberg_scan::table::partitioned::{IcebergPartitionedTableProvider, TableTasks};

fn schema(names: &[&str]) -> Schema {
    let fields = names.iter().map(|name| Field::new(*name, DataType::Int32, true));
    Schema::new(fields.collect::<Vec<Field>>())
}

fn namespace() -> NamespaceIdent {
    NamespaceIdent {
        levels: vec!["ns".to_string()],
    }
}

fn fake_data_file(i: usize) -> FileScanTask<u8> {
    FileScanTask {
        data_file_path: format!("warehouse/t/data/fake_{i}.parquet"),
        start: 0,
        length: 128,
        predicate: None,
        partition: None,
        details: Arc::new(9),
    }
}

fn partitioned() -> IcebergPartitionedTableProvider {
    IcebergPartitionedTableProvider::try_new(
        namespace(),
        "t".to_string(),
        Ok::<_, String>(schema(&["id", "name"])),
    )
    .unwrap()
}

fn fetched(n: usize) -> Result<TableTasks<&'static str, u8>, FetchError<String>> {
    Ok(TableTasks {
        file_io: "io",
        tasks: (0..n).map(fake_data_file).collect(),
    })
}

/// An empty table must produce a zero-partition scan, so that no partition is ever executed.
#[test]
fn test_empty_table_zero_partitions() {
    let scan = partitioned().scan(None, None, fetched(0)).unwrap();
    assert_eq!(scan.tasks().len(), 0);
    assert_eq!(scan.properties().partitioning.partition_count(), 0);
}

/// Each data file in the table must become exactly one partition.
#[test]
fn test_one_partition_per_file() {
    let scan = partitioned().scan(None, None, fetched(3)).unwrap();
    assert_eq!(scan.tasks().len(), 3);
    assert_eq!(scan.properties().partitioning.partition_count(), 3);
    for i in 0..3 {
        assert_eq!(
            scan.execute(i).unwrap().task.data_file_path(),
            format!("warehouse/t/data/fake_{i}.parquet")
        );
    }
    assert!(scan.execute(3).is_err());
}

#[test]
fn a_provider_cannot_be_made_of_a_table_that_cannot_be_loaded() {
    let error = IcebergPartitionedTableProvider::try_new(
        namespace(),
        "t".to_string(),
        Err("no such table"),
    )
    .unwrap_err();
    assert_eq!(error, "no such table");
    let error =
        IcebergBucketTableProvider::try_new(namespace(), "t".to_string(), Err(13)).unwrap_err();
    assert_eq!(error, 13);
}

#[test]
fn a_provider_knows_its_table() {
    let provider = partitioned();
    assert_eq!(provider.table_ident().name, "t");
    assert_eq!(provider.table_ident().namespace.levels, vec!["ns".to_string()]);
    assert_eq!(names(&provider.schema()), vec!["id", "name"]);
    let ident = TableIdent::new(namespace(), "u".to_string());
    assert_eq!(ident.name, "u");
    let provider = bucketed();
    assert_eq!(provider.table_ident().name, "b");
    assert_eq!(names(&provider.schema()), vec!["id", "name", "day"]);
}

#[test]
fn a_projection_asks_for_its_columns_and_yields_them() {
    let provider = partitioned();
    let request = provider.fetch_request(
        Some(&vec![1, 0]),
        Some(Predicate {
            text: "id = 1".to_string(),
            filter: Arc::new("id = 1 as an expression"),
        }),
    );
    match &request.columns {
        ColumnSelection::Named(names) => {
            assert_eq!(*names, vec!["name".to_string(), "id".to_string()])
        }
        ColumnSelection::All => panic!("all columns"),
    }
    let filter = request.filter.unwrap();
    assert_eq!(filter.text, "id = 1");
    assert_eq!(*filter.filter, "id = 1 as an expression");
    assert_eq!(request.table_ident.name, "t");
    assert!(request.runtime.is_none());
    let scan = provider.scan(Some(&vec![1, 0]), None, fetched(1)).unwrap();
    assert_eq!(names(scan.schema()), vec!["name", "id"]);
    assert_eq!(*scan.file_io(), "io");

    let request = provider.fetch_request::<()>(None, None);
    assert!(matches!(request.columns, ColumnSelection::All));
    assert!(request.filter.is_none());
    let scan = provider.scan(None, None, fetched(1)).unwrap();
    assert_eq!(names(scan.schema()), vec!["id", "name"]);
}

#[test]
fn a_limit_is_handed_on_to_the_scan() {
    let scan = partitioned().scan(None, Some(4), fetched(2)).unwrap();
    assert_eq!(scan.limit(), Some(4));
    assert_eq!(scan.execute(1).unwrap().row_limit.unwrap().remaining, 4);
    let scan = partitioned().scan(None, None, fetched(2)).unwrap();
    assert!(scan.execute(1).unwrap().row_limit.is_none());
}

#[test]
fn the_details_of_a_task_reach_its_reader() {
    let scan = partitioned().scan(None, None, fetched(1)).unwrap();
    assert_eq!(*scan.execute(0).unwrap().task.details, 9);
}

#[test]
fn a_cloned_provider_is_the_same_provider() {
    let rt = tokio::runtime::Builder::new_current_thread().build().unwrap();
    let provider = partitioned().with_io_handle(rt.handle().clone()).clone();
    assert_eq!(provider.table_ident().name, "t");
    assert_eq!(provider.table_ident().namespace.levels, vec!["ns".to_string()]);
    assert_eq!(names(&provider.schema()), vec!["id", "name"]);
    assert!(provider.fetch_request::<()>(None, None).runtime.is_some());
    let provider = bucketed().clone();
    assert_eq!(provider.table_ident().name, "b");
    assert!(provider.fetch_request::<()>(None, None).runtime.is_none());
}

#[test]
fn a_runtime_is_handed_on_to_the_scans() {
    let rt = tokio::runtime::Builder::new_current_thread().build().unwrap();
    let provider = partitioned().with_io_handle(rt.handle().clone());
    let request = provider.fetch_request::<()>(None, None);
    assert_eq!(request.runtime.unwrap().id(), rt.handle().id());
    let scan = provider.scan(None, None, fetched(1)).unwrap();
    assert!(scan.fmt_as().starts_with("IcebergPartitionedScan [io-runtime] "));
    let provider = bucketed().with_io_handle(rt.handle().clone());
    assert!(provider.fetch_request::<()>(None, None).runtime.is_some());
    let scan = provider.scan(None, bucket_fetched(vec![])).unwrap();
    assert!(scan.fmt_as().starts_with("IcebergBucketScan [io-runtime] "));
}

fn plan_text<E: std::fmt::Debug>(error: ScanError<E>) -> String {
    match error {
        ScanError::Plan(PlanError::Internal(text)) => format!("internal: {text}"),
        ScanError::Plan(PlanError::Plan(text)) => format!("plan: {text}"),
        other => panic!("another error: {:?}", other),
    }
}

#[test]
fn a_failed_fetch_fails_the_scan() {
    let error = partitioned()
        .scan::<(), (), _>(None, None, Err(FetchError::Source(7)))
        .unwrap_err();
    assert!(matches!(error, ScanError::Source(7)));
    let error = partitioned()
        .scan::<(), (), ()>(None, None, Err(FetchError::TaskPanicked("boom".to_string())))
        .unwrap_err();
    assert_eq!(
        plan_text(error),
        "internal: IcebergPartitionedScan: IO task panicked: boom"
    );
    let error = bucketed()
        .scan::<(), (), _>(None, Err(FetchError::Source("down")))
        .unwrap_err();
    assert!(matches!(error, ScanError::Source("down")));
    let error = bucketed()
        .scan::<(), (), ()>(None, Err(FetchError::TaskPanicked("boom".to_string())))
        .unwrap_err();
    assert_eq!(
        plan_text(error),
        "internal: IcebergBucketScan: IO task panicked: boom"
    );
}

#[test]
fn filters_are_hints() {
    assert_eq!(
        partitioned().supports_filters_pushdown(&["a", "b"]),
        vec![FilterPushDown::Inexact, FilterPushDown::Inexact]
    );
    assert_eq!(bucketed().supports_filters_pushdown::<u8>(&[]), vec![]);
    assert_eq!(
        bucketed().supports_filters_pushdown(&[1]),
        vec![FilterPushDown::Inexact]
    );
}

#[test]
fn writes_are_not_supported() {
    match partitioned().insert_into::<()>() {
        Err(PlanError::FeatureUnsupported(text)) => assert_eq!(
            text,
            "IcebergPartitionedTableProvider does not support writes; \
             use IcebergTableProvider instead"
        ),
        other => panic!("not refused: {:?}", other),
    }
}

fn bucketed() -> IcebergBucketTableProvider {
    IcebergBucketTableProvider::try_new(
        namespace(),
        "b".to_string(),
        Ok::<_, String>(schema(&["id", "name", "day"])),
    )
    .unwrap()
}

fn table_schema() -> TableSchema {
    TableSchema {
        fields: [(1, "id"), (2, "name"), (3, "day")]
            .iter()
            .map(|(id, name)| NestedField {
                id: *id,
                name: name.to_string(),
            })
            .collect(),
    }
}

fn spec(fields: &[(i32, Transform)]) -> PartitionSpec {
    PartitionSpec {
        fields: fields
            .iter()
            .map(|(source_id, transform)| PartitionField {
                source_id: *source_id,
                transform: *transform,
            })
            .collect(),
    }
}

fn bucket(v: i32) -> Option<Literal> {
    Some(Literal::Primitive(PrimitiveLiteral::Int(v)))
}

fn in_partition(path: &str, fields: Vec<Option<Literal>>) -> FileScanTask<u8> {
    FileScanTask {
        data_file_path: path.to_string(),
        partition: Some(Struct { fields }),
        ..fake_data_file(0)
    }
}

fn info(field_idx: usize, bucket_count: u32) -> BucketFieldInfo {
    BucketFieldInfo {
        field_idx,
        source_col_name: "id".to_string(),
        source_col_idx: 0,
        bucket_count,
    }
}

fn bucket_fetched(
    tasks: Vec<FileScanTask<u8>>,
) -> Result<BucketTableTasks<&'static str, u8>, FetchError<String>> {
    Ok(BucketTableTasks {
        file_io: "io",
        tasks,
        partition_spec: Arc::new(spec(&[
            (3, Transform::Day),
            (1, Transform::Bucket(4)),
        ])),
        table_schema: Arc::new(table_schema()),
    })
}

fn paths(groups: &[Vec<FileScanTask<u8>>]) -> Vec<Vec<&str>> {
    groups
        .iter()
        .map(|group| group.iter().map(|t| t.data_file_path()).collect())
        .collect()
}

#[test]
fn the_bucket_field_is_resolved_in_the_output() {
    let found = detect_bucket_field(
        &spec(&[(3, Transform::Day), (1, Transform::Bucket(16))]),
        &table_schema(),
        &schema(&["name", "id"]),
    )
    .unwrap();
    assert_eq!(found.field_idx, 1);
    assert_eq!(found.source_col_name, "id");
    assert_eq!(found.source_col_idx, 1);
    assert_eq!(found.bucket_count, 16);
}

#[test]
fn there_may_be_no_usable_bucket_field() {
    let names = schema(&["id", "name", "day"]);
    let table = table_schema();
    let none = spec(&[(3, Transform::Day), (1, Transform::Truncate(4))]);
    assert!(detect_bucket_field(&none, &table, &names).is_none());
    let bucket = spec(&[(1, Transform::Bucket(4))]);
    assert!(detect_bucket_field(&bucket, &table, &schema(&["name"])).is_none());
    let unknown = spec(&[(9, Transform::Bucket(4))]);
    assert!(detect_bucket_field(&unknown, &table, &names).is_none());
}

#[test]
fn only_the_first_bucket_field_counts() {
    let both = spec(&[(1, Transform::Bucket(4)), (2, Transform::Bucket(8))]);
    let table = table_schema();
    let found = detect_bucket_field(&both, &table, &schema(&["name", "id"])).unwrap();
    assert_eq!(found.field_idx, 0);
    assert_eq!(found.bucket_count, 4);
    assert!(detect_bucket_field(&both, &table, &schema(&["name"])).is_none());
}

#[test]
fn a_bucket_value_is_an_integer_of_the_partition_tuple() {
    assert_eq!(extract_bucket_value(&in_partition("a", vec![bucket(5)]), 0), Some(5));
    assert_eq!(extract_bucket_value(&in_partition("a", vec![bucket(5)]), 1), None);
    assert_eq!(extract_bucket_value(&in_partition("a", vec![None]), 0), None);
    assert_eq!(extract_bucket_value(&fake_data_file(0), 0), None);
    for other in [
        Literal::Nested,
        Literal::Primitive(PrimitiveLiteral::Long(5)),
        Literal::Primitive(PrimitiveLiteral::Boolean(true)),
        Literal::Primitive(PrimitiveLiteral::Other),
    ] {
        assert_eq!(
            extract_bucket_value(&in_partition("a", vec![Some(other)]), 0),
            None
        );
    }
}

#[test]
fn tasks_are_grouped_by_ascending_bucket_in_planned_order() {
    let tasks = vec![
        in_partition("a", vec![bucket(3)]),
        in_partition("b", vec![bucket(0)]),
        in_partition("c", vec![bucket(3)]),
        in_partition("d", vec![bucket(1)]),
        in_partition("e", vec![bucket(0)]),
    ];
    assert_eq!(
        paths(&group_tasks_by_bucket(tasks, &info(0, 4))),
        vec![vec!["b", "e"], vec!["d"], vec!["a", "c"]]
    );
}

#[test]
fn tasks_without_a_bucket_in_range_are_ignored() {
    let tasks = vec![
        in_partition("a", vec![bucket(-1)]),
        in_partition("b", vec![bucket(4)]),
        in_partition("c", vec![bucket(i32::MIN)]),
        in_partition("d", vec![None]),
        fake_data_file(1),
        in_partition("e", vec![bucket(2)]),
    ];
    assert_eq!(
        paths(&group_tasks_by_bucket(tasks, &info(0, 4))),
        vec![vec!["e"]]
    );
    assert_eq!(group_tasks_by_bucket::<u8>(vec![], &info(0, 4)).len(), 0);
    let one = vec![in_partition("a", vec![bucket(0)])];
    assert_eq!(group_tasks_by_bucket(one, &info(0, 0)).len(), 0);
}

#[test]
fn a_bucket_scan_has_a_partition_per_populated_bucket() {
    let tasks = vec![
        in_partition("a", vec![bucket(70), bucket(2)]),
        in_partition("b", vec![bucket(71), bucket(0)]),
        in_partition("c", vec![bucket(72), bucket(2)]),
    ];
    let scan = bucketed().scan(None, bucket_fetched(tasks)).unwrap();
    assert_eq!(paths(scan.tasks_by_bucket()), vec![vec!["b"], vec!["a", "c"]]);
    assert_eq!(scan.properties().emission_type, EmissionType::Incremental);
    assert_eq!(scan.properties().boundedness, Boundedness::Bounded);
    match &scan.properties().partitioning {
        Partitioning::Hash(columns, 2) => {
            assert_eq!(columns[0].name, "id");
            assert_eq!(columns[0].index, 0);
        }
        other => panic!("another partitioning: {:?}", other),
    }
}

#[test]
fn a_projected_bucket_scan_finds_its_column_again() {
    let scan = bucketed()
        .scan(Some(&vec![2, 0]), bucket_fetched(vec![]))
        .unwrap();
    assert_eq!(names(scan.schema()), vec!["day", "id"]);
    match &scan.properties().partitioning {
        Partitioning::Hash(columns, 0) => assert_eq!(columns[0].index, 1),
        other => panic!("another partitioning: {:?}", other),
    }
}

#[test]
fn a_bucket_scan_without_the_bucketed_column_fails() {
    let error = bucketed()
        .scan(Some(&vec![1]), bucket_fetched(vec![]))
        .unwrap_err();
    assert_eq!(
        plan_text(error),
        "plan: IcebergBucketTableProvider: table has no bucket partition field, \
         or the bucket source column was projected out"
    );
}
