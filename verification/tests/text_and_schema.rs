use std::collections::HashMap;

use datafusion::arrow::datatypes::{DataType, Field, Schema};
use iceberg_scan::metadata::{NestedField, TableSchema};
use iceberg_scan::schema::{names, names_at, ArrowSchemaRef};
use iceberg_scan::plan::PlanError;
use iceberg_scan::table::fetch::project_schema;
use iceberg_scan::text::{join, push_decimal};
use std::sync::Arc;

fn schema() -> ArrowSchemaRef {
    let metadata = HashMap::from([("origin".to_string(), "north".to_string())]);
    let fields = vec![
        Field::new("a", DataType::Int32, false),
        Field::new("b", DataType::Utf8, true),
        Field::new("c", DataType::Boolean, false),
    ];
    Arc::new(Schema::new_with_metadata(fields, metadata))
}

fn decimal(n: usize) -> String {
    let mut text = String::from("n=");
    push_decimal(&mut text, n);
    text
}

#[test]
fn numbers_are_written_in_decimal() {
    assert_eq!(decimal(0), "n=0");
    assert_eq!(decimal(9), "n=9");
    assert_eq!(decimal(10), "n=10");
    assert_eq!(decimal(1203), "n=1203");
    assert_eq!(decimal(4_567_890), "n=4567890");
    assert_eq!(decimal(usize::MAX), format!("n={}", usize::MAX));
}

#[test]
fn parts_are_joined_by_the_separator() {
    assert_eq!(join(&vec![], ","), "");
    assert_eq!(join(&vec!["a"], ","), "a");
    assert_eq!(join(&vec!["a", "", "c"], ", "), "a, , c");
}

#[test]
fn column_names_come_in_order() {
    let s = schema();
    assert_eq!(names(&s), vec!["a", "b", "c"]);
    assert_eq!(names(&Schema::empty()), Vec::<&str>::new());
    assert_eq!(names_at(&s, &vec![2, 0]), vec!["c".to_string(), "a".to_string()]);
}

#[test]
fn a_projection_keeps_its_own_order_and_whole_columns() {
    let s = schema();
    let projected = project_schema(&s, Some(&vec![1, 0, 1])).unwrap();
    let expected = vec![
        Field::new("b", DataType::Utf8, true),
        Field::new("a", DataType::Int32, false),
        Field::new("b", DataType::Utf8, true),
    ];
    assert_eq!(
        *projected,
        Schema::new_with_metadata(expected, s.metadata().clone())
    );
    assert_eq!(names(&project_schema(&s, Some(&vec![])).unwrap()).len(), 0);
    assert!(Arc::ptr_eq(&project_schema(&s, None).unwrap(), &s));
}

#[test]
fn a_projection_fails_at_the_first_missing_column() {
    match project_schema(&schema(), Some(&vec![1, 7, 9])) {
        Err(PlanError::Internal(text)) => assert_eq!(
            text,
            "schema projection failed: Schema error: project index 7 out of bounds, max field 3"
        ),
        other => panic!("not refused: {:?}", other),
    }
}

#[test]
fn a_table_column_is_found_by_its_id() {
    let table = TableSchema {
        fields: vec![
            NestedField {
                id: 4,
                name: "x".to_string(),
            },
            NestedField {
                id: 2,
                name: "y".to_string(),
            },
        ],
    };
    assert_eq!(table.field_by_id(2).unwrap().name, "y");
    assert_eq!(table.field_by_id(4).unwrap().name, "x");
    assert!(table.field_by_id(3).is_none());
}
