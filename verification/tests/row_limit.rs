use std::sync::Arc;

use datafusion::arrow::array::{Array, ArrayRef, Int32Array, RecordBatch};
use iceberg_scan::outside::RowBatch;
use iceberg_scan::physical_plan::row_limit::{BatchDecision, RowLimit};

fn batch(values: &[i32]) -> RowBatch {
    let column: ArrayRef = Arc::new(Int32Array::from(values.to_vec()));
    RowBatch {
        batch: RecordBatch::try_from_iter(vec![("id", column)]).unwrap(),
    }
}

fn values(batch: &RowBatch) -> Vec<i32> {
    let column = batch.batch.column(0);
    let column = column.as_any().downcast_ref::<Int32Array>().unwrap();
    (0..column.len()).map(|i| column.value(i)).collect()
}

fn run(limit: usize, batches: &[&[i32]]) -> Vec<Option<Vec<i32>>> {
    let mut row_limit = RowLimit::new(limit);
    batches
        .iter()
        .map(|rows| row_limit.apply(batch(rows)).map(|part| values(&part)))
        .collect()
}

#[test]
fn decisions_follow_the_remaining_rows() {
    let mut limit = RowLimit::new(5);
    assert_eq!(limit.decide(3), BatchDecision::Keep);
    assert_eq!(limit.remaining, 2);
    assert_eq!(limit.decide(0), BatchDecision::Keep);
    assert_eq!(limit.decide(4), BatchDecision::Truncate(2));
    assert_eq!(limit.remaining, 0);
    assert_eq!(limit.decide(0), BatchDecision::Skip);
    assert_eq!(limit.decide(9), BatchDecision::Skip);
}

#[test]
fn a_batch_that_fits_exactly_is_kept() {
    let mut limit = RowLimit::new(4);
    assert_eq!(limit.decide(4), BatchDecision::Keep);
    assert_eq!(limit.remaining, 0);
}

#[test]
fn a_limit_yields_the_first_rows_across_batches() {
    assert_eq!(
        run(5, &[&[1, 2, 3], &[4, 5, 6, 7], &[8]]),
        vec![Some(vec![1, 2, 3]), Some(vec![4, 5]), None]
    );
}

#[test]
fn a_limit_that_is_not_reached_yields_everything() {
    assert_eq!(
        run(10, &[&[1, 2], &[], &[3]]),
        vec![Some(vec![1, 2]), Some(vec![]), Some(vec![3])]
    );
}

#[test]
fn a_limit_of_zero_yields_nothing() {
    assert_eq!(run(0, &[&[1], &[], &[2, 3]]), vec![None, None, None]);
}

#[test]
fn a_cut_batch_keeps_its_schema() {
    let whole = batch(&[1, 2, 3]);
    let schema = whole.batch.schema();
    let mut limit = RowLimit::new(1);
    let part = limit.apply(whole).unwrap();
    assert_eq!(part.batch.schema(), schema);
    assert_eq!(values(&part), vec![1]);
}
