//! Laws of the limit on rows.
use vstd::prelude::*;

use crate::outside::{batch_rows, RowBatch};
use crate::physical_plan::row_limit::{
    all_rows, lemma_limit_yields_first_rows, limited_rows, remaining_after, run,
};

verus! {

/// Of a batch, as many rows from its start pass as may still pass, at most all of them; no more
/// may pass afterwards than those that are left. Where none may pass, the batch is left out.
pub proof fn lemma_limit_on_a_batch(remaining: nat, rows: Seq<Seq<u8>>)
    ensures
        remaining == 0 ==> limited_rows(remaining, rows) is None,
        remaining > 0 ==> {
            &&& limited_rows(remaining, rows) matches Some(passed)
            &&& passed.len() <= remaining
            &&& passed.len() <= rows.len()
            &&& passed.len() == remaining || passed.len() == rows.len()
            &&& forall|i: int| 0 <= i < passed.len() ==> #[trigger] passed[i] == rows[i]
            &&& remaining_after(remaining, rows.len()) == remaining - passed.len()
        },
        remaining == 0 ==> remaining_after(remaining, rows.len()) == 0,
{
}

/// Of all rows that a partition reads, exactly the first `limit` pass, or all of them where there
/// are fewer, however they are split into batches.
pub proof fn lemma_limit_on_a_partition(limit: nat, batches: Seq<RowBatch>)
    ensures
        ({
            let rows = batches.map_values(|batch: RowBatch| batch_rows(batch)).flatten();
            run(limit, batches).0 == rows.take(
                if limit <= rows.len() {
                    limit as int
                } else {
                    rows.len() as int
                },
            )
        }),
{
    lemma_limit_yields_first_rows(limit, batches);
    lemma_all_rows_is_flatten(batches);
}

/// Running through one batch more passes what that batch adds.
pub proof fn lemma_limit_runs_batch_by_batch(limit: nat, batches: Seq<RowBatch>, batch: RowBatch)
    ensures
        run(limit, Seq::<RowBatch>::empty()) == (Seq::<Seq<u8>>::empty(), limit),
        ({
            let (passed, remaining) = run(limit, batches);
            run(limit, batches.push(batch)) == match limited_rows(remaining, batch_rows(batch)) {
                Some(part) => (passed + part, remaining_after(remaining, batch_rows(batch).len())),
                None => (passed, remaining),
            }
        }),
{
    assert(batches.push(batch).drop_last() =~= batches);
}

/// All rows of batches are those of each batch, one after the other.
pub proof fn lemma_all_rows_is_flatten(batches: Seq<RowBatch>)
    ensures
        all_rows(batches) == batches.map_values(|batch: RowBatch| batch_rows(batch)).flatten(),
    decreases batches.len(),
{
    let rows = batches.map_values(|batch: RowBatch| batch_rows(batch));
    if batches.len() > 0 {
        lemma_all_rows_is_flatten(batches.drop_last());
        let before = batches.drop_last().map_values(|batch: RowBatch| batch_rows(batch));
        assert(rows =~= before.push(batch_rows(batches.last())));
        before.lemma_flatten_push(batch_rows(batches.last()));
    }
}

} // verus!
