//! The bound on the rows that one scan partition yields.
use vstd::prelude::*;

use crate::outside::{batch_rows, RowBatch};

verus! {

/// What becomes of a batch.
#[derive(Debug, Clone, Copy, PartialEq, Eq, Structural)]
pub enum BatchDecision {
    /// The batch is left out.
    Skip,
    /// The batch passes as it is.
    Keep,
    /// Only this many rows from the start of the batch pass.
    Truncate(usize),
}

/// The rows that may still pass.
#[derive(Debug, Clone, Copy)]
pub struct RowLimit {
    pub remaining: usize,
}

/// The smaller of two numbers.
pub open spec fn min(a: nat, b: nat) -> nat {
    if a <= b {
        a
    } else {
        b
    }
}

/// All rows of `batches`, one batch after the other.
pub open spec fn all_rows(batches: Seq<RowBatch>) -> Seq<Seq<u8>>
    decreases batches.len(),
{
    if batches.len() == 0 {
        seq![]
    } else {
        all_rows(batches.drop_last()) + batch_rows(batches.last())
    }
}

/// What passes a limit of `remaining` rows of a batch with the rows `rows`: nothing once no row
/// may pass any more, else as many rows from the start as may pass.
pub open spec fn limited_rows(remaining: nat, rows: Seq<Seq<u8>>) -> Option<Seq<Seq<u8>>> {
    if remaining == 0 {
        None
    } else {
        Some(rows.take(min(remaining, rows.len()) as int))
    }
}

/// The rows that may still pass after a batch of `count` rows.
pub open spec fn remaining_after(remaining: nat, count: nat) -> nat {
    (remaining - min(remaining, count)) as nat
}

/// Feeding `batches` to a limit of `limit` rows, the rows that pass and those that still may.
pub open spec fn run(limit: nat, batches: Seq<RowBatch>) -> (Seq<Seq<u8>>, nat)
    decreases batches.len(),
{
    if batches.len() == 0 {
        (seq![], limit)
    } else {
        let (passed, remaining) = run(limit, batches.drop_last());
        let rows = batch_rows(batches.last());
        match limited_rows(remaining, rows) {
            Some(part) => (passed + part, remaining_after(remaining, rows.len())),
            None => (passed, remaining),
        }
    }
}

impl RowLimit {
    /// A limit of `limit` rows, none of which has passed yet.
    pub fn new(limit: usize) -> (row_limit: Self)
        ensures
            row_limit.remaining == limit,
    {
        RowLimit { remaining: limit }
    }

    /// Decides on a batch of `num_rows` rows and counts the rows that pass.
    pub fn decide(&mut self, num_rows: usize) -> (decision: BatchDecision)
        ensures
            decision == (if old(self).remaining == 0 {
                BatchDecision::Skip
            } else if num_rows <= old(self).remaining {
                BatchDecision::Keep
            } else {
                BatchDecision::Truncate(old(self).remaining)
            }),
            final(self).remaining == remaining_after(old(self).remaining as nat, num_rows as nat),
    {
        if self.remaining == 0 {
            BatchDecision::Skip
        } else if num_rows <= self.remaining {
            self.remaining = self.remaining - num_rows;
            BatchDecision::Keep
        } else {
            let rows: usize = self.remaining;
            self.remaining = 0;
            BatchDecision::Truncate(rows)
        }
    }

    /// Lets through what the limit allows of `batch`.
    pub fn apply(&mut self, batch: RowBatch) -> (passed: Option<RowBatch>)
        ensures
            passed is None <==> old(self).remaining == 0,
            passed matches Some(part) ==> {
                &&& limited_rows(old(self).remaining as nat, batch_rows(batch)) == Some(
                    batch_rows(part),
                )
                &&& batch_rows(batch).len() <= old(self).remaining ==> part == batch
            },
            final(self).remaining == remaining_after(
                old(self).remaining as nat,
                batch_rows(batch).len(),
            ),
    {
        match self.decide(batch.num_rows()) {
            BatchDecision::Skip => None,
            BatchDecision::Keep => {
                assert(batch_rows(batch).take(batch_rows(batch).len() as int) =~= batch_rows(batch));
                Some(batch)
            },
            BatchDecision::Truncate(rows) => {
                let part = batch.slice(0, rows);
                assert(batch_rows(part) =~= batch_rows(batch).take(rows as int));
                Some(part)
            },
        }
    }
}

/// A partition with a limit yields exactly the first `limit` rows of what it reads, in order,
/// however the rows are split into batches; all of them where there are no more than that.
pub proof fn lemma_limit_yields_first_rows(limit: nat, batches: Seq<RowBatch>)
    ensures
        run(limit, batches).0 == all_rows(batches).take(min(limit, all_rows(batches).len()) as int),
        run(limit, batches).1 == limit - run(limit, batches).0.len(),
    decreases batches.len(),
{
    let all = all_rows(batches);
    if batches.len() == 0 {
        assert(run(limit, batches).0 =~= all.take(min(limit, all.len()) as int));
    } else {
        lemma_limit_yields_first_rows(limit, batches.drop_last());
        let before = all_rows(batches.drop_last());
        let rows = batch_rows(batches.last());
        let (passed, remaining) = run(limit, batches.drop_last());
        assert(all == before + rows);
        assert(run(limit, batches).0 =~= all.take(min(limit, all.len()) as int));
    }
}

/// Once a limit is used up nothing passes any more.
pub proof fn lemma_used_up_limit_stays_used_up(limit: nat, batches: Seq<RowBatch>, batch: RowBatch)
    requires
        run(limit, batches).1 == 0,
    ensures
        run(limit, batches.push(batch)) == run(limit, batches),
{
    assert(batches.push(batch).drop_last() =~= batches);
}

} // verus!
