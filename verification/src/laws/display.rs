//! Laws of what a plan shows of a scan.
use tokio::runtime::Handle;
use vstd::prelude::*;

use crate::laws::buckets::lemma_all_tasks_is_flatten;
use crate::metadata::FileScanTask;
use crate::physical_plan::scan_planning::ScanConfigView;
use crate::physical_plan::{bucket_scan, partitioned_scan, scan};
use crate::text::{decimal, joined};

verus! {

/// A table scan shows its projection and its filter; then, if tasks were planned, how many groups
/// there are and how many tasks they hold together; then its limit, if it has one.
pub proof fn lemma_table_scan_text<P, D>(
    config: ScanConfigView<P>,
    groups: Seq<Seq<FileScanTask<D>>>,
    planned: Option<Seq<Seq<FileScanTask<D>>>>,
    limit: usize,
)
    ensures
        scan::display_text::<P, D>(config, None, None) == "IcebergTableScan projection:["@ + (
        match config.column_names {
            Some(names) => joined(names, ","@),
            None => seq![],
        }) + "] predicate:["@ + (match config.predicates {
            Some(predicate) => predicate.text@,
            None => seq![],
        }) + "]"@,
        scan::display_text(config, Some(groups), None) == scan::display_text::<P, D>(
            config,
            None,
            None,
        ) + " task_groups:["@ + decimal(groups.len()) + "] tasks:["@ + decimal(
            groups.flatten().len(),
        ) + "]"@,
        scan::display_text(config, planned, Some(limit)) == scan::display_text(
            config,
            planned,
            None,
        ) + " limit:["@ + decimal(limit as nat) + "]"@,
{
    lemma_all_tasks_is_flatten(groups);
    let base = scan::display_text::<P, D>(config, None, None);
    assert(base =~= "IcebergTableScan projection:["@ + (match config.column_names {
        Some(names) => joined(names, ","@),
        None => seq![],
    }) + "] predicate:["@ + (match config.predicates {
        Some(predicate) => predicate.text@,
        None => seq![],
    }) + "]"@);
    assert(scan::display_text(config, Some(groups), None) =~= base + " task_groups:["@ + decimal(
        groups.len(),
    ) + "] tasks:["@ + decimal(groups.flatten().len()) + "]"@);
    assert(scan::display_text(config, planned, Some(limit)) =~= scan::display_text(
        config,
        planned,
        None,
    ) + " limit:["@ + decimal(limit as nat) + "]"@);
}

/// The number of tasks that a table scan shows grows by the length of a group when that group is
/// added, and stays as it is when an empty group is added; the number of groups grows by one.
pub proof fn lemma_shown_tasks_grow_with_the_groups<P, D>(
    config: ScanConfigView<P>,
    groups: Seq<Seq<FileScanTask<D>>>,
    group: Seq<FileScanTask<D>>,
    tasks: nat,
)
    requires
        scan::display_text(config, Some(groups), None) == scan::display_text::<P, D>(
            config,
            None,
            None,
        ) + " task_groups:["@ + decimal(groups.len()) + "] tasks:["@ + decimal(tasks) + "]"@,
    ensures
        scan::display_text(config, Some(groups.push(group)), None) == scan::display_text::<P, D>(
            config,
            None,
            None,
        ) + " task_groups:["@ + decimal(groups.len() + 1) + "] tasks:["@ + decimal(
            tasks + group.len(),
        ) + "]"@,
{
    lemma_table_scan_text(config, groups, None, 0);
    lemma_table_scan_text(config, groups.push(group), None, 0);
    groups.lemma_flatten_push(group);
    let head = scan::display_text::<P, D>(config, None, None) + " task_groups:["@ + decimal(
        groups.len(),
    ) + "] tasks:["@;
    let n = groups.flatten().len();
    assert((head + decimal(tasks) + "]"@).subrange(
        head.len() as int,
        (head + decimal(tasks) + "]"@).len() - "]"@.len(),
    ) =~= decimal(tasks));
    assert((head + decimal(n) + "]"@).subrange(
        head.len() as int,
        (head + decimal(n) + "]"@).len() - "]"@.len(),
    ) =~= decimal(n));
    crate::laws::texts::lemma_decimals_differ(tasks, n);
}

/// A partitioned scan shows where it reads, its columns, the filter of its first task, how many
/// files there are and, up to five of them, which.
pub proof fn lemma_partitioned_scan_text<D>(
    tasks: Seq<FileScanTask<D>>,
    column_names: Seq<Seq<char>>,
    io_handle: Option<Handle>,
)
    ensures
        partitioned_scan::display_text(tasks, column_names, io_handle)
            == "IcebergPartitionedScan"@ + (if io_handle is Some {
            " [io-runtime]"@
        } else {
            seq![]
        }) + " projection:["@ + joined(column_names, ","@) + "] predicate:["@ + (if tasks.len() > 0
            && tasks[0].predicate is Some {
            tasks[0].predicate->0.text@
        } else {
            seq![]
        }) + "] file_count:["@ + decimal(tasks.len()) + "]"@ + (if tasks.len() <= 5 {
            " files:["@ + joined(
                Seq::new(tasks.len(), |i: int| tasks[i].data_file_path@),
                ", "@,
            ) + "]"@
        } else {
            seq![]
        }),
{
    assert(partitioned_scan::task_paths(tasks) =~= Seq::new(
        tasks.len(),
        |i: int| tasks[i].data_file_path@,
    ));
    assert(partitioned_scan::display_text(tasks, column_names, io_handle)
        =~= "IcebergPartitionedScan"@ + (if io_handle is Some {
        " [io-runtime]"@
    } else {
        seq![]
    }) + " projection:["@ + joined(column_names, ","@) + "] predicate:["@ + (if tasks.len() > 0
        && tasks[0].predicate is Some {
        tasks[0].predicate->0.text@
    } else {
        seq![]
    }) + "] file_count:["@ + decimal(tasks.len()) + "]"@ + (if tasks.len() <= 5 {
        " files:["@ + joined(Seq::new(tasks.len(), |i: int| tasks[i].data_file_path@), ", "@)
            + "]"@
    } else {
        seq![]
    }));
}

/// A bucket scan shows where it reads, its columns, the filter of its first task, how many buckets
/// there are and how many files they hold together.
pub proof fn lemma_bucket_scan_text<D>(
    groups: Seq<Seq<FileScanTask<D>>>,
    column_names: Seq<Seq<char>>,
    io_handle: Option<Handle>,
)
    ensures
        bucket_scan::display_text(groups, column_names, io_handle) == "IcebergBucketScan"@ + (
        if io_handle is Some {
            " [io-runtime]"@
        } else {
            seq![]
        }) + " projection:["@ + joined(column_names, ","@) + "] predicate:["@ + (
        if groups.flatten().len() > 0 && groups.flatten()[0].predicate is Some {
            groups.flatten()[0].predicate->0.text@
        } else {
            seq![]
        }) + "] buckets:["@ + decimal(groups.len()) + "] total_files:["@ + decimal(
            groups.flatten().len(),
        ) + "]"@,
{
    lemma_all_tasks_is_flatten(groups);
}

} // verus!
