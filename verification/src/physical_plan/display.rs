//! What the scan nodes have in common in the texts that they show.
use tokio::runtime::Handle;
use vstd::prelude::*;

use crate::metadata::{first_predicate_text, FileScanTask};

verus! {

/// What marks a scan with a runtime attached.
pub open spec fn io_tag_text(io_handle: Option<Handle>) -> Seq<char> {
    match io_handle {
        Some(_) => " [io-runtime]"@,
        None => seq![],
    }
}

/// The tag that marks a scan with a runtime attached.
pub(crate) fn io_tag(io_handle: &Option<Handle>) -> (tag: &'static str)
    ensures
        tag@ == io_tag_text(*io_handle),
{
    proof {
        reveal_strlit("");
    }
    match io_handle {
        Some(_) => " [io-runtime]",
        None => {
            assert(""@ =~= seq![]);
            ""
        },
    }
}

/// Appends what a plan shows of the filter of the scan that `task`, if any, is the first task of.
pub(crate) fn push_task_predicate<D>(out: &mut String, task: Option<&FileScanTask<D>>)
    ensures
        final(out)@ == old(out)@ + first_predicate_text(
            match task {
                Some(task) => seq![*task],
                None => seq![],
            },
        ),
{
    let ghost before = out@;
    if let Some(task) = task {
        if let Some(predicate) = task.predicate() {
            out.append(predicate.text.as_str());
        }
    }
    assert(before + Seq::<char>::empty() =~= before);
}

} // verus!
