//! What a scan node tells the query planner about itself.
use vstd::prelude::*;

use crate::schema::ArrowSchemaRef;

verus! {

/// A column of a schema, by name and position.
#[derive(Debug, Clone)]
pub struct Column {
    pub name: String,
    pub index: usize,
}

impl Column {
    pub fn new(name: String, index: usize) -> (column: Self)
        ensures
            column.name == name,
            column.index == index,
    {
        Column { name, index }
    }
}

/// How the rows of a plan node are spread over its output partitions.
#[derive(Debug, Clone)]
pub enum Partitioning {
    /// This many partitions, with nothing known of what is in them.
    UnknownPartitioning(usize),
    /// Rows that agree in these columns are in the same one of this many partitions.
    Hash(Vec<Column>, usize),
}

impl Partitioning {
    pub open spec fn spec_partition_count(&self) -> usize {
        match *self {
            Partitioning::UnknownPartitioning(count) => count,
            Partitioning::Hash(_, count) => count,
        }
    }

    /// The number of output partitions.
    pub fn partition_count(&self) -> (count: usize)
        ensures
            count == self.spec_partition_count(),
    {
        match self {
            Partitioning::UnknownPartitioning(count) => *count,
            Partitioning::Hash(_, count) => *count,
        }
    }
}

/// When a plan node yields its rows.
#[derive(Debug, Clone, Copy, PartialEq, Eq, Structural)]
pub enum EmissionType {
    /// As it reads its input.
    Incremental,
    /// Once it has read all of its input.
    Final,
    /// Partly as it reads, partly at the end.
    Both,
}

/// Whether a plan node comes to an end.
#[derive(Debug, Clone, Copy, PartialEq, Eq, Structural)]
pub enum Boundedness {
    Bounded,
    Unbounded,
}

/// What the planner may rely on.
#[derive(Debug, Clone)]
pub struct PlanProperties {
    pub schema: ArrowSchemaRef,
    pub partitioning: Partitioning,
    pub emission_type: EmissionType,
    pub boundedness: Boundedness,
}

/// What the planner is told of a scan with `n_partitions` partitions of unknown contents.
pub open spec fn properties_for(schema: ArrowSchemaRef, n_partitions: nat) -> PlanProperties {
    PlanProperties {
        schema,
        partitioning: Partitioning::UnknownPartitioning(n_partitions as usize),
        emission_type: EmissionType::Incremental,
        boundedness: Boundedness::Bounded,
    }
}

/// Why a plan could not be made or run.
#[derive(Debug, Clone)]
pub enum PlanError {
    /// The plan was used in a way that it does not allow.
    Internal(String),
    /// The query cannot be planned.
    Plan(String),
    /// The operation is not supported.
    FeatureUnsupported(String),
}

/// The kinds and texts of [`PlanError`].
pub enum PlanErrorView {
    Internal(Seq<char>),
    Plan(Seq<char>),
    FeatureUnsupported(Seq<char>),
}

impl View for PlanError {
    type V = PlanErrorView;

    open spec fn view(&self) -> PlanErrorView {
        match *self {
            PlanError::Internal(text) => PlanErrorView::Internal(text@),
            PlanError::Plan(text) => PlanErrorView::Plan(text@),
            PlanError::FeatureUnsupported(text) => PlanErrorView::FeatureUnsupported(text@),
        }
    }
}

/// How far a filter narrows down the rows of a scan.
#[derive(Debug, Clone, Copy, PartialEq, Eq, Structural)]
pub enum FilterPushDown {
    /// The scan ignores the filter.
    Unsupported,
    /// The scan may leave out rows that do not pass, but yields others that do not pass too.
    Inexact,
    /// The scan yields exactly the rows that pass.
    Exact,
}

/// Every one of `count` filters is pushed down as a hint: the planner applies it again.
pub fn inexact_pushdown(count: usize) -> (pushdown: Vec<FilterPushDown>)
    ensures
        pushdown@ == Seq::new(count as nat, |i: int| FilterPushDown::Inexact),
{
    let mut pushdown: Vec<FilterPushDown> = Vec::new();
    for i in 0..count
        invariant
            pushdown@ == Seq::new(i as nat, |k: int| FilterPushDown::Inexact),
    {
        pushdown.push(FilterPushDown::Inexact);
        assert(pushdown@ =~= Seq::new((i + 1) as nat, |k: int| FilterPushDown::Inexact));
    }
    pushdown
}

} // verus!
