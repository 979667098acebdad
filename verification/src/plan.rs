//! The scan node: the leaf of an execution plan that reads a data source
//! under a projection.

use crate::error::DataError;
use crate::schema::{
    all_columns,
    projection_fault,
    projection_fits,
    resolved,
    select,
    FieldView,
    TableDescriptor,
};
use crate::source::DataSource;
use crate::stream::{ResultStream, StreamView};
use crate::table::TableView;
use vstd::prelude::*;

verus! {

/// How the output of a plan node is split into partitions.
#[derive(Clone, Copy, Debug, PartialEq, Eq, Structural)]
pub enum Partitioning {
    /// The given number of partitions, split in no known way.
    UnknownPartitioning(usize),
}

impl Partitioning {
    /// The number of partitions.
    pub open spec fn spec_partition_count(self) -> usize {
        match self {
            Partitioning::UnknownPartitioning(n) => n,
        }
    }

    /// The number of partitions.
    #[verifier::when_used_as_spec(spec_partition_count)]
    pub fn partition_count(self) -> (n: usize)
        ensures
            n == self.spec_partition_count(),
    {
        match self {
            Partitioning::UnknownPartitioning(n) => n,
        }
    }
}

/// Whether the output of a plan node ends.
#[derive(Clone, Copy, Debug, PartialEq, Eq, Structural)]
pub enum ExecutionMode {
    /// The output is finite.
    Bounded,
    /// The output may go on without end.
    Unbounded,
}

/// The static properties of a plan node.
#[derive(Debug)]
pub struct PlanProperties {
    schema: TableDescriptor,
    partitioning: Partitioning,
    execution_mode: ExecutionMode,
}

/// What [`PlanProperties`] are, as a mathematical value.
pub struct PropertiesView {
    pub schema: Seq<FieldView>,
    pub partitioning: Partitioning,
    pub execution_mode: ExecutionMode,
}

impl PropertiesView {
    /// The properties of a scan with the given output schema: a single
    /// partition, and a finite output.
    pub open spec fn of_scan(schema: Seq<FieldView>) -> PropertiesView {
        PropertiesView {
            schema,
            partitioning: Partitioning::UnknownPartitioning(1),
            execution_mode: ExecutionMode::Bounded,
        }
    }
}

impl View for PlanProperties {
    type V = PropertiesView;

    closed spec fn view(&self) -> PropertiesView {
        PropertiesView {
            schema: self.schema@,
            partitioning: self.partitioning,
            execution_mode: self.execution_mode,
        }
    }
}

impl Clone for PlanProperties {
    fn clone(&self) -> (properties: PlanProperties)
        ensures
            properties@ == self@,
    {
        PlanProperties {
            schema: self.schema.clone(),
            partitioning: self.partitioning,
            execution_mode: self.execution_mode,
        }
    }
}

impl PlanProperties {
    /// The properties of a scan with the given output schema.
    pub fn compute(schema: TableDescriptor) -> (properties: PlanProperties)
        ensures
            properties@ == PropertiesView::of_scan(schema@),
    {
        PlanProperties {
            schema,
            partitioning: Partitioning::UnknownPartitioning(1),
            execution_mode: ExecutionMode::Bounded,
        }
    }

    /// The output schema.
    pub fn schema(&self) -> (schema: &TableDescriptor)
        ensures
            schema@ == self@.schema,
    {
        &self.schema
    }

    /// How the output is partitioned.
    pub fn partitioning(&self) -> (partitioning: Partitioning)
        ensures
            partitioning == self@.partitioning,
    {
        self.partitioning
    }

    /// Whether the output ends.
    pub fn execution_mode(&self) -> (mode: ExecutionMode)
        ensures
            mode == self@.execution_mode,
    {
        self.execution_mode
    }
}

/// What a [`ScanPlanNode`] is, as a mathematical value: the table it reads,
/// and the columns it reads of it, in output order.
pub struct ScanView {
    pub source: TableView,
    pub projection: Seq<usize>,
}

impl ScanView {
    /// The table is well formed, and the projection names only columns of it.
    pub open spec fn well_formed(self) -> bool {
        &&& self.source.well_formed()
        &&& projection_fits(self.projection, self.source.schema.len())
    }

    /// What planning a scan of `source` comes to: the node over the resolved
    /// projection where that names only columns of the table, and else the
    /// projection's fault.
    pub open spec fn plan(source: TableView, projection: Option<Seq<usize>>) -> Result<
        ScanView,
        DataError,
    > {
        let indices = resolved(projection, source.schema.len());
        if projection_fits(indices, source.schema.len()) {
            Ok(ScanView { source, projection: indices })
        } else {
            Err(projection_fault(indices, source.schema.len()))
        }
    }

    /// What executing a partition of the node comes to: the stream of the
    /// node's one batch for partition 0, and a fault for any other.
    pub open spec fn execute(self, partition: usize) -> Result<StreamView, DataError> {
        if partition == 0 {
            Ok(StreamView::once(self.batch()))
        } else {
            Err(DataError::InvalidPartition { partition })
        }
    }

    /// The schema of the node's output.
    pub open spec fn schema(self) -> Seq<FieldView> {
        select(self.source.schema, self.projection)
    }

    /// The node's static properties.
    pub open spec fn properties(self) -> PropertiesView {
        PropertiesView::of_scan(self.schema())
    }

    /// The one batch that the node materializes: the projected table.
    pub open spec fn batch(self) -> TableView {
        self.source.project(self.projection)
    }
}

/// The indices of all of `columns` columns, in order.
fn every_column(columns: usize) -> (indices: Vec<usize>)
    ensures
        indices@ == all_columns(columns as nat),
{
    let mut indices: Vec<usize> = Vec::new();
    let mut k: usize = 0;
    while k < columns
        invariant
            k <= columns,
            indices.len() == k,
            forall|j: int| 0 <= j < k ==> indices@[j] == j,
        decreases columns - k,
    {
        indices.push(k);
        k += 1;
    }
    assert(indices@ =~= all_columns(columns as nat));
    indices
}

/// What a requested projection names, as a mathematical value.
pub open spec fn requested(projection: Option<&Vec<usize>>) -> Option<Seq<usize>> {
    match projection {
        Some(indices) => Some(indices@),
        None => None,
    }
}

/// A leaf of an execution plan: it has no children, reads one data source,
/// and puts out the columns of its projection as a single partition. Its
/// state is fixed when it is made.
pub struct ScanPlanNode {
    source: DataSource,
    projection: Vec<usize>,
    properties: PlanProperties,
}

impl View for ScanPlanNode {
    type V = ScanView;

    closed spec fn view(&self) -> ScanView {
        ScanView { source: self.source@, projection: self.projection@ }
    }
}

impl Clone for ScanPlanNode {
    /// A second node over the same data source and projection.
    fn clone(&self) -> (node: ScanPlanNode)
        ensures
            node@ == self@,
    {
        proof {
            use_type_invariant(self);
        }
        ScanPlanNode {
            source: self.source.clone(),
            projection: self.projection.clone(),
            properties: self.properties.clone(),
        }
    }
}

impl ScanPlanNode {
    #[verifier::type_invariant]
    spec fn well_formed(&self) -> bool {
        &&& self@.well_formed()
        &&& self.properties@ == self@.properties()
    }

    /// The node that reads `source` under `projection`: the columns that the
    /// projection names, in its order, or every column in table order where
    /// no projection is given. Only the schema is looked at; the store is
    /// neither locked nor read.
    ///
    /// Fails where the projection names a column that the table does not
    /// have; the fault holds the first such entry.
    pub fn new(source: DataSource, projection: Option<&Vec<usize>>) -> (made: Result<
        ScanPlanNode,
        DataError,
    >)
        ensures
            match made {
                Ok(node) => ScanView::plan(source@, requested(projection)) == Ok::<
                    ScanView,
                    DataError,
                >(node@) && node@.well_formed(),
                Err(fault) => ScanView::plan(source@, requested(projection)) == Err::<
                    ScanView,
                    DataError,
                >(fault),
            },
    {
        let indices = match projection {
            Some(indices) => indices.clone(),
            None => every_column(source.schema().len()),
        };
        match source.schema().project(&indices) {
            Ok(schema) => {
                let properties = PlanProperties::compute(schema);
                Ok(ScanPlanNode { source, projection: indices, properties })
            },
            Err(fault) => Err(fault),
        }
    }

    /// The schema of the node's output.
    pub fn schema(&self) -> (schema: &TableDescriptor)
        ensures
            schema@ == self@.schema(),
            self@.well_formed(),
    {
        proof {
            use_type_invariant(self);
        }
        self.properties.schema()
    }

    /// The node's static properties, as computed when it was made.
    pub fn properties(&self) -> (properties: &PlanProperties)
        ensures
            properties@ == self@.properties(),
    {
        proof {
            use_type_invariant(self);
        }
        &self.properties
    }

    /// The columns that the node reads, in output order.
    pub fn projection(&self) -> (projection: &Vec<usize>)
        ensures
            projection@ == self@.projection,
    {
        &self.projection
    }

    /// The data source that the node reads.
    pub fn source(&self) -> (source: &DataSource)
        ensures
            source@ == self@.source,
    {
        &self.source
    }

    /// The node's children: none.
    pub fn children(&self) -> (children: Vec<ScanPlanNode>)
        ensures
            children@.len() == 0,
    {
        Vec::new()
    }

    /// The node with its children replaced, whatever kind of plan node they
    /// are. A leaf has none, so the node comes back unchanged for an empty
    /// list, and any other list is refused.
    pub fn with_new_children<Child>(self, children: Vec<Child>) -> (replaced: Result<
        ScanPlanNode,
        DataError,
    >)
        ensures
            children@.len() == 0 <==> replaced is Ok,
            replaced matches Ok(node) ==> node@ == self@,
            replaced matches Err(fault) ==> fault == (DataError::UnexpectedChildren {
                children: children.len(),
            }),
    {
        if children.len() == 0 {
            Ok(self)
        } else {
            Err(DataError::UnexpectedChildren { children: children.len() })
        }
    }

    /// Executes one partition of the node. Only partition 0 exists. The
    /// store's lock is held while the batch is materialized and is released
    /// before the stream is returned; the stream hands out the projected
    /// table as one batch, or nothing where the table has no row.
    pub fn execute(&self, partition: usize) -> (executed: Result<ResultStream, DataError>)
        ensures
            match executed {
                Ok(stream) => self@.execute(partition) == Ok::<StreamView, DataError>(stream@)
                    && stream@.well_formed(),
                Err(fault) => self@.execute(partition) == Err::<StreamView, DataError>(fault),
            },
    {
        proof {
            use_type_invariant(self);
        }
        if partition != 0 {
            return Err(DataError::InvalidPartition { partition });
        }
        match self.source.read(&self.projection) {
            Ok(batch) => Ok(ResultStream::once(batch)),
            Err(fault) => Err(fault),
        }
    }
}

} // verus!
