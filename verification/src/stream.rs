//! The result stream: what a query engine pulls batches from.

use crate::batch::RecordBatch;
use crate::schema::{FieldView, TableDescriptor};
use crate::table::TableView;
use vstd::prelude::*;

verus! {

/// What a [`ResultStream`] is, as a mathematical value: the schema of its
/// batches, and the batch that it has yet to hand out, if any.
pub struct StreamView {
    pub schema: Seq<FieldView>,
    pub pending: Option<TableView>,
}

impl StreamView {
    /// A batch that is still to come has the stream's schema, is well
    /// formed, and has at least one row.
    pub open spec fn well_formed(self) -> bool {
        self.pending matches Some(batch) ==> {
            &&& batch.schema == self.schema
            &&& batch.well_formed()
            &&& batch.rows > 0
        }
    }

    /// The stream that hands out `batch` once, or nothing where the batch
    /// has no row.
    pub open spec fn once(batch: TableView) -> StreamView {
        StreamView {
            schema: batch.schema,
            pending: if batch.rows > 0 {
                Some(batch)
            } else {
                None
            },
        }
    }

    /// The stream after a pull: nothing is left to come.
    pub open spec fn drained(self) -> StreamView {
        StreamView { schema: self.schema, pending: None }
    }
}

/// A finite producer of record batches that cannot be restarted. It hands
/// out at most one batch; after that it reports completion. It holds no
/// lock and reads no store: the batch was materialized before the stream
/// was made.
pub struct ResultStream {
    schema: TableDescriptor,
    pending: Option<RecordBatch>,
}

impl View for ResultStream {
    type V = StreamView;

    closed spec fn view(&self) -> StreamView {
        StreamView { schema: self.schema@, pending: self.pending.deep_view() }
    }
}

impl ResultStream {
    #[verifier::type_invariant]
    spec fn well_formed(&self) -> bool {
        self@.well_formed()
    }

    /// The stream that hands out `batch` once. A batch without rows is not
    /// handed out: the stream is then finished from the start.
    pub fn once(batch: RecordBatch) -> (stream: ResultStream)
        ensures
            stream@ == StreamView::once(batch@),
            stream@.well_formed(),
    {
        let schema = batch.schema().clone();
        if batch.num_rows() > 0 {
            ResultStream { schema, pending: Some(batch) }
        } else {
            ResultStream { schema, pending: None }
        }
    }

    /// The schema of the batches of this stream.
    pub fn schema(&self) -> (schema: &TableDescriptor)
        ensures
            schema@ == self@.schema,
            self@.well_formed(),
    {
        proof {
            use_type_invariant(self);
        }
        &self.schema
    }

    /// Whether the stream has nothing left to hand out.
    pub fn is_finished(&self) -> (finished: bool)
        ensures
            finished == (self@.pending is None),
    {
        self.pending.is_none()
    }

    /// Pulls the next batch: the pending one, if there is one, and `None`
    /// from then on.
    pub fn next(&mut self) -> (batch: Option<RecordBatch>)
        ensures
            batch.deep_view() == old(self)@.pending,
            final(self)@ == old(self)@.drained(),
            old(self)@.well_formed(),
    {
        proof {
            use_type_invariant(&*self);
        }
        let mut batch: Option<RecordBatch> = None;
        core::mem::swap(&mut self.pending, &mut batch);
        batch
    }
}

} // verus!
