//! The record batch: one materialized, column-aligned chunk of rows.

use crate::column::{Column, Value};
use crate::schema::TableDescriptor;
use crate::table::TableView;
use std::sync::Arc;
use vstd::prelude::*;

verus! {

/// A chunk of rows, held by column: a schema, one column for each of its
/// fields, and the number of rows. The columns are shared handles, so a
/// batch costs no copy of the cells.
pub struct RecordBatch {
    schema: TableDescriptor,
    columns: Vec<Arc<Column>>,
    rows: usize,
}

impl View for RecordBatch {
    type V = TableView;

    closed spec fn view(&self) -> TableView {
        TableView {
            schema: self.schema@,
            columns: self.columns.deep_view(),
            rows: self.rows as nat,
        }
    }
}

impl DeepView for RecordBatch {
    type V = TableView;

    open spec fn deep_view(&self) -> TableView {
        self@
    }
}

impl RecordBatch {
    #[verifier::type_invariant]
    spec fn well_formed(&self) -> bool {
        self@.well_formed()
    }

    /// The batch of the given columns under the given schema.
    pub(crate) fn assemble(schema: TableDescriptor, columns: Vec<Arc<Column>>, rows: usize) -> (batch:
        RecordBatch)
        requires
            (TableView { schema: schema@, columns: columns.deep_view(), rows: rows as nat })
                .well_formed(),
        ensures
            batch@ == (TableView { schema: schema@, columns: columns.deep_view(), rows: rows as nat }),
    {
        RecordBatch { schema, columns, rows }
    }

    /// The schema of the batch.
    pub fn schema(&self) -> (schema: &TableDescriptor)
        ensures
            schema@ == self@.schema,
            self@.well_formed(),
    {
        proof {
            use_type_invariant(self);
        }
        &self.schema
    }

    /// The number of columns.
    pub fn num_columns(&self) -> (n: usize)
        ensures
            n == self@.columns.len(),
            n == self@.schema.len(),
    {
        proof {
            use_type_invariant(self);
        }
        self.columns.len()
    }

    /// The number of rows.
    pub fn num_rows(&self) -> (n: usize)
        ensures
            n == self@.rows,
    {
        self.rows
    }

    /// The column at `index`, if there is one.
    pub fn column(&self, index: usize) -> (column: Option<&Column>)
        ensures
            index < self@.columns.len() ==> column is Some && column.unwrap()@
                == self@.columns[index as int],
            index >= self@.columns.len() ==> column is None,
    {
        if index < self.columns.len() {
            Some(&*self.columns[index])
        } else {
            None
        }
    }

    /// The value in the given row of the given column: `None` where the
    /// cell is null, and where the batch has no such row or column.
    pub fn value(&self, row: usize, column: usize) -> (value: Option<Value>)
        ensures
            row < self@.rows && column < self@.columns.len() ==> value.deep_view() == self@.cell(
                row as int,
                column as int,
            ),
            row >= self@.rows || column >= self@.columns.len() ==> value is None,
    {
        proof {
            use_type_invariant(self);
        }
        if column < self.columns.len() {
            self.columns[column].value(row)
        } else {
            None
        }
    }

    /// The cells of the given row in column order, if the batch has the row.
    pub fn row(&self, row: usize) -> (cells: Option<Vec<Option<Value>>>)
        ensures
            row < self@.rows ==> cells is Some && cells.unwrap().deep_view() == self@.row(
                row as int,
            ),
            row >= self@.rows ==> cells is None,
    {
        proof {
            use_type_invariant(self);
        }
        if row >= self.rows {
            return None;
        }
        let mut cells: Vec<Option<Value>> = Vec::new();
        let mut j: usize = 0;
        while j < self.columns.len()
            invariant
                j <= self.columns.len(),
                row < self.rows,
                self@.well_formed(),
                cells.len() == j,
                forall|k: int|
                    0 <= k < j ==> (#[trigger] cells@[k]).deep_view() == self@.cell(row as int, k),
            decreases self.columns.len() - j,
        {
            let cell = self.columns[j].value(row);
            cells.push(cell);
            j += 1;
        }
        assert(cells.deep_view() =~= self@.row(row as int));
        Some(cells)
    }
}

} // verus!
