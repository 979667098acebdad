//! Tables as mathematical values: rows, the columns they make up, and what
//! a projection selects.

use crate::column::{cell_fits, ColumnView, ValueView};
use crate::error::DataError;
use crate::schema::{projection_fault, projection_fits, select, FieldView};
use vstd::prelude::*;

verus! {

/// A row as a mathematical value: its cells in field order.
pub type RowView = Seq<Option<ValueView>>;

/// The row has one cell for each field, and each cell fits its field's type.
pub open spec fn row_fits(row: RowView, fields: Seq<FieldView>) -> bool {
    &&& row.len() == fields.len()
    &&& forall|j: int| 0 <= j < row.len() ==> cell_fits(#[trigger] row[j], fields[j].data_type)
}

/// Every row fits the fields.
pub open spec fn rows_fit(rows: Seq<RowView>, fields: Seq<FieldView>) -> bool {
    forall|i: int| 0 <= i < rows.len() ==> row_fits(#[trigger] rows[i], fields)
}

/// `position` is the place of the first row that does not fit the fields.
pub open spec fn first_unfit_row(rows: Seq<RowView>, fields: Seq<FieldView>, position: int) -> bool {
    &&& 0 <= position < rows.len()
    &&& !row_fits(rows[position], fields)
    &&& forall|i: int| 0 <= i < position ==> row_fits(#[trigger] rows[i], fields)
}

/// The place of the first row that does not fit the fields, where there is
/// such a row.
pub open spec fn unfit_row(rows: Seq<RowView>, fields: Seq<FieldView>) -> int {
    choose|position: int| first_unfit_row(rows, fields, position)
}

/// There is one first unfit row at most: a place that is one is the one.
pub proof fn lemma_unfit_row(rows: Seq<RowView>, fields: Seq<FieldView>, position: int)
    requires
        first_unfit_row(rows, fields, position),
    ensures
        unfit_row(rows, fields) == position,
        !rows_fit(rows, fields),
{
    let chosen = unfit_row(rows, fields);
    assert(first_unfit_row(rows, fields, chosen));
    if chosen < position {
        assert(row_fits(rows[chosen], fields));
    }
    if position < chosen {
        assert(row_fits(rows[position], fields));
    }
}

/// The column of field `j`: that field's type, and cell `j` of each row in
/// row order.
pub open spec fn column_of(rows: Seq<RowView>, fields: Seq<FieldView>, j: int) -> ColumnView {
    ColumnView { data_type: fields[j].data_type, cells: Seq::new(rows.len(), |i: int| rows[i][j]) }
}

/// The columns that the rows make up, one for each field.
pub open spec fn columns_of(rows: Seq<RowView>, fields: Seq<FieldView>) -> Seq<ColumnView> {
    Seq::new(fields.len(), |j: int| column_of(rows, fields, j))
}

/// A table as a mathematical value: its fields, its columns, and the number
/// of its rows.
pub struct TableView {
    pub schema: Seq<FieldView>,
    pub columns: Seq<ColumnView>,
    pub rows: nat,
}

impl TableView {
    /// The table has one column for each field, of the field's type; every
    /// column has one cell for each row, and its cells fit its type.
    pub open spec fn well_formed(self) -> bool {
        &&& self.columns.len() == self.schema.len()
        &&& forall|j: int|
            0 <= j < self.columns.len() ==> {
                &&& (#[trigger] self.columns[j]).data_type == self.schema[j].data_type
                &&& self.columns[j].cells.len() == self.rows
                &&& self.columns[j].well_typed()
            }
    }

    /// The table that the rows make up under the fields.
    pub open spec fn of_rows(rows: Seq<RowView>, fields: Seq<FieldView>) -> TableView {
        TableView { schema: fields, columns: columns_of(rows, fields), rows: rows.len() }
    }

    /// What building a table from the rows comes to: the table that they
    /// make up where every row fits the fields, and else a schema mismatch
    /// at the first row that does not fit.
    pub open spec fn build(rows: Seq<RowView>, fields: Seq<FieldView>) -> Result<
        TableView,
        DataError,
    > {
        if rows_fit(rows, fields) {
            Ok(TableView::of_rows(rows, fields))
        } else {
            Err(DataError::SchemaMismatch { row: unfit_row(rows, fields) as usize })
        }
    }

    /// What reading the table under `indices` comes to: the projected table
    /// where every entry names a column, and else the projection's fault.
    pub open spec fn read(self, indices: Seq<usize>) -> Result<TableView, DataError> {
        if projection_fits(indices, self.schema.len()) {
            Ok(self.project(indices))
        } else {
            Err(projection_fault(indices, self.schema.len()))
        }
    }

    /// The table of the columns that `indices` names, in the order of
    /// `indices`, over the same rows.
    pub open spec fn project(self, indices: Seq<usize>) -> TableView {
        TableView {
            schema: select(self.schema, indices),
            columns: select(self.columns, indices),
            rows: self.rows,
        }
    }

    /// The cell in the given row of the given column.
    pub open spec fn cell(self, row: int, column: int) -> Option<ValueView> {
        self.columns[column].cells[row]
    }

    /// The cells of the given row, in column order.
    pub open spec fn row(self, row: int) -> RowView {
        Seq::new(self.columns.len(), |j: int| self.cell(row, j))
    }
}

} // verus!
