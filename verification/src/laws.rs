//! What holds of every table, projection and scan.

use crate::column::cell_fits;
use crate::error::DataError;
use crate::plan::ScanView;
use crate::schema::{
    all_columns,
    first_misfit,
    lemma_misfit_position,
    misfit_position,
    projection_fits,
    select,
    FieldView,
};
use crate::stream::StreamView;
use crate::table::{row_fits, rows_fit, RowView, TableView};
use vstd::prelude::*;

verus! {

/// Rows that fit the fields build a table: it has one field and one column
/// for each of the given fields, and every column has one cell for each row.
pub proof fn lemma_built_table_shape(rows: Seq<RowView>, fields: Seq<FieldView>)
    requires
        rows_fit(rows, fields),
    ensures
        TableView::build(rows, fields) == Ok::<TableView, DataError>(
            TableView::of_rows(rows, fields),
        ),
        TableView::of_rows(rows, fields).well_formed(),
        TableView::of_rows(rows, fields).schema.len() == fields.len(),
        TableView::of_rows(rows, fields).columns.len() == fields.len(),
        TableView::of_rows(rows, fields).rows == rows.len(),
        forall|j: int|
            0 <= j < fields.len() ==> (#[trigger] TableView::of_rows(
                rows,
                fields,
            ).columns[j]).cells.len() == rows.len(),
{
    let table = TableView::of_rows(rows, fields);
    assert forall|j: int| 0 <= j < table.columns.len() implies {
        &&& (#[trigger] table.columns[j]).data_type == table.schema[j].data_type
        &&& table.columns[j].cells.len() == table.rows
        &&& table.columns[j].well_typed()
    } by {
        assert forall|i: int| 0 <= i < table.columns[j].cells.len() implies cell_fits(
            #[trigger] table.columns[j].cells[i],
            table.columns[j].data_type,
        ) by {
            assert(row_fits(rows[i], fields));
            assert(table.columns[j].cells[i] == rows[i][j]);
        }
    }
}

/// A scan under a projection that names only columns of the table succeeds,
/// and so does its execution; the batch has the fields and the columns that
/// the projection names, in the projection's order, over all rows.
pub proof fn lemma_scan_follows_projection(source: TableView, indices: Seq<usize>)
    requires
        source.well_formed(),
        projection_fits(indices, source.schema.len()),
    ensures
        ScanView::plan(source, Some(indices)) == Ok::<ScanView, DataError>(
            ScanView { source, projection: indices },
        ),
        (ScanView { source, projection: indices }).execute(0) == Ok::<StreamView, DataError>(
            StreamView::once(source.project(indices)),
        ),
        source.project(indices).well_formed(),
        source.project(indices).rows == source.rows,
        source.project(indices).schema.len() == indices.len(),
        source.project(indices).columns.len() == indices.len(),
        forall|j: int|
            0 <= j < indices.len() ==> {
                &&& (#[trigger] source.project(indices).schema[j]) == source.schema[indices[j] as int]
                &&& source.project(indices).columns[j] == source.columns[indices[j] as int]
            },
{
    let batch = source.project(indices);
    assert forall|j: int| 0 <= j < batch.columns.len() implies {
        &&& (#[trigger] batch.columns[j]).data_type == batch.schema[j].data_type
        &&& batch.columns[j].cells.len() == batch.rows
        &&& batch.columns[j].well_typed()
    } by {
        assert(batch.columns[j] == source.columns[indices[j] as int]);
    }
}

/// A scan without a projection succeeds, and its batch is the whole table:
/// every column, in table order.
pub proof fn lemma_scan_without_projection(source: TableView)
    requires
        source.well_formed(),
    ensures
        ScanView::plan(source, None) == Ok::<ScanView, DataError>(
            ScanView { source, projection: all_columns(source.schema.len()) },
        ),
        source.schema.len() <= usize::MAX ==> source.project(all_columns(source.schema.len()))
            == source,
{
    let indices = all_columns(source.schema.len());
    assert(projection_fits(indices, source.schema.len()));
    if source.schema.len() <= usize::MAX {
        let batch = source.project(indices);
        assert(batch.schema =~= source.schema);
        assert(batch.columns =~= source.columns);
    }
}

/// The batch of a scan holds the values that were put in: the cell in row
/// `i` of output column `j` is cell `indices[j]` of input row `i`, a null
/// where that was absent.
pub proof fn lemma_values_preserved(
    rows: Seq<RowView>,
    fields: Seq<FieldView>,
    indices: Seq<usize>,
    i: int,
    j: int,
)
    requires
        rows_fit(rows, fields),
        projection_fits(indices, fields.len()),
        0 <= i < rows.len(),
        0 <= j < indices.len(),
    ensures
        TableView::of_rows(rows, fields).project(indices).cell(i, j) == rows[i][indices[j] as int],
        TableView::of_rows(rows, fields).project(indices).row(i) == select(rows[i], indices),
{
    let batch = TableView::of_rows(rows, fields).project(indices);
    assert(row_fits(rows[i], fields));
    assert(batch.row(i) =~= select(rows[i], indices));
}

/// Scanning changes nothing, and what it gives depends on the table and the
/// projection alone: two scans of one table under one projection are the
/// same node, over the same table, and executing them gives the same stream.
pub proof fn lemma_scan_repeats(
    source: TableView,
    projection: Option<Seq<usize>>,
    partition: usize,
    first: ScanView,
    second: ScanView,
)
    requires
        ScanView::plan(source, projection) == Ok::<ScanView, DataError>(first),
        ScanView::plan(source, projection) == Ok::<ScanView, DataError>(second),
    ensures
        first == second,
        first.source == source,
        first.execute(partition) == second.execute(partition),
        first.schema() == second.schema(),
{
}

/// No rows build a table all the same: its columns have no cell, and a scan
/// of it gives a stream with nothing to hand out.
pub proof fn lemma_empty_table(fields: Seq<FieldView>, indices: Seq<usize>)
    requires
        projection_fits(indices, fields.len()),
    ensures
        TableView::build(Seq::<RowView>::empty(), fields) == Ok::<TableView, DataError>(
            TableView::of_rows(Seq::<RowView>::empty(), fields),
        ),
        TableView::of_rows(Seq::<RowView>::empty(), fields).rows == 0,
        forall|j: int|
            0 <= j < fields.len() ==> (#[trigger] TableView::of_rows(
                Seq::<RowView>::empty(),
                fields,
            ).columns[j]).cells.len() == 0,
        (ScanView {
            source: TableView::of_rows(Seq::<RowView>::empty(), fields),
            projection: indices,
        }).execute(0) == Ok::<StreamView, DataError>(
            StreamView {
                schema: select(fields, indices),
                pending: None,
            },
        ),
{
}

/// A projection with an entry one past the last column is refused: the scan
/// fails with an invalid projection, whose entry names no column.
pub proof fn lemma_one_past_the_end(source: TableView, indices: Seq<usize>, position: int)
    requires
        0 <= position < indices.len(),
        indices[position] == source.schema.len(),
    ensures
        ScanView::plan(source, Some(indices)) matches Err(
            DataError::InvalidProjection { index, columns },
        ) && index >= source.schema.len() && columns == source.schema.len(),
        first_misfit(indices, source.schema.len(), position) ==> ScanView::plan(
            source,
            Some(indices),
        ) == Err::<ScanView, DataError>(
            DataError::InvalidProjection {
                index: indices[position],
                columns: indices[position],
            },
        ),
{
    let columns = source.schema.len();
    assert(!projection_fits(indices, columns));
    lemma_has_first_misfit(indices, columns, position);
    let first = misfit_position(indices, columns);
    assert(first_misfit(indices, columns, first));
    if first_misfit(indices, columns, position) {
        lemma_misfit_position(indices, columns, position);
    }
}

/// Where some entry names no column, there is a first such entry.
proof fn lemma_has_first_misfit(indices: Seq<usize>, columns: nat, position: int)
    requires
        0 <= position < indices.len(),
        indices[position] >= columns,
    ensures
        exists|first: int| first_misfit(indices, columns, first),
    decreases position,
{
    if exists|k: int| 0 <= k < position && indices[k] >= columns {
        let k = choose|k: int| 0 <= k < position && indices[k] >= columns;
        lemma_has_first_misfit(indices, columns, k);
    } else {
        assert(first_misfit(indices, columns, position));
    }
}

} // verus!
