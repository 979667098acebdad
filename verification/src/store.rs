//! The columnar store: one column for each field, all of one length.

use crate::column::{cell_fits, Column, ColumnView, Value};
use crate::error::DataError;
use crate::schema::{lemma_misfit_position, select, select_checked, FieldView, TableDescriptor};
use crate::table::{column_of, columns_of, lemma_unfit_row, row_fits, rows_fit, unfit_row, RowView};
use std::sync::Arc;
use vstd::prelude::*;

verus! {

/// What a [`ColumnarStore`] is, as a mathematical value.
pub struct StoreView {
    pub columns: Seq<ColumnView>,
    pub rows: nat,
}

impl StoreView {
    /// What building a store from the rows comes to: the columns that they
    /// make up where every row fits the fields, and else a schema mismatch
    /// at the first row that does not fit.
    pub open spec fn build(rows: Seq<RowView>, fields: Seq<FieldView>) -> Result<
        StoreView,
        DataError,
    > {
        if rows_fit(rows, fields) {
            Ok(StoreView { columns: columns_of(rows, fields), rows: rows.len() })
        } else {
            Err(DataError::SchemaMismatch { row: unfit_row(rows, fields) as usize })
        }
    }

    /// Every column has one cell for each row, and its cells fit its type.
    pub open spec fn aligned(self) -> bool {
        forall|j: int|
            0 <= j < self.columns.len() ==> (#[trigger] self.columns[j]).cells.len() == self.rows
                && self.columns[j].well_typed()
    }

    /// The store holds one column for each field, of the field's type.
    pub open spec fn described_by(self, fields: Seq<FieldView>) -> bool {
        &&& self.columns.len() == fields.len()
        &&& forall|j: int|
            0 <= j < fields.len() ==> (#[trigger] self.columns[j]).data_type == fields[j].data_type
    }
}

/// `Arc::clone` of the standard library: a second handle to the value that
/// `handle` points to. The value itself is not copied.
#[verifier::external_body]
pub(crate) fn share<T>(handle: &Arc<T>) -> (shared: Arc<T>)
    ensures
        shared == *handle,
{
    Arc::clone(handle)
}

/// The columns of a table. A store is built once, from rows, and is not
/// changed afterwards; its columns are handed out as shared handles.
pub struct ColumnarStore {
    columns: Vec<Arc<Column>>,
    rows: usize,
}

impl View for ColumnarStore {
    type V = StoreView;

    closed spec fn view(&self) -> StoreView {
        StoreView { columns: self.columns.deep_view(), rows: self.rows as nat }
    }
}

impl ColumnarStore {
    #[verifier::type_invariant]
    spec fn aligned(&self) -> bool {
        self@.aligned()
    }

    /// Builds the store of a table from its rows. Each row gives one cell to
    /// each column, in field order; an absent value becomes a null of the
    /// column's type, so that every column ends with one cell for each row.
    ///
    /// Fails, building nothing, where a row does not fit the fields; the
    /// fault names the first such row.
    pub fn new(rows: Vec<Vec<Option<Value>>>, descriptor: &TableDescriptor) -> (built: Result<
        ColumnarStore,
        DataError,
    >)
        ensures
            match built {
                Ok(store) => StoreView::build(rows.deep_view(), descriptor@) == Ok::<
                    StoreView,
                    DataError,
                >(store@) && store@.aligned() && store@.described_by(descriptor@),
                Err(fault) => StoreView::build(rows.deep_view(), descriptor@) == Err::<
                    StoreView,
                    DataError,
                >(fault),
            },
    {
        let ghost all = rows.deep_view();
        let ghost fields = descriptor@;
        let width = descriptor.len();
        let mut builders: Vec<Column> = Vec::new();
        let mut j: usize = 0;
        while j < width
            invariant
                j <= width,
                width == fields.len(),
                fields == descriptor@,
                builders.len() == j,
                forall|c: int|
                    0 <= c < j ==> (#[trigger] builders@[c])@ == column_of(
                        all.take(0),
                        fields,
                        c,
                    ),
            decreases width - j,
        {
            let field = descriptor.field(j).unwrap();
            let column = Column::empty(field.data_type);
            assert(column@.cells =~= column_of(all.take(0), fields, j as int).cells);
            builders.push(column);
            j += 1;
        }
        let ghost raw = rows@;
        let height = rows.len();
        let mut i: usize = 0;
        for row in rows_iter: rows.into_iter()
            invariant
                rows_iter.seq() == raw,
                i == rows_iter.index(),
                raw == rows@,
                raw.len() == height,
                all == rows.deep_view(),
                fields == descriptor@,
                width == fields.len(),
                builders.len() == width,
                forall|r: int| 0 <= r < rows_iter.index() ==> row_fits(#[trigger] all[r], fields),
                forall|c: int|
                    0 <= c < width ==> (#[trigger] builders@[c])@ == column_of(
                        all.take(rows_iter.index()),
                        fields,
                        c,
                    ),
        {
            let ghost cells = row@;
            assert(all[i as int] == row.deep_view());
            if row.len() != width {
                proof {
                    lemma_unfit_row(all, fields, i as int);
                }
                return Err(DataError::SchemaMismatch { row: i });
            }
            let mut c: usize = 0;
            for cell in cells_iter: row.into_iter()
                invariant
                    cells_iter.seq() == cells,
                    c == cells_iter.index(),
                    0 <= i < all.len(),
                    all == rows.deep_view(),
                    fields == descriptor@,
                    cells.len() == width,
                    all[i as int].len() == width,
                    forall|k: int| 0 <= k < width ==> all[i as int][k] == (#[trigger] cells[k]).deep_view(),
                    width == fields.len(),
                    builders.len() == width,
                    forall|r: int| 0 <= r < i ==> row_fits(#[trigger] all[r], fields),
                    forall|k: int|
                        0 <= k < cells_iter.index() ==> cell_fits(
                            #[trigger] all[i as int][k],
                            fields[k].data_type,
                        ),
                    forall|k: int|
                        0 <= k < cells_iter.index() ==> (#[trigger] builders@[k])@ == column_of(
                            all.take(i + 1),
                            fields,
                            k,
                        ),
                    forall|k: int|
                        cells_iter.index() <= k < width ==> (#[trigger] builders@[k])@ == column_of(
                            all.take(i as int),
                            fields,
                            k,
                        ),
            {
                let appended = builders[c].push(cell);
                if !appended {
                    assert(!cell_fits(all[i as int][c as int], fields[c as int].data_type));
                    proof {
                        lemma_unfit_row(all, fields, i as int);
                    }
                    return Err(DataError::SchemaMismatch { row: i });
                }
                assert(builders@[c as int]@.cells =~= column_of(
                    all.take(i + 1),
                    fields,
                    c as int,
                ).cells);
                c += 1;
            }
            assert(row_fits(all[i as int], fields));
            i += 1;
        }
        assert(all.take(i as int) =~= all);
        let ghost built = builders@;
        let mut columns: Vec<Arc<Column>> = Vec::new();
        for column in it: builders.into_iter()
            invariant
                it.seq() == built,
                columns.len() == it.index(),
                forall|c: int| 0 <= c < it.index() ==> (#[trigger] columns@[c])@ == built[c]@,
        {
            columns.push(Arc::new(column));
        }
        assert(columns.deep_view() =~= columns_of(all, fields));
        let store = ColumnarStore { columns, rows: height };
        Ok(store)
    }

    /// The number of rows.
    pub fn num_rows(&self) -> (n: usize)
        ensures
            n == self@.rows,
    {
        self.rows
    }

    /// The number of columns.
    pub fn num_columns(&self) -> (n: usize)
        ensures
            n == self@.columns.len(),
    {
        self.columns.len()
    }

    /// A handle to the column at `index`, if there is one.
    pub fn column(&self, index: usize) -> (column: Option<Arc<Column>>)
        ensures
            index < self@.columns.len() ==> column is Some && column.unwrap()@
                == self@.columns[index as int],
            index >= self@.columns.len() ==> column is None,
    {
        if index < self.columns.len() {
            Some(share(&self.columns[index]))
        } else {
            None
        }
    }

    /// Handles to the columns that `indices` names, in the order of
    /// `indices`. No cell is copied. Fails, with the first entry that names
    /// no column, where there is such an entry.
    pub fn columns_at(&self, indices: &Vec<usize>) -> (picked: Result<Vec<Arc<Column>>, DataError>)
        ensures
            match picked {
                Ok(columns) => select_checked(self@.columns, indices@) == Ok::<
                    Seq<ColumnView>,
                    DataError,
                >(columns.deep_view()),
                Err(fault) => select_checked(self@.columns, indices@) == Err::<
                    Seq<ColumnView>,
                    DataError,
                >(fault),
            },
    {
        let mut columns: Vec<Arc<Column>> = Vec::new();
        let mut k: usize = 0;
        while k < indices.len()
            invariant
                k <= indices.len(),
                columns.len() == k,
                forall|j: int| 0 <= j < k ==> indices@[j] < self@.columns.len(),
                forall|j: int|
                    0 <= j < k ==> (#[trigger] columns@[j])@ == self@.columns[indices@[j] as int],
            decreases indices.len() - k,
        {
            let index = indices[k];
            if index >= self.columns.len() {
                proof {
                    lemma_misfit_position(indices@, self@.columns.len(), k as int);
                }
                return Err(
                    DataError::InvalidProjection { index, columns: self.columns.len() },
                );
            }
            columns.push(share(&self.columns[index]));
            k += 1;
        }
        assert(columns.deep_view() =~= select(self@.columns, indices@));
        Ok(columns)
    }
}

} // verus!
